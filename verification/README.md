# automod

Automatic moderation of chat messages, verified with Verus.

- `src/` is the library: the settings and their defaults, the validations
  run on a message (exempt authors, attachment spam), how the actions of
  several validations are merged, the order in which actions are carried
  out and when to stop, the report and its embed, the requests to the chat
  service (built with the `twilight-http` client library behind trusted
  wrappers), reading the chat service's JSON (with `sonic-rs`, behind trusted
  wrappers), and the stages of start-up. Every function there carries a contract that Verus proves.
- `app/` is the outer layer: the settings as JSON documents, the calls to
  the plugin host, and the loops that perform each step the library decides
  on and report its outcome back.
- `tests/` runs the library on concrete values.
