//! Reading the chat service's JSON: the moderation channel and created
//! messages.

use vstd::prelude::*;

use twilight_model::channel::Channel;
use twilight_model::gateway::payload::incoming::MessageCreate;

use crate::message::{MessageInfo, MessageInfoView};
use crate::Plugin;

verus! {

#[verifier::external_type_specification]
#[verifier::external_body]
pub struct ExJsonError(sonic_rs::Error);

/// Whether `json` is a channel of the chat model.
pub uninterp spec fn channel_json_valid(json: Seq<char>) -> bool;

/// The message that the message-create event `json` carries; `None` where
/// `json` is no such event.
pub uninterp spec fn message_create_of(json: Seq<char>) -> Option<MessageInfoView>;

/// Reads `json` as a channel of the chat model (`sonic_rs::from_str` into
/// `Channel`) and drops the channel. Claimed: it succeeds exactly when
/// `channel_json_valid` holds of `json`.
#[verifier::external_body]
fn read_channel(json: &str) -> (r: Result<(), sonic_rs::Error>)
    ensures
        r is Ok == channel_json_valid(json@),
{
    sonic_rs::from_str::<Channel>(json).map(drop)
}

/// Reads `json` as a message-create event of the chat model
/// (`sonic_rs::from_str` into `MessageCreate`) and picks out the parts the
/// moderation reads. Claimed: the result is `message_create_of` of `json`,
/// and its ids are those of the model's `Id` type, which are never zero.
#[verifier::external_body]
fn read_message_create(json: &str) -> (r: Result<MessageInfo, sonic_rs::Error>)
    ensures
        match r {
            Ok(m) => message_create_of(json@) == Some(m@) && m.wf(),
            Err(_) => message_create_of(json@) is None,
        },
{
    let m = sonic_rs::from_str::<Box<MessageCreate>>(json)?;
    Ok(MessageInfo {
        id: m.id.get(),
        channel_id: m.channel_id.get(),
        guild_id: m.guild_id.map(|id| id.get()),
        author_id: m.author.id.get(),
        author_name: m.author.name.clone(),
        author_avatar: m.author.avatar.map(|avatar| avatar.to_string()),
        member_roles: m.member.as_ref().map(|member| member.roles.iter().map(|role| role.get()).collect()),
        content: m.content.clone(),
        attachment_urls: m.attachments.iter().map(|a| a.url.clone()).collect(),
    })
}

/// `e` is the text (`to_string`) of an error of the JSON reader.
pub open spec fn json_failure(e: Seq<char>) -> bool {
    exists|err: sonic_rs::Error, d: String|
        vstd::string::to_string_from_display_ensures::<sonic_rs::Error>(&err, d) && e == d@
}

impl Plugin {
    /// Checks that the chat service answered the channel request with a
    /// channel; the reader's error text otherwise.
    pub fn check_channel_response(json: &str) -> (r: Result<(), String>)
        ensures
            r is Ok == channel_json_valid(json@),
            r matches Err(e) ==> json_failure(e@),
    {
        match read_channel(json) {
            Ok(()) => Ok(()),
            Err(err) => Err(err.to_string()),
        }
    }

    /// The message carried by the message-create event `json`, or the
    /// reader's error text.
    pub fn parse_message_create(json: &str) -> (r: Result<MessageInfo, String>)
        ensures
            match r {
                Ok(m) => message_create_of(json@) == Some(m@) && m.wf(),
                Err(e) => message_create_of(json@) is None && json_failure(e@),
            },
    {
        match read_message_create(json) {
            Ok(m) => Ok(m),
            Err(err) => Err(err.to_string()),
        }
    }
}

} // verus!
