//! The report posted to the moderation channel.

use vstd::prelude::*;

use crate::actions::{TakeAction, TakeActionView};
use crate::discord::{
    create_message_body, create_message_json, timestamp_in_range, DiscordRequest, TIMESTAMP_MAX,
    TIMESTAMP_MIN,
};
use crate::embed::{
    AuthorView, FooterView, ReportEmbed, ReportEmbedAuthor, ReportEmbedFooter, ReportEmbedView,
};
use crate::message::MessageInfo;
use crate::settings::{ActionsMessage, ActionsUser, PluginSettings};
use crate::text::{decimal, push_decimal};
use crate::Plugin;

verus! {

/// The second that a chat timestamp records for the clock reading `secs`:
/// the reading itself where a timestamp can hold it, the Unix epoch
/// otherwise.
pub open spec fn clock_timestamp(secs: u64) -> i64 {
    if secs <= TIMESTAMP_MAX {
        secs as i64
    } else {
        0
    }
}

/// The address of the avatar with hash `avatar` of the user `author_id`.
pub open spec fn avatar_url(author_id: u64, avatar: Seq<char>) -> Seq<char> {
    "https://cdn.discordapp.com/avatars/"@ + decimal(author_id as nat) + "/"@ + avatar + ".webp"@
}

/// The report embed for `message` at the clock reading `now_secs`, before
/// its description is written.
pub open spec fn base_embed_view(message: &MessageInfo, now_secs: u64) -> ReportEmbedView {
    ReportEmbedView {
        author: Some(
            AuthorView {
                icon_url: match message.author_avatar {
                    Some(a) => Some(avatar_url(message.author_id, a@)),
                    None => None,
                },
                name: message.author_name@,
                proxy_icon_url: None,
                url: None,
            },
        ),
        color: Some(0x00E7_2323),
        description: None,
        fields: Seq::empty(),
        footer: Some(
            FooterView {
                icon_url: None,
                proxy_icon_url: None,
                text: "ID: "@ + decimal(message.author_id as nat),
            },
        ),
        image: None,
        kind: "rich"@,
        provider: None,
        thumbnail: None,
        timestamp_secs: Some(clock_timestamp(now_secs)),
        title: Some("Automod Report"@),
        url: None,
        video: None,
    }
}

/// The lines that list the actions taken.
pub open spec fn actions_taken_lines(t: TakeActionView) -> Seq<char> {
    (match t.message {
        Some(ActionsMessage::Delete) => "\n- Message deleted"@,
        None => Seq::empty(),
    }) + (match t.user {
        Some(ActionsUser::Ban) => "\n- User banned"@,
        Some(ActionsUser::TimeOut(p)) => "\n- User timed out for "@ + decimal(p as nat)
            + " seconds"@,
        None => Seq::empty(),
    })
}

/// One line per attachment address.
pub open spec fn attachment_lines(urls: Seq<Seq<char>>) -> Seq<char>
    decreases urls.len(),
{
    if urls.len() == 0 {
        Seq::empty()
    } else {
        attachment_lines(urls.drop_last()) + "\n"@ + urls.last()
    }
}

/// The text of the report on `message` for the actions `t`.
pub open spec fn report_description(t: TakeActionView, message: &MessageInfo) -> Seq<char> {
    "**Reasons:**\n"@ + t.report->0 + "\n\n**Actions Taken:**"@ + actions_taken_lines(t)
        + "\n\n**Message:**\n"@ + (if message.content@.len() == 0 {
        "No Content"@
    } else {
        message.content@
    }) + "\n"@ + (if message.attachment_urls@.len() == 0 {
        "\nNo Attachments"@
    } else {
        attachment_lines(message.attachment_texts())
    })
}

/// `a` is a prefix of `a` followed by anything.
proof fn lemma_prefix_of_concat(a: Seq<char>, b: Seq<char>)
    ensures
        a.is_prefix_of(a + b),
{
    assert((a + b).subrange(0, a.len() as int) =~= a);
}

/// The opening of a report: its reasons and the heading of the actions taken.
pub open spec fn report_head(t: TakeActionView) -> Seq<char> {
    "**Reasons:**\n"@ + t.report->0 + "\n\n**Actions Taken:**"@
}

/// A report opens with its reasons; then it says the message was deleted
/// exactly when it was, whatever the user action; then it names the user
/// action taken, if any; then the message follows.
pub proof fn lemma_report_lists_actions(t: TakeActionView, message: &MessageInfo)
    requires
        t.report is Some,
    ensures
        t.message is Some && t.user == Some(ActionsUser::Ban) ==> (report_head(t)
            + "\n- Message deleted"@ + "\n- User banned"@ + "\n\n**Message:**\n"@).is_prefix_of(
            report_description(t, message),
        ),
        forall|p: u64|
            t.message is Some && t.user == Some(ActionsUser::TimeOut(p)) ==> #[trigger] (report_head(t)
                + "\n- Message deleted"@ + "\n- User timed out for "@ + decimal(p as nat) + " seconds"@
                + "\n\n**Message:**\n"@).is_prefix_of(report_description(t, message)),
        t.message is Some && t.user is None ==> (report_head(t) + "\n- Message deleted"@
            + "\n\n**Message:**\n"@).is_prefix_of(report_description(t, message)),
        t.message is None && t.user == Some(ActionsUser::Ban) ==> (report_head(t)
            + "\n- User banned"@ + "\n\n**Message:**\n"@).is_prefix_of(
            report_description(t, message),
        ),
        forall|p: u64|
            t.message is None && t.user == Some(ActionsUser::TimeOut(p)) ==> #[trigger] (report_head(t)
                + "\n- User timed out for "@ + decimal(p as nat) + " seconds"@
                + "\n\n**Message:**\n"@).is_prefix_of(report_description(t, message)),
        t.message is None && t.user is None ==> (report_head(t) + "\n\n**Message:**\n"@).is_prefix_of(
            report_description(t, message),
        ),
{
    let rest = (if message.content@.len() == 0 {
        "No Content"@
    } else {
        message.content@
    }) + "\n"@ + (if message.attachment_urls@.len() == 0 {
        "\nNo Attachments"@
    } else {
        attachment_lines(message.attachment_texts())
    });
    let d = report_description(t, message);
    let x = report_head(t) + actions_taken_lines(t) + "\n\n**Message:**\n"@;
    assert(d =~= x + rest);
    lemma_prefix_of_concat(x, rest);
    match t.message {
        Some(m) => match m {
            ActionsMessage::Delete => {
                match t.user {
                    Some(ActionsUser::Ban) => {
                        assert(x =~= report_head(t) + "\n- Message deleted"@ + "\n- User banned"@
                            + "\n\n**Message:**\n"@);
                    },
                    Some(ActionsUser::TimeOut(q)) => {
                        assert(x =~= report_head(t) + "\n- Message deleted"@
                            + "\n- User timed out for "@ + decimal(q as nat) + " seconds"@
                            + "\n\n**Message:**\n"@);
                    },
                    None => {
                        assert(x =~= report_head(t) + "\n- Message deleted"@
                            + "\n\n**Message:**\n"@);
                    },
                }
            },
        },
        None => {
            match t.user {
                Some(ActionsUser::Ban) => {
                    assert(x =~= report_head(t) + "\n- User banned"@ + "\n\n**Message:**\n"@);
                },
                Some(ActionsUser::TimeOut(q)) => {
                    assert(x =~= report_head(t) + "\n- User timed out for "@ + decimal(q as nat)
                        + " seconds"@ + "\n\n**Message:**\n"@);
                },
                None => {
                    assert(x =~= report_head(t) + "\n\n**Message:**\n"@);
                },
            }
        },
    }
}

/// The report embed posted for the actions `t` on `message`.
pub open spec fn report_embed_view(t: TakeActionView, message: &MessageInfo, now_secs: u64) -> ReportEmbedView {
    ReportEmbedView { description: Some(report_description(t, message)), ..base_embed_view(message, now_secs) }
}

/// The beginning of the error that a refused report request gives.
pub open spec fn report_failure_prefix() -> Seq<char> {
    "An error occured while creating the report create message request: "@
}

/// `e` is `prefix` followed by the text (`to_string`) of an error of the
/// chat client library.
pub open spec fn client_failure(prefix: Seq<char>, e: Seq<char>) -> bool {
    exists|err: twilight_http::Error, d: String|
        vstd::string::to_string_from_display_ensures::<twilight_http::Error>(&err, d) && e
            == prefix + d@
}

/// `prefix` followed by the text of the client library's error `err`.
pub(crate) fn failure_text(prefix: &str, err: twilight_http::Error) -> (r: String)
    ensures
        exists|d: String|
            vstd::string::to_string_from_display_ensures::<twilight_http::Error>(&err, d) && r@
                == prefix@ + d@,
        client_failure(prefix@, r@),
{
    let mut text = String::from_str(prefix);
    let detail = err.to_string();
    text.append(detail.as_str());
    text
}

impl Plugin {
    /// The second that a chat timestamp records for the clock reading
    /// `secs`.
    pub fn clock_timestamp(secs: u64) -> (r: i64)
        ensures
            r == clock_timestamp(secs),
            TIMESTAMP_MIN <= r <= TIMESTAMP_MAX,
    {
        let secs: i64 = if secs <= 9_223_372_036_854_775_807u64 {
            secs as i64
        } else {
            0
        };
        if timestamp_in_range(secs) {
            secs
        } else {
            0
        }
    }

    /// The report embed for `message` at the clock reading `now_secs`, with
    /// no description yet.
    pub fn base_embed(message: &MessageInfo, now_secs: u64) -> (r: ReportEmbed)
        ensures
            r@ == base_embed_view(message, now_secs),
    {
        let author_icon_url = match &message.author_avatar {
            Some(avatar) => {
                let mut url = String::from_str("https://cdn.discordapp.com/avatars/");
                push_decimal(&mut url, message.author_id);
                url.append("/");
                url.append(avatar.as_str());
                url.append(".webp");
                Some(url)
            },
            None => None,
        };
        let mut footer_text = String::from_str("ID: ");
        push_decimal(&mut footer_text, message.author_id);
        let author = ReportEmbedAuthor {
            icon_url: author_icon_url,
            name: message.author_name.clone(),
            proxy_icon_url: None,
            url: None,
        };
        let footer = ReportEmbedFooter { icon_url: None, proxy_icon_url: None, text: footer_text };
        let r = ReportEmbed {
            author: Some(author),
            color: Some(0x00E7_2323),
            description: None,
            fields: Vec::new(),
            footer: Some(footer),
            image: None,
            kind: String::from_str("rich"),
            provider: None,
            thumbnail: None,
            timestamp_secs: Some(Self::clock_timestamp(now_secs)),
            title: Some(String::from_str("Automod Report")),
            url: None,
            video: None,
        };
        assert(r@.fields =~= Seq::<crate::embed::FieldView>::empty());
        assert(r@.author =~~= base_embed_view(message, now_secs).author);
        r
    }

    /// The text of the report on `message` for the actions `take_action`.
    pub fn report_description(take_action: &TakeAction, message: &MessageInfo) -> (r: String)
        requires
            take_action.report is Some,
        ensures
            r@ == report_description(take_action@, message),
    {
        let mut d = String::from_str("**Reasons:**\n");
        match &take_action.report {
            Some(report) => d.append(report.as_str()),
            None => {},
        }
        d.append("\n\n**Actions Taken:**");
        let ghost head = d@;
        match take_action.message {
            Some(ActionsMessage::Delete) => d.append("\n- Message deleted"),
            None => {},
        }
        match take_action.user {
            Some(ActionsUser::Ban) => d.append("\n- User banned"),
            Some(ActionsUser::TimeOut(period)) => {
                d.append("\n- User timed out for ");
                push_decimal(&mut d, period);
                d.append(" seconds");
            },
            None => {},
        }
        assert(d@ =~= head + actions_taken_lines(take_action@));
        d.append("\n\n**Message:**\n");
        if message.content.as_str().is_empty() {
            d.append("No Content");
        } else {
            d.append(message.content.as_str());
        }
        d.append("\n");
        if message.attachment_urls.len() == 0 {
            d.append("\nNo Attachments");
        } else {
            let ghost start = d@;
            let ghost urls = message.attachment_texts();
            let mut i: usize = 0;
            while i < message.attachment_urls.len()
                invariant
                    i <= message.attachment_urls@.len(),
                    urls == message.attachment_texts(),
                    d@ == start + attachment_lines(urls.take(i as int)),
                decreases message.attachment_urls@.len() - i,
            {
                d.append("\n");
                d.append(message.attachment_urls[i].as_str());
                assert(urls.take(i + 1).drop_last() =~= urls.take(i as int));
                assert(d@ =~= start + attachment_lines(urls.take(i + 1)));
                i = i + 1;
            }
            assert(urls.take(i as int) =~= urls);
        }
        assert(d@ =~= report_description(take_action@, message));
        d
    }

    /// The request that posts the report on `message` for the actions
    /// `take_action` in the moderation channel, or the error that the chat
    /// client library's refusal gives.
    pub fn report(
        settings: &PluginSettings,
        take_action: &TakeAction,
        message: &MessageInfo,
        now_secs: u64,
    ) -> (r: Result<DiscordRequest, String>)
        requires
            take_action.report is Some,
            settings.automod_channel_id != 0,
        ensures
            match create_message_json(
                settings.automod_channel_id,
                report_embed_view(take_action@, message, now_secs),
            ) {
                Some(body) => r matches Ok(DiscordRequest::CreateMessage(c, b)) && c
                    == settings.automod_channel_id && b@ == body,
                None => r matches Err(e) && client_failure(report_failure_prefix(), e@),
            },
    {
        let mut embed = Self::base_embed(message, now_secs);
        embed.description = Some(Self::report_description(take_action, message));
        assert(embed@ == report_embed_view(take_action@, message, now_secs));
        match create_message_body(settings.automod_channel_id, embed) {
            Ok(Some(body)) => Ok(DiscordRequest::CreateMessage(settings.automod_channel_id, body)),
            Ok(None) => vstd::pervasive::unreached(),
            Err(err) => {
                let e = failure_text(
                    "An error occured while creating the report create message request: ",
                    err,
                );
                Err(e)
            },
        }
    }
}

} // verus!
