//! Requests to the chat service, and the calls into the chat service's
//! client library that build their bodies.

use vstd::prelude::*;

use twilight_http::request::{AuditLogReason, TryIntoRequest};
use twilight_http::Client;
use twilight_model::id::Id;
use twilight_model::util::Timestamp;

use crate::embed::{twilight_embed, ReportEmbed, ReportEmbedView};

verus! {

#[verifier::external_type_specification]
#[verifier::external_body]
pub struct ExHttpError(twilight_http::Error);

/// The earliest second, counted from the Unix epoch, that a chat timestamp
/// can hold (the start of the year -9999).
pub const TIMESTAMP_MIN: i64 = -377705116800;

/// The latest second, counted from the Unix epoch, that a chat timestamp can
/// hold (the end of the year 9999).
pub const TIMESTAMP_MAX: i64 = 253402300799;

/// A request to the chat service.
#[derive(Clone, Debug, PartialEq, Eq)]
pub enum DiscordRequest {
    /// Fetch the channel with this id.
    GetChannel(u64),
    /// Delete the message with the second id from the channel with the first.
    DeleteMessage(u64, u64),
    /// Post a message, given by its JSON body, in the channel with this id.
    CreateMessage(u64, Vec<u8>),
    /// Update the member with the second id in the server with the first,
    /// as the JSON body says.
    UpdateMember(u64, u64, Vec<u8>),
    /// Ban the user with the second id from the server with the first.
    CreateBan(u64, u64, Vec<u8>),
}

/// The JSON body of the request that posts `embed` in the channel
/// `channel_id`; `None` where the client library refuses the embed.
pub uninterp spec fn create_message_json(channel_id: u64, embed: ReportEmbedView) -> Option<
    Seq<u8>,
>;

/// The JSON body of the request that bans the user `user_id` from the server
/// `guild_id` for `reason`; `None` where the client library refuses it.
pub uninterp spec fn create_ban_json(guild_id: u64, user_id: u64, reason: Seq<char>) -> Option<
    Seq<u8>,
>;

/// The JSON body of a built request that times the member `user_id` of the
/// server `guild_id` out until the second `until_secs`.
pub uninterp spec fn update_member_time_out_json(guild_id: u64, user_id: u64, until_secs: i64) -> Seq<u8>;

/// Whether `Timestamp::from_secs` of the chat model accepts `secs`: it
/// accepts exactly the seconds of the years -9999 to 9999.
#[verifier::external_body]
pub(crate) fn timestamp_in_range(secs: i64) -> (r: bool)
    ensures
        r == (TIMESTAMP_MIN <= secs <= TIMESTAMP_MAX),
{
    Timestamp::from_secs(secs).is_ok()
}

/// Builds, with the chat client library (`Client::create_message`,
/// `embeds`, `try_into_request`), the request that posts `embed`, converted
/// part for part to the chat model's `Embed`, in the channel `channel_id`,
/// and gives its body. Claimed: the result is
/// `create_message_json` of the arguments, and a built request has a body
/// (the library serialises the fields as JSON when no file is attached).
#[verifier::external_body]
pub(crate) fn create_message_body(channel_id: u64, embed: ReportEmbed) -> (r: Result<
    Option<Vec<u8>>,
    twilight_http::Error,
>)
    requires
        channel_id != 0,
        embed.timestamp_secs matches Some(s) ==> TIMESTAMP_MIN <= s <= TIMESTAMP_MAX,
    ensures
        match r {
            Ok(body) => body matches Some(b) && create_message_json(channel_id, embed@) == Some(
                b@,
            ),
            Err(_) => create_message_json(channel_id, embed@) is None,
        },
{
    let embed = twilight_embed(embed);
    let client = Client::builder().build();
    let request = client.create_message(Id::new(channel_id)).embeds(&[embed]).try_into_request()?;
    Ok(request.body().map(<[u8]>::to_vec))
}

/// Builds, with the chat client library (`Client::create_ban`, `reason`,
/// `try_into_request`), the request that bans the user `user_id` from the
/// server `guild_id`, and gives its body. Claimed: the result is
/// `create_ban_json` of the arguments, and a built request has a body.
#[verifier::external_body]
pub(crate) fn create_ban_body(guild_id: u64, user_id: u64, reason: &str) -> (r: Result<
    Option<Vec<u8>>,
    twilight_http::Error,
>)
    requires
        guild_id != 0,
        user_id != 0,
    ensures
        match r {
            Ok(body) => body matches Some(b) && create_ban_json(guild_id, user_id, reason@) == Some(
                b@,
            ),
            Err(_) => create_ban_json(guild_id, user_id, reason@) is None,
        },
{
    let client = Client::builder().build();
    let request = client.create_ban(Id::new(guild_id), Id::new(user_id)).reason(reason).try_into_request()?;
    Ok(request.body().map(<[u8]>::to_vec))
}

/// Builds, with the chat client library (`Client::update_guild_member`,
/// `communication_disabled_until`, `try_into_request`), the request that
/// times the member `user_id` of the server `guild_id` out until the second
/// `until_secs`, and gives its body. The library checks the end of the
/// time-out against the machine's clock, so nothing is claimed of which
/// calls succeed; claimed: a built request has a body, and that body is
/// `update_member_time_out_json` of the arguments.
#[verifier::external_body]
pub(crate) fn update_member_time_out_body(guild_id: u64, user_id: u64, until_secs: i64) -> (r:
    Result<Option<Vec<u8>>, twilight_http::Error>)
    requires
        guild_id != 0,
        user_id != 0,
        TIMESTAMP_MIN <= until_secs <= TIMESTAMP_MAX,
    ensures
        r matches Ok(body) ==> body matches Some(b) && b@ == update_member_time_out_json(
            guild_id,
            user_id,
            until_secs,
        ),
{
    let client = Client::builder().build();
    let until = Timestamp::from_secs(until_secs).ok();
    let request = client.update_guild_member(Id::new(guild_id), Id::new(user_id)).communication_disabled_until(until).try_into_request()?;
    Ok(request.body().map(<[u8]>::to_vec))
}

} // verus!
