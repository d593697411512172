//! The parts of an incoming chat message that the moderation reads.

use vstd::prelude::*;

verus! {

/// A message as the moderation sees it. Every id is that of a chat object
/// and therefore not zero.
#[derive(Clone, Debug, PartialEq, Eq)]
pub struct MessageInfo {
    pub id: u64,
    pub channel_id: u64,
    /// The server the message was sent in; `None` for a direct message.
    pub guild_id: Option<u64>,
    pub author_id: u64,
    pub author_name: String,
    /// The hash of the author's avatar, if the author has one.
    pub author_avatar: Option<String>,
    /// The author's roles in the server, when the message carries them.
    pub member_roles: Option<Vec<u64>>,
    pub content: String,
    /// The address of each attachment, in order.
    pub attachment_urls: Vec<String>,
}

/// The mathematical value of a [`MessageInfo`].
pub struct MessageInfoView {
    pub id: u64,
    pub channel_id: u64,
    pub guild_id: Option<u64>,
    pub author_id: u64,
    pub author_name: Seq<char>,
    pub author_avatar: Option<Seq<char>>,
    pub member_roles: Option<Seq<u64>>,
    pub content: Seq<char>,
    pub attachment_urls: Seq<Seq<char>>,
}

impl View for MessageInfo {
    type V = MessageInfoView;

    open spec fn view(&self) -> MessageInfoView {
        MessageInfoView {
            id: self.id,
            channel_id: self.channel_id,
            guild_id: self.guild_id,
            author_id: self.author_id,
            author_name: self.author_name@,
            author_avatar: crate::actions::option_string_view(self.author_avatar),
            member_roles: match self.member_roles {
                Some(roles) => Some(roles@),
                None => None,
            },
            content: self.content@,
            attachment_urls: self.attachment_texts(),
        }
    }
}

impl MessageInfo {
    /// The ids that the message carries are valid chat ids.
    pub open spec fn wf(&self) -> bool {
        &&& self.id != 0
        &&& self.channel_id != 0
        &&& self.author_id != 0
        &&& (self.guild_id matches Some(g) ==> g != 0)
    }

    /// The text of every attachment address.
    pub open spec fn attachment_texts(&self) -> Seq<Seq<char>> {
        self.attachment_urls@.map_values(|u: String| u@)
    }
}

} // verus!
