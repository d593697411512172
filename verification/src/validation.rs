//! The validations run on a message and the decision they lead to.

use vstd::prelude::*;

use crate::actions::{TakeAction, TakeActionView};
use crate::message::MessageInfo;
use crate::settings::PluginSettings;
use crate::text::{decimal, push_decimal};
use crate::Plugin;

verus! {

/// The author of `message` is exempt from moderation under `settings`: the
/// author is listed, or one of the author's roles is.
pub open spec fn is_bypassed(settings: &PluginSettings, message: &MessageInfo) -> bool {
    ||| settings.bypass.users@.contains(message.author_id)
    ||| (message.member_roles matches Some(roles) && exists|i: int|
        0 <= i < roles@.len() && settings.bypass.roles@.contains(#[trigger] roles@[i]))
}

/// The report line of the attachment spam validation.
pub open spec fn attachment_spam_reason(count: nat) -> Seq<char> {
    "Attachment spam ("@ + decimal(count) + "), without message content"@
}

/// What the attachment spam validation asks for on `message`: nothing when
/// the message has text or fewer attachments than the configured count.
pub open spec fn attachment_spam_verdict(settings: &PluginSettings, message: &MessageInfo) -> Option<
    TakeActionView,
> {
    let spam = settings.validations.attachment_spam;
    let count = message.attachment_urls@.len();
    if message.content@.len() == 0 && count >= spam.count {
        Some(
            TakeActionView {
                report: if spam.actions.report {
                    Some(attachment_spam_reason(count))
                } else {
                    None
                },
                message: spam.actions.message,
                user: spam.actions.user,
            },
        )
    } else {
        None
    }
}

/// The actions decided on `message` under `settings`.
pub open spec fn decision(settings: &PluginSettings, message: &MessageInfo) -> TakeActionView {
    if is_bypassed(settings, message) {
        TakeActionView::nothing()
    } else if settings.validations.attachment_spam.enabled && attachment_spam_verdict(
        settings,
        message,
    ) is Some {
        TakeActionView::nothing().merged(attachment_spam_verdict(settings, message)->0)
    } else {
        TakeActionView::nothing()
    }
}

/// An exempt author's message is never acted on.
pub proof fn lemma_bypassed_author_untouched(settings: &PluginSettings, message: &MessageInfo)
    requires
        is_bypassed(settings, message),
    ensures
        decision(settings, message) == TakeActionView::nothing(),
{
}

/// A message with text is never attachment spam, whatever its attachments.
pub proof fn lemma_message_with_text_is_not_spam(settings: &PluginSettings, message: &MessageInfo)
    requires
        message.content@.len() > 0,
    ensures
        attachment_spam_verdict(settings, message) is None,
        decision(settings, message) == TakeActionView::nothing(),
{
}

/// With the attachment spam validation disabled, nothing is ever done.
pub proof fn lemma_disabled_validation_does_nothing(
    settings: &PluginSettings,
    message: &MessageInfo,
)
    requires
        !settings.validations.attachment_spam.enabled,
    ensures
        decision(settings, message) == TakeActionView::nothing(),
{
}

/// A message of a non-exempt author that is attachment spam under an enabled
/// validation gets exactly the configured message and user actions, and a
/// one-line report when reports are on.
pub proof fn lemma_spam_gets_configured_actions(settings: &PluginSettings, message: &MessageInfo)
    requires
        !is_bypassed(settings, message),
        settings.validations.attachment_spam.enabled,
        message.content@.len() == 0,
        message.attachment_urls@.len() >= settings.validations.attachment_spam.count,
    ensures
        decision(settings, message).message == settings.validations.attachment_spam.actions.message,
        decision(settings, message).user == settings.validations.attachment_spam.actions.user,
        decision(settings, message).report == (if settings.validations.attachment_spam.actions.report {
            Some("- "@ + attachment_spam_reason(message.attachment_urls@.len()))
        } else {
            None::<Seq<char>>
        }),
{
}

/// A listed user is exempt, whatever roles the message carries, and so the
/// message is never acted on.
pub proof fn lemma_listed_user_is_exempt(settings: &PluginSettings, message: &MessageInfo)
    requires
        settings.bypass.users@.contains(message.author_id),
    ensures
        is_bypassed(settings, message),
        decision(settings, message) == TakeActionView::nothing(),
{
}

/// An author holding a listed role is exempt.
pub proof fn lemma_listed_role_is_exempt(settings: &PluginSettings, message: &MessageInfo, i: int)
    requires
        message.member_roles is Some,
        0 <= i < message.member_roles->0@.len(),
        settings.bypass.roles@.contains(message.member_roles->0@[i]),
    ensures
        is_bypassed(settings, message),
        decision(settings, message) == TakeActionView::nothing(),
{
    assert(settings.bypass.roles@.contains(message.member_roles->0@[i]));
}

/// Only listed users and holders of listed roles are exempt.
pub proof fn lemma_exempt_only_if_listed(settings: &PluginSettings, message: &MessageInfo)
    requires
        is_bypassed(settings, message),
    ensures
        settings.bypass.users@.contains(message.author_id) || (message.member_roles is Some
            && exists|i: int|
            0 <= i < message.member_roles->0@.len() && settings.bypass.roles@.contains(
                #[trigger] message.member_roles->0@[i],
            )),
{
}

/// Fewer attachments than the configured count is never attachment spam.
pub proof fn lemma_too_few_attachments_is_not_spam(settings: &PluginSettings, message: &MessageInfo)
    requires
        message.attachment_urls@.len() < settings.validations.attachment_spam.count,
    ensures
        attachment_spam_verdict(settings, message) is None,
        decision(settings, message) == TakeActionView::nothing(),
{
}

/// A message without text and with at least the configured count of
/// attachments is attachment spam, and the validation asks for exactly the
/// configured message and user actions, and for a report exactly when
/// reports are on.
pub proof fn lemma_enough_attachments_is_spam(settings: &PluginSettings, message: &MessageInfo)
    requires
        message.content@.len() == 0,
        message.attachment_urls@.len() >= settings.validations.attachment_spam.count,
    ensures
        attachment_spam_verdict(settings, message) is Some,
        attachment_spam_verdict(settings, message)->0.message
            == settings.validations.attachment_spam.actions.message,
        attachment_spam_verdict(settings, message)->0.user
            == settings.validations.attachment_spam.actions.user,
        attachment_spam_verdict(settings, message)->0.report is Some
            == settings.validations.attachment_spam.actions.report,
{
}

/// Whether `id` occurs in `ids`.
fn contains_id(ids: &Vec<u64>, id: u64) -> (r: bool)
    ensures
        r == ids@.contains(id),
{
    let mut i: usize = 0;
    while i < ids.len()
        invariant
            i <= ids@.len(),
            forall|j: int| 0 <= j < i ==> ids@[j] != id,
        decreases ids@.len() - i,
    {
        if ids[i] == id {
            assert(ids@[i as int] == id);
            return true;
        }
        i = i + 1;
    }
    false
}

impl Plugin {
    /// Whether the author of `message` is exempt from moderation.
    pub fn bypass(settings: &PluginSettings, message_create: &MessageInfo) -> (r: bool)
        ensures
            r == is_bypassed(settings, message_create),
            settings.bypass.users@.contains(message_create.author_id) ==> r,
            (message_create.member_roles is Some && exists|i: int|
                0 <= i < message_create.member_roles->0@.len() && settings.bypass.roles@.contains(
                    #[trigger] message_create.member_roles->0@[i],
                )) ==> r,
            r ==> settings.bypass.users@.contains(message_create.author_id) || (
            message_create.member_roles is Some && exists|i: int|
                0 <= i < message_create.member_roles->0@.len() && settings.bypass.roles@.contains(
                    #[trigger] message_create.member_roles->0@[i],
                )),
    {
        if contains_id(&settings.bypass.users, message_create.author_id) {
            return true;
        }
        if let Some(member_roles) = &message_create.member_roles {
            let mut i: usize = 0;
            while i < member_roles.len()
                invariant
                    i <= member_roles@.len(),
                    message_create.member_roles == Some(*member_roles),
                    forall|j: int|
                        0 <= j < i ==> !settings.bypass.roles@.contains(#[trigger] member_roles@[j]),
                decreases member_roles@.len() - i,
            {
                if contains_id(&settings.bypass.roles, member_roles[i]) {
                    assert(settings.bypass.roles@.contains(member_roles@[i as int]));
                    assert(message_create.member_roles->0@ == member_roles@);
                    return true;
                }
                i = i + 1;
            }
        }
        false
    }

    /// The actions that the attachment spam validation asks for on `message`.
    pub fn attachment_spam(settings: &PluginSettings, message: &MessageInfo) -> (r: Option<
        TakeAction,
    >)
        ensures
            match r {
                Some(t) => attachment_spam_verdict(settings, message) == Some(t@),
                None => attachment_spam_verdict(settings, message) is None,
            },
            message.content@.len() > 0 ==> r is None,
            message.attachment_urls@.len() < settings.validations.attachment_spam.count ==> r is None,
            message.content@.len() == 0 && message.attachment_urls@.len()
                >= settings.validations.attachment_spam.count ==> r is Some && r->0.message
                == settings.validations.attachment_spam.actions.message && r->0.user
                == settings.validations.attachment_spam.actions.user && (r->0.report is Some
                == settings.validations.attachment_spam.actions.report),
    {
        if !message.content.as_str().is_empty() {
            return None;
        }
        let attachment_count = message.attachment_urls.len();
        let spam = &settings.validations.attachment_spam;
        if attachment_count >= spam.count {
            let report = if spam.actions.report {
                let mut text = String::new();
                text.append("Attachment spam (");
                push_decimal(&mut text, attachment_count as u64);
                text.append("), without message content");
                Some(text)
            } else {
                None
            };
            let r = TakeAction { report, message: spam.actions.message, user: spam.actions.user };
            assert(r@.report =~~= attachment_spam_verdict(settings, message)->0.report);
            return Some(r);
        }
        None
    }

    /// The actions decided on `message_create`: none for an exempt author,
    /// otherwise those of every enabled validation that fires, merged.
    pub fn validate_message(settings: &PluginSettings, message_create: &MessageInfo) -> (r:
        TakeAction)
        ensures
            r@ == decision(settings, message_create),
    {
        if Self::bypass(settings, message_create) {
            return TakeAction::nothing();
        }
        let mut take_action = TakeAction::nothing();
        if settings.validations.attachment_spam.enabled {
            if let Some(new_take_action) = Self::attachment_spam(settings, message_create) {
                Self::update_take_action(&mut take_action, new_take_action);
            }
        }
        take_action
    }
}

} // verus!
