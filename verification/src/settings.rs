//! The plugin's settings and their defaults.

use vstd::prelude::*;

verus! {

/// What to do with the offending message.
#[derive(Clone, Copy, Debug, PartialEq, Eq, Structural)]
pub enum ActionsMessage {
    Delete,
}

/// What to do with the author of the offending message.
#[derive(Clone, Copy, Debug, PartialEq, Eq, Structural)]
pub enum ActionsUser {
    Ban,
    /// Time the author out for this many seconds.
    TimeOut(u64),
}

/// The actions that a validation asks for when it fires.
#[derive(Clone, Debug, PartialEq, Eq)]
pub struct Actions {
    pub report: bool,
    pub message: Option<ActionsMessage>,
    pub user: Option<ActionsUser>,
}

/// Settings of the attachment spam validation.
#[derive(Clone, Debug, PartialEq, Eq)]
pub struct PluginSettingsAttachmentSpam {
    pub enabled: bool,
    /// A message without text and with at least this many attachments is spam.
    pub count: usize,
    pub actions: Actions,
}

/// The validations that the plugin runs.
#[derive(Clone, Debug, PartialEq, Eq)]
pub struct PluginSettingsValidations {
    pub attachment_spam: PluginSettingsAttachmentSpam,
}

/// Users and roles that no validation applies to.
#[derive(Clone, Debug, PartialEq, Eq)]
pub struct PluginSettingsBypass {
    pub users: Vec<u64>,
    pub roles: Vec<u64>,
}

/// All settings of the plugin.
#[derive(Clone, Debug, PartialEq, Eq)]
pub struct PluginSettings {
    /// The channel that reports are posted to.
    pub automod_channel_id: u64,
    pub stack_time_outs: bool,
    pub bypass: PluginSettingsBypass,
    pub validations: PluginSettingsValidations,
}

impl PluginSettings {
    /// The value of `stack_time_outs` when the settings leave it out.
    pub fn stack_time_outs_default() -> (r: bool)
        ensures
            r,
    {
        true
    }
}

impl PluginSettingsAttachmentSpam {
    /// The value of `count` when the settings leave it out.
    pub fn count_default() -> (r: usize)
        ensures
            r == 4,
    {
        4
    }
}

impl Actions {
    /// The value of `report` when the settings leave it out.
    pub fn report_default() -> (r: bool)
        ensures
            r,
    {
        true
    }

    /// The value of `message` when the settings leave it out.
    pub fn message_default() -> (r: Option<ActionsMessage>)
        ensures
            r == Some(ActionsMessage::Delete),
    {
        Some(ActionsMessage::default())
    }

    /// The value of `user` when the settings leave it out.
    pub fn user_default() -> (r: Option<ActionsUser>)
        ensures
            r == Some(ActionsUser::TimeOut(60)),
    {
        Some(ActionsUser::default())
    }
}

impl Default for ActionsMessage {
    fn default() -> (r: Self)
        ensures
            r == ActionsMessage::Delete,
    {
        ActionsMessage::Delete
    }
}

impl Default for ActionsUser {
    fn default() -> (r: Self)
        ensures
            r == ActionsUser::TimeOut(60),
    {
        ActionsUser::TimeOut(60)
    }
}

impl Default for Actions {
    fn default() -> (r: Self)
        ensures
            !r.report,
            r.message is None,
            r.user is None,
    {
        Actions { report: false, message: None, user: None }
    }
}

impl Default for PluginSettingsAttachmentSpam {
    fn default() -> (r: Self)
        ensures
            !r.enabled,
            r.count == 0,
            !r.actions.report,
            r.actions.message is None,
            r.actions.user is None,
    {
        PluginSettingsAttachmentSpam { enabled: false, count: 0, actions: Actions::default() }
    }
}

impl Default for PluginSettingsValidations {
    fn default() -> (r: Self)
        ensures
            !r.attachment_spam.enabled,
            r.attachment_spam.count == 0,
            !r.attachment_spam.actions.report,
            r.attachment_spam.actions.message is None,
            r.attachment_spam.actions.user is None,
    {
        PluginSettingsValidations { attachment_spam: PluginSettingsAttachmentSpam::default() }
    }
}

impl Default for PluginSettingsBypass {
    fn default() -> (r: Self)
        ensures
            r.users@.len() == 0,
            r.roles@.len() == 0,
    {
        PluginSettingsBypass { users: Vec::new(), roles: Vec::new() }
    }
}

impl Default for PluginSettings {
    fn default() -> (r: Self)
        ensures
            r.automod_channel_id == 0,
            !r.stack_time_outs,
            r.bypass.users@.len() == 0,
            r.bypass.roles@.len() == 0,
            !r.validations.attachment_spam.enabled,
            r.validations.attachment_spam.count == 0,
            !r.validations.attachment_spam.actions.report,
            r.validations.attachment_spam.actions.message is None,
            r.validations.attachment_spam.actions.user is None,
    {
        PluginSettings {
            automod_channel_id: 0,
            stack_time_outs: false,
            bypass: PluginSettingsBypass::default(),
            validations: PluginSettingsValidations::default(),
        }
    }
}

} // verus!
