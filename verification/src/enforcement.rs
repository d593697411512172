//! Carrying the decided actions out: which requests are sent, in which
//! order, and how each is built.

use vstd::prelude::*;

use crate::actions::{TakeAction, TakeActionView};
use crate::discord::{
    create_ban_body, create_ban_json, update_member_time_out_body, update_member_time_out_json,
    DiscordRequest,
};
use crate::report::clock_timestamp;
use crate::message::MessageInfo;
use crate::report::{client_failure, failure_text};
use crate::settings::{ActionsMessage, ActionsUser, PluginSettings};
use crate::Plugin;

verus! {

/// One step of carrying the decided actions out.
#[derive(Clone, Copy, Debug, PartialEq, Eq, Structural)]
pub enum Effect {
    DeleteMessage,
    BanUser,
    /// Time the author out for this many seconds.
    TimeOutUser(u64),
    /// Post the report in the moderation channel.
    Report,
}

/// The steps that carry the actions `t` out, in order: the message action,
/// then the user action, then the report.
pub open spec fn planned_effects(t: TakeActionView) -> Seq<Effect> {
    (match t.message {
        Some(ActionsMessage::Delete) => seq![Effect::DeleteMessage],
        None => Seq::empty(),
    }) + (match t.user {
        Some(ActionsUser::Ban) => seq![Effect::BanUser],
        Some(ActionsUser::TimeOut(p)) => seq![Effect::TimeOutUser(p)],
        None => Seq::empty(),
    }) + (if t.report is Some {
        seq![Effect::Report]
    } else {
        Seq::empty()
    })
}

/// Every decided action has its step in the plan, and no step is planned
/// without its action: the message is deleted exactly when that is decided,
/// the author banned exactly when a ban is decided, timed out for `p`
/// seconds exactly when that time-out is decided, and the report posted
/// exactly when there is one, whatever the other actions are.
pub proof fn lemma_plan_carries_every_action(t: TakeActionView)
    ensures
        (t.message == Some(ActionsMessage::Delete)) == planned_effects(t).contains(
            Effect::DeleteMessage,
        ),
        (t.user == Some(ActionsUser::Ban)) == planned_effects(t).contains(Effect::BanUser),
        forall|p: u64|
            (t.user == Some(ActionsUser::TimeOut(p))) == #[trigger] planned_effects(t).contains(
                Effect::TimeOutUser(p),
            ),
        (t.report is Some) == planned_effects(t).contains(Effect::Report),
{
    let a: Seq<Effect> = match t.message {
        Some(ActionsMessage::Delete) => seq![Effect::DeleteMessage],
        None => Seq::empty(),
    };
    let b: Seq<Effect> = match t.user {
        Some(ActionsUser::Ban) => seq![Effect::BanUser],
        Some(ActionsUser::TimeOut(p)) => seq![Effect::TimeOutUser(p)],
        None => Seq::empty(),
    };
    let c: Seq<Effect> = if t.report is Some {
        seq![Effect::Report]
    } else {
        Seq::empty()
    };
    let plan = planned_effects(t);
    assert(plan == a + b + c);
    assert forall|e: Effect| #[trigger] plan.contains(e) == (a.contains(e) || b.contains(e) || c.contains(e)) by {
        if plan.contains(e) {
            let i = choose|i: int| 0 <= i < plan.len() && plan[i] == e;
            if i < a.len() {
                assert(a[i] == e);
            } else if i < a.len() + b.len() {
                assert(b[i - a.len()] == e);
            } else {
                assert(c[i - a.len() - b.len()] == e);
            }
        }
        if a.contains(e) {
            let i = choose|i: int| 0 <= i < a.len() && a[i] == e;
            assert(plan[i] == e);
        }
        if b.contains(e) {
            let i = choose|i: int| 0 <= i < b.len() && b[i] == e;
            assert(plan[a.len() + i] == e);
        }
        if c.contains(e) {
            let i = choose|i: int| 0 <= i < c.len() && c[i] == e;
            assert(plan[a.len() + b.len() + i] == e);
        }
    }
    assert forall|e: Effect| #[trigger] a.contains(e) == (e == Effect::DeleteMessage && t.message is Some) by {
        if t.message is Some {
            assert(a[0] == Effect::DeleteMessage);
        }
    }
    assert forall|e: Effect| #[trigger] c.contains(e) == (e == Effect::Report && t.report is Some) by {
        if t.report is Some {
            assert(c[0] == Effect::Report);
        }
    }
    assert forall|e: Effect| #[trigger] b.contains(e) == (match t.user {
        Some(ActionsUser::Ban) => e == Effect::BanUser,
        Some(ActionsUser::TimeOut(p)) => e == Effect::TimeOutUser(p),
        None => false,
    }) by {
        if t.user is Some {
            assert(b.len() == 1);
            assert(b[0] == match t.user {
                Some(ActionsUser::Ban) => Effect::BanUser,
                Some(ActionsUser::TimeOut(p)) => Effect::TimeOutUser(p),
                None => Effect::BanUser,
            });
            if b.contains(e) {
                let i = choose|i: int| 0 <= i < b.len() && b[i] == e;
                assert(i == 0);
            }
        }
    }
    assert(plan.contains(Effect::DeleteMessage) == a.contains(Effect::DeleteMessage));
    assert((t.message is Some) == (t.message == Some(ActionsMessage::Delete))) by {
        match t.message {
            Some(m) => match m {
                ActionsMessage::Delete => {
                    assert(t.message == Some(ActionsMessage::Delete));
                },
            },
            None => {},
        }
    }
    assert(plan.contains(Effect::BanUser) == b.contains(Effect::BanUser));
    assert(plan.contains(Effect::Report) == c.contains(Effect::Report));
    assert forall|p: u64|
        (t.user == Some(ActionsUser::TimeOut(p))) == #[trigger] plan.contains(Effect::TimeOutUser(p)) by {
        assert(plan.contains(Effect::TimeOutUser(p)) == b.contains(Effect::TimeOutUser(p)));
    }
}

/// Where carrying the actions out stands next.
#[derive(Debug, PartialEq, Eq)]
pub enum EnforcementAction {
    /// Build and send the request of the step with this index in the plan.
    Send(usize),
    /// Carrying the actions out is over, with this result.
    Finish(Result<(), String>),
}

/// What follows the outcome `outcome` of the step `index` of a plan of `len`
/// steps: the next step after a success, the end after the last step or
/// after a failure, which ends the run with the failure's own error.
pub open spec fn enforcement_transition(len: nat, index: nat, outcome: Result<(), Seq<char>>) -> Result<
    Option<nat>,
    Seq<char>,
> {
    match outcome {
        Ok(_) => if index + 1 < len {
            Ok(Some((index + 1) as nat))
        } else {
            Ok(None)
        },
        Err(e) => Err(e),
    }
}

/// The view of a next action, in the terms of [`enforcement_transition`].
pub open spec fn enforcement_view(action: EnforcementAction) -> Result<Option<nat>, Seq<char>> {
    match action {
        EnforcementAction::Send(i) => Ok(Some(i as nat)),
        EnforcementAction::Finish(Ok(_)) => Ok(None),
        EnforcementAction::Finish(Err(e)) => Err(e@),
    }
}

/// A failing step ends the run with its own error: no later step is taken.
pub proof fn lemma_failure_stops_the_run(len: nat, index: nat, e: Seq<char>)
    ensures
        enforcement_transition(len, index, Err(e)) == Err::<Option<nat>, Seq<char>>(e),
{
}

/// After a success the run goes on with the very next step, and it ends with
/// success only after the last step.
pub proof fn lemma_steps_run_in_order(len: nat, index: nat)
    requires
        index < len,
    ensures
        enforcement_transition(len, index, Ok(())) matches Ok(Some(next)) ==> next == index + 1
            && next < len,
        enforcement_transition(len, index, Ok(())) == Ok::<Option<nat>, Seq<char>>(None) <==> index
            + 1 == len,
{
}

/// The reason given for a ban: the report, or a fixed text without one.
pub open spec fn ban_reason(report: Option<Seq<char>>) -> Seq<char> {
    match report {
        Some(r) => r,
        None => "No reason provided"@,
    }
}

/// The beginning of the error that a refused ban request gives.
pub open spec fn ban_failure_prefix() -> Seq<char> {
    "An error occured while creating the create ban request: "@
}

/// The beginning of the error that a refused time-out request gives.
pub open spec fn time_out_failure_prefix() -> Seq<char> {
    "An error occured while creating the update member request: "@
}

/// What the step `effect` needs of its inputs so that building its request
/// cannot fail on a missing server, a zero channel or an overlong time-out.
pub open spec fn effect_ready(
    settings: &PluginSettings,
    take_action: TakeActionView,
    message: &MessageInfo,
    effect: Effect,
    now_secs: u64,
) -> bool {
    match effect {
        Effect::DeleteMessage => true,
        Effect::BanUser => message.guild_id is Some,
        Effect::TimeOutUser(p) => message.guild_id is Some && now_secs + p <= u64::MAX,
        Effect::Report => take_action.report is Some && settings.automod_channel_id != 0,
    }
}

/// The message is dealt with first and the report, when there is one, is
/// always the last step; every step occurs at most once.
pub proof fn lemma_plan_order(t: TakeActionView)
    ensures
        planned_effects(t).len() <= 3,
        t.message is Some ==> planned_effects(t)[0] == Effect::DeleteMessage,
        t.report is Some ==> planned_effects(t).last() == Effect::Report,
        t.report is None ==> !planned_effects(t).contains(Effect::Report),
        t == TakeActionView::nothing() ==> planned_effects(t).len() == 0,
{
    if t.report is None {
        assert(!planned_effects(t).contains(Effect::Report)) by {
            if planned_effects(t).contains(Effect::Report) {
                let i = choose|i: int| 0 <= i < planned_effects(t).len() && planned_effects(t)[i] == Effect::Report;
            }
        }
    }
}

impl Plugin {
    /// The steps that carry `take_action` out, in the order they are taken.
    pub fn take_action(take_action: &TakeAction) -> (r: Vec<Effect>)
        ensures
            r@ == planned_effects(take_action@),
            (take_action.message == Some(ActionsMessage::Delete)) == r@.contains(
                Effect::DeleteMessage,
            ),
            (take_action.user == Some(ActionsUser::Ban)) == r@.contains(Effect::BanUser),
            forall|p: u64|
                (take_action.user == Some(ActionsUser::TimeOut(p))) == #[trigger] r@.contains(
                    Effect::TimeOutUser(p),
                ),
            (take_action.report is Some) == r@.contains(Effect::Report),
    {
        proof {
            lemma_plan_carries_every_action(take_action@);
        }
        let mut effects: Vec<Effect> = Vec::new();
        if let Some(message_action) = take_action.message {
            match message_action {
                ActionsMessage::Delete => effects.push(Effect::DeleteMessage),
            }
        }
        if let Some(user_action) = take_action.user {
            match user_action {
                ActionsUser::Ban => effects.push(Effect::BanUser),
                ActionsUser::TimeOut(period) => effects.push(Effect::TimeOutUser(period)),
            }
        }
        if take_action.report.is_some() {
            effects.push(Effect::Report);
        }
        assert(effects@ =~= planned_effects(take_action@));
        effects
    }

    /// Where carrying out the plan `effects` starts: its first step, or the
    /// end with success for an empty plan.
    pub fn enforcement_start(effects: &Vec<Effect>) -> (r: EnforcementAction)
        ensures
            r == (if effects@.len() == 0 {
                EnforcementAction::Finish(Ok(()))
            } else {
                EnforcementAction::Send(0)
            }),
    {
        if effects.len() == 0 {
            EnforcementAction::Finish(Ok(()))
        } else {
            EnforcementAction::Send(0)
        }
    }

    /// What carrying out the plan `effects` does after its step `index` had
    /// the outcome `outcome` (the error of building or of sending its
    /// request).
    pub fn enforcement_step(effects: &Vec<Effect>, index: usize, outcome: Result<(), String>) -> (r:
        EnforcementAction)
        requires
            index < effects@.len(),
        ensures
            enforcement_view(r) == enforcement_transition(
                effects@.len(),
                index as nat,
                crate::initialization::outcome_view(outcome),
            ),
    {
        match outcome {
            Ok(()) => if index < effects.len() - 1 {
                EnforcementAction::Send(index + 1)
            } else {
                EnforcementAction::Finish(Ok(()))
            },
            Err(e) => EnforcementAction::Finish(Err(e)),
        }
    }

    /// The request that deletes `message`.
    pub fn delete_message(message: &MessageInfo) -> (r: DiscordRequest)
        ensures
            r == DiscordRequest::DeleteMessage(message.channel_id, message.id),
    {
        DiscordRequest::DeleteMessage(message.channel_id, message.id)
    }

    /// The request that bans the author of `message` from its server for
    /// `reason` (a fixed text when there is none), or the error that the chat
    /// client library's refusal gives.
    pub fn ban_user(reason: Option<&str>, message: &MessageInfo) -> (r: Result<
        DiscordRequest,
        String,
    >)
        requires
            message.wf(),
            message.guild_id is Some,
        ensures
            ({
                let g = message.guild_id->0;
                let u = message.author_id;
                let why = ban_reason(
                    match reason {
                        Some(s) => Some(s@),
                        None => None,
                    },
                );
                match create_ban_json(g, u, why) {
                    Some(body) => r matches Ok(DiscordRequest::CreateBan(rg, ru, b)) && rg == g
                        && ru == u && b@ == body,
                    None => r matches Err(e) && client_failure(ban_failure_prefix(), e@),
                }
            }),
    {
        let guild_id = match message.guild_id {
            Some(g) => g,
            None => vstd::pervasive::unreached(),
        };
        let why = match reason {
            Some(s) => s,
            None => "No reason provided",
        };
        match create_ban_body(guild_id, message.author_id, why) {
            Ok(Some(body)) => Ok(DiscordRequest::CreateBan(guild_id, message.author_id, body)),
            Ok(None) => vstd::pervasive::unreached(),
            Err(err) => Err(
                failure_text("An error occured while creating the create ban request: ", err),
            ),
        }
    }

    /// The request that times the author of `message` out for `period`
    /// seconds from the clock reading `now_secs`, or the error that the chat
    /// client library's refusal gives.
    pub fn time_out_user(message: &MessageInfo, period: u64, now_secs: u64) -> (r: Result<
        DiscordRequest,
        String,
    >)
        requires
            message.wf(),
            message.guild_id is Some,
            now_secs + period <= u64::MAX,
        ensures
            match r {
                Ok(request) => request matches DiscordRequest::UpdateMember(g, u, b) && g
                    == message.guild_id->0 && u == message.author_id && b@
                    == update_member_time_out_json(
                    g,
                    u,
                    clock_timestamp((now_secs + period) as u64),
                ),
                Err(e) => client_failure(time_out_failure_prefix(), e@),
            },
    {
        let guild_id = match message.guild_id {
            Some(g) => g,
            None => vstd::pervasive::unreached(),
        };
        let until = Self::clock_timestamp(now_secs + period);
        match update_member_time_out_body(guild_id, message.author_id, until) {
            Ok(Some(body)) => Ok(DiscordRequest::UpdateMember(guild_id, message.author_id, body)),
            Ok(None) => vstd::pervasive::unreached(),
            Err(err) => Err(
                failure_text("An error occured while creating the update member request: ", err),
            ),
        }
    }

    /// The request of the step `effect` of carrying `take_action` out on
    /// `message`, or the error that building it gives.
    pub fn effect_request(
        settings: &PluginSettings,
        take_action: &TakeAction,
        message: &MessageInfo,
        effect: Effect,
        now_secs: u64,
    ) -> (r: Result<DiscordRequest, String>)
        requires
            message.wf(),
            effect_ready(settings, take_action@, message, effect, now_secs),
        ensures
            match effect {
                Effect::DeleteMessage => r == Ok::<DiscordRequest, String>(
                    DiscordRequest::DeleteMessage(message.channel_id, message.id),
                ),
                Effect::BanUser => match create_ban_json(
                    message.guild_id->0,
                    message.author_id,
                    ban_reason(take_action@.report),
                ) {
                    Some(body) => r matches Ok(DiscordRequest::CreateBan(g, u, b)) && g
                        == message.guild_id->0 && u == message.author_id && b@ == body,
                    None => r matches Err(e) && client_failure(ban_failure_prefix(), e@),
                },
                Effect::TimeOutUser(p) => match r {
                    Ok(request) => request matches DiscordRequest::UpdateMember(g, u, b) && g
                        == message.guild_id->0 && u == message.author_id && b@
                        == update_member_time_out_json(
                        g,
                        u,
                        clock_timestamp((now_secs + p) as u64),
                    ),
                    Err(e) => client_failure(time_out_failure_prefix(), e@),
                },
                Effect::Report => match crate::discord::create_message_json(
                    settings.automod_channel_id,
                    crate::report::report_embed_view(take_action@, message, now_secs),
                ) {
                    Some(body) => r matches Ok(DiscordRequest::CreateMessage(c, b)) && c
                        == settings.automod_channel_id && b@ == body,
                    None => r matches Err(e) && client_failure(
                        crate::report::report_failure_prefix(),
                        e@,
                    ),
                },
            },
    {
        match effect {
            Effect::DeleteMessage => Ok(Self::delete_message(message)),
            Effect::BanUser => {
                let reason = match &take_action.report {
                    Some(report) => Some(report.as_str()),
                    None => None,
                };
                Self::ban_user(reason, message)
            },
            Effect::TimeOutUser(period) => Self::time_out_user(message, period, now_secs),
            Effect::Report => Self::report(settings, take_action, message, now_secs),
        }
    }
}

} // verus!
