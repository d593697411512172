//! Start-up of the plugin: the stages it goes through and the error that a
//! failing stage ends it with.

use vstd::prelude::*;

use crate::discord::DiscordRequest;
use crate::settings::PluginSettings;
use crate::Plugin;

verus! {

/// A stage of the plugin's start-up.
#[derive(Clone, Copy, Debug, PartialEq, Eq, Structural)]
pub enum InitStage {
    /// Read the settings handed to the plugin.
    ParseSettings,
    /// Ask the chat service for the moderation channel.
    FetchChannel,
    /// Read the channel that the chat service answered with.
    ParseChannel,
    /// Register for chat events with the host.
    RegisterService,
    /// Check the host's answer for each event registered for.
    RegisterEvents,
    /// Store the settings with the host.
    StoreSettings,
}

/// What the start-up does next.
#[derive(Debug, PartialEq, Eq)]
pub enum InitAction {
    /// Perform this stage and report its outcome.
    Perform(InitStage),
    /// Start-up is over, with this result.
    Finish(Result<(), String>),
}

/// The chat events a plugin can register for.
#[derive(Clone, Copy, Debug, PartialEq, Eq, Structural)]
pub enum DiscordEventKinds {
    MessageCreate,
}

/// The chat registrations asked of the host.
#[derive(Clone, Debug, PartialEq, Eq)]
pub struct DiscordRegistrations {
    pub events: Option<Vec<DiscordEventKinds>>,
    pub interactions: Option<Vec<String>>,
}

/// The service registrations asked of the host.
#[derive(Clone, Debug, PartialEq, Eq)]
pub struct ServicesRegistrations {
    pub job_scheduler: Option<Vec<String>>,
    pub discord: Option<DiscordRegistrations>,
}

/// Everything the plugin registers for at start-up.
#[derive(Clone, Debug, PartialEq, Eq)]
pub struct Registrations {
    pub core: Option<Vec<String>>,
    pub services: Option<ServicesRegistrations>,
}

/// The stage after `stage`; `None` after the last.
pub open spec fn next_stage(stage: InitStage) -> Option<InitStage> {
    match stage {
        InitStage::ParseSettings => Some(InitStage::FetchChannel),
        InitStage::FetchChannel => Some(InitStage::ParseChannel),
        InitStage::ParseChannel => Some(InitStage::RegisterService),
        InitStage::RegisterService => Some(InitStage::RegisterEvents),
        InitStage::RegisterEvents => Some(InitStage::StoreSettings),
        InitStage::StoreSettings => None,
    }
}

/// The text that the error of a failing `stage` begins with.
pub open spec fn stage_failure_prefix(stage: InitStage) -> Seq<char> {
    match stage {
        InitStage::ParseSettings => "The provided settings were of the incorrect structure: "@,
        InitStage::FetchChannel => "An error occured while trying to get information of the automod channel: "@,
        InitStage::ParseChannel => "An error occured while deserializing the get channel response from Discord: "@,
        InitStage::RegisterService => "An error occured while making a Discord service registration: "@,
        InitStage::RegisterEvents => "An error occured while making a Discord event registration: "@,
        InitStage::StoreSettings => "An error while storing the settings: "@,
    }
}

/// What follows the outcome `outcome` of `stage`: the next stage after a
/// success, the end of start-up after the last stage or after a failure.
pub open spec fn init_transition(stage: InitStage, outcome: Result<(), Seq<char>>) -> Result<
    Option<InitStage>,
    Seq<char>,
> {
    match outcome {
        Ok(_) => Ok(next_stage(stage)),
        Err(e) => Err(stage_failure_prefix(stage) + e),
    }
}

/// The view of an outcome.
pub open spec fn outcome_view(outcome: Result<(), String>) -> Result<(), Seq<char>> {
    match outcome {
        Ok(_) => Ok(()),
        Err(e) => Err(e@),
    }
}

/// The view of a next action, in the terms of [`init_transition`].
pub open spec fn action_view(action: InitAction) -> Result<Option<InitStage>, Seq<char>> {
    match action {
        InitAction::Perform(s) => Ok(Some(s)),
        InitAction::Finish(Ok(_)) => Ok(None),
        InitAction::Finish(Err(e)) => Err(e@),
    }
}

/// The first failure among the outcomes of the event registrations.
pub open spec fn first_failure(outcomes: Seq<Result<(), Seq<char>>>) -> Result<(), Seq<char>>
    decreases outcomes.len(),
{
    if outcomes.len() == 0 {
        Ok(())
    } else if outcomes[0] is Err {
        outcomes[0]
    } else {
        first_failure(outcomes.drop_first())
    }
}

/// The outcome of a run of event registrations is success exactly when every
/// registration succeeded; a failure is that of the earliest registration
/// that failed.
pub proof fn lemma_first_failure(s: Seq<Result<(), Seq<char>>>)
    ensures
        first_failure(s) is Ok <==> forall|i: int| 0 <= i < s.len() ==> #[trigger] s[i] is Ok,
        first_failure(s) is Err ==> exists|i: int|
            0 <= i < s.len() && #[trigger] s[i] == first_failure(s) && forall|j: int|
                0 <= j < i ==> s[j] is Ok,
        s.len() > 0 && s[0] is Err ==> first_failure(s) == s[0],
    decreases s.len(),
{
    if s.len() == 0 {
        return;
    }
    let r = s.drop_first();
    lemma_first_failure(r);
    assert forall|i: int| 0 <= i < r.len() implies #[trigger] r[i] == s[i + 1] by {}
    if s[0] is Err {
        assert(s[0] == first_failure(s));
    } else {
        if forall|i: int| 0 <= i < r.len() ==> #[trigger] r[i] is Ok {
            assert forall|i: int| 0 <= i < s.len() implies #[trigger] s[i] is Ok by {
                if i > 0 {
                    assert(r[i - 1] == s[i]);
                }
            }
        } else {
            let k = choose|i: int| 0 <= i < r.len() && !(#[trigger] r[i] is Ok);
            assert(r[k] == s[k + 1]);
            assert(!(s[k + 1] is Ok));
        }
        if first_failure(r) is Err {
            let i = choose|i: int|
                0 <= i < r.len() && #[trigger] r[i] == first_failure(r) && forall|j: int|
                    0 <= j < i ==> r[j] is Ok;
            assert(s[i + 1] == first_failure(s));
            assert forall|j: int| 0 <= j < i + 1 implies #[trigger] s[j] is Ok by {
                if j > 0 {
                    assert(r[j - 1] == s[j]);
                }
            }
        }
    }
}

/// Starting at `stage`, the stages that succeed in turn lead to the end of
/// start-up with success, after `n` stages.
pub open spec fn stages_left(stage: InitStage) -> nat {
    match stage {
        InitStage::ParseSettings => 6,
        InitStage::FetchChannel => 5,
        InitStage::ParseChannel => 4,
        InitStage::RegisterService => 3,
        InitStage::RegisterEvents => 2,
        InitStage::StoreSettings => 1,
    }
}

/// Start-up visits every stage once, in order: after a success the next
/// stage has one stage fewer left, and only the last stage ends start-up
/// with success.
pub proof fn lemma_stages_in_order(stage: InitStage)
    ensures
        init_transition(stage, Ok(())) matches Ok(Some(s)) ==> stages_left(s) + 1 == stages_left(
            stage,
        ),
        init_transition(stage, Ok(())) == Ok::<Option<InitStage>, Seq<char>>(None) <==> stage
            == InitStage::StoreSettings,
{
}

/// A failing stage always ends start-up, with an error that names the stage
/// and ends with the failure's own text.
pub proof fn lemma_failure_ends_start_up(stage: InitStage, e: Seq<char>)
    ensures
        init_transition(stage, Err(e)) matches Err(m) && stage_failure_prefix(stage).is_prefix_of(
            m,
        ) && m.subrange(m.len() - e.len(), m.len() as int) == e,
{
    let m = stage_failure_prefix(stage) + e;
    assert(m.subrange(0, stage_failure_prefix(stage).len() as int) =~= stage_failure_prefix(
        stage,
    ));
    assert(m.subrange(m.len() - e.len(), m.len() as int) =~= e);
}

impl Plugin {
    /// The first stage of start-up.
    pub fn initialization_start() -> (r: InitAction)
        ensures
            r == InitAction::Perform(InitStage::ParseSettings),
    {
        InitAction::Perform(InitStage::ParseSettings)
    }

    /// What start-up does after `stage` had the outcome `outcome`.
    pub fn initialization_step(stage: InitStage, outcome: Result<(), String>) -> (r: InitAction)
        ensures
            action_view(r) == init_transition(stage, outcome_view(outcome)),
    {
        match outcome {
            Ok(()) => match stage {
                InitStage::ParseSettings => InitAction::Perform(InitStage::FetchChannel),
                InitStage::FetchChannel => InitAction::Perform(InitStage::ParseChannel),
                InitStage::ParseChannel => InitAction::Perform(InitStage::RegisterService),
                InitStage::RegisterService => InitAction::Perform(InitStage::RegisterEvents),
                InitStage::RegisterEvents => InitAction::Perform(InitStage::StoreSettings),
                InitStage::StoreSettings => InitAction::Finish(Ok(())),
            },
            Err(e) => {
                let mut m = match stage {
                    InitStage::ParseSettings => String::from_str(
                        "The provided settings were of the incorrect structure: ",
                    ),
                    InitStage::FetchChannel => String::from_str(
                        "An error occured while trying to get information of the automod channel: ",
                    ),
                    InitStage::ParseChannel => String::from_str(
                        "An error occured while deserializing the get channel response from Discord: ",
                    ),
                    InitStage::RegisterService => String::from_str(
                        "An error occured while making a Discord service registration: ",
                    ),
                    InitStage::RegisterEvents => String::from_str(
                        "An error occured while making a Discord event registration: ",
                    ),
                    InitStage::StoreSettings => String::from_str(
                        "An error while storing the settings: ",
                    ),
                };
                m.append(e.as_str());
                InitAction::Finish(Err(m))
            },
        }
    }

    /// The outcome of the event registrations: the first failure among
    /// `outcomes`, success when none failed.
    pub fn registration_events_outcome(outcomes: &Vec<Result<(), String>>) -> (r: Result<(), String>)
        ensures
            outcome_view(r) == first_failure(outcomes@.map_values(|o: Result<(), String>| outcome_view(o))),
            r is Ok <==> forall|i: int| 0 <= i < outcomes@.len() ==> #[trigger] outcomes@[i] is Ok,
            r is Err ==> exists|i: int|
                0 <= i < outcomes@.len() && #[trigger] outcomes@[i] is Err && outcomes@[i]->Err_0@
                    == r->Err_0@ && forall|j: int| 0 <= j < i ==> outcomes@[j] is Ok,
    {
        proof {
            let vs = outcomes@.map_values(|o: Result<(), String>| outcome_view(o));
            lemma_first_failure(vs);
            assert forall|i: int| 0 <= i < outcomes@.len() implies (#[trigger] outcomes@[i] is Ok)
                == (vs[i] is Ok) by {}
        }
        let ghost views = outcomes@.map_values(|o: Result<(), String>| outcome_view(o));
        let mut i: usize = 0;
        assert(views.skip(0) =~= views);
        while i < outcomes.len()
            invariant
                i <= outcomes@.len(),
                views == outcomes@.map_values(|o: Result<(), String>| outcome_view(o)),
                first_failure(views) == first_failure(views.skip(i as int)),
                forall|j: int| 0 <= j < i ==> #[trigger] outcomes@[j] is Ok,
            decreases outcomes@.len() - i,
        {
            assert(views.skip(i as int)[0] == views[i as int]);
            assert(views.skip(i as int).drop_first() =~= views.skip(i + 1));
            match &outcomes[i] {
                Err(e) => {
                    assert(outcomes@[i as int] is Err);
                    return Err(e.clone());
                },
                Ok(()) => {},
            }
            i = i + 1;
        }
        assert(views.skip(i as int).len() == 0);
        Ok(())
    }

    /// What the plugin registers for: the chat service's message-create
    /// event, and nothing else.
    pub fn registrations() -> (r: Registrations)
        ensures
            r.core is None,
            r.services is Some,
            r.services->0.job_scheduler is None,
            r.services->0.discord is Some,
            r.services->0.discord->0.interactions is None,
            r.services->0.discord->0.events is Some,
            r.services->0.discord->0.events->0@ == seq![DiscordEventKinds::MessageCreate],
    {
        let mut events: Vec<DiscordEventKinds> = Vec::new();
        events.push(DiscordEventKinds::MessageCreate);
        Registrations {
            core: None,
            services: Some(
                ServicesRegistrations {
                    job_scheduler: None,
                    discord: Some(DiscordRegistrations { events: Some(events), interactions: None }),
                },
            ),
        }
    }

    /// The request that fetches the moderation channel.
    pub fn get_channel_request(settings: &PluginSettings) -> (r: DiscordRequest)
        ensures
            r == DiscordRequest::GetChannel(settings.automod_channel_id),
    {
        DiscordRequest::GetChannel(settings.automod_channel_id)
    }

    /// The error given when the stored settings cannot be read back.
    pub fn settings_load_failure(err: &str) -> (r: String)
        ensures
            r@ == "An error while storing the settings: "@ + err@,
    {
        let mut m = String::from_str("An error while storing the settings: ");
        m.append(err);
        m
    }
}

} // verus!
