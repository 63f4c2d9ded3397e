//! The guild configuration store and the dispatcher that runs every
//! registered handler on every event.
use crate::ext::{tuple_text, UserExt};
use crate::model::{Embed, EmbedView, Event, GreetError};
use crate::text::{decimal, decimal_string, unix_now};
use vstd::prelude::*;

pub mod greet;
pub mod laws;

verus! {

/// Per-guild greeting settings, each under its guild's id written in
/// decimal. Read-only once built. Where a key occurs twice, the first entry
/// counts.
pub struct Config {
    greet: Vec<(String, greet::Config)>,
}

/// The key under which a guild's settings are stored.
pub open spec fn key_of(guild: u64) -> Seq<char> {
    decimal(guild as nat)
}

impl Config {
    /// The store as its list of keys and settings.
    pub closed spec fn entries(&self) -> Seq<(String, greet::Config)> {
        self.greet@
    }

    /// Whether entry `i` is the first one stored under a guild's key.
    pub open spec fn is_entry_of(&self, guild: u64, i: int) -> bool {
        &&& 0 <= i < self.entries().len()
        &&& self.entries()[i].0@ == key_of(guild)
        &&& forall|j: int| 0 <= j < i ==> (#[trigger] self.entries()[j]).0@ != key_of(guild)
    }

    /// Whether a guild has greeting switched on.
    pub open spec fn has(&self, guild: u64) -> bool {
        exists|i: int| self.is_entry_of(guild, i)
    }

    /// The settings of a guild that has them.
    pub open spec fn of(&self, guild: u64) -> greet::ConfigView {
        self.entries()[choose|i: int| self.is_entry_of(guild, i)].1@
    }

    /// A store of the given entries.
    pub fn new(greet: Vec<(String, greet::Config)>) -> (config: Config)
        ensures
            config.entries() == greet@,
    {
        Config { greet }
    }

    /// The stored settings of a guild, if it has any.
    pub fn lookup(&self, guild: u64) -> (found: Option<&greet::Config>)
        ensures
            found is Some <==> self.has(guild),
            found is Some ==> found->0@ == self.of(guild),
    {
        let key = decimal_string(guild);
        let mut i: usize = 0;
        while i < self.greet.len()
            invariant
                i <= self.greet.len(),
                key@ == key_of(guild),
                forall|j: int| 0 <= j < i ==> (#[trigger] self.entries()[j]).0@ != key_of(guild),
            decreases self.greet.len() - i,
        {
            if self.greet[i].0 == key {
                proof {
                    assert(self.is_entry_of(guild, i as int));
                    let first = choose|k: int| self.is_entry_of(guild, k);
                    assert(self.is_entry_of(guild, first));
                    assert(first == i) by {
                        if first < i {
                            assert(self.entries()[first].0@ != key_of(guild));
                        } else if i < first {
                            assert(self.entries()[i as int].0@ != key_of(guild));
                        }
                    }
                }
                return Some(&self.greet[i].1);
            }
            i += 1;
        }
        assert forall|k: int| !self.is_entry_of(guild, k) by {
            if 0 <= k < self.entries().len() {
                assert(self.entries()[k].0@ != key_of(guild));
            }
        }
        None
    }
}

/// One thing that a handler asks the surrounding program to do.
#[derive(Clone, Debug, PartialEq, Eq)]
#[allow(inconsistent_fields)]
pub enum Action {
    /// Note in the log that the connection is ready, with the account's tuple.
    LogReady { user: String },
    /// Start the delayed greeting of a member on a task of its own.
    ScheduleGreet { delay_secs: u64, guild: u64, user: u64, config: greet::Config },
    /// Post an embed to a channel and wait for the platform's answer.
    SendEmbed { channel: u64, embed: Embed },
}

/// An action as plain values.
#[allow(inconsistent_fields)]
pub enum ActionView {
    LogReady { user: Seq<char> },
    ScheduleGreet { delay_secs: u64, guild: u64, user: u64, config: greet::ConfigView },
    SendEmbed { channel: u64, embed: EmbedView },
}

impl View for Action {
    type V = ActionView;

    open spec fn view(&self) -> ActionView {
        match *self {
            Action::LogReady { user } => ActionView::LogReady { user: user@ },
            Action::ScheduleGreet { delay_secs, guild, user, config } => ActionView::ScheduleGreet {
                delay_secs,
                guild,
                user,
                config: config@,
            },
            Action::SendEmbed { channel, embed } => ActionView::SendEmbed {
                channel,
                embed: embed@,
            },
        }
    }
}

/// What one handler decided for one event: the actions to perform, in order,
/// and the failure that stopped it from planning more, if any.
#[derive(Clone, Debug, PartialEq, Eq)]
pub struct Plan {
    pub actions: Vec<Action>,
    pub failure: Option<GreetError>,
}

/// A plan as plain values.
pub struct PlanView {
    pub actions: Seq<ActionView>,
    pub failure: Option<GreetError>,
}

impl View for Plan {
    type V = PlanView;

    open spec fn view(&self) -> PlanView {
        PlanView { actions: self.actions@.map_values(|a: Action| a@), failure: self.failure }
    }
}

/// The plan that asks for nothing.
pub open spec fn idle() -> PlanView {
    PlanView { actions: Seq::empty(), failure: None }
}

/// Where the carrying out of a plan stands.
#[derive(Clone, Copy, Debug, PartialEq, Eq, Structural)]
pub enum Progress {
    /// The action at `index` is to be performed next.
    Perform { index: usize },
    /// Every action was performed and the plan held no failure.
    Succeeded,
    /// The handler failed: an action did, or the plan held a failure.
    Failed { error: GreetError },
}

/// What follows once `done` actions of a plan were performed, the last
/// attempt having failed or not. Actions are performed in order; the first
/// one that fails ends the plan as a platform failure, with the actions after
/// it left alone; a failure that the plan holds comes after its actions.
pub open spec fn spec_advance(plan: PlanView, done: usize, failed: bool) -> Progress {
    if failed {
        Progress::Failed { error: GreetError::Platform }
    } else if done < plan.actions.len() {
        Progress::Perform { index: done }
    } else {
        match plan.failure {
            Some(error) => Progress::Failed { error },
            None => Progress::Succeeded,
        }
    }
}

impl Plan {
    /// The next move in carrying out this plan.
    pub fn advance(&self, done: usize, failed: bool) -> (progress: Progress)
        ensures
            progress == spec_advance(self@, done, failed),
    {
        if failed {
            Progress::Failed { error: GreetError::Platform }
        } else if done < self.actions.len() {
            Progress::Perform { index: done }
        } else {
            match self.failure {
                Some(error) => Progress::Failed { error },
                None => Progress::Succeeded,
            }
        }
    }

    /// A plan without actions or failure.
    pub fn none() -> (plan: Plan)
        ensures
            plan@ == idle(),
    {
        let plan = Plan { actions: Vec::new(), failure: None };
        assert(plan@.actions =~= Seq::empty());
        plan
    }
}

/// What the readiness handler asks for: a log line with the signed-in
/// account's tuple when the connection is ready, nothing otherwise.
pub open spec fn spec_log_event(event: Event) -> PlanView {
    match event {
        Event::Ready { user } => PlanView {
            actions: seq![
                ActionView::LogReady { user: tuple_text(user.name@, user.discriminator) },
            ],
            failure: None,
        },
        _ => idle(),
    }
}

/// The readiness handler.
pub fn log_event(event: &Event) -> (plan: Plan)
    ensures
        plan@ == spec_log_event(*event),
{
    match event {
        Event::Ready { user } => {
            let mut actions: Vec<Action> = Vec::new();
            actions.push(Action::LogReady { user: user.as_tuple().to_text() });
            let plan = Plan { actions, failure: None };
            assert(plan@.actions =~= spec_log_event(*event).actions);
            plan
        },
        _ => Plan::none(),
    }
}

/// The handlers that can be registered with the dispatcher.
#[derive(Clone, Copy, Debug, PartialEq, Eq, Structural)]
pub enum Handler {
    LogEvent,
    Greet,
    Debug,
}

/// The registration: which handlers run, and in which order.
pub open spec fn registered() -> Seq<Handler> {
    seq![Handler::LogEvent, Handler::Greet]
}

/// The registered handlers, in the order in which they run.
pub fn handlers() -> (list: Vec<Handler>)
    ensures
        list@ == registered(),
{
    let mut list: Vec<Handler> = Vec::new();
    list.push(Handler::LogEvent);
    list.push(Handler::Greet);
    assert(list@ =~= registered());
    list
}

/// The plan of one handler for one event.
pub open spec fn spec_run_handler(
    handler: Handler,
    config: Config,
    event: Event,
    now: i64,
) -> PlanView {
    match handler {
        Handler::LogEvent => spec_log_event(event),
        Handler::Greet => greet::spec_handler(config, event, now),
        Handler::Debug => greet::spec_debug_handler(config, event, now),
    }
}

/// Runs one handler on one event.
pub fn run_handler(handler: Handler, config: &Config, event: &Event, now: i64) -> (plan: Plan)
    requires
        event.wf(),
    ensures
        plan@ == spec_run_handler(handler, *config, *event, now),
{
    match handler {
        Handler::LogEvent => log_event(event),
        Handler::Greet => greet::handler(config, event, now),
        Handler::Debug => greet::debug_handler(config, event, now),
    }
}

/// The plans of a list of handlers for one event: one plan for each handler,
/// in the handlers' order, each what that handler alone decides.
pub open spec fn spec_dispatch(
    handlers: Seq<Handler>,
    config: Config,
    event: Event,
    now: i64,
) -> Seq<PlanView> {
    Seq::new(handlers.len(), |i: int| spec_run_handler(handlers[i], config, event, now))
}

/// The views of a list of plans, in order.
pub open spec fn plans_view(plans: Seq<Plan>) -> Seq<PlanView> {
    plans.map_values(|p: Plan| p@)
}

/// Runs every handler of `handlers` on the event, in order. A handler's
/// failure stays in its own plan: the handlers after it run all the same.
pub fn dispatch_to(handlers: &Vec<Handler>, config: &Config, event: &Event, now: i64) -> (plans:
    Vec<Plan>)
    requires
        event.wf(),
    ensures
        plans_view(plans@) == spec_dispatch(handlers@, *config, *event, now),
{
    let mut plans: Vec<Plan> = Vec::new();
    let mut i: usize = 0;
    while i < handlers.len()
        invariant
            event.wf(),
            i <= handlers.len(),
            plans@.len() == i,
            forall|j: int|
                0 <= j < i ==> (#[trigger] plans@[j])@ == spec_run_handler(
                    handlers@[j],
                    *config,
                    *event,
                    now,
                ),
        decreases handlers.len() - i,
    {
        let plan = run_handler(handlers[i], config, event, now);
        plans.push(plan);
        i += 1;
    }
    assert(plans_view(plans@) =~= spec_dispatch(handlers@, *config, *event, now));
    plans
}

/// Runs the registered handlers on the event. It cannot fail: what went wrong
/// in a handler is in that handler's plan.
pub fn dispatch_event(config: &Config, event: &Event, now: i64) -> (plans: Vec<Plan>)
    requires
        event.wf(),
    ensures
        plans_view(plans@) == spec_dispatch(registered(), *config, *event, now),
{
    let list = handlers();
    dispatch_to(&list, config, event, now)
}

/// Reads the clock and runs the registered handlers on the event. The plans
/// are those of `dispatch_event` at the moment that the clock gave.
pub fn dispatch_now(config: &Config, event: &Event) -> (plans: Vec<Plan>)
    requires
        event.wf(),
    ensures
        exists|now: i64|
            plans_view(plans@) == #[trigger] spec_dispatch(registered(), *config, *event, now),
{
    let now = unix_now();
    dispatch_event(config, event, now)
}

} // verus!
