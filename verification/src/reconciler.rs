//! The reconciliation loop as a state machine. It performs nothing itself: it
//! is told what happened, and answers with the state that follows and with the
//! one thing to do next. Whoever drives it waits, sends the requests, reads the
//! shutdown flag, and reports back.
//!
//! One outer cycle is: fetch the record; then, tick after tick, ask for the
//! public address and compare it with the record's content. The first
//! difference is written to the provider, which ends the cycle: the next one
//! starts with a fresh fetch, so that no comparison is ever made against
//! content that a write has overtaken.
//!
//! The shutdown flag is looked at where a cycle is entered, where a tick
//! fires, and where the work of a tick is done. A call that is under way is
//! never abandoned.

use vstd::prelude::*;
use vstd::string::StringExecFns;

use crate::client::{
    fetch_request, fetch_request_for, patch_request, patch_request_for, resolve_request,
    resolve_request_for, Call, ClientError, Request, RequestView,
};
use crate::config::{first_missing, ConfigError, Configuration, ConfigurationView};
use crate::record::{planned_patch, plan_update, DnsRecord, DnsRecordView, IpResponse};

verus! {

/// The seconds between two ticks. The cadence is fixed: it does not adapt to
/// failures or to changes.
pub const TICK_INTERVAL_SECONDS: u64 = 30;

/// What a failed call leads to.
#[derive(Debug, Clone, Copy, PartialEq, Eq, Structural)]
pub enum Disposition {
    /// The reconciler fails, and the process ends with a diagnostic.
    Fatal,
    /// The failure is reported and the work of this tick is given up; the
    /// next tick tries again with the record that is held.
    Skip,
}

/// The handling of failures, call by call. A failed fetch is always fatal: a
/// cycle cannot start without the record. For the two calls made inside a
/// cycle the choice is open, and is made here and nowhere else.
#[derive(Debug, Clone, Copy, PartialEq, Eq, Structural)]
pub struct ErrorPolicy {
    pub on_resolve: Disposition,
    pub on_patch: Disposition,
}

impl ErrorPolicy {
    /// What a failure of `call` leads to under this policy.
    pub open spec fn disposition_of(self, call: Call) -> Disposition {
        match call {
            Call::Fetch => Disposition::Fatal,
            Call::Resolve => self.on_resolve,
            Call::Patch => self.on_patch,
        }
    }

    /// Every failure ends the process, so that it is seen by whoever
    /// supervises it.
    pub fn fail_fast() -> (policy: ErrorPolicy)
        ensures
            policy == (ErrorPolicy { on_resolve: Disposition::Fatal, on_patch: Disposition::Fatal }),
    {
        ErrorPolicy { on_resolve: Disposition::Fatal, on_patch: Disposition::Fatal }
    }

    /// A failure inside a cycle costs one tick and no more, so that a passing
    /// fault does not end a service meant to run for months.
    pub fn resilient() -> (policy: ErrorPolicy)
        ensures
            policy == (ErrorPolicy { on_resolve: Disposition::Skip, on_patch: Disposition::Skip }),
    {
        ErrorPolicy { on_resolve: Disposition::Skip, on_patch: Disposition::Skip }
    }

    /// What a failure of `call` leads to under this policy.
    pub fn disposition(&self, call: Call) -> (disposition: Disposition)
        ensures
            disposition == self.disposition_of(call),
    {
        match call {
            Call::Fetch => Disposition::Fatal,
            Call::Resolve => self.on_resolve,
            Call::Patch => self.on_patch,
        }
    }
}

/// A failure that ended the reconciler: the call that failed, and how.
#[derive(Debug, Clone, Copy, PartialEq, Eq, Structural)]
pub struct Failure {
    pub call: Call,
    pub error: ClientError,
}

impl Failure {
    /// The diagnostic for an operator: the call's name, ` failed: `, and what
    /// went wrong.
    pub open spec fn message_text(self) -> Seq<char> {
        self.call.name_text() + " failed: "@ + self.error.description_text()
    }

    /// The diagnostic for an operator.
    pub fn message(&self) -> (message: String)
        ensures
            message@ == self.message_text(),
    {
        String::from_str(self.call.name()).concat(" failed: ").concat(self.error.description())
    }
}

/// Where the reconciler stands.
#[derive(Debug, PartialEq, Eq)]
pub enum State {
    /// A cycle has begun: the record is being fetched.
    Fetching,
    /// The record is held, and the next tick is awaited.
    Waiting(DnsRecord),
    /// A tick has fired: the public address is being asked for.
    Comparing(DnsRecord),
    /// The address differs from the record's content: the write is under way.
    Updating(DnsRecord),
    /// Shutdown was observed. Nothing follows.
    Stopped,
    /// A fatal failure. Nothing follows.
    Failed(Failure),
}

/// What a [`State`] holds, with the record by its view.
pub enum StateView {
    Fetching,
    Waiting(DnsRecordView),
    Comparing(DnsRecordView),
    Updating(DnsRecordView),
    Stopped,
    Failed(Failure),
}

impl View for State {
    type V = StateView;

    open spec fn view(&self) -> StateView {
        match *self {
            State::Fetching => StateView::Fetching,
            State::Waiting(record) => StateView::Waiting(record@),
            State::Comparing(record) => StateView::Comparing(record@),
            State::Updating(record) => StateView::Updating(record@),
            State::Stopped => StateView::Stopped,
            State::Failed(failure) => StateView::Failed(failure),
        }
    }
}

/// What the driver reports.
#[derive(Debug, PartialEq, Eq)]
pub enum Event {
    /// The fetch has ended.
    Fetched(Result<DnsRecord, ClientError>),
    /// The tick that was awaited has fired.
    Tick,
    /// The question for the public address has ended.
    Resolved(Result<IpResponse, ClientError>),
    /// The write has ended. The record in the provider's answer is for the
    /// log: the next comparison is made against a fresh fetch.
    Patched(Result<DnsRecord, ClientError>),
}

/// What an [`Event`] holds, with records and addresses by their views.
pub enum EventView {
    Fetched(Result<DnsRecordView, ClientError>),
    Tick,
    Resolved(Result<Seq<char>, ClientError>),
    Patched(Result<DnsRecordView, ClientError>),
}

/// The view of the outcome of a call that answers with a record.
pub open spec fn record_outcome_view(
    outcome: Result<DnsRecord, ClientError>,
) -> Result<DnsRecordView, ClientError> {
    match outcome {
        Ok(record) => Ok(record@),
        Err(error) => Err(error),
    }
}

/// The view of the outcome of the question for the public address.
pub open spec fn lookup_outcome_view(
    outcome: Result<IpResponse, ClientError>,
) -> Result<Seq<char>, ClientError> {
    match outcome {
        Ok(observation) => Ok(observation@),
        Err(error) => Err(error),
    }
}

impl View for Event {
    type V = EventView;

    open spec fn view(&self) -> EventView {
        match *self {
            Event::Fetched(outcome) => EventView::Fetched(record_outcome_view(outcome)),
            Event::Tick => EventView::Tick,
            Event::Resolved(outcome) => EventView::Resolved(lookup_outcome_view(outcome)),
            Event::Patched(outcome) => EventView::Patched(record_outcome_view(outcome)),
        }
    }
}

/// The one thing for the driver to do next.
#[derive(Debug, PartialEq, Eq)]
pub enum Action {
    /// Send this read of the record, and report [`Event::Fetched`].
    FetchRecord(Request),
    /// Wait for the next tick, and report [`Event::Tick`].
    AwaitTick,
    /// Send this question for the public address, and report
    /// [`Event::Resolved`].
    ResolveIp(Request),
    /// Send this write of the record, and report [`Event::Patched`].
    PatchRecord(Request),
    /// End the process with success.
    Exit,
    /// End the process with a diagnostic and a status other than success.
    Fail(Failure),
    /// The event was not awaited and has been ignored.
    Nothing,
}

/// What an [`Action`] holds, with the request by its view.
pub enum ActionView {
    FetchRecord(RequestView),
    AwaitTick,
    ResolveIp(RequestView),
    PatchRecord(RequestView),
    Exit,
    Fail(Failure),
    Nothing,
}

impl View for Action {
    type V = ActionView;

    open spec fn view(&self) -> ActionView {
        match *self {
            Action::FetchRecord(request) => ActionView::FetchRecord(request@),
            Action::AwaitTick => ActionView::AwaitTick,
            Action::ResolveIp(request) => ActionView::ResolveIp(request@),
            Action::PatchRecord(request) => ActionView::PatchRecord(request@),
            Action::Exit => ActionView::Exit,
            Action::Fail(failure) => ActionView::Fail(failure),
            Action::Nothing => ActionView::Nothing,
        }
    }
}

impl ActionView {
    /// Whether the action sends anything over the network.
    pub open spec fn is_network_call(self) -> bool {
        self is FetchRecord || self is ResolveIp || self is PatchRecord
    }

    /// The status with which the process ends, where the action ends it: 0
    /// after a shutdown, 1 after a failure.
    pub open spec fn exit_status(self) -> Option<u8> {
        match self {
            ActionView::Exit => Some(0u8),
            ActionView::Fail(_) => Some(1u8),
            _ => None,
        }
    }
}

impl Action {
    /// The status with which the process ends, where the action ends it.
    pub fn exit_status(&self) -> (status: Option<u8>)
        ensures
            status == self@.exit_status(),
    {
        match self {
            Action::Exit => Some(0),
            Action::Fail(_) => Some(1),
            _ => None,
        }
    }

    /// Whether the action sends anything over the network.
    pub fn is_network_call(&self) -> (calls: bool)
        ensures
            calls == self@.is_network_call(),
    {
        match self {
            Action::FetchRecord(_) | Action::ResolveIp(_) | Action::PatchRecord(_) => true,
            _ => false,
        }
    }
}

impl StateView {
    /// Whether nothing can follow this state.
    pub open spec fn is_final(self) -> bool {
        self is Stopped || self is Failed
    }

    /// Whether `event` is the report that this state waits for: the end of
    /// the call that is under way, or the tick. A final state waits for
    /// nothing.
    pub open spec fn awaits(self, event: EventView) -> bool {
        match (self, event) {
            (StateView::Fetching, EventView::Fetched(_)) => true,
            (StateView::Waiting(_), EventView::Tick) => true,
            (StateView::Comparing(_), EventView::Resolved(_)) => true,
            (StateView::Updating(_), EventView::Patched(_)) => true,
            _ => false,
        }
    }

    /// The record that is held, where one is.
    pub open spec fn held_record(self) -> Option<DnsRecordView> {
        match self {
            StateView::Waiting(record) => Some(record),
            StateView::Comparing(record) => Some(record),
            StateView::Updating(record) => Some(record),
            _ => None,
        }
    }
}

impl Clone for State {
    fn clone(&self) -> (copy: Self)
        ensures
            copy == *self,
    {
        match self {
            State::Fetching => State::Fetching,
            State::Waiting(record) => State::Waiting(record.clone()),
            State::Comparing(record) => State::Comparing(record.clone()),
            State::Updating(record) => State::Updating(record.clone()),
            State::Stopped => State::Stopped,
            State::Failed(failure) => State::Failed(*failure),
        }
    }
}

impl Clone for Event {
    fn clone(&self) -> (copy: Self)
        ensures
            copy == *self,
    {
        match self {
            Event::Fetched(Ok(record)) => Event::Fetched(Ok(record.clone())),
            Event::Fetched(Err(error)) => Event::Fetched(Err(*error)),
            Event::Tick => Event::Tick,
            Event::Resolved(Ok(observation)) => Event::Resolved(Ok(observation.clone())),
            Event::Resolved(Err(error)) => Event::Resolved(Err(*error)),
            Event::Patched(Ok(record)) => Event::Patched(Ok(record.clone())),
            Event::Patched(Err(error)) => Event::Patched(Err(*error)),
        }
    }
}

impl Clone for Action {
    fn clone(&self) -> (copy: Self)
        ensures
            copy == *self,
    {
        match self {
            Action::FetchRecord(request) => Action::FetchRecord(request.clone()),
            Action::AwaitTick => Action::AwaitTick,
            Action::ResolveIp(request) => Action::ResolveIp(request.clone()),
            Action::PatchRecord(request) => Action::PatchRecord(request.clone()),
            Action::Exit => Action::Exit,
            Action::Fail(failure) => Action::Fail(*failure),
            Action::Nothing => Action::Nothing,
        }
    }
}

impl State {
    /// Whether nothing can follow this state.
    pub fn is_final(&self) -> (is_final: bool)
        ensures
            is_final == self@.is_final(),
    {
        match self {
            State::Stopped | State::Failed(_) => true,
            _ => false,
        }
    }

    /// The record that is held, where one is.
    pub fn held_record(&self) -> (held: Option<&DnsRecord>)
        ensures
            match held {
                Some(record) => self@.held_record() == Some(record@),
                None => self@.held_record() is None,
            },
    {
        match self {
            State::Waiting(record) | State::Comparing(record) | State::Updating(record) => Some(
                record,
            ),
            _ => None,
        }
    }

    /// Whether `event` is the report that this state waits for.
    pub fn awaits(&self, event: &Event) -> (awaited: bool)
        ensures
            awaited == self@.awaits(event@),
    {
        match (self, event) {
            (State::Fetching, Event::Fetched(_)) => true,
            (State::Waiting(_), Event::Tick) => true,
            (State::Comparing(_), Event::Resolved(_)) => true,
            (State::Updating(_), Event::Patched(_)) => true,
            _ => false,
        }
    }
}

/// Entering a cycle: with shutdown observed the reconciler stops, and
/// otherwise the record is fetched.
pub open spec fn enter_cycle(config: ConfigurationView, shutdown: bool) -> (StateView, ActionView) {
    if shutdown {
        (StateView::Stopped, ActionView::Exit)
    } else {
        (StateView::Fetching, ActionView::FetchRecord(fetch_request_for(config)))
    }
}

/// The work of a tick is done and the held record stays: with shutdown
/// observed the reconciler stops, and otherwise the next tick is awaited.
pub open spec fn end_tick(record: DnsRecordView, shutdown: bool) -> (StateView, ActionView) {
    if shutdown {
        (StateView::Stopped, ActionView::Exit)
    } else {
        (StateView::Waiting(record), ActionView::AwaitTick)
    }
}

/// A call inside a cycle has failed. Where the policy makes that fatal the
/// reconciler fails, whatever the shutdown flag says; where the policy skips
/// it, the tick's work is done.
pub open spec fn after_failure(
    policy: ErrorPolicy,
    failure: Failure,
    record: DnsRecordView,
    shutdown: bool,
) -> (StateView, ActionView) {
    match policy.disposition_of(failure.call) {
        Disposition::Fatal => (StateView::Failed(failure), ActionView::Fail(failure)),
        Disposition::Skip => end_tick(record, shutdown),
    }
}

/// The state machine: the state that follows `state` on `event`, and the
/// action to take, where `shutdown` is the shutdown flag as the driver read
/// it when it handed the event over.
pub open spec fn transition(
    config: ConfigurationView,
    policy: ErrorPolicy,
    state: StateView,
    event: EventView,
    shutdown: bool,
) -> (StateView, ActionView) {
    match (state, event) {
        (StateView::Fetching, EventView::Fetched(Ok(record))) => (
            StateView::Waiting(record),
            ActionView::AwaitTick,
        ),
        (StateView::Fetching, EventView::Fetched(Err(error))) => {
            let failure = Failure { call: Call::Fetch, error };
            (StateView::Failed(failure), ActionView::Fail(failure))
        },
        (StateView::Waiting(record), EventView::Tick) => if shutdown {
            (StateView::Stopped, ActionView::Exit)
        } else {
            (StateView::Comparing(record), ActionView::ResolveIp(resolve_request_for()))
        },
        (StateView::Comparing(record), EventView::Resolved(Ok(ip))) => match planned_patch(
            record,
            ip,
        ) {
            None => end_tick(record, shutdown),
            Some(patch) => (
                StateView::Updating(record),
                ActionView::PatchRecord(patch_request_for(config, patch)),
            ),
        },
        (StateView::Comparing(record), EventView::Resolved(Err(error))) => after_failure(
            policy,
            Failure { call: Call::Resolve, error },
            record,
            shutdown,
        ),
        (StateView::Updating(_), EventView::Patched(Ok(_))) => enter_cycle(
            config,
            shutdown,
        ),
        (StateView::Updating(record), EventView::Patched(Err(error))) => after_failure(
            policy,
            Failure { call: Call::Patch, error },
            record,
            shutdown,
        ),
        _ => (state, ActionView::Nothing),
    }
}

/// The reconciler: the configuration and the policy it was started with, and
/// the state it is in.
#[derive(Debug, PartialEq, Eq)]
pub struct Reconciler {
    config: Configuration,
    policy: ErrorPolicy,
    state: State,
}

/// What a [`Reconciler`] holds.
pub struct ReconcilerView {
    pub config: ConfigurationView,
    pub policy: ErrorPolicy,
    pub state: StateView,
}

impl ReconcilerView {
    /// The reconciler after `event`, and the action to take.
    pub open spec fn step(self, event: EventView, shutdown: bool) -> (ReconcilerView, ActionView) {
        let (state, action) = transition(self.config, self.policy, self.state, event, shutdown);
        (ReconcilerView { config: self.config, policy: self.policy, state }, action)
    }

    /// The reconciler as it starts, and the first action.
    pub open spec fn start(
        config: ConfigurationView,
        policy: ErrorPolicy,
        shutdown: bool,
    ) -> (ReconcilerView, ActionView) {
        let (state, action) = enter_cycle(config, shutdown);
        (ReconcilerView { config, policy, state }, action)
    }
}

impl View for Reconciler {
    type V = ReconcilerView;

    closed spec fn view(&self) -> ReconcilerView {
        ReconcilerView { config: self.config@, policy: self.policy, state: self.state@ }
    }
}

impl Clone for Reconciler {
    fn clone(&self) -> (copy: Self)
        ensures
            copy == *self,
    {
        Reconciler {
            config: self.config.clone(),
            policy: self.policy,
            state: self.state.clone(),
        }
    }
}

fn enter(config: &Configuration, shutdown: bool) -> (out: (State, Action))
    ensures
        (out.0@, out.1@) == enter_cycle(config@, shutdown),
{
    if shutdown {
        (State::Stopped, Action::Exit)
    } else {
        (State::Fetching, Action::FetchRecord(fetch_request(config)))
    }
}

fn rest(record: DnsRecord, shutdown: bool) -> (out: (State, Action))
    ensures
        (out.0@, out.1@) == end_tick(record@, shutdown),
{
    if shutdown {
        (State::Stopped, Action::Exit)
    } else {
        (State::Waiting(record), Action::AwaitTick)
    }
}

fn recover(policy: ErrorPolicy, failure: Failure, record: DnsRecord, shutdown: bool) -> (out: (
    State,
    Action,
))
    ensures
        (out.0@, out.1@) == after_failure(policy, failure, record@, shutdown),
{
    match policy.disposition(failure.call) {
        Disposition::Fatal => (State::Failed(failure), Action::Fail(failure)),
        Disposition::Skip => rest(record, shutdown),
    }
}

fn compare(config: &Configuration, record: DnsRecord, observed: IpResponse, shutdown: bool) -> (out:
    (State, Action))
    ensures
        (out.0@, out.1@) == (match planned_patch(record@, observed@) {
            None => end_tick(record@, shutdown),
            Some(patch) => (
                StateView::Updating(record@),
                ActionView::PatchRecord(patch_request_for(config@, patch)),
            ),
        }),
{
    match plan_update(&record, observed) {
        None => rest(record, shutdown),
        Some(patch) => (State::Updating(record), Action::PatchRecord(patch_request(config, patch))),
    }
}

impl Reconciler {
    /// Starts the reconciler: it enters its first cycle.
    pub fn start(config: Configuration, policy: ErrorPolicy, shutdown: bool) -> (out: (
        Reconciler,
        Action,
    ))
        ensures
            (out.0@, out.1@) == ReconcilerView::start(config@, policy, shutdown),
    {
        let (state, action) = enter(&config, shutdown);
        (Reconciler { config, policy, state }, action)
    }

    /// Takes one event, read together with the shutdown flag, and gives the
    /// reconciler that follows and the action to take.
    pub fn step(self, event: Event, shutdown: bool) -> (out: (Reconciler, Action))
        ensures
            (out.0@, out.1@) == self@.step(event@, shutdown),
    {
        let Reconciler { config, policy, state } = self;
        let (next, action) = match (state, event) {
            (State::Fetching, Event::Fetched(Ok(record))) => (
                State::Waiting(record),
                Action::AwaitTick,
            ),
            (State::Fetching, Event::Fetched(Err(error))) => {
                let failure = Failure { call: Call::Fetch, error };
                (State::Failed(failure), Action::Fail(failure))
            },
            (State::Waiting(record), Event::Tick) => {
                if shutdown {
                    (State::Stopped, Action::Exit)
                } else {
                    (State::Comparing(record), Action::ResolveIp(resolve_request()))
                }
            },
            (State::Comparing(record), Event::Resolved(Ok(observed))) => compare(
                &config,
                record,
                observed,
                shutdown,
            ),
            (State::Comparing(record), Event::Resolved(Err(error))) => recover(
                policy,
                Failure { call: Call::Resolve, error },
                record,
                shutdown,
            ),
            (State::Updating(_), Event::Patched(Ok(_))) => enter(&config, shutdown),
            (State::Updating(record), Event::Patched(Err(error))) => recover(
                policy,
                Failure { call: Call::Patch, error },
                record,
                shutdown,
            ),
            (state, _) => (state, Action::Nothing),
        };
        (Reconciler { config, policy, state: next }, action)
    }

    /// The state that the reconciler is in.
    pub fn state(&self) -> (state: &State)
        ensures
            state@ == self@.state,
    {
        &self.state
    }

    /// The configuration that the reconciler was started with.
    pub fn config(&self) -> (config: &Configuration)
        ensures
            config@ == self@.config,
    {
        &self.config
    }

    /// The policy that the reconciler was started with.
    pub fn policy(&self) -> (policy: ErrorPolicy)
        ensures
            policy == self@.policy,
    {
        self.policy
    }
}

/// Builds the configuration from the three values as the environment gave
/// them and starts the reconciler. Where a value is absent nothing is
/// started: no state, no action, no request.
pub fn launch(
    zone_id: Option<String>,
    dns_record_id: Option<String>,
    bearer_token: Option<String>,
    policy: ErrorPolicy,
    shutdown: bool,
) -> (launched: Result<(Reconciler, Action), ConfigError>)
    ensures
        match first_missing(zone_id, dns_record_id, bearer_token) {
            Some(variable) => launched == Err::<(Reconciler, Action), ConfigError>(
                ConfigError::Missing(variable),
            ),
            None => launched matches Ok(out) && (out.0@, out.1@) == ReconcilerView::start(
                (ConfigurationView {
                    zone_id: zone_id->Some_0@,
                    dns_record_id: dns_record_id->Some_0@,
                    bearer_token: bearer_token->Some_0@,
                }),
                policy,
                shutdown,
            ),
        },
{
    match Configuration::load(zone_id, dns_record_id, bearer_token) {
        Ok(config) => Ok(Reconciler::start(config, policy, shutdown)),
        Err(error) => Err(error),
    }
}

} // verus!
