//! What holds of the reconciler whatever it is told: the laws that the state
//! machine obeys, each stated over its model and proved.

use vstd::prelude::*;

use crate::client::{
    record_url, ClientError, Method, RequestView, REQUEST_TIMEOUT_SECONDS,
};
use crate::config::ConfigurationView;
use crate::reconciler::{
    enter_cycle, transition, ActionView, ErrorPolicy, EventView, ReconcilerView, StateView,
};
use crate::record::{provenance_comment, DnsPatchRequestView, DnsRecordView};

verus! {

impl ReconcilerView {
    /// The reconciler after a whole sequence of reports, each an event and the
    /// shutdown flag as read with it.
    pub open spec fn run(self, reports: Seq<(EventView, bool)>) -> ReconcilerView
        decreases reports.len(),
    {
        if reports.len() == 0 {
            self
        } else {
            self.run(reports.drop_last()).step(reports.last().0, reports.last().1).0
        }
    }

    /// The action that answers the report at `index`, after those before it.
    pub open spec fn action_at(self, reports: Seq<(EventView, bool)>, index: int) -> ActionView {
        self.run(reports.take(index)).step(reports[index].0, reports[index].1).1
    }
}

/// The configuration and the policy are for life: no report changes them, so
/// every request of a run goes to the record that the reconciler was started
/// for, under the credential it was started with.
pub proof fn a_run_keeps_configuration_and_policy(
    start: ReconcilerView,
    reports: Seq<(EventView, bool)>,
)
    ensures
        start.run(reports).config == start.config,
        start.run(reports).policy == start.policy,
    decreases reports.len(),
{
    if reports.len() > 0 {
        a_run_keeps_configuration_and_policy(start, reports.drop_last());
    }
}

/// The comparison decides the write. With a record held and an address
/// observed, no write goes out where the address is the record's content
/// already, and nothing else is sent either. Where they differ, exactly one
/// action follows, and it is the write to the record's address that carries
/// the observed address as content, the provenance comment, and every other
/// field as the held record has it.
pub proof fn comparison_decides_the_write(
    config: ConfigurationView,
    policy: ErrorPolicy,
    record: DnsRecordView,
    ip: Seq<char>,
    shutdown: bool,
)
    ensures
        ({
            let (next, action) = transition(
                config,
                policy,
                StateView::Comparing(record),
                EventView::Resolved(Ok(ip)),
                shutdown,
            );
            &&& ip == record.content ==> !action.is_network_call() && (next is Waiting
                || next is Stopped)
            &&& ip != record.content ==> next == StateView::Updating(record) && action
                == ActionView::PatchRecord(
                (RequestView {
                    method: Method::Patch,
                    url: record_url(config),
                    bearer_token: Some(config.bearer_token),
                    body: Some(
                        (DnsPatchRequestView {
                            id: record.id,
                            comment: Some(provenance_comment()),
                            name: record.name,
                            proxied: record.proxied,
                            ttl: record.ttl,
                            content: ip,
                            type_field: record.type_field,
                        }),
                    ),
                    timeout_seconds: REQUEST_TIMEOUT_SECONDS,
                }),
            )
        }),
{
}

/// No write without a difference. Whenever the reconciler asks for a write,
/// it has just compared an observed address with the held record, the two
/// differ, and the write carries the observed address: content that the
/// provider already stores is never written again.
pub proof fn writes_carry_a_change(
    config: ConfigurationView,
    policy: ErrorPolicy,
    state: StateView,
    event: EventView,
    shutdown: bool,
)
    requires
        transition(config, policy, state, event, shutdown).1 is PatchRecord,
    ensures
        ({
            let request = transition(config, policy, state, event, shutdown).1->PatchRecord_0;
            &&& state is Comparing
            &&& event matches EventView::Resolved(Ok(ip))
            &&& request.body matches Some(patch)
            &&& patch.content == ip
            &&& patch.content != state->Comparing_0.content
        }),
{
}

/// A write ends the cycle. Once the provider has confirmed a write the
/// reconciler holds no record any more: it enters a new cycle, which begins
/// with a fetch, or stops where shutdown was observed.
pub proof fn a_write_ends_the_cycle(
    config: ConfigurationView,
    policy: ErrorPolicy,
    record: DnsRecordView,
    confirmed: DnsRecordView,
    shutdown: bool,
)
    ensures
        transition(
            config,
            policy,
            StateView::Updating(record),
            EventView::Patched(Ok(confirmed)),
            shutdown,
        ) == enter_cycle(config, shutdown),
        enter_cycle(config, shutdown).0.held_record() is None,
        !shutdown ==> enter_cycle(config, shutdown).1 is FetchRecord,
{
}

/// A record is held only as it was fetched. The record that follows a step is
/// the one held before it, or the one that a fetch has just delivered: the
/// reconciler never makes up content, and never takes it from what it sent.
pub proof fn a_step_keeps_or_fetches(
    config: ConfigurationView,
    policy: ErrorPolicy,
    state: StateView,
    event: EventView,
    shutdown: bool,
)
    ensures
        match transition(config, policy, state, event, shutdown).0.held_record() {
            Some(record) => state.held_record() == Some(record) || (state is Fetching && event
                == EventView::Fetched(Ok::<DnsRecordView, ClientError>(record))),
            None => true,
        },
{
}

/// The same of a whole run: a record held at its end was held at its start
/// or was delivered by a fetch during the run.
pub proof fn a_run_keeps_or_fetches(start: ReconcilerView, reports: Seq<(EventView, bool)>)
    ensures
        match start.run(reports).state.held_record() {
            Some(record) => start.state.held_record() == Some(record) || exists|i: int|
                0 <= i < reports.len() && (#[trigger] reports[i]).0 == EventView::Fetched(
                    Ok::<DnsRecordView, ClientError>(record),
                ),
            None => true,
        },
    decreases reports.len(),
{
    if reports.len() > 0 {
        let earlier = reports.drop_last();
        let before = start.run(earlier);
        a_run_keeps_or_fetches(start, earlier);
        a_step_keeps_or_fetches(
            before.config,
            before.policy,
            before.state,
            reports.last().0,
            reports.last().1,
        );
        if let Some(record) = start.run(reports).state.held_record() {
            if before.state.held_record() == Some(record) {
                if start.state.held_record() != Some(record) {
                    let i = choose|i: int|
                        0 <= i < earlier.len() && (#[trigger] earlier[i]).0 == EventView::Fetched(
                            Ok::<DnsRecordView, ClientError>(record),
                        );
                    assert(reports[i] == earlier[i]);
                }
            } else {
                assert(reports[reports.len() - 1] == reports.last());
            }
        }
    }
}

/// No comparison across a write. After a confirmed write, whatever is
/// reported next and however long the run, a record that the reconciler
/// holds, and so any record that it compares an address with, was delivered
/// by a fetch made after that write.
pub proof fn a_fetch_follows_every_write(
    before: ReconcilerView,
    confirmed: DnsRecordView,
    shutdown: bool,
    reports: Seq<(EventView, bool)>,
)
    requires
        before.state is Updating,
    ensures
        match before.step(EventView::Patched(Ok(confirmed)), shutdown).0.run(
            reports,
        ).state.held_record() {
            Some(record) => exists|i: int|
                0 <= i < reports.len() && (#[trigger] reports[i]).0 == EventView::Fetched(
                    Ok::<DnsRecordView, ClientError>(record),
                ),
            None => true,
        },
{
    a_run_keeps_or_fetches(before.step(EventView::Patched(Ok(confirmed)), shutdown).0, reports);
}

/// Every report in turn is answered, and no other. The reconciler ignores an
/// event exactly where its state does not wait for that event; it then stays
/// as it is. An event that is awaited always gets an action.
pub proof fn only_events_out_of_turn_are_ignored(
    config: ConfigurationView,
    policy: ErrorPolicy,
    state: StateView,
    event: EventView,
    shutdown: bool,
)
    ensures
        transition(config, policy, state, event, shutdown).1 is Nothing <==> !state.awaits(event),
        !state.awaits(event) ==> transition(config, policy, state, event, shutdown).0 == state,
{
}

/// Each action says what comes next. The state that follows a step waits for
/// the report that the action asks for, and a final state follows exactly the
/// two actions that end the process: a driver that does what it is told, and
/// reports it, is never ignored.
pub proof fn each_action_names_what_is_awaited(
    config: ConfigurationView,
    policy: ErrorPolicy,
    state: StateView,
    event: EventView,
    shutdown: bool,
)
    ensures
        ({
            let (next, action) = transition(config, policy, state, event, shutdown);
            &&& action is FetchRecord ==> next is Fetching
            &&& action is AwaitTick ==> next is Waiting
            &&& action is ResolveIp ==> next is Comparing
            &&& action is PatchRecord ==> next is Updating
            &&& action is Exit ==> next is Stopped
            &&& action is Fail ==> next == StateView::Failed(action->Fail_0)
            &&& action.exit_status() is Some ==> next.is_final()
        }),
{
}

/// Nothing follows a final state. Once stopped or failed, the reconciler
/// stays as it is whatever it is told, and asks for nothing: no tick, no
/// request.
pub proof fn nothing_follows_a_final_state(last: ReconcilerView, reports: Seq<(EventView, bool)>)
    requires
        last.state.is_final(),
    ensures
        last.run(reports) == last,
        forall|i: int|
            0 <= i < reports.len() ==> #[trigger] last.action_at(reports, i) == ActionView::Nothing,
    decreases reports.len(),
{
    if reports.len() > 0 {
        nothing_follows_a_final_state(last, reports.drop_last());
        assert forall|i: int| 0 <= i < reports.len() implies #[trigger] last.action_at(reports, i)
            == ActionView::Nothing by {
            nothing_follows_a_final_state(last, reports.take(i));
        }
    }
}

/// Shutdown at a tick stops everything. Where the shutdown flag is set when a
/// tick fires, the reconciler does not ask for the address: it stops, tells
/// the driver to exit with success, and from then on asks for nothing,
/// whatever it is told.
pub proof fn shutdown_at_a_tick_stops(
    waiting: ReconcilerView,
    reports: Seq<(EventView, bool)>,
)
    requires
        waiting.state is Waiting,
    ensures
        ({
            let (stopped, action) = waiting.step(EventView::Tick, true);
            &&& action == ActionView::Exit
            &&& action.exit_status() == Some(0u8)
            &&& stopped.state == StateView::Stopped
            &&& stopped.run(reports) == stopped
            &&& forall|i: int|
                0 <= i < reports.len() ==> #[trigger] stopped.action_at(reports, i)
                    == ActionView::Nothing
        }),
{
    nothing_follows_a_final_state(waiting.step(EventView::Tick, true).0, reports);
}

/// With shutdown observed, no cycle begins and no address is asked for. The
/// one request that can still go out is the write that a comparison under way
/// calls for.
pub proof fn shutdown_starts_nothing(
    config: ConfigurationView,
    policy: ErrorPolicy,
    state: StateView,
    event: EventView,
)
    ensures
        !(transition(config, policy, state, event, true).1 is FetchRecord),
        !(transition(config, policy, state, event, true).1 is ResolveIp),
        !(ReconcilerView::start(config, policy, true).1.is_network_call()),
        ReconcilerView::start(config, policy, true).0.state == StateView::Stopped,
{
}

} // verus!
