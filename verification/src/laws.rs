//! What holds of supervised endpoints over time.

use vstd::prelude::*;

use crate::backoff::{
    backoff, backoff_doubles, backoff_is_bounded, INITIAL_RETRY_DELAY, MAX_RETRY_DELAY,
};
use crate::clock::Instant;
use crate::connect::{
    attempt_ends_with_first_failure, RenderEncoding, SshConnectOptions, SshSupervisorEventView,
    Surroundings,
};
use crate::endpoint::{ClientEndpointStatus, EndpointKey, SavedSshEndpoint};
use crate::filtering::{lemma_filter_all, lemma_filter_distinct, lemma_filter_rank};
use crate::remote::failure_needs_attention;
use crate::supervisor::{
    can_reschedule, due, enabled_keys, enabled_profile, one_more, rescheduled,
    retries, ProfileReconnectState, SupervisorsView, FIRST_GENERATION,
};
use crate::task::{
    task_next, task_reports_its_own_attempt, SshConnectTask, TaskReply, TaskStepView,
};

verus! {

/// Whether a generation has been given out. The largest number may be given out again and again.
pub open spec fn given_out(next_generation: u64, generation: u64) -> bool {
    &&& FIRST_GENERATION <= generation
    &&& generation < next_generation || generation == next_generation == u64::MAX
}

/// What every supervisor keeps, whatever is reported to it: an endpoint belongs to an enabled
/// profile of its own, a running attempt has a generation and no other attempt planned beside it,
/// and no two endpoints share a generation while generations last.
pub open spec fn consistent(v: SupervisorsView) -> bool {
    &&& v.listed()
    &&& FIRST_GENERATION <= v.next_generation
    &&& forall|key: EndpointKey| #[trigger]
        v.states.contains_key(key) ==> {
            let state = v.states[key];
            &&& state.profile.enabled
            &&& state.profile.key() == key
            &&& state.in_flight ==> state.next_attempt is None && state.generation is Some
            &&& state.generation matches Some(generation) ==> given_out(
                v.next_generation,
                generation,
            )
        }
    &&& forall|one: EndpointKey, other: EndpointKey|
        #![trigger v.states.contains_key(one), v.states.contains_key(other)]
        v.states.contains_key(one) && v.states.contains_key(other) && one != other
            && v.states[one].generation is Some && v.states[one].generation
            == v.states[other].generation ==> v.states[one].generation == Some(u64::MAX)
}

/// Every endpoint that a list of profiles yields has an enabled profile in it, and every enabled
/// profile yields its endpoint.
pub(crate) proof fn lemma_enabled(profiles: Seq<SavedSshEndpoint>)
    ensures
        enabled_keys(profiles).no_duplicates(),
        forall|key: EndpointKey| #[trigger]
            enabled_keys(profiles).contains(key) ==> profiles.contains(
                enabled_profile(profiles, key),
            ) && enabled_profile(profiles, key).enabled && enabled_profile(profiles, key).key()
                == key,
        forall|i: int|
            0 <= i < profiles.len() && (#[trigger] profiles[i]).enabled ==> enabled_keys(
                profiles,
            ).contains(profiles[i].key()),
    decreases profiles.len(),
{
    if profiles.len() > 0 {
        let rest = profiles.drop_last();
        lemma_enabled(rest);
        assert forall|key: EndpointKey| #[trigger]
            enabled_keys(profiles).contains(key) implies profiles.contains(
            enabled_profile(profiles, key),
        ) && enabled_profile(profiles, key).enabled && enabled_profile(profiles, key).key()
            == key by {
            if profiles.last().enabled && profiles.last().key() == key {
                assert(profiles[profiles.len() - 1] == profiles.last());
            } else {
                assert(enabled_keys(rest).contains(key));
                let j = rest.index_of(enabled_profile(rest, key));
                assert(profiles[j] == rest[j]);
            }
        }
        assert forall|i: int|
            0 <= i < profiles.len() && (#[trigger] profiles[i]).enabled implies enabled_keys(
            profiles,
        ).contains(profiles[i].key()) by {
            let earlier = enabled_keys(rest);
            let all = enabled_keys(profiles);
            if i < rest.len() {
                assert(rest[i] == profiles[i]);
                let j = earlier.index_of(profiles[i].key());
                assert(all[j] == profiles[i].key());
            } else if !earlier.contains(profiles[i].key()) {
                assert(all[earlier.len() as int] == profiles[i].key());
            }
        }
    }
}

/// A new supervisor is consistent.
pub proof fn new_supervisors_are_consistent(profiles: Seq<SavedSshEndpoint>, now: Instant)
    ensures
        consistent(SupervisorsView::initial(profiles, now)),
{
    lemma_enabled(profiles);
}

/// Starting what is due keeps a supervisor consistent.
pub proof fn starting_keeps_consistency(v: SupervisorsView, now: Instant)
    requires
        consistent(v),
    ensures
        consistent(v.spawned(now)),
{
    let pred = |key: EndpointKey| due(v.states[key], now);
    let started = v.due_keys(now);
    assert forall|key: EndpointKey| v.states.contains_key(key) && due(v.states[key], now) implies {
        let n = #[trigger] started.index_of(key);
        0 <= n < started.len() && started[n] == key
    } by {
        lemma_filter_rank(v.order, v.order.index_of(key), pred);
    }
}

/// Recording a status or a broken connection keeps a supervisor consistent.
pub proof fn reports_keep_consistency(
    v: SupervisorsView,
    key: EndpointKey,
    generation: u64,
    status: ClientEndpointStatus,
    now: Instant,
)
    requires
        consistent(v),
    ensures
        consistent(v.recorded(key, generation, status, now)),
        consistent(v.cut_off(key, now)),
{
}

/// Something that can happen to a supervisor.
pub enum Occurrence {
    /// What is due is started.
    Start { now: Instant },
    /// An attempt reports a status.
    Report {
        endpoint: EndpointKey,
        generation: u64,
        status: ClientEndpointStatus,
        now: Instant,
    },
    /// A connection breaks.
    Disconnect { endpoint: EndpointKey, now: Instant },
}

/// Whether an occurrence is about one endpoint by name.
pub open spec fn concerns(occurrence: Occurrence, key: EndpointKey) -> bool {
    match occurrence {
        Occurrence::Start { .. } => false,
        Occurrence::Report { endpoint, .. } => endpoint == key,
        Occurrence::Disconnect { endpoint, .. } => endpoint == key,
    }
}

/// The supervisor after one occurrence.
pub open spec fn after(v: SupervisorsView, occurrence: Occurrence) -> SupervisorsView {
    match occurrence {
        Occurrence::Start { now } => v.spawned(now),
        Occurrence::Report { endpoint, generation, status, now } => v.recorded(
            endpoint,
            generation,
            status,
            now,
        ),
        Occurrence::Disconnect { endpoint, now } => v.cut_off(endpoint, now),
    }
}

/// The supervisor after a history of occurrences.
pub open spec fn after_all(v: SupervisorsView, history: Seq<Occurrence>) -> SupervisorsView
    decreases history.len(),
{
    if history.len() == 0 {
        v
    } else {
        after(after_all(v, history.drop_last()), history.last())
    }
}

/// Whatever happens to a consistent supervisor, it stays consistent.
pub proof fn consistency_lasts(v: SupervisorsView, history: Seq<Occurrence>)
    requires
        consistent(v),
    ensures
        consistent(after_all(v, history)),
    decreases history.len(),
{
    if history.len() > 0 {
        let before = after_all(v, history.drop_last());
        consistency_lasts(v, history.drop_last());
        match history.last() {
            Occurrence::Start { now } => starting_keeps_consistency(before, now),
            Occurrence::Report { endpoint, generation, status, now } => reports_keep_consistency(
                before,
                endpoint,
                generation,
                status,
                now,
            ),
            Occurrence::Disconnect { endpoint, now } => reports_keep_consistency(
                before,
                endpoint,
                0,
                ClientEndpointStatus::Online,
                now,
            ),
        }
    }
}

/// Every state that a supervisor reaches through attempts that are started, reports and broken
/// connections is consistent.
pub proof fn every_state_is_consistent(
    profiles: Seq<SavedSshEndpoint>,
    start: Instant,
    history: Seq<Occurrence>,
)
    ensures
        consistent(after_all(SupervisorsView::initial(profiles, start), history)),
{
    new_supervisors_are_consistent(profiles, start);
    consistency_lasts(SupervisorsView::initial(profiles, start), history);
}

/// Whether no passing of time makes an endpoint due.
pub open spec fn resting(state: ProfileReconnectState) -> bool {
    state.in_flight || state.next_attempt is None
}

/// An endpoint that rests stays exactly as it is, and is never started, until a report or a broken
/// connection names it, whatever happens to the others.
pub proof fn resting_endpoints_stay_put(
    v: SupervisorsView,
    key: EndpointKey,
    history: Seq<Occurrence>,
    now: Instant,
)
    requires
        v.states.contains_key(key),
        resting(v.states[key]),
        forall|i: int| 0 <= i < history.len() ==> !concerns(#[trigger] history[i], key),
    ensures
        after_all(v, history).states.contains_key(key),
        after_all(v, history).states[key] == v.states[key],
        !after_all(v, history).due_keys(now).contains(key),
    decreases history.len(),
{
    let last = after_all(v, history);
    if history.len() > 0 {
        let rest = history.drop_last();
        assert forall|i: int| 0 <= i < rest.len() implies !concerns(#[trigger] rest[i], key) by {
            assert(rest[i] == history[i]);
        }
        resting_endpoints_stay_put(v, key, rest, now);
        assert(!concerns(history[history.len() - 1], key));
    }
    let pred = |other: EndpointKey| due(last.states[other], now);
    if last.due_keys(now).contains(key) {
        last.order.lemma_filter_pred(pred, last.due_keys(now).index_of(key));
    }
}

/// Attention, like any other status that is not a failure to be retried, ends the background
/// retries of an endpoint: however much time passes and whatever happens to the others, it is not
/// started again until a report or a broken connection names it.
pub proof fn attention_ends_retries(
    v: SupervisorsView,
    key: EndpointKey,
    generation: u64,
    status: ClientEndpointStatus,
    at: Instant,
    history: Seq<Occurrence>,
    now: Instant,
)
    requires
        v.current(key, generation),
        !retries(status),
        forall|i: int| 0 <= i < history.len() ==> !concerns(#[trigger] history[i], key),
    ensures
        ({
            let told = v.recorded(key, generation, status, at);
            &&& !after_all(told, history).states[key].in_flight
            &&& after_all(told, history).states[key].next_attempt is None
            &&& !after_all(told, history).due_keys(now).contains(key)
        }),
{
    resting_endpoints_stay_put(v.recorded(key, generation, status, at), key, history, now);
}

/// An endpoint that has been started is not started a second time before it is heard of again.
pub proof fn one_attempt_at_a_time(
    v: SupervisorsView,
    key: EndpointKey,
    at: Instant,
    history: Seq<Occurrence>,
    now: Instant,
)
    requires
        v.listed(),
        v.due_keys(at).contains(key),
        forall|i: int| 0 <= i < history.len() ==> !concerns(#[trigger] history[i], key),
    ensures
        after_all(v.spawned(at), history).states[key].in_flight,
        !after_all(v.spawned(at), history).due_keys(now).contains(key),
{
    lemma_due(v, key, at);
    resting_endpoints_stay_put(v.spawned(at), key, history, now);
}

/// The endpoints that are due are supervised, and are those whose state says so.
pub(crate) proof fn lemma_due(v: SupervisorsView, key: EndpointKey, now: Instant)
    requires
        v.listed(),
    ensures
        v.due_keys(now).contains(key) <==> v.states.contains_key(key) && due(v.states[key], now),
        v.due_keys(now).contains(key) ==> 0 <= v.due_keys(now).index_of(key)
            < v.due_keys(now).len(),
{
    let pred = |other: EndpointKey| due(v.states[other], now);
    if v.due_keys(now).contains(key) {
        v.order.lemma_filter_contains_rev(pred, key);
        v.order.lemma_filter_pred(pred, v.due_keys(now).index_of(key));
    }
    if v.states.contains_key(key) && due(v.states[key], now) {
        v.order.lemma_filter_contains(pred, v.order.index_of(key));
    }
}

/// Once everything that is due at a time has been started, starting what is due at that time or
/// before it starts nothing more and changes nothing.
pub proof fn starting_again_changes_nothing(v: SupervisorsView, now: Instant, second: Instant)
    requires
        v.listed(),
        second <= now,
    ensures
        v.spawned(now).due_keys(second).len() == 0,
        v.spawned(now).spawned(second) == v.spawned(now),
{
    let started = v.spawned(now);
    if started.due_keys(second).len() > 0 {
        let key = started.due_keys(second)[0];
        assert(started.due_keys(second).contains(key));
        lemma_due(started, key, second);
    }
    assert(started.spawned(second) =~= started);
}

/// After a failure the endpoint is due from the end of the wait on and not before. The wait is
/// never shorter than the initial one nor longer than the longest one.
pub proof fn failures_wait(state: ProfileReconnectState, at: Instant, now: Instant)
    requires
        can_reschedule(state, at),
    ensures
        due(rescheduled(state, at), now) <==> at + backoff(one_more(state.attempts) as nat) <= now,
        due(rescheduled(state, at), now) ==> at + INITIAL_RETRY_DELAY <= now,
        at + MAX_RETRY_DELAY <= now ==> due(rescheduled(state, at), now),
{
    backoff_is_bounded(one_more(state.attempts) as nat);
}

/// Once an endpoint has been online, its next failure counts as the first again, whatever happened
/// to the others in between and however often attempts were started: a connection that breaks, or a
/// failure that the same attempt reports, waits the initial time.
pub proof fn online_forgets_failures(
    v: SupervisorsView,
    key: EndpointKey,
    generation: u64,
    online: Instant,
    history: Seq<Occurrence>,
    status: ClientEndpointStatus,
    at: Instant,
)
    requires
        v.current(key, generation),
        forall|i: int| 0 <= i < history.len() ==> !concerns(#[trigger] history[i], key),
        retries(status),
        at + INITIAL_RETRY_DELAY <= u128::MAX,
    ensures
        ({
            let since = after_all(
                v.recorded(key, generation, ClientEndpointStatus::Online, online),
                history,
            );
            let broken = since.cut_off(key, at).states[key];
            let failed = since.recorded(key, generation, status, at).states[key];
            &&& broken.attempts == 1
            &&& broken.next_attempt is Some
            &&& broken.next_attempt->0 == at + INITIAL_RETRY_DELAY
            &&& failed == broken
        }),
{
    resting_endpoints_stay_put(
        v.recorded(key, generation, ClientEndpointStatus::Online, online),
        key,
        history,
        at,
    );
    backoff_doubles(0);
}

/// Whether an occurrence is a failure of an endpoint: its connection breaks, or its latest attempt
/// reports a status that is retried.
pub open spec fn fails(v: SupervisorsView, occurrence: Occurrence, key: EndpointKey) -> bool {
    match occurrence {
        Occurrence::Start { .. } => false,
        Occurrence::Report { endpoint, generation, status, .. } => endpoint == key && v.current(
            key,
            generation,
        ) && retries(status),
        Occurrence::Disconnect { endpoint, .. } => endpoint == key,
    }
}

/// Whether an occurrence is the latest attempt of an endpoint reporting that it is online.
pub open spec fn succeeds(v: SupervisorsView, occurrence: Occurrence, key: EndpointKey) -> bool {
    occurrence matches Occurrence::Report { endpoint, generation, status, .. } && endpoint == key
        && v.current(key, generation) && status == ClientEndpointStatus::Online
}

/// The number of failures in a row with which a history ends, counted on from those before it.
pub open spec fn failures_in_a_row(
    v: SupervisorsView,
    history: Seq<Occurrence>,
    key: EndpointKey,
) -> nat
    decreases history.len(),
{
    if history.len() == 0 {
        v.states[key].attempts as nat
    } else {
        let before = after_all(v, history.drop_last());
        let earlier = failures_in_a_row(v, history.drop_last(), key);
        if fails(before, history.last(), key) {
            earlier + 1
        } else if succeeds(before, history.last(), key) {
            0
        } else {
            earlier
        }
    }
}

/// A number of failures, as far as it can be counted.
pub open spec fn counted(failures: nat) -> u32 {
    if failures < u32::MAX {
        failures as u32
    } else {
        u32::MAX
    }
}

/// The time of an occurrence.
pub open spec fn time_of(occurrence: Occurrence) -> Instant {
    match occurrence {
        Occurrence::Start { now } => now,
        Occurrence::Report { now, .. } => now,
        Occurrence::Disconnect { now, .. } => now,
    }
}

/// The failures in a row are counted, whatever lies between them: only being online starts the
/// count anew. A failure waits as long as its number asks for.
pub proof fn failures_add_up(v: SupervisorsView, history: Seq<Occurrence>, key: EndpointKey)
    requires
        v.states.contains_key(key),
    ensures
        after_all(v, history).states.contains_key(key),
        after_all(v, history).states[key].attempts == counted(failures_in_a_row(v, history, key)),
        history.len() > 0 && fails(after_all(v, history.drop_last()), history.last(), key)
            && time_of(history.last()) + backoff(
            counted(failures_in_a_row(v, history, key)) as nat,
        ) <= u128::MAX ==> {
            let state = after_all(v, history).states[key];
            &&& state.next_attempt is Some
            &&& state.next_attempt->0 == time_of(history.last()) + backoff(
                counted(failures_in_a_row(v, history, key)) as nat,
            )
        },
    decreases history.len(),
{
    if history.len() > 0 {
        failures_add_up(v, history.drop_last(), key);
    }
}

/// How often an endpoint's connection breaks in a history.
pub open spec fn disconnects(history: Seq<Occurrence>, key: EndpointKey) -> nat
    decreases history.len(),
{
    if history.len() == 0 {
        0
    } else {
        disconnects(history.drop_last(), key) + if history.last() matches Occurrence::Disconnect {
            endpoint,
            ..
        } && endpoint == key {
            1nat
        } else {
            0nat
        }
    }
}

/// From the start on, broken connections in a row are counted with any number of starts between
/// them, as long as no attempt of the endpoint reports anything.
pub proof fn broken_connections_add_up(
    profiles: Seq<SavedSshEndpoint>,
    start: Instant,
    history: Seq<Occurrence>,
    key: EndpointKey,
)
    requires
        enabled_keys(profiles).contains(key),
        forall|i: int|
            0 <= i < history.len() && concerns(#[trigger] history[i], key) ==> history[i]
                is Disconnect,
    ensures
        after_all(SupervisorsView::initial(profiles, start), history).states.contains_key(key),
        after_all(SupervisorsView::initial(profiles, start), history).states[key].attempts
            == counted(disconnects(history, key)),
{
    let v = SupervisorsView::initial(profiles, start);
    failures_add_up(v, history, key);
    lemma_only_disconnects(v, history, key);
}

/// Where an endpoint is named only by broken connections, those are its failures.
proof fn lemma_only_disconnects(v: SupervisorsView, history: Seq<Occurrence>, key: EndpointKey)
    requires
        forall|i: int|
            0 <= i < history.len() && concerns(#[trigger] history[i], key) ==> history[i]
                is Disconnect,
    ensures
        failures_in_a_row(v, history, key) == v.states[key].attempts + disconnects(history, key),
    decreases history.len(),
{
    if history.len() > 0 {
        let rest = history.drop_last();
        assert forall|i: int| 0 <= i < rest.len() && concerns(#[trigger] rest[i], key) implies rest[
            i
        ] is Disconnect by {
            assert(rest[i] == history[i]);
        }
        lemma_only_disconnects(v, rest, key);
        assert(concerns(history[history.len() - 1], key) ==> history.last() is Disconnect);
    }
}

/// Every enabled profile, and no other, is tried at once after the start.
pub proof fn enabled_profiles_start_at_once(
    profiles: Seq<SavedSshEndpoint>,
    start: Instant,
    now: Instant,
)
    requires
        start <= now,
    ensures
        SupervisorsView::initial(profiles, start).due_keys(now) == enabled_keys(profiles),
        forall|i: int|
            0 <= i < profiles.len() && (#[trigger] profiles[i]).enabled ==> enabled_keys(
                profiles,
            ).contains(profiles[i].key()),
        forall|key: EndpointKey| #[trigger]
            enabled_keys(profiles).contains(key) ==> exists|i: int|
                0 <= i < profiles.len() && (#[trigger] profiles[i]).enabled && profiles[i].key()
                    == key,
{
    let v = SupervisorsView::initial(profiles, start);
    let pred = |key: EndpointKey| due(v.states[key], now);
    lemma_enabled(profiles);
    lemma_filter_all(v.order, pred);
    assert forall|key: EndpointKey| #[trigger] enabled_keys(profiles).contains(key) implies exists|
        i: int,
    |
        0 <= i < profiles.len() && (#[trigger] profiles[i]).enabled && profiles[i].key() == key by {
        let i = profiles.index_of(enabled_profile(profiles, key));
        assert(profiles[i].enabled && profiles[i].key() == key);
    }
}

/// A planned attempt does not start before its time: as long as things are started only earlier,
/// and nothing names the endpoint, its plan stands.
pub proof fn nothing_starts_early(
    v: SupervisorsView,
    key: EndpointKey,
    deadline: Instant,
    history: Seq<Occurrence>,
)
    requires
        v.states.contains_key(key),
        v.states[key].next_attempt == Some(deadline),
        forall|i: int| 0 <= i < history.len() ==> !concerns(#[trigger] history[i], key),
        forall|i: int|
            0 <= i < history.len() ==> (#[trigger] history[i] matches Occurrence::Start { now }
                ==> now < deadline),
    ensures
        after_all(v, history).states.contains_key(key),
        after_all(v, history).states[key] == v.states[key],
    decreases history.len(),
{
    if history.len() > 0 {
        let rest = history.drop_last();
        assert forall|i: int| 0 <= i < rest.len() implies !concerns(#[trigger] rest[i], key) && (
        rest[i] matches Occurrence::Start { now } ==> now < deadline) by {
            assert(rest[i] == history[i]);
        }
        nothing_starts_early(v, key, deadline, rest);
        assert(!concerns(history[history.len() - 1], key));
    }
}

/// Generations only grow, those that are still to be given out and those of each endpoint.
pub proof fn generations_grow(
    v: SupervisorsView,
    key: EndpointKey,
    generation: u64,
    history: Seq<Occurrence>,
)
    requires
        consistent(v),
        v.current(key, generation),
    ensures
        v.next_generation <= after_all(v, history).next_generation,
        after_all(v, history).states.contains_key(key),
        after_all(v, history).states[key].generation is Some,
        generation <= after_all(v, history).states[key].generation->0,
    decreases history.len(),
{
    if history.len() > 0 {
        let before = after_all(v, history.drop_last());
        generations_grow(v, key, generation, history.drop_last());
        consistency_lasts(v, history.drop_last());
        if let Occurrence::Start { now } = history.last() {
            lemma_due(before, key, now);
        }
    }
}

/// Once a new attempt has been started, what an older attempt of the same endpoint reports is never
/// heeded again, as long as generations last.
pub proof fn old_attempts_are_never_heeded(
    v: SupervisorsView,
    key: EndpointKey,
    generation: u64,
    at: Instant,
    history: Seq<Occurrence>,
    status: ClientEndpointStatus,
    now: Instant,
)
    requires
        consistent(v),
        v.current(key, generation),
        v.due_keys(at).contains(key),
        after_all(v.spawned(at), history).next_generation < u64::MAX,
    ensures
        ({
            let w = after_all(v.spawned(at), history);
            &&& !w.current(key, generation)
            &&& w.recorded(key, generation, status, now) == w
        }),
{
    lemma_due(v, key, at);
    starting_keeps_consistency(v, at);
    let fresh_generation = v.generation_after(v.due_keys(at).index_of(key));
    generations_grow(v.spawned(at), key, fresh_generation, history);
}

/// A report or a broken connection changes nothing but the endpoint that it is about.
pub proof fn endpoints_do_not_interfere(
    v: SupervisorsView,
    occurrence: Occurrence,
    other: EndpointKey,
)
    requires
        !concerns(occurrence, other),
        occurrence !is Start,
    ensures
        after(v, occurrence).order == v.order,
        after(v, occurrence).next_generation == v.next_generation,
        after(v, occurrence).states.contains_key(other) == v.states.contains_key(other),
        v.states.contains_key(other) ==> after(v, occurrence).states[other] == v.states[other],
{
}

/// What a started task reports is heeded: the event that comes of its attempt carries the endpoint
/// and the generation under which the attempt was started, whatever became of it.
pub proof fn reports_of_started_tasks_count<S, R, W, N>(
    v: SupervisorsView,
    task: SshConnectTask<S>,
    n: int,
    at: Instant,
    options: SshConnectOptions<S>,
    surroundings: Surroundings<R, W, N>,
    reply: TaskReply<R, W, N>,
)
    requires
        v.listed(),
        0 <= n < v.due_keys(at).len(),
        v.starts(task, n, at, options),
        task.ends_with(surroundings, reply),
    ensures
        task_next(task.endpoint_id@, task.generation, reply) matches TaskStepView::Report(event)
            && v.spawned(at).current(event.endpoint(), event.generation()),
{
    let key = v.due_keys(at)[n];
    let pred = |other: EndpointKey| due(v.states[other], at);
    assert(v.due_keys(at).contains(key));
    lemma_due(v, key, at);
    lemma_filter_distinct(v.order, pred);
    task_reports_its_own_attempt(task, surroundings, reply);
}

/// A server whose failure needs a person is left alone: its task reports `Attention`, and once that
/// is recorded no passing of time starts the endpoint again.
pub proof fn unfit_servers_are_left_alone<S, R, W, N>(
    v: SupervisorsView,
    task: SshConnectTask<S>,
    n: int,
    at: Instant,
    options: SshConnectOptions<S>,
    surroundings: Surroundings<R, W, N>,
    reply: TaskReply<R, W, N>,
    told: Instant,
    history: Seq<Occurrence>,
    now: Instant,
)
    requires
        v.listed(),
        0 <= n < v.due_keys(at).len(),
        v.starts(task, n, at, options),
        task.ends_with(surroundings, reply),
        reply matches TaskReply::Failed { needs_attention, .. } && needs_attention,
        forall|i: int|
            0 <= i < history.len() ==> !concerns(#[trigger] history[i], task.endpoint_id@),
    ensures
        task_next(task.endpoint_id@, task.generation, reply) matches TaskStepView::Report(
            SshSupervisorEventView::Status { endpoint, generation, status, .. },
        ) && {
            let heard = v.spawned(at).recorded(endpoint, generation, status, told);
            &&& status == ClientEndpointStatus::Attention
            &&& endpoint == task.endpoint_id@
            &&& !after_all(heard, history).due_keys(now).contains(endpoint)
        },
{
    task_reports_its_own_attempt(task, surroundings, reply);
    reports_of_started_tasks_count(v, task, n, at, options, surroundings, reply);
    attention_ends_retries(
        v.spawned(at),
        task.endpoint_id@,
        task.generation,
        ClientEndpointStatus::Attention,
        told,
        history,
        now,
    );
}

/// Whether a server says that it cannot serve this client: it refuses the handshake, or it speaks
/// the right encoding and lacks what the client needs.
pub open spec fn refuses<R, W, N>(surroundings: Surroundings<R, W, N>) -> bool {
    &&& surroundings.connect is Ok
    &&& match surroundings.handshake {
        Err(error) => error is HandshakeRejected,
        Ok(handshake) => handshake.encoding == RenderEncoding::SemanticFrame
            && !surroundings.compatible(),
    }
}

/// A server that refuses the client, or lacks what it needs, is left alone where failures are
/// judged by the rule that is assumed of them.
pub proof fn refusing_servers_are_left_alone<S, R, W, N>(
    v: SupervisorsView,
    task: SshConnectTask<S>,
    n: int,
    at: Instant,
    options: SshConnectOptions<S>,
    surroundings: Surroundings<R, W, N>,
    reply: TaskReply<R, W, N>,
    told: Instant,
    history: Seq<Occurrence>,
    now: Instant,
)
    requires
        v.listed(),
        0 <= n < v.due_keys(at).len(),
        v.starts(task, n, at, options),
        task.ends_with(surroundings, reply),
        refuses(surroundings),
        reply matches TaskReply::Failed { error, needs_attention, .. } && needs_attention
            == failure_needs_attention(error@),
        forall|i: int|
            0 <= i < history.len() ==> !concerns(#[trigger] history[i], task.endpoint_id@),
    ensures
        task_next(task.endpoint_id@, task.generation, reply) matches TaskStepView::Report(
            SshSupervisorEventView::Status { endpoint, generation, status, .. },
        ) && {
            let heard = v.spawned(at).recorded(endpoint, generation, status, told);
            &&& status == ClientEndpointStatus::Attention
            &&& endpoint == task.endpoint_id@
            &&& !after_all(heard, history).due_keys(now).contains(endpoint)
        },
{
    attempt_ends_with_first_failure(
        surroundings,
        task.profile,
        task.options,
        task.endpoint_id@,
        task.generation,
    );
    unfit_servers_are_left_alone(
        v,
        task,
        n,
        at,
        options,
        surroundings,
        reply,
        told,
        history,
        now,
    );
}

/// Any other failure is retried in the background: the task reports `Reconnecting`, and once that
/// is recorded the endpoint is due again no earlier than after the initial wait and no later than
/// after the longest one.
pub proof fn other_failures_are_retried<S, R, W, N>(
    v: SupervisorsView,
    task: SshConnectTask<S>,
    n: int,
    at: Instant,
    options: SshConnectOptions<S>,
    surroundings: Surroundings<R, W, N>,
    reply: TaskReply<R, W, N>,
    told: Instant,
    now: Instant,
)
    requires
        v.listed(),
        0 <= n < v.due_keys(at).len(),
        v.starts(task, n, at, options),
        task.ends_with(surroundings, reply),
        reply is Aborted || (reply matches TaskReply::Failed { needs_attention, .. }
            && !needs_attention),
        can_reschedule(v.states[task.endpoint_id@], told),
    ensures
        task_next(task.endpoint_id@, task.generation, reply) matches TaskStepView::Report(
            SshSupervisorEventView::Status { endpoint, generation, status, .. },
        ) && {
            let heard = v.spawned(at).recorded(endpoint, generation, status, told);
            &&& status == ClientEndpointStatus::Reconnecting
            &&& endpoint == task.endpoint_id@
            &&& heard.due_keys(now).contains(endpoint) ==> told + INITIAL_RETRY_DELAY <= now
            &&& told + MAX_RETRY_DELAY <= now ==> heard.due_keys(now).contains(endpoint)
        },
{
    let key = task.endpoint_id@;
    task_reports_its_own_attempt(task, surroundings, reply);
    reports_of_started_tasks_count(v, task, n, at, options, surroundings, reply);
    assert(v.due_keys(at).contains(key));
    lemma_due(v, key, at);
    let running = v.spawned(at);
    let heard = running.recorded(key, task.generation, ClientEndpointStatus::Reconnecting, told);
    failures_wait(running.states[key], told, now);
    assert(heard.listed());
    lemma_due(heard, key, now);
}

} // verus!
