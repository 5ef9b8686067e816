//! What each operation on a supervisor does, told by what goes in and what comes out.

use vstd::prelude::*;

use crate::backoff::{backoff, backoff_is_bounded};
use crate::clock::Instant;
use crate::connect::{connect_once, ConnectReply, ConnectStep, SshConnectOptions};
use crate::endpoint::{ClientEndpointId, ClientEndpointStatus, EndpointKey, SavedSshEndpoint};
use crate::filtering::lemma_filter_distinct;
use crate::laws::{after, after_all, lemma_due, lemma_enabled, Occurrence};
use crate::supervisor::{
    due, enabled_keys, enabled_profile, ProfileReconnectState, SshSupervisors, SupervisorsView,
};
use crate::task::SshConnectTask;

verus! {

/// The profile that counts for an endpoint is the last enabled one.
proof fn lemma_last_enabled(profiles: Seq<SavedSshEndpoint>, i: int)
    requires
        0 <= i < profiles.len(),
        profiles[i].enabled,
        forall|j: int|
            i < j < profiles.len() && (#[trigger] profiles[j]).enabled ==> profiles[j].key()
                != profiles[i].key(),
    ensures
        enabled_profile(profiles, profiles[i].key()) == profiles[i],
    decreases profiles.len(),
{
    if i < profiles.len() - 1 {
        let rest = profiles.drop_last();
        assert(profiles.last() == profiles[profiles.len() - 1]);
        assert forall|j: int| i < j < rest.len() && (#[trigger] rest[j]).enabled implies rest[
            j
        ].key() != rest[i].key() by {
            assert(rest[j] == profiles[j]);
        }
        lemma_last_enabled(rest, i);
    }
}

/// A new supervisor has a state for exactly the endpoints of the enabled profiles, each of them
/// visited once. None has been tried, each is due at once, and the first attempt gets generation 2.
/// Where several enabled profiles have one identifier the last of them counts, whole.
pub proof fn new_supervisors_hold_the_enabled_profiles(
    profiles: &[SavedSshEndpoint],
    now: Instant,
    supervisors: SshSupervisors,
)
    requires
        call_ensures(SshSupervisors::new, (profiles, now), supervisors),
    ensures
        supervisors.wf(),
        supervisors@.listed(),
        supervisors@.next_generation == 2,
        forall|key: EndpointKey| #[trigger]
            supervisors@.states.contains_key(key) <==> exists|i: int|
                0 <= i < profiles@.len() && (#[trigger] profiles@[i]).enabled && key
                    == EndpointKey::Ssh(profiles@[i].id.text@),
        forall|key: EndpointKey| #[trigger]
            supervisors@.states.contains_key(key) ==> {
                let state = supervisors@.states[key];
                &&& state.attempts == 0
                &&& state.next_attempt == Some(now)
                &&& !state.in_flight
                &&& state.generation is None
            },
        forall|i: int|
            0 <= i < profiles@.len() && (#[trigger] profiles@[i]).enabled && (forall|j: int|
                i < j < profiles@.len() && (#[trigger] profiles@[j]).enabled
                    ==> profiles@[j].id.text@ != profiles@[i].id.text@)
                ==> supervisors@.states[EndpointKey::Ssh(profiles@[i].id.text@)].profile
                == profiles@[i],
{
    lemma_enabled(profiles@);
    supervisors.wf_is_listed();
    assert forall|key: EndpointKey| #[trigger]
        supervisors@.states.contains_key(key) implies exists|i: int|
        0 <= i < profiles@.len() && (#[trigger] profiles@[i]).enabled && key == EndpointKey::Ssh(
            profiles@[i].id.text@,
        ) by {
        let i = profiles@.index_of(enabled_profile(profiles@, key));
        assert(profiles@[i].enabled && profiles@[i].key() == key);
    }
    assert forall|i: int|
        0 <= i < profiles@.len() && (#[trigger] profiles@[i]).enabled && (forall|j: int|
            i < j < profiles@.len() && (#[trigger] profiles@[j]).enabled
                ==> profiles@[j].id.text@ != profiles@[i].id.text@) implies supervisors@.states[
    EndpointKey::Ssh(profiles@[i].id.text@)].profile == profiles@[i] by {
        lemma_last_enabled(profiles@, i);
    }
}

/// Whether tasks are for the endpoints that are due, one each.
spec fn started_once<S>(v: SupervisorsView, now: Instant, tasks: Seq<SshConnectTask<S>>) -> bool {
    &&& forall|n: int|
        0 <= n < tasks.len() ==> {
            let key = (#[trigger] tasks[n]).endpoint_id@;
            &&& v.states.contains_key(key)
            &&& due(v.states[key], now)
            &&& v.due_keys(now).index_of(key) == n
            &&& v.due_keys(now)[n] == key
        }
    &&& forall|m: int, n: int|
        0 <= m < n < tasks.len() ==> (#[trigger] tasks[m]).endpoint_id@ != (
        #[trigger] tasks[n]).endpoint_id@
    &&& forall|key: EndpointKey| #[trigger]
        v.states.contains_key(key) && due(v.states[key], now) ==> exists|n: int|
            0 <= n < tasks.len() && (#[trigger] tasks[n]).endpoint_id@ == key
}

/// The tasks that start what is due are for the endpoints that are due, one each.
proof fn lemma_started<S>(
    v: SupervisorsView,
    now: Instant,
    options: SshConnectOptions<S>,
    tasks: Seq<SshConnectTask<S>>,
)
    requires
        v.listed(),
        tasks.len() == v.due_keys(now).len(),
        forall|n: int| 0 <= n < tasks.len() ==> v.starts(#[trigger] tasks[n], n, now, options),
    ensures
        started_once(v, now, tasks),
{
    let keys = v.due_keys(now);
    lemma_filter_distinct(v.order, |key: EndpointKey| due(v.states[key], now));
    assert forall|n: int| 0 <= n < tasks.len() implies {
        let key = (#[trigger] tasks[n]).endpoint_id@;
        &&& v.states.contains_key(key)
        &&& due(v.states[key], now)
        &&& keys.index_of(key) == n
        &&& keys[n] == key
    } by {
        assert(v.starts(tasks[n], n, now, options));
        assert(keys.contains(keys[n]));
        lemma_due(v, keys[n], now);
    }
    assert forall|key: EndpointKey| #[trigger]
        v.states.contains_key(key) && due(v.states[key], now) implies exists|n: int|
        0 <= n < tasks.len() && (#[trigger] tasks[n]).endpoint_id@ == key by {
        lemma_due(v, key, now);
        let n = keys.index_of(key);
        assert(v.starts(tasks[n], n, now, options));
        assert(tasks[n].endpoint_id@ == key);
    }
}

/// Exactly the endpoints are started, each once, for which no attempt runs and one is planned for
/// no later than now. Each task has the profile that is kept for its endpoint, the options that
/// were given, and the next generation, as long as generations last.
pub proof fn what_is_due_is_started_as_told<S: Copy>(
    now: Instant,
    options: SshConnectOptions<S>,
    tasks: Vec<SshConnectTask<S>>,
)
    ensures
        forall|s: &mut SshSupervisors| #[trigger]
            call_ensures(SshSupervisors::spawn_due::<S>, (s, now, options), tasks) && s.wf() ==> {
                &&& forall|n: int|
                    0 <= n < tasks@.len() ==> {
                        let task = #[trigger] tasks@[n];
                        let state = s@.states[task.endpoint_id@];
                        &&& s@.states.contains_key(task.endpoint_id@)
                        &&& !state.in_flight
                        &&& state.next_attempt is Some
                        &&& state.next_attempt->0 <= now
                        &&& task.profile == state.profile
                        &&& task.options.cols == options.cols
                        &&& task.options.rows == options.rows
                        &&& task.options.cell_width_px == options.cell_width_px
                        &&& task.options.cell_height_px == options.cell_height_px
                        &&& task.options.pixel_geometry_exact == options.pixel_geometry_exact
                        &&& task.options.surface_size == options.surface_size
                        &&& task.options.endpoint_keybindings == options.endpoint_keybindings
                        &&& task.options.mouse_capture == options.mouse_capture
                        &&& s@.next_generation + n <= u64::MAX ==> task.generation
                            == s@.next_generation + n
                        &&& s@.next_generation + n > u64::MAX ==> task.generation == u64::MAX
                    }
                &&& forall|m: int, n: int|
                    0 <= m < n < tasks@.len() ==> (#[trigger] tasks@[m]).endpoint_id@ != (
                    #[trigger] tasks@[n]).endpoint_id@
                &&& forall|key: EndpointKey| #[trigger]
                    s@.states.contains_key(key) && !s@.states[key].in_flight && (
                    s@.states[key].next_attempt matches Some(deadline) && deadline <= now)
                        ==> exists|n: int|
                        0 <= n < tasks@.len() && (#[trigger] tasks@[n]).endpoint_id@ == key
            },
{
    assert forall|s: &mut SshSupervisors| #[trigger]
        call_ensures(SshSupervisors::spawn_due::<S>, (s, now, options), tasks)
            && s.wf() implies started_once(s@, now, tasks@) by {
        (*s).wf_is_listed();
        lemma_started(s@, now, options, tasks@);
    }
}

/// Starting what is due changes the endpoints that are started and no others: an attempt runs under
/// the generation of its task, none is planned beside it, and profile and failures stay. The next
/// generation moves on by the number of tasks, as long as generations last.
pub proof fn starting_marks_what_is_started<S: Copy>(
    now: Instant,
    options: SshConnectOptions<S>,
    tasks: Vec<SshConnectTask<S>>,
)
    ensures
        forall|s: &mut SshSupervisors| #[trigger]
            call_ensures(SshSupervisors::spawn_due::<S>, (s, now, options), tasks) && s.wf() ==> {
                &&& final(s).wf()
                &&& final(s)@.order == s@.order
                &&& s@.next_generation + tasks@.len() <= u64::MAX ==> final(s)@.next_generation
                    == s@.next_generation + tasks@.len()
                &&& s@.next_generation + tasks@.len() > u64::MAX ==> final(s)@.next_generation
                    == u64::MAX
                &&& forall|key: EndpointKey| #[trigger]
                    final(s)@.states.contains_key(key) <==> s@.states.contains_key(key)
                &&& forall|n: int|
                    0 <= n < tasks@.len() ==> {
                        let started = (#[trigger] tasks@[n]).endpoint_id@;
                        let state = final(s)@.states[started];
                        &&& state.in_flight
                        &&& state.next_attempt is None
                        &&& state.generation == Some(tasks@[n].generation)
                        &&& state.profile == s@.states[started].profile
                        &&& state.attempts == s@.states[started].attempts
                    }
                &&& forall|key: EndpointKey| #[trigger]
                    s@.states.contains_key(key) && (s@.states[key].in_flight
                        || s@.states[key].next_attempt is None || s@.states[key].next_attempt->0
                        > now) ==> final(s)@.states[key] == s@.states[key]
            },
{
    assert forall|s: &mut SshSupervisors| #[trigger]
        call_ensures(SshSupervisors::spawn_due::<S>, (s, now, options), tasks)
            && s.wf() implies started_once(s@, now, tasks@) by {
        (*s).wf_is_listed();
        lemma_started(s@, now, options, tasks@);
    }
}

/// The handshake of every attempt that is started carries, field by field, the options that were
/// given to the start.
pub proof fn started_attempts_shake_hands_as_told<S: Copy, R, W, N>(
    now: Instant,
    options: SshConnectOptions<S>,
    tasks: Vec<SshConnectTask<S>>,
    n: int,
    endpoint_id: ClientEndpointId,
    step: ConnectStep<S, R, W, N>,
)
    requires
        0 <= n < tasks@.len(),
        call_ensures(
            connect_once::<S, R, W, N>,
            (
                &tasks@[n].profile,
                tasks@[n].options,
                endpoint_id,
                tasks@[n].generation,
                ConnectReply::Connected,
            ),
            step,
        ),
    ensures
        forall|s: &mut SshSupervisors| #[trigger]
            call_ensures(SshSupervisors::spawn_due::<S>, (s, now, options), tasks) && s.wf() ==> {
                &&& step is Handshake
                &&& step->Handshake_0.cols == options.cols
                &&& step->Handshake_0.rows == options.rows
                &&& step->Handshake_0.cell_width_px == options.cell_width_px
                &&& step->Handshake_0.cell_height_px == options.cell_height_px
                &&& step->Handshake_0.pixel_geometry_exact == options.pixel_geometry_exact
                &&& step->Handshake_0.surface_size == Some(options.surface_size)
                &&& step->Handshake_0.endpoint_keybindings == options.endpoint_keybindings
                &&& step->Handshake_0.mouse_capture == options.mouse_capture
                &&& !step->Handshake_0.trailing_flag
            },
{
    what_is_due_is_started_as_told(now, options, tasks);
}

/// A report counts exactly where it comes from the latest attempt of a supervised endpoint. One
/// that does not count changes nothing. One that counts changes its own endpoint only, whose
/// attempt is then over while its profile and generation stay: being online forgets the failures
/// and plans nothing; what needs a person, or is disabled, plans nothing and keeps the failures;
/// any other status is one more failure, as far as failures can be counted, and plans an attempt
/// after the wait that this number of failures asks for.
pub proof fn reports_change_what_they_are_about(
    endpoint_id: ClientEndpointId,
    generation: u64,
    status: ClientEndpointStatus,
    now: Instant,
    accepted: bool,
)
    ensures
        forall|s: &mut SshSupervisors| #[trigger]
            call_ensures(
                SshSupervisors::record_status,
                (s, &endpoint_id, generation, status, now),
                accepted,
            ) ==> {
                let earlier = s@.states[endpoint_id@];
                let later = final(s)@.states[endpoint_id@];
                &&& accepted <==> s@.states.contains_key(endpoint_id@) && earlier.generation
                    == Some(generation)
                &&& !accepted ==> final(s)@ == s@
                &&& final(s)@.order == s@.order
                &&& final(s)@.next_generation == s@.next_generation
                &&& forall|other: EndpointKey| #[trigger]
                    final(s)@.states.contains_key(other) <==> s@.states.contains_key(other)
                &&& forall|other: EndpointKey| #[trigger]
                    s@.states.contains_key(other) && other != endpoint_id@
                        ==> final(s)@.states[other] == s@.states[other]
                &&& accepted ==> later.profile == earlier.profile && later.generation
                    == earlier.generation && !later.in_flight
                &&& accepted && status == ClientEndpointStatus::Online ==> later.attempts == 0
                    && later.next_attempt is None
                &&& accepted && (status == ClientEndpointStatus::Attention || status
                    == ClientEndpointStatus::Disabled) ==> later.attempts == earlier.attempts
                    && later.next_attempt is None
                &&& accepted && (status == ClientEndpointStatus::Connecting || status
                    == ClientEndpointStatus::Reconnecting) ==> {
                    &&& earlier.attempts < u32::MAX ==> later.attempts == earlier.attempts + 1
                    &&& earlier.attempts == u32::MAX ==> later.attempts == u32::MAX
                    &&& later.next_attempt is Some
                    &&& now + backoff(later.attempts as nat) <= u128::MAX ==> later.next_attempt->0
                        == now + backoff(later.attempts as nat)
                    &&& now + 30_000_000_000 <= u128::MAX ==> now + 500_000_000
                        <= later.next_attempt->0 <= now + 30_000_000_000
                }
            },
{
    assert forall|attempts: u32| 500_000_000 <= #[trigger] backoff(attempts as nat)
        <= 30_000_000_000 by {
        backoff_is_bounded(attempts as nat);
    }
}

/// A connection that breaks is one more failure of its endpoint, as far as failures can be counted,
/// and plans an attempt after the wait that this number of failures asks for. No attempt runs any
/// more; profile and generation stay, and so does every other endpoint. An endpoint that is not
/// supervised changes nothing.
pub proof fn broken_connections_change_their_endpoint(endpoint_id: ClientEndpointId, now: Instant)
    ensures
        forall|s: &mut SshSupervisors| #[trigger]
            call_ensures(SshSupervisors::disconnected, (s, &endpoint_id, now), ()) ==> {
                let earlier = s@.states[endpoint_id@];
                let later = final(s)@.states[endpoint_id@];
                &&& !s@.states.contains_key(endpoint_id@) ==> final(s)@ == s@
                &&& final(s)@.order == s@.order
                &&& final(s)@.next_generation == s@.next_generation
                &&& forall|other: EndpointKey| #[trigger]
                    final(s)@.states.contains_key(other) <==> s@.states.contains_key(other)
                &&& forall|other: EndpointKey| #[trigger]
                    s@.states.contains_key(other) && other != endpoint_id@
                        ==> final(s)@.states[other] == s@.states[other]
                &&& s@.states.contains_key(endpoint_id@) ==> {
                    &&& later.profile == earlier.profile
                    &&& later.generation == earlier.generation
                    &&& !later.in_flight
                    &&& earlier.attempts < u32::MAX ==> later.attempts == earlier.attempts + 1
                    &&& earlier.attempts == u32::MAX ==> later.attempts == u32::MAX
                    &&& later.next_attempt is Some
                    &&& now + backoff(later.attempts as nat) <= u128::MAX ==> later.next_attempt->0
                        == now + backoff(later.attempts as nat)
                    &&& now + 30_000_000_000 <= u128::MAX ==> now + 500_000_000
                        <= later.next_attempt->0 <= now + 30_000_000_000
                }
            },
{
    assert forall|attempts: u32| 500_000_000 <= #[trigger] backoff(attempts as nat)
        <= 30_000_000_000 by {
        backoff_is_bounded(attempts as nat);
    }
}

/// As long as the clock has room for the longest wait, every report and every broken connection can
/// be recorded, whatever the supervisor holds.
pub proof fn nothing_is_refused_while_the_clock_has_room(
    endpoint_id: ClientEndpointId,
    generation: u64,
    status: ClientEndpointStatus,
    now: Instant,
)
    requires
        now + 30_000_000_000 <= u128::MAX,
    ensures
        forall|s: &mut SshSupervisors|
            s.wf() ==> #[trigger] call_requires(
                SshSupervisors::record_status,
                (s, &endpoint_id, generation, status, now),
            ),
        forall|s: &mut SshSupervisors|
            s.wf() ==> #[trigger] call_requires(
                SshSupervisors::disconnected,
                (s, &endpoint_id, now),
            ),
{
    assert forall|attempts: u32| #[trigger] backoff(attempts as nat) <= 30_000_000_000 by {
        backoff_is_bounded(attempts as nat);
    }
}

/// A state is found for exactly the supervised endpoints, and it is that endpoint's own.
pub proof fn states_are_found_by_their_endpoint(
    s: SshSupervisors,
    endpoint_id: ClientEndpointId,
    found: Option<&ProfileReconnectState>,
)
    requires
        call_ensures(SshSupervisors::profile, (&s, &endpoint_id), found),
    ensures
        found is Some <==> s@.states.contains_key(endpoint_id@),
        found matches Some(state) ==> *state == s@.states[endpoint_id@],
{
}

/// What is written through an endpoint's state becomes that endpoint's state, and nothing else
/// changes. Where the endpoint is not supervised there is no state to write to.
pub proof fn states_are_changed_in_place(endpoint_id: ClientEndpointId)
    ensures
        forall|s: &mut SshSupervisors, found: Option<&mut ProfileReconnectState>| #[trigger]
            call_ensures(SshSupervisors::profile_mut, (s, &endpoint_id), found) ==> {
                &&& found is Some <==> s@.states.contains_key(endpoint_id@)
                &&& found is Some ==> *found->0 == s@.states[endpoint_id@]
                &&& found is Some ==> final(s)@.states[endpoint_id@] == *final(found->0)
                &&& found is None ==> *final(s) == *s
                &&& final(s)@.order == s@.order
                &&& final(s)@.next_generation == s@.next_generation
                &&& forall|other: EndpointKey| #[trigger]
                    final(s)@.states.contains_key(other) <==> s@.states.contains_key(other)
                &&& forall|other: EndpointKey| #[trigger]
                    s@.states.contains_key(other) && other != endpoint_id@
                        ==> final(s)@.states[other] == s@.states[other]
            },
{
}

/// The occurrences of a history are what the operations do: each operation leaves the supervisor as
/// the occurrence of the same name says.
pub proof fn histories_are_made_of_operations<S: Copy>(
    endpoint_id: ClientEndpointId,
    generation: u64,
    status: ClientEndpointStatus,
    now: Instant,
    options: SshConnectOptions<S>,
    tasks: Vec<SshConnectTask<S>>,
    accepted: bool,
)
    ensures
        forall|s: &mut SshSupervisors| #[trigger]
            call_ensures(SshSupervisors::spawn_due::<S>, (s, now, options), tasks) ==> final(s)@
                == after(s@, Occurrence::Start { now }),
        forall|s: &mut SshSupervisors| #[trigger]
            call_ensures(
                SshSupervisors::record_status,
                (s, &endpoint_id, generation, status, now),
                accepted,
            ) ==> final(s)@ == after(
                s@,
                Occurrence::Report { endpoint: endpoint_id@, generation, status, now },
            ),
        forall|s: &mut SshSupervisors| #[trigger]
            call_ensures(SshSupervisors::disconnected, (s, &endpoint_id, now), ()) ==> final(s)@
                == after(s@, Occurrence::Disconnect { endpoint: endpoint_id@, now }),
{
}

/// Whatever happens to a supervisor, it keeps its endpoints and the profile of each of them.
pub proof fn profiles_are_kept(v: SupervisorsView, history: Seq<Occurrence>, key: EndpointKey)
    ensures
        after_all(v, history).states.contains_key(key) <==> v.states.contains_key(key),
        v.states.contains_key(key) ==> after_all(v, history).states[key].profile
            == v.states[key].profile,
        after_all(v, history).order == v.order,
    decreases history.len(),
{
    if history.len() > 0 {
        profiles_are_kept(v, history.drop_last(), key);
    }
}

/// Whatever happens to a new supervisor, in any order, the profile kept for an endpoint is the
/// saved enabled one: its label, target and session are those that the user saved. Every task that
/// is ever started for the endpoint carries that profile, and its attempt asks for the saved host.
pub proof fn saved_profiles_are_kept<S: Copy, R, W, N>(
    profiles: &[SavedSshEndpoint],
    start: Instant,
    supervisors: SshSupervisors,
    i: int,
    history: Seq<Occurrence>,
    now: Instant,
    options: SshConnectOptions<S>,
    tasks: Vec<SshConnectTask<S>>,
    n: int,
    endpoint_id: ClientEndpointId,
    step: ConnectStep<S, R, W, N>,
)
    requires
        call_ensures(SshSupervisors::new, (profiles, start), supervisors),
        0 <= i < profiles@.len(),
        profiles@[i].enabled,
        forall|j: int|
            i < j < profiles@.len() && (#[trigger] profiles@[j]).enabled ==> profiles@[j].id.text@
                != profiles@[i].id.text@,
    ensures
        ({
            let key = EndpointKey::Ssh(profiles@[i].id.text@);
            let kept = after_all(supervisors@, history).states[key].profile;
            &&& after_all(supervisors@, history).states.contains_key(key)
            &&& kept == profiles@[i]
            &&& kept.label@ == profiles@[i].label@
            &&& kept.target@ == profiles@[i].target@
            &&& kept.session@ == profiles@[i].session@
        }),
        forall|s: &mut SshSupervisors| #[trigger]
            call_ensures(SshSupervisors::spawn_due::<S>, (s, now, options), tasks) && s.wf() && s@
                == after_all(supervisors@, history) && 0 <= n < tasks@.len()
                && tasks@[n].endpoint_id@ == EndpointKey::Ssh(profiles@[i].id.text@) ==> {
                &&& tasks@[n].profile == profiles@[i]
                &&& call_ensures(
                    connect_once::<S, R, W, N>,
                    (
                        &tasks@[n].profile,
                        tasks@[n].options,
                        endpoint_id,
                        tasks@[n].generation,
                        ConnectReply::Started,
                    ),
                    step,
                ) ==> {
                    &&& step is Connect
                    &&& step->target@ == profiles@[i].target@
                    &&& step->session@ == profiles@[i].session@
                    &&& step->profile_id@ == profiles@[i].id.text@
                }
            },
{
    let key = EndpointKey::Ssh(profiles@[i].id.text@);
    new_supervisors_hold_the_enabled_profiles(profiles, start, supervisors);
    assert(supervisors@.states.contains_key(key));
    profiles_are_kept(supervisors@, history, key);
    what_is_due_is_started_as_told(now, options, tasks);
}

} // verus!
