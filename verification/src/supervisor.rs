//! When each saved SSH endpoint is tried, and what a reported status changes.

use vstd::prelude::*;

use crate::backoff::{backoff, retry_delay};
use crate::clock::Instant;
use crate::connect::SshConnectOptions;
use crate::endpoint::{ClientEndpointId, ClientEndpointStatus, EndpointKey, SavedSshEndpoint};
use crate::filtering::{lemma_filter_next, lemma_filter_rank};
use crate::task::SshConnectTask;

verus! {

/// The generation of the first attempt of all.
pub const FIRST_GENERATION: u64 = 2;

/// Where one profile stands between attempts.
#[derive(Debug, PartialEq, Eq)]
pub struct ProfileReconnectState {
    pub profile: SavedSshEndpoint,
    /// Failures in a row.
    pub attempts: u32,
    /// When the next attempt is due, if one is planned.
    pub next_attempt: Option<Instant>,
    /// Whether an attempt is running.
    pub in_flight: bool,
    /// The generation of the latest attempt, if there was one.
    pub generation: Option<u64>,
}

/// One supervised profile under its endpoint's identifier.
struct SupervisedProfile {
    endpoint_id: ClientEndpointId,
    state: ProfileReconnectState,
}

/// Decides for every enabled profile when to connect, and numbers the attempts.
pub struct SshSupervisors {
    profiles: Vec<SupervisedProfile>,
    next_generation: u64,
}

/// What a supervisor holds: the state of each endpoint, the order in which the endpoints are
/// visited, and the generation that the next attempt gets.
#[verifier::ext_equal]
pub struct SupervisorsView {
    pub order: Seq<EndpointKey>,
    pub states: Map<EndpointKey, ProfileReconnectState>,
    pub next_generation: u64,
}

spec fn keys(profiles: Seq<SupervisedProfile>) -> Seq<EndpointKey> {
    profiles.map_values(|supervised: SupervisedProfile| supervised.endpoint_id@)
}

spec fn states(profiles: Seq<SupervisedProfile>) -> Map<EndpointKey, ProfileReconnectState> {
    Map::new(
        |key: EndpointKey| keys(profiles).contains(key),
        |key: EndpointKey| profiles[keys(profiles).index_of(key)].state,
    )
}

/// Whether two lists of profiles differ at most in the state at one place.
spec fn differ_at(
    before: Seq<SupervisedProfile>,
    after: Seq<SupervisedProfile>,
    i: int,
) -> bool {
    &&& after.len() == before.len()
    &&& after[i].endpoint_id == before[i].endpoint_id
    &&& forall|j: int| 0 <= j < before.len() && j != i ==> after[j] == before[j]
}

/// Replacing the state at one place replaces the state of the endpoint there.
proof fn lemma_replaced(
    before: Seq<SupervisedProfile>,
    after: Seq<SupervisedProfile>,
    i: int,
)
    requires
        keys(before).no_duplicates(),
        0 <= i < before.len(),
        differ_at(before, after, i),
    ensures
        keys(after) == keys(before),
        states(after) == states(before).insert(keys(before)[i], after[i].state),
        states(before).contains_key(keys(before)[i]),
        states(before)[keys(before)[i]] == before[i].state,
{
    assert(keys(after) =~= keys(before));
    assert(states(after) =~= states(before).insert(keys(before)[i], after[i].state));
}

/// A new endpoint comes last, and leaves the others as they were.
proof fn lemma_pushed(before: Seq<SupervisedProfile>, supervised: SupervisedProfile)
    requires
        keys(before).no_duplicates(),
        !keys(before).contains(supervised.endpoint_id@),
    ensures
        keys(before.push(supervised)) == keys(before).push(supervised.endpoint_id@),
        keys(before.push(supervised)).no_duplicates(),
        states(before.push(supervised)) == states(before).insert(
            supervised.endpoint_id@,
            supervised.state,
        ),
{
    let after = before.push(supervised);
    let key = supervised.endpoint_id@;
    assert(keys(after) =~= keys(before).push(key));
    assert forall|other: EndpointKey| #[trigger] keys(after).contains(other) implies keys(
        before,
    ).contains(other) || other == key by {
        let i = keys(after).index_of(other);
        assert(i < before.len() ==> keys(before)[i] == other);
    }
    assert forall|other: EndpointKey| keys(before).contains(other) implies #[trigger] keys(
        after,
    ).contains(other) && keys(after).index_of(other) == keys(before).index_of(other) by {
        let i = keys(before).index_of(other);
        assert(keys(after)[i] == other);
    }
    assert(keys(after)[before.len() as int] == key);
    assert(states(after) =~= states(before).insert(key, supervised.state));
}

/// The number of failures in a row after one more, as far as it can be counted.
pub open spec fn one_more(attempts: u32) -> u32 {
    if attempts < u32::MAX {
        (attempts + 1) as u32
    } else {
        u32::MAX
    }
}

/// Whether a failure at `now` leaves room on the clock for the wait that follows it.
pub open spec fn can_reschedule(state: ProfileReconnectState, now: Instant) -> bool {
    now + backoff(one_more(state.attempts) as nat) <= u128::MAX
}

/// The state after a failure at `now`: one more failure, and a new attempt after the wait.
pub open spec fn rescheduled(state: ProfileReconnectState, now: Instant) -> ProfileReconnectState {
    let attempts = one_more(state.attempts);
    ProfileReconnectState {
        attempts,
        next_attempt: Some((now + backoff(attempts as nat)) as u128),
        in_flight: false,
        ..state
    }
}

/// Whether a status makes the endpoint wait for another attempt.
pub open spec fn retries(status: ClientEndpointStatus) -> bool {
    status == ClientEndpointStatus::Connecting || status == ClientEndpointStatus::Reconnecting
}

/// The state after the latest attempt reported `status` at `now`.
pub open spec fn reported(
    state: ProfileReconnectState,
    status: ClientEndpointStatus,
    now: Instant,
) -> ProfileReconnectState {
    match status {
        ClientEndpointStatus::Online => ProfileReconnectState {
            attempts: 0,
            next_attempt: None,
            in_flight: false,
            ..state
        },
        ClientEndpointStatus::Attention | ClientEndpointStatus::Disabled => ProfileReconnectState {
            next_attempt: None,
            in_flight: false,
            ..state
        },
        ClientEndpointStatus::Connecting | ClientEndpointStatus::Reconnecting => rescheduled(
            state,
            now,
        ),
    }
}

/// The state of a profile that has not been tried yet.
pub open spec fn fresh(profile: SavedSshEndpoint, now: Instant) -> ProfileReconnectState {
    ProfileReconnectState {
        profile,
        attempts: 0,
        next_attempt: Some(now),
        in_flight: false,
        generation: None,
    }
}

/// Whether an attempt is planned for no later than `now` and none is running.
pub open spec fn due(state: ProfileReconnectState, now: Instant) -> bool {
    !state.in_flight && state.next_attempt is Some && state.next_attempt->0 <= now
}

/// The state while the attempt with the given generation runs.
pub open spec fn launched(state: ProfileReconnectState, generation: u64) -> ProfileReconnectState {
    ProfileReconnectState {
        next_attempt: None,
        in_flight: true,
        generation: Some(generation),
        ..state
    }
}

/// The endpoints of the enabled profiles, each where it is first met.
pub open spec fn enabled_keys(profiles: Seq<SavedSshEndpoint>) -> Seq<EndpointKey>
    decreases profiles.len(),
{
    if profiles.len() == 0 {
        Seq::empty()
    } else {
        let earlier = enabled_keys(profiles.drop_last());
        let profile = profiles.last();
        if profile.enabled && !earlier.contains(profile.key()) {
            earlier.push(profile.key())
        } else {
            earlier
        }
    }
}

/// The last enabled profile of an endpoint.
pub open spec fn enabled_profile(
    profiles: Seq<SavedSshEndpoint>,
    key: EndpointKey,
) -> SavedSshEndpoint
    decreases profiles.len(),
{
    if profiles.len() == 0 {
        arbitrary()
    } else if profiles.last().enabled && profiles.last().key() == key {
        profiles.last()
    } else {
        enabled_profile(profiles.drop_last(), key)
    }
}

impl SupervisorsView {
    /// A supervisor that has not started anything yet: every enabled profile is due at `now`.
    pub open spec fn initial(profiles: Seq<SavedSshEndpoint>, now: Instant) -> SupervisorsView {
        SupervisorsView {
            order: enabled_keys(profiles),
            states: Map::new(
                |key: EndpointKey| enabled_keys(profiles).contains(key),
                |key: EndpointKey| fresh(enabled_profile(profiles, key), now),
            ),
            next_generation: FIRST_GENERATION,
        }
    }

    /// The endpoints that are due, in the order in which they are visited.
    pub open spec fn due_keys(self, now: Instant) -> Seq<EndpointKey> {
        self.order.filter(|key: EndpointKey| due(self.states[key], now))
    }

    /// The generation that is given out after `n` others. Generations stop at the largest number.
    pub open spec fn generation_after(self, n: int) -> u64 {
        if self.next_generation + n <= u64::MAX {
            (self.next_generation + n) as u64
        } else {
            u64::MAX
        }
    }

    /// The supervisor after everything that is due has been started: the endpoints get their
    /// generations one after the other, and nothing else changes.
    pub open spec fn spawned(self, now: Instant) -> SupervisorsView {
        let started = self.due_keys(now);
        SupervisorsView {
            order: self.order,
            states: Map::new(
                |key: EndpointKey| self.states.contains_key(key),
                |key: EndpointKey|
                    if due(self.states[key], now) {
                        launched(self.states[key], self.generation_after(started.index_of(key)))
                    } else {
                        self.states[key]
                    },
            ),
            next_generation: self.generation_after(started.len() as int),
        }
    }

    /// Whether the endpoints with a state are visited, each once, and no others.
    pub open spec fn listed(self) -> bool {
        &&& self.order.no_duplicates()
        &&& forall|key: EndpointKey|
            #![trigger self.order.contains(key)]
            #![trigger self.states.contains_key(key)]
            self.order.contains(key) <==> self.states.contains_key(key)
    }

    /// Whether a task is the one that starts the `n`th endpoint that is due.
    pub open spec fn starts<S>(
        self,
        task: SshConnectTask<S>,
        n: int,
        now: Instant,
        options: SshConnectOptions<S>,
    ) -> bool {
        let key = self.due_keys(now)[n];
        &&& task.endpoint_id@ == key
        &&& task.generation == self.generation_after(n)
        &&& task.profile == self.states[key].profile
        &&& task.options == options
    }

    /// Whether the endpoint is supervised and `generation` is that of its latest attempt.
    pub open spec fn current(self, key: EndpointKey, generation: u64) -> bool {
        self.states.contains_key(key) && self.states[key].generation == Some(generation)
    }

    /// The supervisor with one endpoint's state replaced.
    pub open spec fn with_state(
        self,
        key: EndpointKey,
        state: ProfileReconnectState,
    ) -> SupervisorsView {
        SupervisorsView { states: self.states.insert(key, state), ..self }
    }

    /// The supervisor after an attempt reported a status. Only the latest attempt of a supervised
    /// endpoint counts, and only its endpoint changes.
    pub open spec fn recorded(
        self,
        key: EndpointKey,
        generation: u64,
        status: ClientEndpointStatus,
        now: Instant,
    ) -> SupervisorsView {
        if self.current(key, generation) {
            self.with_state(key, reported(self.states[key], status, now))
        } else {
            self
        }
    }

    /// The supervisor after an endpoint's connection broke. Only that endpoint changes.
    pub open spec fn cut_off(self, key: EndpointKey, now: Instant) -> SupervisorsView {
        if self.states.contains_key(key) {
            self.with_state(key, rescheduled(self.states[key], now))
        } else {
            self
        }
    }
}

impl View for SshSupervisors {
    type V = SupervisorsView;

    closed spec fn view(&self) -> SupervisorsView {
        SupervisorsView {
            order: keys(self.profiles@),
            states: states(self.profiles@),
            next_generation: self.next_generation,
        }
    }
}

impl SshSupervisors {
    /// No endpoint is supervised twice.
    pub closed spec fn wf(self) -> bool {
        keys(self.profiles@).no_duplicates()
    }

    /// Every supervised endpoint is visited once.
    pub proof fn wf_is_listed(self)
        requires
            self.wf(),
        ensures
            self@.listed(),
    {
    }

    /// Supervises the enabled ones of the saved profiles, and makes each of them due at once. Where
    /// two enabled profiles have the same identifier, the later one counts.
    pub fn new(profiles: &[SavedSshEndpoint], now: Instant) -> (supervisors: SshSupervisors)
        ensures
            supervisors.wf(),
            supervisors@ == SupervisorsView::initial(profiles@, now),
    {
        let mut supervisors = SshSupervisors {
            profiles: Vec::new(),
            next_generation: FIRST_GENERATION,
        };
        assert(supervisors@ =~= SupervisorsView::initial(profiles@.take(0), now));
        for i in 0..profiles.len()
            invariant
                supervisors.wf(),
                supervisors@ == SupervisorsView::initial(profiles@.take(i as int), now),
        {
            let profile = &profiles[i];
            let ghost before = supervisors@;
            let ghost listed = supervisors.profiles@;
            assert(profiles@.take(i + 1).drop_last() =~= profiles@.take(i as int));
            if profile.enabled {
                let endpoint_id = ClientEndpointId::Ssh(profile.id.clone());
                let state = ProfileReconnectState {
                    profile: profile.clone(),
                    attempts: 0,
                    next_attempt: Some(now),
                    in_flight: false,
                    generation: None,
                };
                match supervisors.profile_mut(&endpoint_id) {
                    Some(known) => {
                        *known = state;
                    },
                    None => {
                        proof {
                            lemma_pushed(listed, SupervisedProfile { endpoint_id, state });
                        }
                        supervisors.profiles.push(SupervisedProfile { endpoint_id, state });
                    },
                }
            }
            assert(supervisors@ =~= SupervisorsView::initial(profiles@.take(i + 1), now)) by {
                assert(profiles@.take(i + 1).last() == profile);
            }
        }
        assert(profiles@.take(profiles@.len() as int) =~= profiles@);
        supervisors
    }

    /// Finds the place of an endpoint.
    fn position(&self, endpoint_id: &ClientEndpointId) -> (place: Option<usize>)
        ensures
            match place {
                Some(i) => i < self.profiles.len() && keys(self.profiles@)[i as int]
                    == endpoint_id@,
                None => !keys(self.profiles@).contains(endpoint_id@),
            },
    {
        for i in 0..self.profiles.len()
            invariant
                forall|j: int| 0 <= j < i ==> keys(self.profiles@)[j] != endpoint_id@,
        {
            if self.profiles[i].endpoint_id.same(endpoint_id) {
                return Some(i);
            }
        }
        None
    }

    /// Gives access to the state of an endpoint, if it is supervised. What is written there is the
    /// caller's affair.
    pub fn profile_mut(&mut self, endpoint_id: &ClientEndpointId) -> (found: Option<
        &mut ProfileReconnectState,
    >)
        requires
            old(self).wf(),
        ensures
            found is Some == old(self)@.states.contains_key(endpoint_id@),
            final(self).wf(),
            match found {
                Some(state) => {
                    &&& *state == old(self)@.states[endpoint_id@]
                    &&& final(self)@ == old(self)@.with_state(endpoint_id@, *final(state))
                },
                None => *final(self) == *old(self),
            },
    {
        match self.position(endpoint_id) {
            Some(i) => {
                let ghost before = self.profiles@;
                proof {
                    lemma_replaced(before, before, i as int);
                    assert forall|after: Seq<SupervisedProfile>|
                        differ_at(before, after, i as int) implies #[trigger] keys(after) == keys(
                        before,
                    ) && states(after) == states(before).insert(
                        endpoint_id@,
                        after[i as int].state,
                    ) by {
                        lemma_replaced(before, after, i as int);
                    }
                }
                let supervised = &mut self.profiles[i];
                Some(&mut supervised.state)
            },
            None => None,
        }
    }

    /// The state of an endpoint, if it is supervised.
    pub fn profile(&self, endpoint_id: &ClientEndpointId) -> (found: Option<&ProfileReconnectState>)
        requires
            self.wf(),
        ensures
            found is Some == self@.states.contains_key(endpoint_id@),
            found matches Some(state) ==> *state == self@.states[endpoint_id@],
    {
        match self.position(endpoint_id) {
            Some(i) => {
                proof {
                    lemma_replaced(self.profiles@, self.profiles@, i as int);
                }
                Some(&self.profiles[i].state)
            },
            None => None,
        }
    }

    /// Starts every attempt that is due: each endpoint gets the next generation, and the tasks are
    /// those that are to run.
    pub fn spawn_due<S: Copy>(
        &mut self,
        now: Instant,
        options: SshConnectOptions<S>,
    ) -> (tasks: Vec<SshConnectTask<S>>)
        requires
            old(self).wf(),
        ensures
            final(self).wf(),
            final(self)@ == old(self)@.spawned(now),
            tasks@.len() == old(self)@.due_keys(now).len(),
            forall|n: int|
                0 <= n < tasks@.len() ==> old(self)@.starts(#[trigger] tasks@[n], n, now, options),
    {
        let ghost before = self@;
        let ghost listed = self.profiles@;
        let ghost order = keys(listed);
        let ghost is_due = |key: EndpointKey| due(before.states[key], now);
        let mut tasks: Vec<SshConnectTask<S>> = Vec::new();
        assert(order.take(0).filter(is_due) =~= Seq::empty());
        let count: usize = self.profiles.len();
        for i in 0..count
            invariant
                count == listed.len(),
                order == keys(listed),
                order.no_duplicates(),
                before.order == order,
                before.states == states(listed),
                is_due == (|key: EndpointKey| due(before.states[key], now)),
                self.profiles@.len() == listed.len(),
                forall|j: int|
                    0 <= j < listed.len() ==> (#[trigger] self.profiles@[j]).endpoint_id
                        == listed[j].endpoint_id,
                forall|j: int| i <= j < listed.len() ==> #[trigger] self.profiles@[j] == listed[j],
                forall|j: int|
                    0 <= j < i ==> (#[trigger] self.profiles@[j]).state == if due(
                        listed[j].state,
                        now,
                    ) {
                        launched(
                            listed[j].state,
                            before.generation_after(order.take(j).filter(is_due).len() as int),
                        )
                    } else {
                        listed[j].state
                    },
                self.next_generation == before.generation_after(tasks@.len() as int),
                tasks@.len() == order.take(i as int).filter(is_due).len(),
                forall|n: int|
                    0 <= n < tasks@.len() ==> {
                        let key = order.take(i as int).filter(is_due)[n];
                        &&& (#[trigger] tasks@[n]).endpoint_id@ == key
                        &&& tasks@[n].generation == before.generation_after(n)
                        &&& tasks@[n].profile == before.states[key].profile
                        &&& tasks@[n].options == options
                    },
        {
            proof {
                lemma_replaced(listed, listed, i as int);
                lemma_filter_next(order, i as int, is_due);
            }
            let supervised = &mut self.profiles[i];
            let planned = match supervised.state.next_attempt {
                Some(deadline) => deadline <= now,
                None => false,
            };
            if !supervised.state.in_flight && planned {
                let generation: u64 = self.next_generation;
                supervised.state.in_flight = true;
                supervised.state.next_attempt = None;
                supervised.state.generation = Some(generation);
                self.next_generation = generation.saturating_add(1);
                tasks.push(
                    SshConnectTask {
                        endpoint_id: supervised.endpoint_id.clone(),
                        generation,
                        profile: supervised.state.profile.clone(),
                        options,
                    },
                );
            }
        }
        proof {
            assert(order.take(order.len() as int) =~= order);
            assert(keys(self.profiles@) =~= order);
            assert forall|j: int| 0 <= j < order.len() && is_due(order[j]) implies order.filter(
                is_due,
            ).index_of(#[trigger] order[j]) == order.take(j).filter(is_due).len() by {
                lemma_filter_rank(order, j, is_due);
            }
            assert forall|j: int| 0 <= j < order.len() implies before.states[#[trigger] order[j]]
                == listed[j].state by {
                lemma_replaced(listed, listed, j);
            }
            assert(self@ =~= before.spawned(now));
        }
        tasks
    }

    /// Records what an attempt reported. A report that does not come from the endpoint's latest
    /// attempt is ignored; the result says whether this one counted.
    pub fn record_status(
        &mut self,
        endpoint_id: &ClientEndpointId,
        generation: u64,
        status: ClientEndpointStatus,
        now: Instant,
    ) -> (accepted: bool)
        requires
            old(self).wf(),
            old(self)@.current(endpoint_id@, generation) && retries(status) ==> can_reschedule(
                old(self)@.states[endpoint_id@],
                now,
            ),
        ensures
            final(self).wf(),
            accepted == old(self)@.current(endpoint_id@, generation),
            final(self)@ == old(self)@.recorded(endpoint_id@, generation, status, now),
    {
        let ghost before = self@;
        match self.profile_mut(endpoint_id) {
            None => false,
            Some(state) => {
                let latest = match state.generation {
                    Some(latest) => latest == generation,
                    None => false,
                };
                if !latest {
                    assert(before.with_state(endpoint_id@, *state) =~= before);
                    return false;
                }
                state.in_flight = false;
                match status {
                    ClientEndpointStatus::Online => {
                        state.attempts = 0;
                        state.next_attempt = None;
                    },
                    ClientEndpointStatus::Attention | ClientEndpointStatus::Disabled => {
                        state.next_attempt = None;
                    },
                    ClientEndpointStatus::Connecting | ClientEndpointStatus::Reconnecting => {
                        state.attempts = state.attempts.saturating_add(1);
                        state.next_attempt = Some(now + retry_delay(state.attempts));
                    },
                }
                true
            },
        }
    }

    /// Records that an endpoint's connection broke, and plans the next attempt.
    pub fn disconnected(&mut self, endpoint_id: &ClientEndpointId, now: Instant)
        requires
            old(self).wf(),
            old(self)@.states.contains_key(endpoint_id@) ==> can_reschedule(
                old(self)@.states[endpoint_id@],
                now,
            ),
        ensures
            final(self).wf(),
            final(self)@ == old(self)@.cut_off(endpoint_id@, now),
    {
        match self.profile_mut(endpoint_id) {
            None => {},
            Some(state) => {
                state.in_flight = false;
                state.attempts = state.attempts.saturating_add(1);
                state.next_attempt = Some(now + retry_delay(state.attempts));
            },
        }
    }
}

} // verus!
