//! How a message is sent to a server, and the answer that a caller gets once the write has been
//! tried.

use vstd::prelude::*;

use crate::endpoint::{ClientEndpointId, EndpointKey};
use crate::error::{ErrorKind, FramingError, IoError, IoErrorView};

verus! {

/// A sender's answer, with the failure's text as characters.
pub open spec fn answer(result: Result<(), IoError>) -> Result<(), IoErrorView> {
    match result {
        Ok(()) => Ok(()),
        Err(error) => Err(error@),
    }
}

/// The answer after a frame was written to the local server, or was not: a failure is known by its
/// text alone.
pub open spec fn local_answer(written: Result<(), FramingError>) -> Result<(), IoErrorView> {
    match written {
        Ok(()) => Ok(()),
        Err(error) => Err(
            IoErrorView { kind: ErrorKind::Other, message: error.spec_text() },
        ),
    }
}

/// How far the sending of a message has come. `R` is what trying to write a message reports.
#[derive(Debug, PartialEq, Eq)]
pub enum SendReply<M, R> {
    /// The message is to be sent.
    Requested(M),
    /// The write has been tried.
    Written(R),
}

/// What the sender of a message does next.
#[derive(Debug, PartialEq, Eq)]
pub enum SendStep<M> {
    /// Write the message.
    Write(M),
    /// Tell the caller how it went.
    Answer(Result<(), IoError>),
}

/// Decides how a message is sent to the local server: it is written once, and the caller hears of
/// a failure by its text.
pub fn write_to_local_server<M>(reply: SendReply<M, Result<(), FramingError>>) -> (step: SendStep<
    M,
>)
    ensures
        match reply {
            SendReply::Requested(message) => step == SendStep::Write(message),
            SendReply::Written(written) => step matches SendStep::Answer(result) && answer(result)
                == local_answer(written),
        },
{
    match reply {
        SendReply::Requested(message) => SendStep::Write(message),
        SendReply::Written(Ok(())) => SendStep::Answer(Ok(())),
        SendReply::Written(Err(error)) => SendStep::Answer(
            Err(IoError::new(ErrorKind::Other, error.into_text())),
        ),
    }
}

/// Something that messages are sent to.
pub trait ClientMessageSink: Sized {
    /// What trying to write a message reports.
    type Report;

    /// Whether a sink that was `before` may be `after`, and answer `result`, once it has heard the
    /// report on a message.
    spec fn settles(
        before: Self,
        report: Self::Report,
        after: Self,
        result: Result<(), IoError>,
    ) -> bool;

    /// Decides how a message is sent: it is written once as it is, and the sink answers for it.
    fn send_client_message<M>(&mut self, reply: SendReply<M, Self::Report>) -> (step: SendStep<M>)
        ensures
            match reply {
                SendReply::Requested(message) => step == SendStep::Write(message) && *final(self)
                    == *old(self),
                SendReply::Written(report) => step matches SendStep::Answer(result)
                    && Self::settles(*old(self), report, *final(self), result),
            },
    ;
}

/// The local server's stream.
#[derive(Clone, Copy, Debug, PartialEq, Eq, Structural)]
pub struct LocalStream;

impl ClientMessageSink for LocalStream {
    type Report = Result<(), FramingError>;

    open spec fn settles(
        before: LocalStream,
        report: Result<(), FramingError>,
        after: LocalStream,
        result: Result<(), IoError>,
    ) -> bool {
        after == before && answer(result) == local_answer(report)
    }

    fn send_client_message<M>(&mut self, reply: SendReply<M, Result<(), FramingError>>) -> (step:
        SendStep<M>) {
        write_to_local_server(reply)
    }
}

/// Whether a message reached its endpoint.
#[derive(Clone, Copy, Debug, PartialEq, Eq, Structural)]
pub enum EndpointSendOutcome {
    Sent,
    NotSent,
}

/// A failure that an endpoint's connection met.
#[derive(Debug, PartialEq, Eq)]
pub struct EndpointFailure {
    pub endpoint_id: ClientEndpointId,
    pub kind: ErrorKind,
    pub message: String,
}

/// A failure with its endpoint's identity.
pub struct EndpointFailureView {
    pub endpoint: EndpointKey,
    pub error: IoErrorView,
}

impl View for EndpointFailure {
    type V = EndpointFailureView;

    open spec fn view(&self) -> EndpointFailureView {
        EndpointFailureView {
            endpoint: self.endpoint_id@,
            error: IoErrorView { kind: self.kind, message: self.message@ },
        }
    }
}

/// The endpoints of a client: which one is active, and the failures that nobody has looked at yet.
#[derive(Debug, PartialEq, Eq)]
pub struct EndpointRegistry {
    active: ClientEndpointId,
    failures: Vec<EndpointFailure>,
}

/// A registry with its active endpoint's identity.
#[verifier::ext_equal]
pub struct EndpointRegistryView {
    pub active: EndpointKey,
    pub failures: Seq<EndpointFailureView>,
}

spec fn viewed(failures: Seq<EndpointFailure>) -> Seq<EndpointFailureView> {
    failures.map_values(|failure: EndpointFailure| failure@)
}

impl View for EndpointRegistry {
    type V = EndpointRegistryView;

    closed spec fn view(&self) -> EndpointRegistryView {
        EndpointRegistryView { active: self.active@, failures: viewed(self.failures@) }
    }
}

/// The first failure of an endpoint.
pub open spec fn first_failure(
    failures: Seq<EndpointFailureView>,
    endpoint: EndpointKey,
) -> Option<IoErrorView>
    decreases failures.len(),
{
    if failures.len() == 0 {
        None
    } else if failures[0].endpoint == endpoint {
        Some(failures[0].error)
    } else {
        first_failure(failures.drop_first(), endpoint)
    }
}

/// What a caller is told when the local endpoint failed without saying why.
pub open spec fn unavailable() -> IoErrorView {
    IoErrorView { kind: ErrorKind::BrokenPipe, message: "local endpoint is unavailable"@ }
}

impl EndpointRegistryView {
    /// Whether a caller has to be told why a message did not go out: only the local server's
    /// failures concern the caller.
    pub open spec fn owes_reason(self, outcome: EndpointSendOutcome) -> bool {
        outcome != EndpointSendOutcome::Sent && self.active == EndpointKey::Local
    }

    /// The answer for a message that had the given outcome.
    pub open spec fn answer_for(self, outcome: EndpointSendOutcome) -> Result<(), IoErrorView> {
        if !self.owes_reason(outcome) {
            Ok(())
        } else {
            match first_failure(self.failures, self.active) {
                Some(error) => Err(error),
                None => Err(unavailable()),
            }
        }
    }

    /// The registry after the answer: the failures are gone where they were looked through.
    pub open spec fn settled(self, outcome: EndpointSendOutcome) -> EndpointRegistryView {
        if self.owes_reason(outcome) {
            EndpointRegistryView { failures: Seq::empty(), ..self }
        } else {
            self
        }
    }
}

impl EndpointRegistry {
    /// A registry without failures.
    pub fn new(active: ClientEndpointId) -> (registry: EndpointRegistry)
        ensures
            registry@ == (EndpointRegistryView { active: active@, failures: Seq::empty() }),
    {
        EndpointRegistry { active, failures: Vec::new() }
    }

    /// The active endpoint.
    pub fn active_id(&self) -> (active: &ClientEndpointId)
        ensures
            active@ == self@.active,
    {
        &self.active
    }

    /// Whether the answer for a message depends on the failures.
    pub fn owes_reason(&self, outcome: EndpointSendOutcome) -> (owes: bool)
        ensures
            owes == self@.owes_reason(outcome),
    {
        outcome != EndpointSendOutcome::Sent && self.active.is_local()
    }

    /// Adds failures behind those that are already known.
    pub fn record_failures(&mut self, failures: Vec<EndpointFailure>)
        ensures
            final(self)@ == (EndpointRegistryView {
                failures: old(self)@.failures + failures@.map_values(
                    |failure: EndpointFailure| failure@,
                ),
                ..old(self)@
            }),
    {
        let ghost added = failures@;
        let mut failures = failures;
        self.failures.append(&mut failures);
        assert(self@.failures =~= old(self)@.failures + viewed(added));
    }

    /// Hands out all failures, and forgets them.
    pub fn take_failures(&mut self) -> (failures: Vec<EndpointFailure>)
        ensures
            failures@.map_values(|failure: EndpointFailure| failure@) == old(self)@.failures,
            final(self)@ == (EndpointRegistryView { failures: Seq::empty(), ..old(self)@ }),
    {
        let mut failures: Vec<EndpointFailure> = Vec::new();
        failures.append(&mut self.failures);
        failures
    }
}

impl ClientMessageSink for EndpointRegistry {
    type Report = EndpointSendOutcome;

    open spec fn settles(
        before: EndpointRegistry,
        report: EndpointSendOutcome,
        after: EndpointRegistry,
        result: Result<(), IoError>,
    ) -> bool {
        after@ == before@.settled(report) && answer(result) == before@.answer_for(report)
    }

    fn send_client_message<M>(&mut self, reply: SendReply<M, EndpointSendOutcome>) -> (step:
        SendStep<M>) {
        let outcome = match reply {
            SendReply::Requested(message) => return SendStep::Write(message),
            SendReply::Written(outcome) => outcome,
        };
        if !self.owes_reason(outcome) {
            return SendStep::Answer(Ok(()));
        }
        let active = self.active_id().clone();
        let failures = self.take_failures();
        let ghost known = viewed(failures@);
        assert(known.skip(0) =~= known);
        for i in 0..failures.len()
            invariant
                known == viewed(failures@),
                known == old(self)@.failures,
                active@ == old(self)@.active,
                old(self)@.owes_reason(outcome),
                reply == SendReply::<M, EndpointSendOutcome>::Written(outcome),
                self@ == old(self)@.settled(outcome),
                first_failure(known, active@) == first_failure(known.skip(i as int), active@),
        {
            assert(known.skip(i as int).drop_first() =~= known.skip(i + 1));
            if failures[i].endpoint_id.same(&active) {
                return SendStep::Answer(
                    Err(IoError::new(failures[i].kind, failures[i].message.clone())),
                );
            }
        }
        SendStep::Answer(
            Err(IoError::new(ErrorKind::BrokenPipe, "local endpoint is unavailable".to_owned())),
        )
    }
}

/// Decides how a message is sent to a server.
pub fn write_to_server<S: ClientMessageSink, M>(
    stream: &mut S,
    reply: SendReply<M, S::Report>,
) -> (step: SendStep<M>)
    ensures
        match reply {
            SendReply::Requested(message) => step == SendStep::Write(message) && *final(stream)
                == *old(stream),
            SendReply::Written(report) => step matches SendStep::Answer(result) && S::settles(
                *old(stream),
                report,
                *final(stream),
                result,
            ),
        },
{
    stream.send_client_message(reply)
}

/// A caller is told of a failure exactly where the local server did not get the message. What goes
/// wrong with another machine never reaches the caller.
pub proof fn only_local_failures_surface(
    registry: EndpointRegistryView,
    outcome: EndpointSendOutcome,
)
    ensures
        registry.answer_for(outcome) is Err <==> (outcome == EndpointSendOutcome::NotSent
            && registry.active == EndpointKey::Local),
        registry.answer_for(outcome) is Ok ==> registry.settled(outcome) == registry,
        registry.answer_for(outcome) is Err ==> registry.settled(outcome).failures.len() == 0,
        registry.settled(outcome).active == registry.active,
{
}

/// The failure that a caller is told of is the first one of the local server, and a general one
/// where the local server has none.
pub proof fn the_first_failure_counts(
    failures: Seq<EndpointFailureView>,
    endpoint: EndpointKey,
    i: int,
)
    requires
        0 <= i <= failures.len(),
        i < failures.len() ==> failures[i].endpoint == endpoint,
        forall|j: int| 0 <= j < i ==> (#[trigger] failures[j]).endpoint != endpoint,
    ensures
        first_failure(failures, endpoint) == if i < failures.len() {
            Some(failures[i].error)
        } else {
            None
        },
    decreases failures.len(),
{
    if i > 0 {
        let rest = failures.drop_first();
        assert forall|j: int| 0 <= j < i - 1 implies (#[trigger] rest[j]).endpoint != endpoint by {
            assert(rest[j] == failures[j + 1]);
        }
        the_first_failure_counts(rest, endpoint, i - 1);
    }
}

/// The local server's caller hears that all is well exactly where the write went well. Every other
/// write, however it failed, is answered with an error of kind `Other` that has the failure's own
/// text.
pub proof fn local_answers_follow_the_write<M>(
    written: Result<(), FramingError>,
    step: SendStep<M>,
)
    requires
        call_ensures(write_to_local_server::<M>, (SendReply::Written(written),), step) || exists|
            stream: &mut LocalStream,
        | #[trigger]
            call_ensures(
                write_to_server::<LocalStream, M>,
                (stream, SendReply::Written(written)),
                step,
            ),
    ensures
        step matches SendStep::Answer(result) && {
            &&& result is Ok <==> written is Ok
            &&& written matches Err(FramingError::UnexpectedEof { text }) ==> (
            result matches Err(told) && told.kind == ErrorKind::Other && told.message@ == text@)
            &&& written matches Err(FramingError::Io { error, text }) ==> (
            result matches Err(told) && told.kind == ErrorKind::Other && told.message@ == text@)
            &&& written matches Err(FramingError::Malformed { text }) ==> (
            result matches Err(told) && told.kind == ErrorKind::Other && told.message@ == text@)
        },
{
}

/// A message is written as it is, whatever it is sent through, and the asking changes nothing.
pub proof fn messages_are_written_as_they_are<S: ClientMessageSink, M>(
    message: M,
    step: SendStep<M>,
)
    ensures
        call_ensures(write_to_local_server::<M>, (SendReply::Requested(message),), step) ==> step
            == SendStep::Write(message),
        forall|stream: &mut S| #[trigger]
            call_ensures(write_to_server::<S, M>, (stream, SendReply::Requested(message)), step)
                ==> step == SendStep::Write(message) && *final(stream) == *stream,
{
}

/// A caller who sends through the registry hears of a failure exactly where the message was not
/// sent and the local server is active. It is then the earliest failure of the local server with
/// its own kind and text, or that the local endpoint is unavailable where there is none, and all
/// failures are gone. Otherwise the registry stays as it was.
pub proof fn registries_answer_for_the_local_server<M>(
    outcome: EndpointSendOutcome,
    step: SendStep<M>,
)
    ensures
        forall|registry: &mut EndpointRegistry| #[trigger]
            call_ensures(
                write_to_server::<EndpointRegistry, M>,
                (registry, SendReply::Written(outcome)),
                step,
            ) ==> {
                let failures = registry@.failures;
                let owed = outcome == EndpointSendOutcome::NotSent && registry@.active
                    == EndpointKey::Local;
                &&& step is Answer
                &&& step->Answer_0 is Err <==> owed
                &&& !owed ==> final(registry)@ == registry@
                &&& owed ==> final(registry)@.active == EndpointKey::Local
                &&& owed ==> final(registry)@.failures.len() == 0
                &&& forall|i: int|
                    #![trigger failures[i]]
                    owed && 0 <= i < failures.len() && failures[i].endpoint == EndpointKey::Local
                        && (forall|j: int|
                        0 <= j < i ==> (#[trigger] failures[j]).endpoint != EndpointKey::Local)
                        ==> step->Answer_0->Err_0.kind == failures[i].error.kind
                        && step->Answer_0->Err_0.message@ == failures[i].error.message
                &&& owed && (forall|j: int|
                    0 <= j < failures.len() ==> (#[trigger] failures[j]).endpoint
                        != EndpointKey::Local) ==> step->Answer_0->Err_0.kind
                    == ErrorKind::BrokenPipe && step->Answer_0->Err_0.message@
                    == "local endpoint is unavailable"@
            },
{
    let local = EndpointKey::Local;
    assert forall|failures: Seq<EndpointFailureView>, i: int|
        #![trigger first_failure(failures, local), failures[i]]
        0 <= i < failures.len() && failures[i].endpoint == local && (forall|j: int|
            0 <= j < i ==> (#[trigger] failures[j]).endpoint != local) implies first_failure(
        failures,
        local,
    ) == Some(failures[i].error) by {
        the_first_failure_counts(failures, local, i);
    }
    assert forall|failures: Seq<EndpointFailureView>| (forall|j: int|
        0 <= j < failures.len() ==> (#[trigger] failures[j]).endpoint != local) implies (
    #[trigger] first_failure(failures, local)) is None by {
        the_first_failure_counts(failures, local, failures.len() as int);
    }
}

/// A registry has the active endpoint that it was made with and no failures at first. Failures come
/// behind those that are known, each with its own endpoint, kind and text, and are handed out once,
/// in that order.
pub proof fn registries_keep_failures_in_order(
    active: ClientEndpointId,
    made: EndpointRegistry,
    named: &ClientEndpointId,
    outcome: EndpointSendOutcome,
    owes: bool,
    added: Vec<EndpointFailure>,
    taken: Vec<EndpointFailure>,
)
    ensures
        call_ensures(EndpointRegistry::new, (active,), made) ==> made@.active == active@
            && made@.failures.len() == 0,
        call_ensures(EndpointRegistry::active_id, (&made,), named) ==> named@ == made@.active,
        call_ensures(EndpointRegistry::owes_reason, (&made, outcome), owes) ==> (owes <==> (outcome
            == EndpointSendOutcome::NotSent && made@.active == EndpointKey::Local)),
        forall|registry: &mut EndpointRegistry| #[trigger]
            call_ensures(EndpointRegistry::record_failures, (registry, added), ()) ==> {
                let before = registry@.failures;
                let after = final(registry)@.failures;
                &&& final(registry)@.active == registry@.active
                &&& after.len() == before.len() + added@.len()
                &&& forall|i: int| 0 <= i < before.len() ==> #[trigger] after[i] == before[i]
                &&& forall|i: int|
                    0 <= i < added@.len() ==> {
                        let failure = #[trigger] added@[i];
                        &&& after[before.len() + i].endpoint == failure.endpoint_id@
                        &&& after[before.len() + i].error.kind == failure.kind
                        &&& after[before.len() + i].error.message == failure.message@
                    }
            },
        forall|registry: &mut EndpointRegistry| #[trigger]
            call_ensures(EndpointRegistry::take_failures, (registry,), taken) ==> {
                let before = registry@.failures;
                &&& final(registry)@.active == registry@.active
                &&& final(registry)@.failures.len() == 0
                &&& taken@.len() == before.len()
                &&& forall|i: int|
                    0 <= i < taken@.len() ==> {
                        let failure = #[trigger] taken@[i];
                        &&& before[i].endpoint == failure.endpoint_id@
                        &&& before[i].error.kind == failure.kind
                        &&& before[i].error.message == failure.message@
                    }
            },
{
    let views = |failure: EndpointFailure| failure@;
    assert forall|i: int| 0 <= i < added@.len() implies added@.map_values(views)[i] == (
    #[trigger] added@[i])@ by {}
    assert forall|i: int| 0 <= i < taken@.len() implies taken@.map_values(views)[i] == (
    #[trigger] taken@[i])@ by {}
}

} // verus!
