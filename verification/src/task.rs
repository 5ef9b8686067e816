//! The background task around one attempt: whether it runs, and what it reports.

use vstd::prelude::*;
use vstd::string::StringExecFns;

use crate::connect::{
    attempt_ends_with_first_failure, ConnectStepView, SshConnectOptions, SshSupervisorEvent,
    SshSupervisorEventView, Surroundings,
};
use crate::endpoint::{ClientEndpointId, ClientEndpointStatus, EndpointKey, SavedSshEndpoint};
use crate::error::IoError;

verus! {

/// An attempt that is to run in the background.
#[derive(Debug, PartialEq, Eq)]
pub struct SshConnectTask<S> {
    pub endpoint_id: ClientEndpointId,
    pub generation: u64,
    pub profile: SavedSshEndpoint,
    pub options: SshConnectOptions<S>,
}

/// How far a task has come.
#[derive(Debug, PartialEq, Eq)]
pub enum TaskReply<R, W, N> {
    /// The task has begun to run, and has looked whether the client is shutting down.
    Running { shutdown: bool },
    /// The attempt succeeded.
    Connected(SshSupervisorEvent<R, W, N>),
    /// The attempt failed. `needs_attention` says whether a person has to act.
    Failed { endpoint_id: ClientEndpointId, error: IoError, needs_attention: bool },
    /// The attempt broke off without a result.
    Aborted { reason: String },
    /// There is something to report, and the task has looked once more whether the client is
    /// shutting down.
    Reporting { event: SshSupervisorEvent<R, W, N>, shutdown: bool },
}

/// What a task does next.
#[derive(Debug, PartialEq, Eq)]
pub enum TaskStep<R, W, N> {
    /// End without a word.
    Stop,
    /// Run the attempt.
    Connect,
    /// Look whether the client is shutting down before the event is sent.
    Report(SshSupervisorEvent<R, W, N>),
    /// Send the event, and end.
    Send(SshSupervisorEvent<R, W, N>),
}

/// A step with the view of its event.
pub enum TaskStepView<R, W, N> {
    Stop,
    Connect,
    Report(SshSupervisorEventView<R, W, N>),
    Send(SshSupervisorEventView<R, W, N>),
}

impl<R, W, N> View for TaskStep<R, W, N> {
    type V = TaskStepView<R, W, N>;

    open spec fn view(&self) -> TaskStepView<R, W, N> {
        match *self {
            TaskStep::Stop => TaskStepView::Stop,
            TaskStep::Connect => TaskStepView::Connect,
            TaskStep::Report(event) => TaskStepView::Report(event@),
            TaskStep::Send(event) => TaskStepView::Send(event@),
        }
    }
}

/// The status that a failed attempt leaves its endpoint in.
pub open spec fn failure_status(needs_attention: bool) -> ClientEndpointStatus {
    if needs_attention {
        ClientEndpointStatus::Attention
    } else {
        ClientEndpointStatus::Reconnecting
    }
}

/// What a task for `endpoint` does after a reply.
pub open spec fn task_next<R, W, N>(
    endpoint: EndpointKey,
    generation: u64,
    reply: TaskReply<R, W, N>,
) -> TaskStepView<R, W, N> {
    match reply {
        TaskReply::Running { shutdown } => if shutdown {
            TaskStepView::Stop
        } else {
            TaskStepView::Connect
        },
        TaskReply::Connected(event) => TaskStepView::Report(event@),
        TaskReply::Failed { endpoint_id, error, needs_attention } => TaskStepView::Report(
            SshSupervisorEventView::Status {
                endpoint: endpoint_id@,
                generation,
                status: failure_status(needs_attention),
                message: error.message@,
            },
        ),
        TaskReply::Aborted { reason } => TaskStepView::Report(
            SshSupervisorEventView::Status {
                endpoint,
                generation,
                status: ClientEndpointStatus::Reconnecting,
                message: "SSH connection task stopped unexpectedly: "@ + reason@,
            },
        ),
        TaskReply::Reporting { event, shutdown } => if shutdown {
            TaskStepView::Stop
        } else {
            TaskStepView::Send(event@)
        },
    }
}

impl<S> SshConnectTask<S> {
    /// Whether a reply says how the task's attempt ended in the given surroundings. An attempt can
    /// also break off anywhere.
    pub open spec fn ends_with<R, W, N>(
        self,
        surroundings: Surroundings<R, W, N>,
        reply: TaskReply<R, W, N>,
    ) -> bool {
        let end = surroundings.attempt(
            self.profile,
            self.options,
            self.endpoint_id@,
            self.generation,
        );
        match reply {
            TaskReply::Connected(event) => end == ConnectStepView::<S, R, W, N>::Done(
                event@,
            ),
            TaskReply::Failed { endpoint_id, error, .. } => end == (
            ConnectStepView::<S, R, W, N>::Failed { endpoint: endpoint_id@, error: error@ }),
            TaskReply::Aborted { .. } => true,
            _ => false,
        }
    }

    /// Decides what the task does after a reply.
    pub fn step<R, W, N>(&self, reply: TaskReply<R, W, N>) -> (step: TaskStep<R, W, N>)
        ensures
            step@ == task_next(self.endpoint_id@, self.generation, reply),
    {
        match reply {
            TaskReply::Running { shutdown } => {
                if shutdown {
                    TaskStep::Stop
                } else {
                    TaskStep::Connect
                }
            },
            TaskReply::Connected(event) => TaskStep::Report(event),
            TaskReply::Failed { endpoint_id, error, needs_attention } => {
                let status = if needs_attention {
                    ClientEndpointStatus::Attention
                } else {
                    ClientEndpointStatus::Reconnecting
                };
                TaskStep::Report(
                    SshSupervisorEvent::Status {
                        endpoint_id,
                        generation: self.generation,
                        status,
                        message: error.message,
                    },
                )
            },
            TaskReply::Aborted { reason } => TaskStep::Report(
                SshSupervisorEvent::Status {
                    endpoint_id: self.endpoint_id.clone(),
                    generation: self.generation,
                    status: ClientEndpointStatus::Reconnecting,
                    message: "SSH connection task stopped unexpectedly: ".to_owned().concat(
                        reason.as_str(),
                    ),
                },
            ),
            TaskReply::Reporting { event, shutdown } => {
                if shutdown {
                    TaskStep::Stop
                } else {
                    TaskStep::Send(event)
                }
            },
        }
    }
}

/// Once an attempt is over, its task has exactly one event to report, under its own endpoint and
/// generation: the connection where there is one, else a status. A person is called for exactly
/// where the failure was judged to need one.
pub proof fn task_reports_its_own_attempt<S, R, W, N>(
    task: SshConnectTask<S>,
    surroundings: Surroundings<R, W, N>,
    reply: TaskReply<R, W, N>,
)
    requires
        task.ends_with(surroundings, reply),
    ensures
        task_next(task.endpoint_id@, task.generation, reply) matches TaskStepView::Report(event)
            && {
            &&& event.endpoint() == task.endpoint_id@
            &&& event.generation() == task.generation
            &&& event is Connected <==> reply is Connected
            &&& event matches SshSupervisorEventView::Status { status, .. } ==> {
                &&& status == ClientEndpointStatus::Attention
                    || status == ClientEndpointStatus::Reconnecting
                &&& status == ClientEndpointStatus::Attention <==> (
                reply matches TaskReply::Failed { needs_attention, .. } && needs_attention)
            }
        },
{
    attempt_ends_with_first_failure(
        surroundings,
        task.profile,
        task.options,
        task.endpoint_id@,
        task.generation,
    );
}

/// A task that sees the client shut down says nothing: an event is sent only where there is one to
/// report and the client still runs, and it is sent as it is.
pub proof fn shutdown_silences_tasks<R, W, N>(
    endpoint: EndpointKey,
    generation: u64,
    reply: TaskReply<R, W, N>,
)
    ensures
        task_next(endpoint, generation, reply) matches TaskStepView::Send(sent) ==> (
        reply matches TaskReply::Reporting { event, shutdown } && !shutdown && sent == event@),
        reply matches TaskReply::Running { shutdown } ==> (shutdown <==> task_next(
            endpoint,
            generation,
            reply,
        ) is Stop),
        reply matches TaskReply::Reporting { shutdown, .. } ==> (shutdown <==> task_next(
            endpoint,
            generation,
            reply,
        ) is Stop),
{
}

/// Whether a reply is one that a step can get. The last steps get none.
pub open spec fn answers<R, W, N>(step: TaskStepView<R, W, N>, reply: TaskReply<R, W, N>) -> bool {
    match step {
        TaskStepView::Stop => false,
        TaskStepView::Connect => reply is Connected || reply is Failed || reply is Aborted,
        TaskStepView::Report(reported) => reply matches TaskReply::Reporting { event, .. }
            && event@ == reported,
        TaskStepView::Send(_) => false,
    }
}

/// Whether replies can come in this order: the first says that the task runs, and each other one
/// answers the step before it.
pub open spec fn is_run<R, W, N>(
    endpoint: EndpointKey,
    generation: u64,
    replies: Seq<TaskReply<R, W, N>>,
) -> bool {
    &&& replies.len() > 0 ==> replies[0] is Running
    &&& forall|i: int|
        #![trigger replies[i]]
        0 < i < replies.len() ==> answers(
            task_next(endpoint, generation, replies[i - 1]),
            replies[i],
        )
}

/// Whether a reply shows the task that the client is shutting down.
pub open spec fn shows_shutdown<R, W, N>(reply: TaskReply<R, W, N>) -> bool {
    match reply {
        TaskReply::Running { shutdown } => shutdown,
        TaskReply::Reporting { shutdown, .. } => shutdown,
        _ => false,
    }
}

/// A task makes at most one attempt and sends at most one event. It does nothing after the event is
/// sent, and neither attempts nor sends anything once it has seen the client shut down.
pub proof fn a_task_attempts_and_sends_once<R, W, N>(
    endpoint: EndpointKey,
    generation: u64,
    replies: Seq<TaskReply<R, W, N>>,
    i: int,
    j: int,
)
    requires
        is_run(endpoint, generation, replies),
        0 <= i < replies.len(),
        0 <= j < replies.len(),
    ensures
        replies.len() <= 3,
        ({
            let one = task_next(endpoint, generation, replies[i]);
            let other = task_next(endpoint, generation, replies[j]);
            &&& one is Connect && other is Connect ==> i == j
            &&& one is Send && other is Send ==> i == j
            &&& one is Send || one is Stop ==> i == replies.len() - 1
            &&& shows_shutdown(replies[i]) && i <= j ==> i == j && other is Stop
        }),
{
    if replies.len() > 1 {
        assert(answers(task_next(endpoint, generation, replies[0]), replies[1]));
    }
    if replies.len() > 2 {
        assert(answers(task_next(endpoint, generation, replies[1]), replies[2]));
    }
    if replies.len() > 3 {
        assert(answers(task_next(endpoint, generation, replies[2]), replies[3]));
    }
}

/// An event is sent only after an attempt, and it is the one that came of that attempt, under the
/// endpoint and the generation of the task.
pub proof fn sent_events_come_of_the_attempt<S, R, W, N>(
    task: SshConnectTask<S>,
    surroundings: Surroundings<R, W, N>,
    replies: Seq<TaskReply<R, W, N>>,
    i: int,
)
    requires
        is_run(task.endpoint_id@, task.generation, replies),
        0 <= i < replies.len(),
        task_next(task.endpoint_id@, task.generation, replies[i]) is Send,
        replies.len() > 1 ==> task.ends_with(surroundings, replies[1]),
    ensures
        i == 2,
        task_next(task.endpoint_id@, task.generation, replies[0]) is Connect,
        task_next(task.endpoint_id@, task.generation, replies[i]) matches TaskStepView::Send(event)
            && {
            &&& task_next(task.endpoint_id@, task.generation, replies[1]) == TaskStepView::Report(
                event,
            )
            &&& event.endpoint() == task.endpoint_id@
            &&& event.generation() == task.generation
        },
{
    a_task_attempts_and_sends_once(task.endpoint_id@, task.generation, replies, i, i);
    assert(answers(task_next(task.endpoint_id@, task.generation, replies[0]), replies[1]));
    task_reports_its_own_attempt(task, surroundings, replies[1]);
}

/// What each step of a task holds: an attempt runs unless the client is shutting down; a
/// connection is reported as it came; a failure is reported in its own words under its endpoint and
/// the generation of the task, as `Attention` exactly where a person is needed; an attempt that
/// broke off is reported for another try; and an event goes out unchanged unless the client is
/// shutting down.
pub proof fn tasks_report_what_happened<S, R, W, N>(
    task: SshConnectTask<S>,
    reply: TaskReply<R, W, N>,
    step: TaskStep<R, W, N>,
)
    requires
        call_ensures(SshConnectTask::<S>::step::<R, W, N>, (&task, reply), step),
    ensures
        match reply {
            TaskReply::Running { shutdown } => step is Stop == shutdown && step is Connect
                == !shutdown,
            TaskReply::Connected(event) => step matches TaskStep::Report(told) && same_event(
                event,
                told,
            ),
            TaskReply::Failed {
                endpoint_id,
                error,
                needs_attention,
            } => step matches TaskStep::Report(
                SshSupervisorEvent::Status { endpoint_id: failed, generation, status, message },
            ) && {
                &&& failed@ == endpoint_id@
                &&& generation == task.generation
                &&& needs_attention ==> status == ClientEndpointStatus::Attention
                &&& !needs_attention ==> status == ClientEndpointStatus::Reconnecting
                &&& message@ == error.message@
            },
            TaskReply::Aborted { reason } => step matches TaskStep::Report(
                SshSupervisorEvent::Status { endpoint_id: failed, generation, status, message },
            ) && {
                &&& failed@ == task.endpoint_id@
                &&& generation == task.generation
                &&& status == ClientEndpointStatus::Reconnecting
                &&& message@ == "SSH connection task stopped unexpectedly: "@ + reason@
            },
            TaskReply::Reporting { event, shutdown } => {
                &&& shutdown ==> step is Stop
                &&& !shutdown ==> (step matches TaskStep::Send(sent) && same_event(event, sent))
            },
        },
{
}

/// Whether two events say the same.
pub open spec fn same_event<R, W, N>(
    one: SshSupervisorEvent<R, W, N>,
    other: SshSupervisorEvent<R, W, N>,
) -> bool {
    match (one, other) {
        (
            SshSupervisorEvent::Status { endpoint_id, generation, status, message },
            SshSupervisorEvent::Status {
                endpoint_id: other_id,
                generation: other_generation,
                status: other_status,
                message: other_message,
            },
        ) => {
            &&& endpoint_id@ == other_id@
            &&& generation == other_generation
            &&& status == other_status
            &&& message@ == other_message@
        },
        (
            SshSupervisorEvent::Connected { endpoint_id, generation, reader, writer, negotiation },
            SshSupervisorEvent::Connected {
                endpoint_id: other_id,
                generation: other_generation,
                reader: other_reader,
                writer: other_writer,
                negotiation: other_negotiation,
            },
        ) => {
            &&& endpoint_id@ == other_id@
            &&& generation == other_generation
            &&& reader == other_reader
            &&& writer == other_writer
            &&& negotiation == other_negotiation
        },
        _ => false,
    }
}

} // verus!
