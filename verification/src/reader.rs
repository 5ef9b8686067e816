//! The thread that reads a server's messages, decision by decision.

use vstd::prelude::*;

use crate::clock::Duration;
use crate::endpoint::{ClientEndpointId, EndpointKey};
use crate::error::{ErrorKind, FramingError, IoError};

verus! {

/// How long the reader rests when the stream has nothing for it.
pub const READ_PAUSE: Duration = 1_000_000;

/// What the reader hands to the client's main loop, tagged with the connection it came from.
#[derive(Debug, PartialEq, Eq)]
pub enum ClientLoopEvent<M> {
    ServerDisconnected { endpoint_id: ClientEndpointId, generation: u64 },
    ServerMessage { endpoint_id: ClientEndpointId, generation: u64, message: Box<M> },
}

/// An event with its endpoint's identity.
pub enum ClientLoopEventView<M> {
    ServerDisconnected { endpoint: EndpointKey, generation: u64 },
    ServerMessage { endpoint: EndpointKey, generation: u64, message: M },
}

impl<M> View for ClientLoopEvent<M> {
    type V = ClientLoopEventView<M>;

    open spec fn view(&self) -> ClientLoopEventView<M> {
        match *self {
            ClientLoopEvent::ServerDisconnected {
                endpoint_id,
                generation,
            } => ClientLoopEventView::ServerDisconnected { endpoint: endpoint_id@, generation },
            ClientLoopEvent::ServerMessage {
                endpoint_id,
                generation,
                message,
            } => ClientLoopEventView::ServerMessage {
                endpoint: endpoint_id@,
                generation,
                message: *message,
            },
        }
    }
}

impl<M> ClientLoopEventView<M> {
    /// The endpoint that the event came from.
    pub open spec fn endpoint(self) -> EndpointKey {
        match self {
            ClientLoopEventView::ServerDisconnected { endpoint, .. } => endpoint,
            ClientLoopEventView::ServerMessage { endpoint, .. } => endpoint,
        }
    }

    /// The generation of the connection that the event came from.
    pub open spec fn generation(self) -> u64 {
        match self {
            ClientLoopEventView::ServerDisconnected { generation, .. } => generation,
            ClientLoopEventView::ServerMessage { generation, .. } => generation,
        }
    }
}

/// How the reader's last step went.
#[derive(Debug, PartialEq, Eq)]
pub enum ReaderReply<M> {
    /// The stream has been asked to block while there is nothing to read.
    Opened(Result<(), IoError>),
    /// The reader has looked whether it should end.
    Polled { should_quit: bool },
    /// A message has been read, or not.
    Read(Result<M, FramingError>),
    /// An event has been handed over, unless nobody listens any more.
    Forwarded { delivered: bool },
    /// The rest is over.
    Rested,
}

/// What the reader does next.
#[derive(Debug, PartialEq, Eq)]
pub enum ReaderStep<M> {
    /// Look whether the reader should end.
    CheckQuit,
    /// Read a message whose frame is no larger than the limit.
    ReadMessage { max_frame_size: usize },
    /// Hand over an event, and report whether it was taken.
    Forward(ClientLoopEvent<M>),
    /// Rest.
    Rest(Duration),
    /// Hand over the last event, and end.
    Disconnect(ClientLoopEvent<M>),
    /// End.
    Stop,
}

/// A step with the view of its event.
pub enum ReaderStepView<M> {
    CheckQuit,
    ReadMessage { max_frame_size: usize },
    Forward(ClientLoopEventView<M>),
    Rest(Duration),
    Disconnect(ClientLoopEventView<M>),
    Stop,
}

impl<M> View for ReaderStep<M> {
    type V = ReaderStepView<M>;

    open spec fn view(&self) -> ReaderStepView<M> {
        match *self {
            ReaderStep::CheckQuit => ReaderStepView::CheckQuit,
            ReaderStep::ReadMessage { max_frame_size } => ReaderStepView::ReadMessage {
                max_frame_size,
            },
            ReaderStep::Forward(event) => ReaderStepView::Forward(event@),
            ReaderStep::Rest(span) => ReaderStepView::Rest(span),
            ReaderStep::Disconnect(event) => ReaderStepView::Disconnect(event@),
            ReaderStep::Stop => ReaderStepView::Stop,
        }
    }
}

/// Whether a read failed only because there is nothing to read yet.
pub open spec fn nothing_yet(error: FramingError) -> bool {
    error matches FramingError::Io { error, .. } && error.kind == ErrorKind::WouldBlock
}

/// Tells whether a read failed only because there is nothing to read yet.
fn is_nothing_yet(error: &FramingError) -> (waiting: bool)
    ensures
        waiting == nothing_yet(*error),
{
    match error {
        FramingError::Io { error, .. } => error.kind() == ErrorKind::WouldBlock,
        _ => false,
    }
}

/// The warning that a failed read deserves: none where the server closed the stream or there is
/// nothing to read yet, else the text of the failure.
pub fn read_warning(error: &FramingError) -> (warning: Option<&String>)
    ensures
        warning is Some <==> !(error is UnexpectedEof) && !nothing_yet(*error),
        warning matches Some(text) ==> text@ == error.spec_text(),
{
    if is_nothing_yet(error) {
        return None;
    }
    match error {
        FramingError::UnexpectedEof { .. } => None,
        _ => Some(error.text()),
    }
}

/// What the reader of a connection does after a reply.
pub open spec fn reader_next<M>(
    endpoint: EndpointKey,
    generation: u64,
    max_frame_size: usize,
    reply: ReaderReply<M>,
) -> ReaderStepView<M> {
    let lost = ReaderStepView::Disconnect(
        ClientLoopEventView::ServerDisconnected { endpoint, generation },
    );
    match reply {
        ReaderReply::Opened(Ok(_)) => ReaderStepView::CheckQuit,
        ReaderReply::Opened(Err(_)) => lost,
        ReaderReply::Polled { should_quit } => if should_quit {
            ReaderStepView::Stop
        } else {
            ReaderStepView::ReadMessage { max_frame_size }
        },
        ReaderReply::Read(Ok(message)) => ReaderStepView::Forward(
            ClientLoopEventView::ServerMessage { endpoint, generation, message },
        ),
        ReaderReply::Read(Err(error)) => if nothing_yet(error) {
            ReaderStepView::Rest(READ_PAUSE)
        } else {
            lost
        },
        ReaderReply::Forwarded { delivered } => if delivered {
            ReaderStepView::CheckQuit
        } else {
            ReaderStepView::Stop
        },
        ReaderReply::Rested => ReaderStepView::CheckQuit,
    }
}

/// Decides what the thread that reads a connection does after a reply.
pub fn server_reader_thread<M>(
    endpoint_id: &ClientEndpointId,
    generation: u64,
    max_frame_size: usize,
    reply: ReaderReply<M>,
) -> (step: ReaderStep<M>)
    ensures
        step@ == reader_next(endpoint_id@, generation, max_frame_size, reply),
{
    match reply {
        ReaderReply::Opened(opened) => {
            if opened.is_err() {
                return ReaderStep::Disconnect(
                    ClientLoopEvent::ServerDisconnected {
                        endpoint_id: endpoint_id.clone(),
                        generation,
                    },
                );
            }
            ReaderStep::CheckQuit
        },
        ReaderReply::Polled { should_quit } => {
            if should_quit {
                ReaderStep::Stop
            } else {
                ReaderStep::ReadMessage { max_frame_size }
            }
        },
        ReaderReply::Read(Ok(message)) => ReaderStep::Forward(
            ClientLoopEvent::ServerMessage {
                endpoint_id: endpoint_id.clone(),
                generation,
                message: Box::new(message),
            },
        ),
        ReaderReply::Read(Err(error)) => {
            if is_nothing_yet(&error) {
                ReaderStep::Rest(READ_PAUSE)
            } else {
                ReaderStep::Disconnect(
                    ClientLoopEvent::ServerDisconnected {
                        endpoint_id: endpoint_id.clone(),
                        generation,
                    },
                )
            }
        },
        ReaderReply::Forwarded { delivered } => {
            if delivered {
                ReaderStep::CheckQuit
            } else {
                ReaderStep::Stop
            }
        },
        ReaderReply::Rested => ReaderStep::CheckQuit,
    }
}

/// Whether a reply is one that a step can get. The last steps get none.
pub open spec fn answers<M>(step: ReaderStepView<M>, reply: ReaderReply<M>) -> bool {
    match step {
        ReaderStepView::CheckQuit => reply is Polled,
        ReaderStepView::ReadMessage { .. } => reply is Read,
        ReaderStepView::Forward(_) => reply is Forwarded,
        ReaderStepView::Rest(_) => reply is Rested,
        ReaderStepView::Disconnect(_) => false,
        ReaderStepView::Stop => false,
    }
}

/// A connection as its reader sees it.
pub struct ReaderView {
    pub endpoint: EndpointKey,
    pub generation: u64,
    pub max_frame_size: usize,
}

impl ReaderView {
    /// What the reader does after a reply.
    pub open spec fn next<M>(self, reply: ReaderReply<M>) -> ReaderStepView<M> {
        reader_next(self.endpoint, self.generation, self.max_frame_size, reply)
    }

    /// Whether replies can come in this order: the first says how the opening went, and each other
    /// one answers the step before it.
    pub open spec fn is_run<M>(self, replies: Seq<ReaderReply<M>>) -> bool {
        &&& replies.len() > 0 ==> replies[0] is Opened
        &&& forall|i: int|
            #![trigger replies[i]]
            0 < i < replies.len() ==> answers(self.next(replies[i - 1]), replies[i])
    }

    /// The messages that the reader hands over.
    pub open spec fn forwarded<M>(self, replies: Seq<ReaderReply<M>>) -> Seq<M>
        decreases replies.len(),
    {
        if replies.len() == 0 {
            Seq::empty()
        } else {
            let earlier = self.forwarded(replies.drop_last());
            match self.next(replies.last()) {
                ReaderStepView::Forward(
                    ClientLoopEventView::ServerMessage { message, .. },
                ) => earlier.push(message),
                _ => earlier,
            }
        }
    }
}

/// The messages that are read.
pub open spec fn received<M>(replies: Seq<ReaderReply<M>>) -> Seq<M>
    decreases replies.len(),
{
    if replies.len() == 0 {
        Seq::empty()
    } else {
        let earlier = received(replies.drop_last());
        match replies.last() {
            ReaderReply::Read(Ok(message)) => earlier.push(message),
            _ => earlier,
        }
    }
}

/// Every message that is read is handed over once, in the order in which it was read, and nothing
/// else is handed over as a message.
pub proof fn messages_keep_their_order<M>(reader: ReaderView, replies: Seq<ReaderReply<M>>)
    ensures
        reader.forwarded(replies) == received(replies),
    decreases replies.len(),
{
    if replies.len() > 0 {
        messages_keep_their_order(reader, replies.drop_last());
    }
}

/// Every event is tagged with the endpoint and the generation of its connection.
pub proof fn events_are_tagged<M>(reader: ReaderView, reply: ReaderReply<M>)
    ensures
        reader.next(reply) matches ReaderStepView::Forward(event) ==> event.endpoint()
            == reader.endpoint && event.generation() == reader.generation,
        reader.next(reply) matches ReaderStepView::Disconnect(event) ==> event is ServerDisconnected
            && event.endpoint() == reader.endpoint && event.generation() == reader.generation,
{
}

/// The reader reports a lost connection at most once, as the last thing it does, and ends for good.
pub proof fn the_end_comes_once<M>(reader: ReaderView, replies: Seq<ReaderReply<M>>, i: int)
    requires
        reader.is_run(replies),
        0 <= i < replies.len(),
        reader.next(replies[i]) is Disconnect || reader.next(replies[i]) is Stop,
    ensures
        i == replies.len() - 1,
{
    if i + 1 < replies.len() {
        assert(answers(reader.next(replies[i]), replies[i + 1]));
    }
}

/// A connection counts as lost exactly where the stream could not be set up or a read failed for
/// good. A stream that has nothing to read yet is tried again.
pub proof fn lost_only_for_good<M>(reader: ReaderView, reply: ReaderReply<M>)
    ensures
        reader.next(reply) is Disconnect <==> (reply matches ReaderReply::Opened(Err(_))) || (
        reply matches ReaderReply::Read(Err(error)) && !nothing_yet(error)),
        reply matches ReaderReply::Read(Err(error)) && nothing_yet(error) ==> reader.next(reply)
            == ReaderStepView::<M>::Rest(READ_PAUSE),
        reader.next(ReaderReply::<M>::Rested) == ReaderStepView::<M>::CheckQuit,
{
}

/// Before every read the reader looks whether it should end, and it ends without a word where it
/// should.
pub proof fn quitting_comes_first<M>(reader: ReaderView, replies: Seq<ReaderReply<M>>, i: int)
    requires
        reader.is_run(replies),
        0 <= i < replies.len(),
    ensures
        replies[i] is Read ==> i > 0 && replies[i - 1] == (ReaderReply::<M>::Polled {
            should_quit: false,
        }),
        replies[i] == (ReaderReply::<M>::Polled { should_quit: true }) ==> reader.next(replies[i])
            is Stop && i == replies.len() - 1,
{
    if i > 0 {
        assert(answers(reader.next(replies[i - 1]), replies[i]));
    }
    if replies[i] == (ReaderReply::<M>::Polled { should_quit: true }) {
        the_end_comes_once(reader, replies, i);
    }
}

/// A read is asked for exactly where the reader has looked and need not end, and always with the
/// frame limit that its connection was given.
pub proof fn reads_keep_the_frame_limit<M>(
    endpoint_id: ClientEndpointId,
    generation: u64,
    max_frame_size: usize,
    reply: ReaderReply<M>,
    step: ReaderStep<M>,
)
    requires
        call_ensures(
            server_reader_thread::<M>,
            (&endpoint_id, generation, max_frame_size, reply),
            step,
        ),
    ensures
        step matches ReaderStep::ReadMessage { max_frame_size: limit } ==> limit == max_frame_size,
        step is ReadMessage <==> (reply matches ReaderReply::Polled { should_quit }
            && !should_quit),
{
}

/// In every run of a reader each read keeps the frame limit of the connection.
pub proof fn every_read_of_a_run_keeps_the_limit<M>(
    reader: ReaderView,
    replies: Seq<ReaderReply<M>>,
    i: int,
)
    requires
        reader.is_run(replies),
        0 <= i < replies.len(),
    ensures
        reader.next(replies[i]) matches ReaderStepView::ReadMessage { max_frame_size }
            ==> max_frame_size == reader.max_frame_size,
{
}

/// A message that was read is handed on as it is, once, under the endpoint and the generation of
/// the connection. The reader goes on where it was taken and ends where nobody listens.
pub proof fn messages_are_handed_on_as_they_are<M>(
    endpoint_id: ClientEndpointId,
    generation: u64,
    max_frame_size: usize,
    reply: ReaderReply<M>,
    step: ReaderStep<M>,
)
    requires
        call_ensures(
            server_reader_thread::<M>,
            (&endpoint_id, generation, max_frame_size, reply),
            step,
        ),
    ensures
        reply matches ReaderReply::Read(Ok(message)) ==> (step matches ReaderStep::Forward(
            ClientLoopEvent::ServerMessage { endpoint_id: from, generation: under, message: read },
        ) && from@ == endpoint_id@ && under == generation && *read == message),
        step is Forward ==> (reply matches ReaderReply::Read(Ok(_))),
        reply matches ReaderReply::Forwarded { delivered } ==> (delivered <==> step is CheckQuit)
            && (!delivered <==> step is Stop),
{
}

/// The loss of a connection is reported under its endpoint and generation where the stream could
/// not be set up, and where a read fails in any way but that there is nothing to read yet. In that
/// one case the reader rests for a millisecond and looks again. It ends without a word exactly
/// where it is told to end or nobody listens.
pub proof fn losses_are_reported_as_such<M>(
    endpoint_id: ClientEndpointId,
    generation: u64,
    max_frame_size: usize,
    reply: ReaderReply<M>,
    step: ReaderStep<M>,
)
    requires
        call_ensures(
            server_reader_thread::<M>,
            (&endpoint_id, generation, max_frame_size, reply),
            step,
        ),
    ensures
        step matches ReaderStep::Disconnect(event) ==> (
        event matches ClientLoopEvent::ServerDisconnected { endpoint_id: from, generation: under }
            && from@ == endpoint_id@ && under == generation),
        match reply {
            ReaderReply::Opened(Ok(_)) => step is CheckQuit,
            ReaderReply::Opened(Err(_)) => step is Disconnect,
            ReaderReply::Polled { should_quit } => should_quit == step is Stop,
            ReaderReply::Read(Ok(_)) => step is Forward,
            ReaderReply::Read(Err(FramingError::UnexpectedEof { .. })) => step is Disconnect,
            ReaderReply::Read(Err(FramingError::Malformed { .. })) => step is Disconnect,
            ReaderReply::Read(Err(FramingError::Io { error, .. })) => if error.kind
                == ErrorKind::WouldBlock {
                step matches ReaderStep::Rest(span) && span == 1_000_000
            } else {
                step is Disconnect
            },
            ReaderReply::Forwarded { delivered } => delivered == !(step is Stop),
            ReaderReply::Rested => step is CheckQuit,
        },
{
}

/// A failed read is warned of in its own words, unless the server closed the stream or there is
/// nothing to read yet.
pub proof fn warnings_are_in_the_failures_words(error: FramingError, warning: Option<&String>)
    requires
        call_ensures(read_warning, (&error,), warning),
    ensures
        match error {
            FramingError::UnexpectedEof { .. } => warning is None,
            FramingError::Malformed { text } => warning matches Some(said) && said@ == text@,
            FramingError::Io { error, text } => if error.kind == ErrorKind::WouldBlock {
                warning is None
            } else {
                warning matches Some(said) && said@ == text@
            },
        },
{
}

} // verus!
