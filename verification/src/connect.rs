//! One attempt to connect to a saved SSH endpoint, decision by decision.
//!
//! The attempt alternates between a step that says what to do and a reply that says how it went.

use vstd::prelude::*;
use vstd::string::StringExecFns;

use crate::endpoint::{
    ClientEndpointId, ClientEndpointStatus, EndpointKey, EndpointNegotiation, SavedSshEndpoint,
};
use crate::error::{ClientError, ErrorKind, FramingError, IoError, IoErrorView};
use crate::remote::failure_needs_attention;

verus! {

/// What the client tells every SSH endpoint about itself. `S` is the size of the surface on which
/// it shows an endpoint.
#[derive(Debug, PartialEq, Eq)]
pub struct SshConnectOptions<S> {
    pub cols: u16,
    pub rows: u16,
    pub cell_width_px: u32,
    pub cell_height_px: u32,
    pub pixel_geometry_exact: bool,
    pub surface_size: S,
    pub endpoint_keybindings: bool,
    pub mouse_capture: bool,
}

impl<S: Copy> Clone for SshConnectOptions<S> {
    fn clone(&self) -> (copy: SshConnectOptions<S>)
        ensures
            copy == *self,
    {
        *self
    }
}

impl<S: Copy> Copy for SshConnectOptions<S> {

}

/// How a server sends what is to be shown.
#[derive(Clone, Copy, Debug, PartialEq, Eq, Structural)]
pub enum RenderEncoding {
    /// Frames that the client lays out itself.
    SemanticFrame,
    /// Any other encoding.
    Other,
}

/// The arguments of a handshake.
#[derive(Debug, PartialEq, Eq)]
pub struct HandshakeRequest<S> {
    pub cols: u16,
    pub rows: u16,
    pub cell_width_px: u32,
    pub cell_height_px: u32,
    pub pixel_geometry_exact: bool,
    pub surface_size: Option<S>,
    pub endpoint_keybindings: bool,
    pub mouse_capture: bool,
    /// The last flag of a handshake, which an SSH endpoint never sets.
    pub trailing_flag: bool,
}

/// What a server answered to a handshake.
#[derive(Debug, PartialEq, Eq)]
pub struct Handshake {
    pub encoding: RenderEncoding,
    pub endpoint_methods: Option<Vec<String>>,
    pub endpoint_capabilities: Option<Vec<String>>,
}

/// What an attempt reports to the client's main loop. `R` and `W` are the two ends of the
/// connection, and `N` is what was negotiated over it.
#[derive(Debug, PartialEq, Eq)]
pub enum SshSupervisorEvent<R, W, N> {
    Status {
        endpoint_id: ClientEndpointId,
        generation: u64,
        status: ClientEndpointStatus,
        message: String,
    },
    Connected {
        endpoint_id: ClientEndpointId,
        generation: u64,
        reader: R,
        writer: W,
        negotiation: N,
    },
}

/// An event with its endpoint's identity and its text as characters.
pub enum SshSupervisorEventView<R, W, N> {
    Status {
        endpoint: EndpointKey,
        generation: u64,
        status: ClientEndpointStatus,
        message: Seq<char>,
    },
    Connected {
        endpoint: EndpointKey,
        generation: u64,
        reader: R,
        writer: W,
        negotiation: N,
    },
}

impl<R, W, N> View for SshSupervisorEvent<R, W, N> {
    type V = SshSupervisorEventView<R, W, N>;

    open spec fn view(&self) -> SshSupervisorEventView<R, W, N> {
        match *self {
            SshSupervisorEvent::Status {
                endpoint_id,
                generation,
                status,
                message,
            } => SshSupervisorEventView::Status {
                endpoint: endpoint_id@,
                generation,
                status,
                message: message@,
            },
            SshSupervisorEvent::Connected {
                endpoint_id,
                generation,
                reader,
                writer,
                negotiation,
            } => SshSupervisorEventView::Connected {
                endpoint: endpoint_id@,
                generation,
                reader,
                writer,
                negotiation,
            },
        }
    }
}

impl<R, W, N> SshSupervisorEventView<R, W, N> {
    /// The endpoint that the event is about.
    pub open spec fn endpoint(self) -> EndpointKey {
        match self {
            SshSupervisorEventView::Status { endpoint, .. } => endpoint,
            SshSupervisorEventView::Connected { endpoint, .. } => endpoint,
        }
    }

    /// The generation of the attempt that the event is about.
    pub open spec fn generation(self) -> u64 {
        match self {
            SshSupervisorEventView::Status { generation, .. } => generation,
            SshSupervisorEventView::Connected { generation, .. } => generation,
        }
    }
}

/// How far an attempt has come.
#[derive(Debug, PartialEq, Eq)]
pub enum ConnectReply<R, W, N> {
    /// Nothing has happened yet.
    Started,
    /// The connection to the remote host failed. `needs_attention` says whether a person has to
    /// act, and `bootstrap_command` is what they would run.
    ConnectFailed { error: IoError, needs_attention: bool, bootstrap_command: String },
    /// The connection stands.
    Connected,
    /// The handshake failed.
    HandshakeFailed(ClientError),
    /// The server answered the handshake.
    Handshaken(Handshake),
    /// The server's methods and capabilities have been weighed.
    Negotiated(EndpointNegotiation<N>),
    /// The connection could not be split into a reader and a writer.
    CloneFailed(IoError),
    /// The connection has been split.
    Cloned { reader: R, writer: W, negotiation: N },
}

/// What an attempt does next.
#[derive(Debug, PartialEq, Eq)]
pub enum ConnectStep<S, R, W, N> {
    /// Open a connection to the saved endpoint.
    Connect { profile_id: String, target: String, session: String },
    /// Shake hands over the connection.
    Handshake(HandshakeRequest<S>),
    /// Weigh what the server offers.
    Negotiate { methods: Vec<String>, capabilities: Vec<String> },
    /// Split the connection into a reader and a writer.
    CloneReader(N),
    /// The attempt succeeded.
    Done(SshSupervisorEvent<R, W, N>),
    /// The attempt failed.
    Failed { endpoint_id: ClientEndpointId, error: IoError },
}

/// A step with its texts as characters and its lists as sequences.
pub enum ConnectStepView<S, R, W, N> {
    Connect { profile_id: Seq<char>, target: Seq<char>, session: Seq<char> },
    Handshake(HandshakeRequest<S>),
    Negotiate { methods: Seq<String>, capabilities: Seq<String> },
    CloneReader(N),
    Done(SshSupervisorEventView<R, W, N>),
    Failed { endpoint: EndpointKey, error: IoErrorView },
}

impl<S, R, W, N> View for ConnectStep<S, R, W, N> {
    type V = ConnectStepView<S, R, W, N>;

    open spec fn view(&self) -> ConnectStepView<S, R, W, N> {
        match *self {
            ConnectStep::Connect { profile_id, target, session } => ConnectStepView::Connect {
                profile_id: profile_id@,
                target: target@,
                session: session@,
            },
            ConnectStep::Handshake(request) => ConnectStepView::Handshake(request),
            ConnectStep::Negotiate { methods, capabilities } => ConnectStepView::Negotiate {
                methods: methods@,
                capabilities: capabilities@,
            },
            ConnectStep::CloneReader(negotiation) => ConnectStepView::CloneReader(negotiation),
            ConnectStep::Done(event) => ConnectStepView::Done(event@),
            ConnectStep::Failed { endpoint_id, error } => ConnectStepView::Failed {
                endpoint: endpoint_id@,
                error: error@,
            },
        }
    }
}

/// The I/O failure that stands for a failed handshake: a broken connection stays what it was, a
/// refusal or a broken protocol shows that the two sides do not fit.
pub open spec fn handshake_failure(error: ClientError) -> IoErrorView {
    match error {
        ClientError::ConnectionFailed(error) => error@,
        ClientError::ConnectionLost(error) => error@,
        ClientError::HandshakeRejected { error, .. } => IoErrorView {
            kind: ErrorKind::Unsupported,
            message: error@,
        },
        ClientError::Protocol(FramingError::Io { error, .. }) => error@,
        ClientError::Protocol(error) => IoErrorView {
            kind: ErrorKind::InvalidData,
            message: error.spec_text(),
        },
        ClientError::ServerShutdown { reason } => IoErrorView {
            kind: ErrorKind::ConnectionAborted,
            message: match reason {
                Some(reason) => reason@,
                None => "remote server shut down during handshake"@,
            },
        },
    }
}

/// Turns a failed handshake into the I/O failure that stands for it.
pub fn handshake_error(error: ClientError) -> (failure: IoError)
    ensures
        failure@ == handshake_failure(error),
{
    match error {
        ClientError::ConnectionFailed(error) => error,
        ClientError::ConnectionLost(error) => error,
        ClientError::HandshakeRejected { error, .. } => IoError::new(ErrorKind::Unsupported, error),
        ClientError::Protocol(FramingError::Io { error, .. }) => error,
        ClientError::Protocol(error) => IoError::new(ErrorKind::InvalidData, error.into_text()),
        ClientError::ServerShutdown { reason } => {
            let message = match reason {
                Some(reason) => reason,
                None => "remote server shut down during handshake".to_owned(),
            };
            IoError::new(ErrorKind::ConnectionAborted, message)
        },
    }
}

/// The failure to reach a remote host, with the way out where a person has to act.
pub open spec fn connect_failure(
    error: IoErrorView,
    needs_attention: bool,
    bootstrap_command: Seq<char>,
) -> IoErrorView {
    if needs_attention {
        IoErrorView {
            kind: error.kind,
            message: error.message + ". Run `"@ + bootstrap_command
                + "` interactively to approve setup, then restart this client"@,
        }
    } else {
        error
    }
}

/// The handshake that the options call for.
pub open spec fn handshake_request<S>(options: SshConnectOptions<S>) -> HandshakeRequest<S> {
    HandshakeRequest {
        cols: options.cols,
        rows: options.rows,
        cell_width_px: options.cell_width_px,
        cell_height_px: options.cell_height_px,
        pixel_geometry_exact: options.pixel_geometry_exact,
        surface_size: Some(options.surface_size),
        endpoint_keybindings: options.endpoint_keybindings,
        mouse_capture: options.mouse_capture,
        trailing_flag: false,
    }
}

/// The items of a list that a server may leave out.
pub open spec fn offered(list: Option<Vec<String>>) -> Seq<String> {
    match list {
        Some(items) => items@,
        None => Seq::empty(),
    }
}

/// The failure of a server that does not send semantic frames.
pub open spec fn wrong_encoding() -> IoErrorView {
    IoErrorView {
        kind: ErrorKind::InvalidData,
        message: "SSH endpoint did not negotiate the semantic client shell"@,
    }
}

/// The failure of a server that is too old to be one of several machines.
pub open spec fn outdated(profile: SavedSshEndpoint) -> IoErrorView {
    IoErrorView {
        kind: ErrorKind::Unsupported,
        message: profile.label@
            + " does not support safe multi-machine lifecycle; run `herdr --remote "@
            + profile.target@ + "` interactively to update it"@,
    }
}

/// What an attempt does after a reply.
pub open spec fn connect_next<S, R, W, N>(
    profile: SavedSshEndpoint,
    options: SshConnectOptions<S>,
    endpoint: EndpointKey,
    generation: u64,
    reply: ConnectReply<R, W, N>,
) -> ConnectStepView<S, R, W, N> {
    match reply {
        ConnectReply::Started => ConnectStepView::Connect {
            profile_id: profile.id.text@,
            target: profile.target@,
            session: profile.session@,
        },
        ConnectReply::ConnectFailed {
            error,
            needs_attention,
            bootstrap_command,
        } => ConnectStepView::Failed {
            endpoint,
            error: connect_failure(error@, needs_attention, bootstrap_command@),
        },
        ConnectReply::Connected => ConnectStepView::Handshake(handshake_request(options)),
        ConnectReply::HandshakeFailed(error) => ConnectStepView::Failed {
            endpoint,
            error: handshake_failure(error),
        },
        ConnectReply::Handshaken(handshake) => if handshake.encoding
            == RenderEncoding::SemanticFrame {
            ConnectStepView::Negotiate {
                methods: offered(handshake.endpoint_methods),
                capabilities: offered(handshake.endpoint_capabilities),
            }
        } else {
            ConnectStepView::Failed { endpoint, error: wrong_encoding() }
        },
        ConnectReply::Negotiated(negotiation) => if negotiation.surface_interest
            && negotiation.health_check {
            ConnectStepView::CloneReader(negotiation.agreed)
        } else {
            ConnectStepView::Failed { endpoint, error: outdated(profile) }
        },
        ConnectReply::CloneFailed(error) => ConnectStepView::Failed { endpoint, error: error@ },
        ConnectReply::Cloned { reader, writer, negotiation } => ConnectStepView::Done(
            SshSupervisorEventView::Connected { endpoint, generation, reader, writer, negotiation },
        ),
    }
}

/// Decides what one attempt to connect does after a reply.
pub fn connect_once<S, R, W, N>(
    profile: &SavedSshEndpoint,
    options: SshConnectOptions<S>,
    endpoint_id: ClientEndpointId,
    generation: u64,
    reply: ConnectReply<R, W, N>,
) -> (step: ConnectStep<S, R, W, N>)
    ensures
        step@ == connect_next(*profile, options, endpoint_id@, generation, reply),
{
    match reply {
        ConnectReply::Started => ConnectStep::Connect {
            profile_id: profile.id.text.clone(),
            target: profile.target.clone(),
            session: profile.session.clone(),
        },
        ConnectReply::ConnectFailed { error, needs_attention, bootstrap_command } => {
            let error = if needs_attention {
                let IoError { kind, message } = error;
                let message = message.concat(". Run `").concat(bootstrap_command.as_str()).concat(
                    "` interactively to approve setup, then restart this client",
                );
                IoError::new(kind, message)
            } else {
                error
            };
            ConnectStep::Failed { endpoint_id, error }
        },
        ConnectReply::Connected => ConnectStep::Handshake(
            HandshakeRequest {
                cols: options.cols,
                rows: options.rows,
                cell_width_px: options.cell_width_px,
                cell_height_px: options.cell_height_px,
                pixel_geometry_exact: options.pixel_geometry_exact,
                surface_size: Some(options.surface_size),
                endpoint_keybindings: options.endpoint_keybindings,
                mouse_capture: options.mouse_capture,
                trailing_flag: false,
            },
        ),
        ConnectReply::HandshakeFailed(error) => ConnectStep::Failed {
            endpoint_id,
            error: handshake_error(error),
        },
        ConnectReply::Handshaken(handshake) => {
            if handshake.encoding != RenderEncoding::SemanticFrame {
                return ConnectStep::Failed {
                    endpoint_id,
                    error: IoError::new(
                        ErrorKind::InvalidData,
                        "SSH endpoint did not negotiate the semantic client shell".to_owned(),
                    ),
                };
            }
            ConnectStep::Negotiate {
                methods: handshake.endpoint_methods.unwrap_or_default(),
                capabilities: handshake.endpoint_capabilities.unwrap_or_default(),
            }
        },
        ConnectReply::Negotiated(negotiation) => {
            if !negotiation.supports_surface_interest() || !negotiation.supports_health_check() {
                let message = profile.label.clone().concat(
                    " does not support safe multi-machine lifecycle; run `herdr --remote ",
                ).concat(profile.target.as_str()).concat("` interactively to update it");
                return ConnectStep::Failed {
                    endpoint_id,
                    error: IoError::new(ErrorKind::Unsupported, message),
                };
            }
            ConnectStep::CloneReader(negotiation.agreed)
        },
        ConnectReply::CloneFailed(error) => ConnectStep::Failed { endpoint_id, error },
        ConnectReply::Cloned { reader, writer, negotiation } => ConnectStep::Done(
            SshSupervisorEvent::Connected { endpoint_id, generation, reader, writer, negotiation },
        ),
    }
}

/// How everything outside an attempt behaves: what each step would be answered.
pub struct Surroundings<R, W, N> {
    /// The failure of the connection, whether a person has to act, and what they would run; or
    /// nothing, where the connection stands.
    pub connect: Result<(), (IoError, bool, String)>,
    pub handshake: Result<Handshake, ClientError>,
    /// What is made of a server's methods and capabilities.
    pub negotiate: spec_fn(Seq<String>, Seq<String>) -> EndpointNegotiation<N>,
    pub clone: Result<(R, W), IoError>,
}

impl<R, W, N> Surroundings<R, W, N> {
    /// The reply to a step, unless the attempt is over.
    pub open spec fn reply<S>(self, step: ConnectStepView<S, R, W, N>) -> Option<
        ConnectReply<R, W, N>,
    > {
        match step {
            ConnectStepView::Connect { .. } => Some(
                match self.connect {
                    Ok(()) => ConnectReply::Connected,
                    Err(
                        (error, needs_attention, bootstrap_command),
                    ) => ConnectReply::ConnectFailed { error, needs_attention, bootstrap_command },
                },
            ),
            ConnectStepView::Handshake(_) => Some(
                match self.handshake {
                    Ok(handshake) => ConnectReply::Handshaken(handshake),
                    Err(error) => ConnectReply::HandshakeFailed(error),
                },
            ),
            ConnectStepView::Negotiate { methods, capabilities } => Some(
                ConnectReply::Negotiated((self.negotiate)(methods, capabilities)),
            ),
            ConnectStepView::CloneReader(negotiation) => Some(
                match self.clone {
                    Ok((reader, writer)) => ConnectReply::Cloned { reader, writer, negotiation },
                    Err(error) => ConnectReply::CloneFailed(error),
                },
            ),
            ConnectStepView::Done(_) => None,
            ConnectStepView::Failed { .. } => None,
        }
    }

    /// The step at which an attempt ends that goes on after `reply` for at most `more` replies.
    pub open spec fn run<S>(
        self,
        profile: SavedSshEndpoint,
        options: SshConnectOptions<S>,
        endpoint: EndpointKey,
        generation: u64,
        reply: ConnectReply<R, W, N>,
        more: nat,
    ) -> ConnectStepView<S, R, W, N>
        decreases more,
    {
        let step = connect_next(profile, options, endpoint, generation, reply);
        match self.reply(step) {
            Some(next) if more > 0 => self.run(
                profile,
                options,
                endpoint,
                generation,
                next,
                (more - 1) as nat,
            ),
            _ => step,
        }
    }

    /// The step at which an attempt ends: no attempt needs more than four replies.
    pub open spec fn attempt<S>(
        self,
        profile: SavedSshEndpoint,
        options: SshConnectOptions<S>,
        endpoint: EndpointKey,
        generation: u64,
    ) -> ConnectStepView<S, R, W, N> {
        self.run(profile, options, endpoint, generation, ConnectReply::Started, 4)
    }

    /// What is made of the server's answer to the handshake.
    pub open spec fn negotiated(self) -> EndpointNegotiation<N> {
        (self.negotiate)(
            offered(self.handshake->Ok_0.endpoint_methods),
            offered(self.handshake->Ok_0.endpoint_capabilities),
        )
    }

    /// Whether the server can be one of several machines that this client shows.
    pub open spec fn compatible(self) -> bool {
        &&& self.connect is Ok
        &&& self.handshake is Ok
        &&& self.handshake->Ok_0.encoding == RenderEncoding::SemanticFrame
        &&& self.negotiated().surface_interest
        &&& self.negotiated().health_check
    }
}

/// An attempt ends with the first thing that goes wrong, in the order: connection, handshake,
/// encoding, negotiation, splitting the connection. Where nothing goes wrong it ends with the
/// connection and what was negotiated.
pub proof fn attempt_ends_with_first_failure<S, R, W, N>(
    surroundings: Surroundings<R, W, N>,
    profile: SavedSshEndpoint,
    options: SshConnectOptions<S>,
    endpoint: EndpointKey,
    generation: u64,
)
    ensures
        surroundings.attempt(profile, options, endpoint, generation) == match surroundings.connect {
            Err((error, needs_attention, bootstrap_command)) => ConnectStepView::Failed {
                endpoint,
                error: connect_failure(error@, needs_attention, bootstrap_command@),
            },
            Ok(()) => match surroundings.handshake {
                Err(error) => ConnectStepView::Failed { endpoint, error: handshake_failure(error) },
                Ok(handshake) => if handshake.encoding != RenderEncoding::SemanticFrame {
                    ConnectStepView::Failed { endpoint, error: wrong_encoding() }
                } else if !surroundings.compatible() {
                    ConnectStepView::Failed { endpoint, error: outdated(profile) }
                } else {
                    match surroundings.clone {
                        Err(error) => ConnectStepView::Failed { endpoint, error: error@ },
                        Ok((reader, writer)) => ConnectStepView::<S, R, W, N>::Done(
                            SshSupervisorEventView::Connected {
                                endpoint,
                                generation,
                                reader,
                                writer,
                                negotiation: surroundings.negotiated().agreed,
                            },
                        ),
                    }
                },
            },
        },
{
    reveal_with_fuel(Surroundings::run, 5);
}

/// An attempt is over after four replies: going on changes nothing.
pub proof fn attempt_is_over<S, R, W, N>(
    surroundings: Surroundings<R, W, N>,
    profile: SavedSshEndpoint,
    options: SshConnectOptions<S>,
    endpoint: EndpointKey,
    generation: u64,
)
    ensures
        surroundings.reply(surroundings.attempt(profile, options, endpoint, generation)) is None,
{
    reveal_with_fuel(Surroundings::run, 5);
}

/// An attempt ends in a connection exactly where the server is compatible and the connection can be
/// split.
pub proof fn only_compatible_servers_connect<S, R, W, N>(
    surroundings: Surroundings<R, W, N>,
    profile: SavedSshEndpoint,
    options: SshConnectOptions<S>,
    endpoint: EndpointKey,
    generation: u64,
)
    ensures
        surroundings.attempt(profile, options, endpoint, generation) is Done <==> (
        surroundings.compatible() && surroundings.clone is Ok),
{
    attempt_ends_with_first_failure(surroundings, profile, options, endpoint, generation);
}

/// A refused handshake needs a person whatever the server says, a server that goes down does not,
/// and a connection that broke is judged by how it broke: a timeout, among others, is retried.
pub proof fn incompatibility_needs_attention(
    version: u32,
    refusal: String,
    reason: Option<String>,
    broken: IoError,
    text: String,
)
    ensures
        failure_needs_attention(
            handshake_failure(ClientError::HandshakeRejected { version, error: refusal }),
        ),
        !failure_needs_attention(handshake_failure(ClientError::ServerShutdown { reason })),
        handshake_failure(ClientError::ConnectionFailed(broken)) == broken@,
        handshake_failure(ClientError::ConnectionLost(broken)) == broken@,
        handshake_failure(ClientError::Protocol(FramingError::Io { error: broken, text }))
            == broken@,
        broken.kind == ErrorKind::TimedOut ==> !failure_needs_attention(broken@),
{
}

/// An attempt begins by asking for the saved host: the profile's own identifier, target and
/// session, and nothing else.
pub proof fn attempts_go_to_the_saved_host<S, R, W, N>(
    profile: SavedSshEndpoint,
    options: SshConnectOptions<S>,
    endpoint_id: ClientEndpointId,
    generation: u64,
    step: ConnectStep<S, R, W, N>,
)
    requires
        call_ensures(
            connect_once::<S, R, W, N>,
            (&profile, options, endpoint_id, generation, ConnectReply::Started),
            step,
        ),
    ensures
        step matches ConnectStep::Connect { profile_id, target, session } && {
            &&& profile_id@ == profile.id.text@
            &&& target@ == profile.target@
            &&& session@ == profile.session@
        },
{
}

/// The handshake carries the options field by field, with the surface size filled in and the last
/// flag unset.
pub proof fn handshakes_carry_the_options<S, R, W, N>(
    profile: SavedSshEndpoint,
    options: SshConnectOptions<S>,
    endpoint_id: ClientEndpointId,
    generation: u64,
    step: ConnectStep<S, R, W, N>,
)
    requires
        call_ensures(
            connect_once::<S, R, W, N>,
            (&profile, options, endpoint_id, generation, ConnectReply::Connected),
            step,
        ),
    ensures
        step matches ConnectStep::Handshake(request) && {
            &&& request.cols == options.cols
            &&& request.rows == options.rows
            &&& request.cell_width_px == options.cell_width_px
            &&& request.cell_height_px == options.cell_height_px
            &&& request.pixel_geometry_exact == options.pixel_geometry_exact
            &&& request.surface_size == Some(options.surface_size)
            &&& request.endpoint_keybindings == options.endpoint_keybindings
            &&& request.mouse_capture == options.mouse_capture
            &&& !request.trailing_flag
        },
{
}

/// Everything that a server with the right encoding offers is weighed, every method and every
/// capability in its order; a list that it leaves out is empty. A server with another encoding is
/// turned away.
pub proof fn everything_offered_is_weighed<S, R, W, N>(
    profile: SavedSshEndpoint,
    options: SshConnectOptions<S>,
    endpoint_id: ClientEndpointId,
    generation: u64,
    handshake: Handshake,
    step: ConnectStep<S, R, W, N>,
)
    requires
        call_ensures(
            connect_once::<S, R, W, N>,
            (&profile, options, endpoint_id, generation, ConnectReply::Handshaken(handshake)),
            step,
        ),
    ensures
        handshake.encoding == RenderEncoding::SemanticFrame ==> (
        step matches ConnectStep::Negotiate { methods, capabilities } && {
            &&& handshake.endpoint_methods matches Some(listed) ==> methods@ == listed@
            &&& handshake.endpoint_methods is None ==> methods@.len() == 0
            &&& handshake.endpoint_capabilities matches Some(listed) ==> capabilities@ == listed@
            &&& handshake.endpoint_capabilities is None ==> capabilities@.len() == 0
        }),
        handshake.encoding != RenderEncoding::SemanticFrame ==> (
        step matches ConnectStep::Failed { endpoint_id: failed, error } && {
            &&& failed@ == endpoint_id@
            &&& error.kind == ErrorKind::InvalidData
            &&& error.message@ == "SSH endpoint did not negotiate the semantic client shell"@
        }),
{
}

/// A server that supports both features goes on with everything that was agreed; any other is told
/// apart by the profile's label and target.
pub proof fn both_features_are_asked_for<S, R, W, N>(
    profile: SavedSshEndpoint,
    options: SshConnectOptions<S>,
    endpoint_id: ClientEndpointId,
    generation: u64,
    negotiation: EndpointNegotiation<N>,
    step: ConnectStep<S, R, W, N>,
)
    requires
        call_ensures(
            connect_once::<S, R, W, N>,
            (&profile, options, endpoint_id, generation, ConnectReply::Negotiated(negotiation)),
            step,
        ),
    ensures
        negotiation.surface_interest && negotiation.health_check ==> step
            == ConnectStep::<S, R, W, N>::CloneReader(negotiation.agreed),
        !(negotiation.surface_interest && negotiation.health_check) ==> (
        step matches ConnectStep::Failed { endpoint_id: failed, error } && {
            &&& failed@ == endpoint_id@
            &&& error.kind == ErrorKind::Unsupported
            &&& error.message@ == profile.label@
                + " does not support safe multi-machine lifecycle; run `herdr --remote "@
                + profile.target@ + "` interactively to update it"@
        }),
{
}

/// A connection that stands is handed on whole: both ends and what was negotiated, under the
/// endpoint and the generation of the attempt.
pub proof fn connections_are_handed_on_whole<S, R, W, N>(
    profile: SavedSshEndpoint,
    options: SshConnectOptions<S>,
    endpoint_id: ClientEndpointId,
    generation: u64,
    reader: R,
    writer: W,
    negotiation: N,
    step: ConnectStep<S, R, W, N>,
)
    requires
        call_ensures(
            connect_once::<S, R, W, N>,
            (
                &profile,
                options,
                endpoint_id,
                generation,
                ConnectReply::Cloned { reader, writer, negotiation },
            ),
            step,
        ),
    ensures
        step matches ConnectStep::Done(
            SshSupervisorEvent::Connected {
                endpoint_id: connected,
                generation: under,
                reader: read,
                writer: written,
                negotiation: negotiated,
            },
        ) && {
            &&& connected@ == endpoint_id@
            &&& under == generation
            &&& read == reader
            &&& written == writer
            &&& negotiated == negotiation
        },
{
}

/// A connection that fails is reported with its own kind and text under its own endpoint. Where a
/// person has to act, the text goes on with what they would run; the kind stays.
pub proof fn failed_connections_keep_their_failure<S, R, W, N>(
    profile: SavedSshEndpoint,
    options: SshConnectOptions<S>,
    endpoint_id: ClientEndpointId,
    generation: u64,
    error: IoError,
    needs_attention: bool,
    bootstrap_command: String,
    step: ConnectStep<S, R, W, N>,
)
    requires
        call_ensures(
            connect_once::<S, R, W, N>,
            (
                &profile,
                options,
                endpoint_id,
                generation,
                ConnectReply::ConnectFailed { error, needs_attention, bootstrap_command },
            ),
            step,
        ) || (call_ensures(
            connect_once::<S, R, W, N>,
            (&profile, options, endpoint_id, generation, ConnectReply::CloneFailed(error)),
            step,
        ) && !needs_attention),
    ensures
        step matches ConnectStep::Failed { endpoint_id: failed, error: reported } && {
            &&& failed@ == endpoint_id@
            &&& reported.kind == error.kind
            &&& !needs_attention ==> reported.message@ == error.message@
            &&& needs_attention ==> reported.message@ == error.message@ + ". Run `"@
                + bootstrap_command@
                + "` interactively to approve setup, then restart this client"@
        },
{
}

/// Each way in which a handshake can fail has its kind and its text: what broke the connection
/// stays as it is, a refusal is `Unsupported` in the server's words, a broken protocol is
/// `InvalidData` in the protocol's, and a server that goes down aborts the connection, with its
/// reason where it gives one.
pub proof fn handshake_failures_keep_their_words(
    error: ClientError,
    failure: IoError,
)
    requires
        call_ensures(handshake_error, (error,), failure),
    ensures
        match error {
            ClientError::ConnectionFailed(broken) => failure.kind == broken.kind
                && failure.message@ == broken.message@,
            ClientError::ConnectionLost(broken) => failure.kind == broken.kind && failure.message@
                == broken.message@,
            ClientError::HandshakeRejected { version, error } => failure.kind
                == ErrorKind::Unsupported && failure.message@ == error@,
            ClientError::Protocol(FramingError::Io { error: broken, text }) => failure.kind
                == broken.kind && failure.message@ == broken.message@,
            ClientError::Protocol(FramingError::UnexpectedEof { text }) => failure.kind
                == ErrorKind::InvalidData && failure.message@ == text@,
            ClientError::Protocol(FramingError::Malformed { text }) => failure.kind
                == ErrorKind::InvalidData && failure.message@ == text@,
            ClientError::ServerShutdown { reason: Some(reason) } => failure.kind
                == ErrorKind::ConnectionAborted && failure.message@ == reason@,
            ClientError::ServerShutdown { reason: None } => failure.kind
                == ErrorKind::ConnectionAborted && failure.message@
                == "remote server shut down during handshake"@,
        },
{
}

/// A failed handshake ends the attempt with the very failure that `handshake_error` makes of it,
/// under the endpoint of the attempt.
pub proof fn failed_handshakes_end_the_attempt<S, R, W, N>(
    profile: SavedSshEndpoint,
    options: SshConnectOptions<S>,
    endpoint_id: ClientEndpointId,
    generation: u64,
    error: ClientError,
    failure: IoError,
    step: ConnectStep<S, R, W, N>,
)
    requires
        call_ensures(
            connect_once::<S, R, W, N>,
            (&profile, options, endpoint_id, generation, ConnectReply::HandshakeFailed(error)),
            step,
        ),
        call_ensures(handshake_error, (error,), failure),
    ensures
        step matches ConnectStep::Failed { endpoint_id: failed, error: reported } && {
            &&& failed@ == endpoint_id@
            &&& reported.kind == failure.kind
            &&& reported.message@ == failure.message@
        },
{
}

/// A server that answers with the right encoding is judged by all that it lists: the attempt
/// connects exactly where everything it offers, taken together, supports both features and the
/// connection can be split, and what it then hands on is what was agreed on all of that.
pub proof fn servers_are_judged_by_all_they_offer<S, R, W, N>(
    surroundings: Surroundings<R, W, N>,
    profile: SavedSshEndpoint,
    options: SshConnectOptions<S>,
    endpoint: EndpointKey,
    generation: u64,
    handshake: Handshake,
    methods: Seq<String>,
    capabilities: Seq<String>,
)
    requires
        surroundings.connect is Ok,
        surroundings.handshake == Ok::<Handshake, ClientError>(handshake),
        handshake.encoding == RenderEncoding::SemanticFrame,
        match handshake.endpoint_methods {
            Some(listed) => methods == listed@,
            None => methods.len() == 0,
        },
        match handshake.endpoint_capabilities {
            Some(listed) => capabilities == listed@,
            None => capabilities.len() == 0,
        },
    ensures
        ({
            let end = surroundings.attempt(profile, options, endpoint, generation);
            let judged = (surroundings.negotiate)(methods, capabilities);
            &&& end is Done <==> judged.surface_interest && judged.health_check
                && surroundings.clone is Ok
            &&& end matches ConnectStepView::Done(event) ==> (
            event matches SshSupervisorEventView::Connected {
                endpoint: connected,
                generation: under,
                reader,
                writer,
                negotiation,
            } && {
                &&& connected == endpoint
                &&& under == generation
                &&& surroundings.clone == Ok::<(R, W), IoError>((reader, writer))
                &&& negotiation == judged.agreed
            })
        }),
{
    if handshake.endpoint_methods is None {
        assert(methods =~= Seq::<String>::empty());
    }
    if handshake.endpoint_capabilities is None {
        assert(capabilities =~= Seq::<String>::empty());
    }
    attempt_ends_with_first_failure(surroundings, profile, options, endpoint, generation);
}

} // verus!
