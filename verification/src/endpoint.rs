//! The endpoints that a client can talk to.

use vstd::prelude::*;

verus! {

/// The identifier of a saved profile.
#[derive(Debug, PartialEq, Eq)]
pub struct ProfileId {
    pub text: String,
}

impl ProfileId {
    /// The identifier with the given text, which the list of profiles has vouched for.
    pub fn new(text: String) -> (id: ProfileId)
        ensures
            id.text == text,
    {
        ProfileId { text }
    }
}

impl Clone for ProfileId {
    fn clone(&self) -> (copy: ProfileId)
        ensures
            copy == *self,
    {
        ProfileId { text: self.text.clone() }
    }
}

/// Which server an endpoint stands for: the local one, or that of a saved SSH profile.
#[derive(Debug, PartialEq, Eq)]
pub enum ClientEndpointId {
    Local,
    Ssh(ProfileId),
}

/// An endpoint's identity: two identifiers with equal keys name the same endpoint.
pub enum EndpointKey {
    Local,
    Ssh(Seq<char>),
}

impl View for ClientEndpointId {
    type V = EndpointKey;

    open spec fn view(&self) -> EndpointKey {
        match self {
            ClientEndpointId::Local => EndpointKey::Local,
            ClientEndpointId::Ssh(id) => EndpointKey::Ssh(id.text@),
        }
    }
}

impl Clone for ClientEndpointId {
    fn clone(&self) -> (copy: ClientEndpointId)
        ensures
            copy == *self,
    {
        match self {
            ClientEndpointId::Local => ClientEndpointId::Local,
            ClientEndpointId::Ssh(id) => ClientEndpointId::Ssh(id.clone()),
        }
    }
}

impl ClientEndpointId {
    /// Whether two identifiers name the same endpoint.
    pub fn same(&self, other: &ClientEndpointId) -> (equal: bool)
        ensures
            equal == (self@ == other@),
    {
        match (self, other) {
            (ClientEndpointId::Local, ClientEndpointId::Local) => true,
            (ClientEndpointId::Ssh(left), ClientEndpointId::Ssh(right)) => left.text == right.text,
            _ => false,
        }
    }

    /// Whether this is the local server.
    pub fn is_local(&self) -> (local: bool)
        ensures
            local == (self@ == EndpointKey::Local),
    {
        match self {
            ClientEndpointId::Local => true,
            ClientEndpointId::Ssh(_) => false,
        }
    }
}

/// How an endpoint is doing, as shown to the user.
#[derive(Clone, Copy, Debug, PartialEq, Eq, Structural)]
pub enum ClientEndpointStatus {
    Online,
    Connecting,
    Reconnecting,
    /// A person has to act before another attempt makes sense.
    Attention,
    Disabled,
}

/// An SSH endpoint that the user saved.
#[derive(Debug, PartialEq, Eq)]
pub struct SavedSshEndpoint {
    pub id: ProfileId,
    pub label: String,
    pub target: String,
    pub session: String,
    pub enabled: bool,
}

impl SavedSshEndpoint {
    /// The identity of the endpoint that the profile stands for.
    pub open spec fn key(self) -> EndpointKey {
        EndpointKey::Ssh(self.id.text@)
    }
}

impl Clone for SavedSshEndpoint {
    fn clone(&self) -> (copy: SavedSshEndpoint)
        ensures
            copy == *self,
    {
        SavedSshEndpoint {
            id: self.id.clone(),
            label: self.label.clone(),
            target: self.target.clone(),
            session: self.session.clone(),
            enabled: self.enabled,
        }
    }
}

/// What a server and this client agreed on, and what of it connecting depends on.
#[derive(Debug, PartialEq, Eq)]
pub struct EndpointNegotiation<N> {
    pub agreed: N,
    pub surface_interest: bool,
    pub health_check: bool,
}

impl<N> EndpointNegotiation<N> {
    /// Whether the client may tell the server which surfaces it shows.
    pub fn supports_surface_interest(&self) -> (supported: bool)
        ensures
            supported == self.surface_interest,
    {
        self.surface_interest
    }

    /// Whether the client may ask the server for a sign of life.
    pub fn supports_health_check(&self) -> (supported: bool)
        ensures
            supported == self.health_check,
    {
        self.health_check
    }
}

/// Two profiles' endpoints are the same exactly where the profiles have the same text for an
/// identifier, letter for letter, and none of them is the local server.
pub proof fn endpoints_are_told_apart(one: ProfileId, other: ProfileId, equal: bool, local: bool)
    ensures
        ClientEndpointId::Ssh(one)@ == ClientEndpointId::Ssh(other)@ <==> one.text@ == other.text@,
        ClientEndpointId::Ssh(one)@ != ClientEndpointId::Local@,
        call_ensures(
            ClientEndpointId::same,
            (&ClientEndpointId::Ssh(one), &ClientEndpointId::Ssh(other)),
            equal,
        ) ==> equal == (one.text@ == other.text@),
        call_ensures(
            ClientEndpointId::same,
            (&ClientEndpointId::Ssh(one), &ClientEndpointId::Local),
            equal,
        ) ==> !equal,
        call_ensures(
            ClientEndpointId::same,
            (&ClientEndpointId::Local, &ClientEndpointId::Ssh(one)),
            equal,
        ) ==> !equal,
        call_ensures(
            ClientEndpointId::same,
            (&ClientEndpointId::Local, &ClientEndpointId::Local),
            equal,
        ) ==> equal,
        call_ensures(ClientEndpointId::is_local, (&ClientEndpointId::Ssh(one),), local) ==> !local,
        call_ensures(ClientEndpointId::is_local, (&ClientEndpointId::Local,), local) ==> local,
{
}

/// A profile stands for the endpoint under its own identifier.
pub proof fn profiles_stand_for_their_endpoints(profile: SavedSshEndpoint)
    ensures
        profile.key() == ClientEndpointId::Ssh(profile.id)@,
        profile.key() == EndpointKey::Ssh(profile.id.text@),
{
}

} // verus!
