//! Which endpoint of the connection created a stream.

use vstd::prelude::*;
use crate::frame::StreamId;

verus! {

/// The role that this endpoint plays for the lifetime of the connection.
#[derive(Clone, Copy, Debug, PartialEq, Eq, Structural)]
pub enum Role {
    Client,
    Server,
}

impl Role {
    /// Whether this endpoint created the stream `id`: a server creates the
    /// even streams, a client the odd ones.
    pub open spec fn is_local_init_spec(self, id: StreamId) -> bool {
        (self == Role::Server) == id.even()
    }

    /// Whether this endpoint is the server.
    pub fn is_server(&self) -> (r: bool)
        ensures
            r == (*self == Role::Server),
    {
        match self {
            Role::Server => true,
            Role::Client => false,
        }
    }

    /// Whether this endpoint created the stream `id`.
    ///
    /// The answer is a function of the role and of the parity of `id` alone.
    pub fn is_local_init(&self, id: StreamId) -> (r: bool)
        ensures
            r == self.is_local_init_spec(id),
    {
        self.is_server() == id.is_server_initiated()
    }
}

/// Each stream was created by exactly one of the two endpoints: what is
/// local to the client is remote to the server, and the other way round.
pub proof fn lemma_roles_disagree(id: StreamId)
    ensures
        Role::Client.is_local_init_spec(id) != Role::Server.is_local_init_spec(id),
{
}

/// Two streams of the same parity were created by the same endpoint.
pub proof fn lemma_parity_decides(role: Role, a: StreamId, b: StreamId)
    requires
        a.even() == b.even(),
    ensures
        role.is_local_init_spec(a) == role.is_local_init_spec(b),
{
}

} // verus!
