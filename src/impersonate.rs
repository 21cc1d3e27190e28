//! The client type that a connection-processing context impersonates, held
//! in a slot that travels with that context.

use vstd::prelude::*;

verus! {

/// A client whose behaviour the deeper codec layers reproduce.
#[derive(Clone, Copy, Debug, PartialEq, Eq, Hash, Structural)]
pub enum ClientType {
    Chrome,
    OkHttp,
}

/// The client type selected for one connection context: unset at first, then
/// whatever was set last.
#[derive(Clone, Copy, Debug, PartialEq, Eq, Hash, Structural)]
pub struct ClientContext {
    client_type: Option<ClientType>,
}

impl ClientContext {
    pub closed spec fn spec_client_type(self) -> Option<ClientType> {
        self.client_type
    }

    /// A context with no client type selected.
    pub fn new() -> (r: ClientContext)
        ensures
            r.spec_client_type() is None,
    {
        ClientContext { client_type: None }
    }

    /// Selects `client_type`, replacing any earlier choice.
    pub fn set(&mut self, client_type: ClientType)
        ensures
            final(self).spec_client_type() == Some(client_type),
    {
        self.client_type = Some(client_type);
    }

    /// The selected client type; reading it leaves it in place.
    pub fn get(&self) -> (r: Option<ClientType>)
        ensures
            r == self.spec_client_type(),
    {
        self.client_type
    }
}

} // verus!
