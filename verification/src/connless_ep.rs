use vstd::prelude::*;

use crate::ep::{Connectionless, EndpointBase, EndpointModel, MrLocal, MrNone, UninitConnectionless};
use crate::error::{valid_return_code, Error};

verus! {

/// Marker for connectionless endpoints.
pub trait ConnlessEp {}

/// Marker for connectionless endpoints whose local buffers must be registered.
pub trait ConnlessMrEp {}

/// A connectionless endpoint that is not enabled yet.
pub type UninitConnectionlessEndpoint = EndpointBase<UninitConnectionless, MrNone>;

/// An enabled connectionless endpoint.
pub type ConnectionlessEndpointBase<MRREQ> = EndpointBase<Connectionless, MRREQ>;

/// An enabled connectionless endpoint that places no requirement on local buffers.
pub type ConnectionlessEndpoint = ConnectionlessEndpointBase<MrNone>;

/// An enabled connectionless endpoint whose local buffers must be registered.
pub type ConnectionlessMrLocalEndpoint = ConnectionlessEndpointBase<MrLocal>;

/// An enabled connectionless endpoint of either registration requirement.
pub enum ConnectionlessEndpointB {
    PlainData(ConnectionlessEndpoint),
    MrLocalData(ConnectionlessMrLocalEndpoint),
}

impl ConnectionlessEndpointB {
    /// The endpoint's state and bindings.
    pub open spec fn model(&self) -> EndpointModel {
        match self {
            ConnectionlessEndpointB::PlainData(ep) => ep@,
            ConnectionlessEndpointB::MrLocalData(ep) => ep@,
        }
    }
}

impl ConnlessEp for ConnectionlessEndpointBase<MrNone> {}

impl UninitConnectionlessEndpoint {
    /// Enables the endpoint once `fi_enable` returned `err`. The enabled endpoint
    /// requires registered local buffers exactly when its provider asked for
    /// local memory registration.
    pub fn enable(self, err: i32) -> (r: Result<ConnectionlessEndpointB, Error>)
        requires
            valid_return_code(err as int),
        ensures
            err != 0 ==> r == Err::<ConnectionlessEndpointB, Error>(Error { code: (-err) as u32 }),
            err == 0 && self@.mr_local ==> (r matches Ok(ConnectionlessEndpointB::MrLocalData(ep)) && ep@ == self@),
            err == 0 && !self@.mr_local ==> (r matches Ok(ConnectionlessEndpointB::PlainData(ep)) && ep@ == self@),
    {
        if err != 0 {
            return Err(Error::from_err_code((-(err as i64)) as u32));
        }
        if self.inner().mr_local() {
            Ok(ConnectionlessEndpointB::MrLocalData(self.into_state()))
        } else {
            Ok(ConnectionlessEndpointB::PlainData(self.into_state()))
        }
    }
}

} // verus!
