use vstd::prelude::*;

use crate::ep::{Connected, EndpointBase, EndpointModel, MrLocal, MrNone, Unconnected, UninitUnconnected};
use crate::error::{valid_return_code, Error};

verus! {

/// Marker for connected endpoints driven asynchronously.
pub trait ConnectedEp {}

/// A connection-oriented endpoint that is not enabled yet.
pub type UninitUnconnectedEndpoint = EndpointBase<UninitUnconnected, MrNone>;

/// An enabled endpoint that is not connected and places no requirement on local buffers.
pub type UnconnectedEndpoint = EndpointBase<Unconnected, MrNone>;

/// An enabled endpoint that is not connected and whose local buffers must be registered.
pub type UnconnectedMrLocalEndpoint = EndpointBase<Unconnected, MrLocal>;

/// A connected endpoint that places no requirement on local buffers.
pub type ConnectedEndpoint = EndpointBase<Connected, MrNone>;

/// A connected endpoint whose local buffers must be registered.
pub type ConnectedMrLocalEndpoint = EndpointBase<Connected, MrLocal>;

impl<MRREQ> ConnectedEp for EndpointBase<Connected, MRREQ> {}

/// An enabled, unconnected endpoint of either registration requirement.
pub enum UnconnectedEndpointB {
    PlainData(UnconnectedEndpoint),
    MrLocalData(UnconnectedMrLocalEndpoint),
}

impl UnconnectedEndpointB {
    /// The endpoint's state and bindings.
    pub open spec fn model(&self) -> EndpointModel {
        match self {
            UnconnectedEndpointB::PlainData(ep) => ep@,
            UnconnectedEndpointB::MrLocalData(ep) => ep@,
        }
    }
}

impl UninitUnconnectedEndpoint {
    /// Enables the endpoint once `fi_enable` returned `err`. The enabled endpoint
    /// requires registered local buffers exactly when its provider asked for
    /// local memory registration.
    pub fn enable(self, err: i32) -> (r: Result<UnconnectedEndpointB, Error>)
        requires
            valid_return_code(err as int),
        ensures
            err != 0 ==> r == Err::<UnconnectedEndpointB, Error>(Error { code: (-err) as u32 }),
            err == 0 && self@.mr_local ==> (r matches Ok(UnconnectedEndpointB::MrLocalData(ep)) && ep@ == self@),
            err == 0 && !self@.mr_local ==> (r matches Ok(UnconnectedEndpointB::PlainData(ep)) && ep@ == self@),
    {
        if err != 0 {
            return Err(Error::from_err_code((-(err as i64)) as u32));
        }
        if self.inner().mr_local() {
            Ok(UnconnectedEndpointB::MrLocalData(self.into_state()))
        } else {
            Ok(UnconnectedEndpointB::PlainData(self.into_state()))
        }
    }
}

} // verus!
