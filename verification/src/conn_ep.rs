use vstd::prelude::*;

use crate::ep::{Connected, EndpointBase, MrNone, Unconnected};
use crate::error::{valid_return_code, Error};
use crate::fid::Fid;

verus! {

/// Marker for endpoints that are connected to a peer.
pub trait ConnectedEp {}

/// An endpoint that is not connected yet.
pub type UnconnectedEndpointBase<MRREQ> = EndpointBase<Unconnected, MRREQ>;

/// An endpoint that is not connected yet and places no requirement on local buffers.
pub type UnconnectedEndpoint = UnconnectedEndpointBase<MrNone>;

/// A connected endpoint.
pub type ConnectedEndpointBase<MRREQ> = EndpointBase<Connected, MRREQ>;

/// A connected endpoint that places no requirement on local buffers.
pub type ConnectedEndpoint = ConnectedEndpointBase<MrNone>;

impl<MRREQ> ConnectedEp for ConnectedEndpointBase<MRREQ> {}

impl<MRREQ> UnconnectedEndpointBase<MRREQ> {
    /// The event queue on which the endpoint awaits the outcome of its connection
    /// request or acceptance, once `fi_connect` (or `fi_accept`) returned `err`: the
    /// error that a non-zero code names, and otherwise the endpoint's event queue,
    /// which has to be bound by then.
    pub fn connection_event_queue(&self, err: i32) -> (r: Result<Fid, Error>)
        requires
            valid_return_code(err as int),
            err == 0 ==> self@.eq is Some,
        ensures
            err != 0 ==> r == Err::<Fid, Error>(Error { code: (-err) as u32 }),
            err == 0 ==> r == Ok::<Fid, Error>(self@.eq->0),
    {
        if err != 0 {
            return Err(Error::from_err_code((-(err as i64)) as u32));
        }
        Ok(self.inner().eq().unwrap())
    }

    /// Completes a connection: the endpoint becomes connected once its event queue
    /// reported `FI_CONNECTED` for the endpoint `event_fid`, which has to be this one.
    pub fn connect_complete(self, event_fid: Fid) -> (r: ConnectedEndpointBase<MRREQ>)
        requires
            event_fid == self@.fid,
        ensures
            r@ == self@,
    {
        self.into_state()
    }
}

} // verus!
