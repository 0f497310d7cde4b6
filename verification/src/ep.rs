use vstd::prelude::*;

use std::marker::PhantomData;

use crate::domain::Domain;
use crate::error::{spec_check_error, valid_return_code, Error, FI_ETOOSMALL};
use crate::fid::Fid;

verus! {

/// `FI_READ`: local reads.
pub const FI_READ: u64 = 0x100;

/// `FI_WRITE`: local writes.
pub const FI_WRITE: u64 = 0x200;

/// `FI_RECV`: the receive direction.
pub const FI_RECV: u64 = 0x400;

/// `FI_SEND`: the send direction.
pub const FI_SEND: u64 = 0x800;

/// `FI_TRANSMIT`: the transmit direction (the same bit as `FI_SEND`).
pub const FI_TRANSMIT: u64 = 0x800;

/// `FI_REMOTE_READ`: reads initiated by a peer.
pub const FI_REMOTE_READ: u64 = 0x1000;

/// `FI_REMOTE_WRITE`: writes initiated by a peer.
pub const FI_REMOTE_WRITE: u64 = 0x2000;

/// `FI_SELECTIVE_COMPLETION`: only operations that ask for it generate a completion.
pub const FI_SELECTIVE_COMPLETION: u64 = 0x800000000000000;

/// An endpoint address, as returned by `fi_getname` and `fi_getpeer`.
pub struct Address {
    address: Vec<u8>,
}

impl View for Address {
    type V = Seq<u8>;

    closed spec fn view(&self) -> Seq<u8> {
        self.address@
    }
}

/// The outcome of asking libfabric for the length of an address.
pub enum AddressQuery {
    /// The address is `len` bytes long: fetch it into a buffer of that size.
    Fetch(usize),
    /// The query failed.
    Failed(Error),
}

impl Address {
    /// Creates a new Address from a slice of bytes, usually received from the network.
    /// The bytes are not checked.
    pub fn from_bytes(raw: &[u8]) -> (r: Address)
        ensures
            r@ == raw@,
    {
        let mut address: Vec<u8> = Vec::new();
        let mut i: usize = 0;
        while i < raw.len()
            invariant
                i <= raw@.len(),
                address@ == raw@.subrange(0, i as int),
            decreases raw@.len() - i,
        {
            address.push(raw[i]);
            i += 1;
            assert(address@ =~= raw@.subrange(0, i as int));
        }
        assert(address@ =~= raw@);
        Address { address }
    }

    /// The bytes of the address.
    pub fn as_bytes(&self) -> (r: &[u8])
        ensures
            r@ == self@,
    {
        self.address.as_slice()
    }

    /// Decides what follows a first `fi_getname`/`fi_getpeer` call made without a
    /// buffer, which returned `err` and reported the length `len`: the address is
    /// fetched when the call asked for a larger buffer (`FI_ETOOSMALL`), and any
    /// other return code (zero included) is reported as the error it names.
    pub fn probe_outcome(err: i32, len: usize) -> (r: AddressQuery)
        requires
            valid_return_code(err as int),
        ensures
            -err == FI_ETOOSMALL ==> r == AddressQuery::Fetch(len),
            -err != FI_ETOOSMALL ==> r == AddressQuery::Failed(Error { code: (-err) as u32 }),
    {
        let code: u32 = (-(err as i64)) as u32;
        if code == FI_ETOOSMALL {
            AddressQuery::Fetch(len)
        } else {
            AddressQuery::Failed(Error::from_err_code(code))
        }
    }

    /// The result of `getname` once `fi_getname` has filled `address` and returned
    /// `err`: an error for a negative code, and the address otherwise.
    pub fn name_outcome(err: i32, address: Vec<u8>) -> (r: Result<Address, Error>)
        requires
            err < 0 ==> valid_return_code(err as int),
        ensures
            err < 0 ==> r == Err::<Address, Error>(Error { code: (-err) as u32 }),
            err >= 0 ==> (r matches Ok(a) && a@ == address@),
    {
        if err < 0 {
            Err(Error::from_err_code((-(err as i64)) as u32))
        } else {
            Ok(Address { address })
        }
    }

    /// The result of `getpeer` once `fi_getpeer` has filled `address` and returned
    /// `err`: an error for a non-zero code, and the address otherwise.
    pub fn peer_outcome(err: i32, address: Vec<u8>) -> (r: Result<Address, Error>)
        requires
            valid_return_code(err as int),
        ensures
            err != 0 ==> r == Err::<Address, Error>(Error { code: (-err) as u32 }),
            err == 0 ==> (r matches Ok(a) && a@ == address@),
    {
        if err != 0 {
            Err(Error::from_err_code((-(err as i64)) as u32))
        } else {
            Ok(Address { address })
        }
    }
}

/// The value produced by a libfabric call that returned `err`: the error it names
/// for a non-zero code, and `value` otherwise.
pub open spec fn spec_outcome<T>(err: int, value: T) -> Result<T, Error> {
    if err == 0 {
        Ok(value)
    } else {
        Err(Error { code: (-err) as u32 })
    }
}

/// The result of a libfabric query (`fi_getopt`, `fi_control`) that returned `err`
/// and wrote `value`.
pub fn outcome<T>(err: i32, value: T) -> (r: Result<T, Error>)
    requires
        valid_return_code(err as int),
    ensures
        r == spec_outcome(err as int, value),
{
    if err != 0 {
        Err(Error::from_err_code((-(err as i64)) as u32))
    } else {
        Ok(value)
    }
}

/// The result of `fi_rx_size_left`/`fi_tx_size_left` returning `ret`: the number of
/// operations that can still be posted, or the error that a negative value names.
pub fn size_left_outcome(ret: isize) -> (r: Result<usize, Error>)
    requires
        ret < 0 ==> valid_return_code(ret as int),
    ensures
        ret < 0 ==> r == Err::<usize, Error>(Error { code: (-ret) as u32 }),
        ret >= 0 ==> r == Ok::<usize, Error>(ret as usize),
{
    if ret < 0 {
        Err(Error::from_err_code((-(ret as i64)) as u32))
    } else {
        Ok(ret as usize)
    }
}

/// An endpoint's identity, the domain it was opened on, and the resources it is
/// bound to.
pub struct EndpointModel {
    pub fid: Fid,
    pub domain: Fid,
    pub tx_cq: Option<Fid>,
    pub rx_cq: Option<Fid>,
    pub eq: Option<Fid>,
    pub bound: Seq<Fid>,
    pub mr_local: bool,
}

/// An open endpoint, the domain it was opened on, and the resources it has been
/// bound to. A direction of the endpoint is bound to one completion queue at most,
/// and the endpoint to one event queue at most; the domain, the queues, counters
/// and address vectors are kept alive with it.
pub struct EndpointImplBase {
    fid: Fid,
    domain: Fid,
    tx_cq: Option<Fid>,
    rx_cq: Option<Fid>,
    eq: Option<Fid>,
    sync_rcs: Vec<Fid>,
    mr_local: bool,
}

impl View for EndpointImplBase {
    type V = EndpointModel;

    closed spec fn view(&self) -> EndpointModel {
        EndpointModel {
            fid: self.fid,
            domain: self.domain,
            tx_cq: self.tx_cq,
            rx_cq: self.rx_cq,
            eq: self.eq,
            bound: self.sync_rcs@,
            mr_local: self.mr_local,
        }
    }
}

/// Whether `flags` names the transmit direction.
pub open spec fn has_transmit(flags: u64) -> bool {
    flags & FI_TRANSMIT != 0
}

/// Whether `flags` names the receive direction.
pub open spec fn has_recv(flags: u64) -> bool {
    flags & FI_RECV != 0
}

/// Choosing the receive direction (with or without selective completion) names the
/// receive direction and leaves the transmit direction as it was; choosing the
/// transmit direction names it and leaves the receive direction as it was.
pub proof fn lemma_direction_flags(flags: u64)
    ensures
        has_recv(flags | FI_RECV),
        has_recv(flags | FI_SELECTIVE_COMPLETION | FI_RECV),
        has_transmit(flags | FI_RECV) == has_transmit(flags),
        has_transmit(flags | FI_SELECTIVE_COMPLETION | FI_RECV) == has_transmit(flags),
        has_transmit(flags | FI_TRANSMIT),
        has_transmit(flags | FI_SELECTIVE_COMPLETION | FI_TRANSMIT),
        has_recv(flags | FI_TRANSMIT) == has_recv(flags),
        has_recv(flags | FI_SELECTIVE_COMPLETION | FI_TRANSMIT) == has_recv(flags),
{
    assert((flags | 0x400u64) & 0x400u64 != 0) by (bit_vector);
    assert((flags | 0x800000000000000u64 | 0x400u64) & 0x400u64 != 0) by (bit_vector);
    assert(((flags | 0x400u64) & 0x800u64 != 0) == (flags & 0x800u64 != 0)) by (bit_vector);
    assert(((flags | 0x800000000000000u64 | 0x400u64) & 0x800u64 != 0) == (flags & 0x800u64 != 0))
        by (bit_vector);
    assert((flags | 0x800u64) & 0x800u64 != 0) by (bit_vector);
    assert((flags | 0x800000000000000u64 | 0x800u64) & 0x800u64 != 0) by (bit_vector);
    assert(((flags | 0x800u64) & 0x400u64 != 0) == (flags & 0x400u64 != 0)) by (bit_vector);
    assert(((flags | 0x800000000000000u64 | 0x800u64) & 0x400u64 != 0) == (flags & 0x400u64 != 0))
        by (bit_vector);
}

/// Binding one completion queue to both directions makes it the queue of each
/// direction.
pub proof fn lemma_bind_both_directions(m: EndpointModel, cq: Fid)
    ensures
        with_cq(m, cq, FI_TRANSMIT | FI_RECV).tx_cq == Some(cq),
        with_cq(m, cq, FI_TRANSMIT | FI_RECV).rx_cq == Some(cq),
        with_cq(m, cq, FI_TRANSMIT | FI_RECV).eq == m.eq,
        with_cq(m, cq, FI_TRANSMIT | FI_RECV).bound == m.bound,
{
    assert((0x800u64 | 0x400u64) & 0x800u64 != 0 && (0x800u64 | 0x400u64) & 0x400u64 != 0) by (bit_vector);
}

/// Whether binding a completion queue with `flags` to an endpoint in state `m`
/// is allowed once `fi_ep_bind` succeeded: some direction is named, and every
/// named direction is still unbound.
pub open spec fn cq_bind_allowed(m: EndpointModel, flags: u64) -> bool {
    &&& has_transmit(flags) || has_recv(flags)
    &&& has_transmit(flags) ==> m.tx_cq is None
    &&& has_recv(flags) ==> m.rx_cq is None
}

impl EndpointModel {
    /// Whether the endpoint keeps `x` alive: the domain it was opened on, a queue
    /// bound to it, or a counter or address vector bound to it.
    pub open spec fn holds(self, x: Fid) -> bool {
        ||| x == self.domain
        ||| self.tx_cq == Some(x)
        ||| self.rx_cq == Some(x)
        ||| self.eq == Some(x)
        ||| self.bound.contains(x)
    }
}

/// An endpoint keeps alive what it relies on, from its creation on: a new endpoint
/// holds its domain, and each binding (a completion queue to the directions its flags
/// name, the event queue, a counter or an address vector) makes the endpoint hold what
/// it binds and lets go of nothing the endpoint held.
pub proof fn lemma_bindings_keep_held(m: EndpointModel, res: Fid, flags: u64, x: Fid)
    ensures
        (EndpointModel { tx_cq: None, rx_cq: None, eq: None, bound: Seq::empty(), ..m }).holds(m.domain),
        cq_bind_allowed(m, flags) ==> with_cq(m, res, flags).holds(res) && (m.holds(x) ==> with_cq(
            m,
            res,
            flags,
        ).holds(x)),
        m.eq is None ==> (EndpointModel { eq: Some(res), ..m }).holds(res) && (m.holds(x) ==> (EndpointModel {
            eq: Some(res),
            ..m
        }).holds(x)),
        (EndpointModel { bound: m.bound.push(res), ..m }).holds(res),
        m.holds(x) ==> (EndpointModel { bound: m.bound.push(res), ..m }).holds(x),
{
    let pushed = m.bound.push(res);
    assert(pushed[pushed.len() - 1] == res);
    if m.bound.contains(x) {
        let i = choose|i: int| 0 <= i < m.bound.len() && m.bound[i] == x;
        assert(pushed[i] == x);
    }
}

/// The endpoint after `cq` was bound to the directions that `flags` names.
pub open spec fn with_cq(m: EndpointModel, cq: Fid, flags: u64) -> EndpointModel {
    EndpointModel {
        tx_cq: if has_transmit(flags) { Some(cq) } else { m.tx_cq },
        rx_cq: if has_recv(flags) { Some(cq) } else { m.rx_cq },
        ..m
    }
}

impl EndpointImplBase {
    /// The endpoint that `fi_endpoint` created as `fid` on `domain`, with no resource
    /// bound yet; `mr_local` tells whether its provider requires local memory registration.
    pub fn new(domain: &Domain, fid: Fid, mr_local: bool) -> (r: EndpointImplBase)
        ensures
            r@ == (EndpointModel {
                fid,
                domain: domain.spec_fid(),
                tx_cq: None,
                rx_cq: None,
                eq: None,
                bound: Seq::empty(),
                mr_local,
            }),
    {
        Self::opened_on(domain.fid(), fid, mr_local)
    }

    /// The endpoint `fid` opened on the domain whose identity is `domain`, with no
    /// resource bound yet.
    fn opened_on(domain: Fid, fid: Fid, mr_local: bool) -> (r: EndpointImplBase)
        ensures
            r@ == (EndpointModel { fid, domain, tx_cq: None, rx_cq: None, eq: None, bound: Seq::empty(), mr_local }),
    {
        EndpointImplBase {
            fid,
            domain,
            tx_cq: None,
            rx_cq: None,
            eq: None,
            sync_rcs: Vec::new(),
            mr_local,
        }
    }

    /// The identity of the endpoint.
    pub fn fid(&self) -> (r: Fid)
        ensures
            r == self@.fid,
    {
        self.fid
    }

    /// The domain the endpoint was opened on.
    pub fn domain(&self) -> (r: Fid)
        ensures
            r == self@.domain,
    {
        self.domain
    }

    /// Whether the endpoint's provider requires local memory registration.
    pub fn mr_local(&self) -> (r: bool)
        ensures
            r == self@.mr_local,
    {
        self.mr_local
    }

    /// The completion queue bound to the transmit direction, if any.
    pub fn tx_cq(&self) -> (r: Option<Fid>)
        ensures
            r == self@.tx_cq,
    {
        self.tx_cq
    }

    /// The completion queue bound to the receive direction, if any.
    pub fn rx_cq(&self) -> (r: Option<Fid>)
        ensures
            r == self@.rx_cq,
    {
        self.rx_cq
    }

    /// The event queue the endpoint is bound to, if any.
    pub fn eq(&self) -> (r: Option<Fid>)
        ensures
            r == self@.eq,
    {
        self.eq
    }

    /// Records the binding of a counter or an address vector `res`, once `fi_ep_bind`
    /// returned `err`: the endpoint keeps `res` alive when the call succeeded.
    pub fn bind(&mut self, res: Fid, err: i32) -> (r: Result<(), Error>)
        requires
            valid_return_code(err as int),
        ensures
            r == spec_check_error(err as int),
            err == 0 ==> final(self)@ == (EndpointModel { bound: old(self)@.bound.push(res), ..old(self)@ }),
            err != 0 ==> final(self)@ == old(self)@,
    {
        if err != 0 {
            Err(Error::from_err_code((-(err as i64)) as u32))
        } else {
            self.sync_rcs.push(res);
            Ok(())
        }
    }

    /// Records the binding of a counter `cntr` with `flags`, once `fi_ep_bind`
    /// returned `err`.
    pub fn bind_cntr_(&mut self, cntr: Fid, flags: u64, err: i32) -> (r: Result<(), Error>)
        requires
            valid_return_code(err as int),
        ensures
            r == spec_check_error(err as int),
            err == 0 ==> final(self)@ == (EndpointModel { bound: old(self)@.bound.push(cntr), ..old(self)@ }),
            err != 0 ==> final(self)@ == old(self)@,
    {
        self.bind(cntr, err)
    }

    /// Records the binding of the completion queue `cq` to the directions named
    /// by `flags` (`FI_TRANSMIT`, `FI_RECV` or both), once `fi_ep_bind` returned `err`.
    pub fn bind_cq_(&mut self, cq: Fid, flags: u64, err: i32) -> (r: Result<(), Error>)
        requires
            valid_return_code(err as int),
            err == 0 ==> cq_bind_allowed(old(self)@, flags),
        ensures
            r == spec_check_error(err as int),
            err == 0 ==> final(self)@ == with_cq(old(self)@, cq, flags),
            err != 0 ==> final(self)@ == old(self)@,
    {
        if err != 0 {
            return Err(Error::from_err_code((-(err as i64)) as u32));
        }
        let transmit = flags & FI_TRANSMIT != 0;
        let recv = flags & FI_RECV != 0;
        if transmit && recv {
            self.tx_cq = Some(cq);
            self.rx_cq = Some(cq);
        } else if transmit {
            self.tx_cq = Some(cq);
        } else {
            self.rx_cq = Some(cq);
        }
        Ok(())
    }

    /// Records the binding of the event queue `eq`, once `fi_ep_bind` returned `err`.
    pub fn bind_eq(&mut self, eq: Fid, err: i32) -> (r: Result<(), Error>)
        requires
            valid_return_code(err as int),
            err == 0 ==> old(self)@.eq is None,
        ensures
            r == spec_check_error(err as int),
            err == 0 ==> final(self)@ == (EndpointModel { eq: Some(eq), ..old(self)@ }),
            err != 0 ==> final(self)@ == old(self)@,
    {
        if err != 0 {
            Err(Error::from_err_code((-(err as i64)) as u32))
        } else {
            self.eq = Some(eq);
            Ok(())
        }
    }

    /// Records the binding of the address vector `av`, once `fi_ep_bind` returned `err`.
    pub fn bind_av(&mut self, av: Fid, err: i32) -> (r: Result<(), Error>)
        requires
            valid_return_code(err as int),
        ensures
            r == spec_check_error(err as int),
            err == 0 ==> final(self)@ == (EndpointModel { bound: old(self)@.bound.push(av), ..old(self)@ }),
            err != 0 ==> final(self)@ == old(self)@,
    {
        self.bind(av, err)
    }
}

/// A pending binding of a completion queue to an endpoint: the directions are
/// chosen first, then the queue is bound with [IncompleteBindCq::cq].
pub struct IncompleteBindCq<'a> {
    pub ep: &'a mut EndpointImplBase,
    pub flags: u64,
}

impl<'a> IncompleteBindCq<'a> {
    /// The direction flags chosen so far.
    pub fn flags(&self) -> (r: u64)
        ensures
            r == self.flags,
    {
        self.flags
    }

    /// Adds the receive direction, with selective completion if `selective`.
    pub fn recv(&mut self, selective: bool) -> (r: &mut Self)
        ensures
            selective ==> r.flags == old(self).flags | FI_SELECTIVE_COMPLETION | FI_RECV,
            !selective ==> r.flags == old(self).flags | FI_RECV,
            r.ep == old(self).ep,
            *final(self) == *final(r),
    {
        if selective {
            self.flags = self.flags | FI_SELECTIVE_COMPLETION | FI_RECV;
        } else {
            self.flags = self.flags | FI_RECV;
        }
        self
    }

    /// Adds the transmit direction, with selective completion if `selective`.
    pub fn transmit(&mut self, selective: bool) -> (r: &mut Self)
        ensures
            selective ==> r.flags == old(self).flags | FI_SELECTIVE_COMPLETION | FI_TRANSMIT,
            !selective ==> r.flags == old(self).flags | FI_TRANSMIT,
            r.ep == old(self).ep,
            *final(self) == *final(r),
    {
        if selective {
            self.flags = self.flags | FI_SELECTIVE_COMPLETION | FI_TRANSMIT;
        } else {
            self.flags = self.flags | FI_TRANSMIT;
        }
        self
    }

    /// Binds the completion queue `cq` to the chosen directions, once `fi_ep_bind`
    /// returned `err`.
    pub fn cq(&mut self, cq: Fid, err: i32) -> (r: Result<(), Error>)
        requires
            valid_return_code(err as int),
            err == 0 ==> cq_bind_allowed(old(self).ep@, old(self).flags),
        ensures
            r == spec_check_error(err as int),
            final(self).flags == old(self).flags,
            *final(final(self).ep) == *final(old(self).ep),
            err == 0 ==> final(self).ep@ == with_cq(old(self).ep@, cq, old(self).flags),
            err != 0 ==> final(self).ep@ == old(self).ep@,
    {
        self.ep.bind_cq_(cq, self.flags, err)
    }
}

/// Marker: an endpoint that is not connected yet.
pub struct Unconnected;

/// Marker: a connected endpoint.
pub struct Connected;

/// Marker: a connection-oriented endpoint that is not enabled yet.
pub struct UninitUnconnected;

/// Marker: a connectionless endpoint that is not enabled yet.
pub struct UninitConnectionless;

/// Marker: an enabled connectionless endpoint.
pub struct Connectionless;

/// Marker: the endpoint places no memory registration requirement on local buffers.
pub struct MrNone;

/// Marker: local buffers of the endpoint have to be registered.
pub struct MrLocal;

/// An endpoint in the state `STATE` whose local buffers follow the registration
/// requirement `MRREQ`.
pub struct EndpointBase<STATE, MRREQ> {
    pub(crate) inner: EndpointImplBase,
    pub(crate) phantom_ep_state: PhantomData<STATE>,
    pub(crate) phantom_mr_req: PhantomData<MRREQ>,
}

/// An endpoint as created, before it is enabled.
pub type Endpoint = EndpointBase<UninitUnconnected, MrNone>;

impl<STATE, MRREQ> View for EndpointBase<STATE, MRREQ> {
    type V = EndpointModel;

    closed spec fn view(&self) -> EndpointModel {
        self.inner@
    }
}

impl<STATE, MRREQ> EndpointBase<STATE, MRREQ> {
    /// The endpoint that `fi_endpoint2` created as `fid` on `domain`, once it returned
    /// `err`, with no resource bound yet and holding the domain; `mr_local` tells whether
    /// its provider requires local memory registration.
    pub fn new(domain: &Domain, fid: Fid, err: i32, mr_local: bool) -> (r: Result<EndpointBase<STATE, MRREQ>, Error>)
        requires
            valid_return_code(err as int),
        ensures
            err != 0 ==> r == Err::<EndpointBase<STATE, MRREQ>, Error>(Error { code: (-err) as u32 }),
            err == 0 ==> (r matches Ok(ep) && ep@ == EndpointModel {
                fid,
                domain: domain.spec_fid(),
                tx_cq: None,
                rx_cq: None,
                eq: None,
                bound: Seq::empty(),
                mr_local,
            }),
    {
        if err != 0 {
            return Err(Error::from_err_code((-(err as i64)) as u32));
        }
        Ok(EndpointBase {
            inner: EndpointImplBase::new(domain, fid, mr_local),
            phantom_ep_state: PhantomData,
            phantom_mr_req: PhantomData,
        })
    }

    /// The alias that `fi_ep_alias` created of this endpoint as `fid`, once it
    /// returned `err`: an endpoint on the same domain, with the same registration
    /// requirement and no resource bound yet.
    pub fn alias(&self, fid: Fid, err: i32) -> (r: Result<EndpointBase<STATE, MRREQ>, Error>)
        requires
            valid_return_code(err as int),
        ensures
            err != 0 ==> r == Err::<EndpointBase<STATE, MRREQ>, Error>(Error { code: (-err) as u32 }),
            err == 0 ==> (r matches Ok(ep) && ep@ == EndpointModel {
                fid,
                domain: self@.domain,
                tx_cq: None,
                rx_cq: None,
                eq: None,
                bound: Seq::empty(),
                mr_local: self@.mr_local,
            }),
    {
        if err != 0 {
            return Err(Error::from_err_code((-(err as i64)) as u32));
        }
        Ok(EndpointBase {
            inner: EndpointImplBase::opened_on(self.inner.domain(), fid, self.inner.mr_local()),
            phantom_ep_state: PhantomData,
            phantom_mr_req: PhantomData,
        })
    }

    /// The same endpoint, seen in another connection state and registration requirement.
    pub(crate) fn into_state<S2, M2>(self) -> (r: EndpointBase<S2, M2>)
        ensures
            r@ == self@,
    {
        EndpointBase { inner: self.inner, phantom_ep_state: PhantomData, phantom_mr_req: PhantomData }
    }

    /// The endpoint's state and bindings.
    pub fn inner(&self) -> (r: &EndpointImplBase)
        ensures
            r@ == self@,
    {
        &self.inner
    }

    /// Starts binding a completion queue; no direction is chosen yet.
    pub fn bind_cq(&mut self) -> (r: IncompleteBindCq<'_>)
        ensures
            r.flags == 0,
            r.ep@ == old(self)@,
            final(self)@ == final(r.ep)@,
    {
        IncompleteBindCq { ep: &mut self.inner, flags: 0 }
    }

    /// Starts binding a counter; no event is chosen yet.
    pub fn bind_cntr(&mut self) -> (r: IncompleteBindCntr<'_>)
        ensures
            r.flags == 0,
            r.ep@ == old(self)@,
            final(self)@ == final(r.ep)@,
    {
        IncompleteBindCntr { ep: &mut self.inner, flags: 0 }
    }

    /// Binds the event queue `eq` to the endpoint, once `fi_ep_bind` returned `err`.
    pub fn bind_eq(&mut self, eq: Fid, err: i32) -> (r: Result<(), Error>)
        requires
            valid_return_code(err as int),
            err == 0 ==> old(self)@.eq is None,
        ensures
            r == spec_check_error(err as int),
            err == 0 ==> final(self)@ == (EndpointModel { eq: Some(eq), ..old(self)@ }),
            err != 0 ==> final(self)@ == old(self)@,
    {
        self.inner.bind_eq(eq, err)
    }

    /// Binds the address vector `av` to the endpoint, once `fi_ep_bind` returned `err`.
    pub fn bind_av(&mut self, av: Fid, err: i32) -> (r: Result<(), Error>)
        requires
            valid_return_code(err as int),
        ensures
            r == spec_check_error(err as int),
            err == 0 ==> final(self)@ == (EndpointModel { bound: old(self)@.bound.push(av), ..old(self)@ }),
            err != 0 ==> final(self)@ == old(self)@,
    {
        self.inner.bind_av(av, err)
    }
}

/// A pending binding of a counter to an endpoint: the events to count are
/// chosen first, then the counter is bound with [IncompleteBindCntr::cntr].
pub struct IncompleteBindCntr<'a> {
    pub ep: &'a mut EndpointImplBase,
    pub flags: u64,
}

impl<'a> IncompleteBindCntr<'a> {
    /// Counts completed local reads.
    pub fn read(&mut self) -> (r: &mut Self)
        ensures
            r.flags == old(self).flags | FI_READ,
            r.ep == old(self).ep,
            *final(self) == *final(r),
    {
        self.flags = self.flags | FI_READ;
        self
    }

    /// Counts completed receives.
    pub fn recv(&mut self) -> (r: &mut Self)
        ensures
            r.flags == old(self).flags | FI_RECV,
            r.ep == old(self).ep,
            *final(self) == *final(r),
    {
        self.flags = self.flags | FI_RECV;
        self
    }

    /// Counts reads initiated by peers.
    pub fn remote_read(&mut self) -> (r: &mut Self)
        ensures
            r.flags == old(self).flags | FI_REMOTE_READ,
            r.ep == old(self).ep,
            *final(self) == *final(r),
    {
        self.flags = self.flags | FI_REMOTE_READ;
        self
    }

    /// Counts writes initiated by peers.
    pub fn remote_write(&mut self) -> (r: &mut Self)
        ensures
            r.flags == old(self).flags | FI_REMOTE_WRITE,
            r.ep == old(self).ep,
            *final(self) == *final(r),
    {
        self.flags = self.flags | FI_REMOTE_WRITE;
        self
    }

    /// Counts completed sends.
    pub fn send(&mut self) -> (r: &mut Self)
        ensures
            r.flags == old(self).flags | FI_SEND,
            r.ep == old(self).ep,
            *final(self) == *final(r),
    {
        self.flags = self.flags | FI_SEND;
        self
    }

    /// Counts completed local writes.
    pub fn write(&mut self) -> (r: &mut Self)
        ensures
            r.flags == old(self).flags | FI_WRITE,
            r.ep == old(self).ep,
            *final(self) == *final(r),
    {
        self.flags = self.flags | FI_WRITE;
        self
    }

    /// Binds the counter `cntr` for the chosen events, once `fi_ep_bind` returned `err`.
    pub fn cntr(&mut self, cntr: Fid, err: i32) -> (r: Result<(), Error>)
        requires
            valid_return_code(err as int),
        ensures
            r == spec_check_error(err as int),
            final(self).flags == old(self).flags,
            *final(final(self).ep) == *final(old(self).ep),
            err == 0 ==> final(self).ep@ == (EndpointModel { bound: old(self).ep@.bound.push(cntr), ..old(self).ep@ }),
            err != 0 ==> final(self).ep@ == old(self).ep@,
    {
        self.ep.bind_cntr_(cntr, self.flags, err)
    }
}

/// A scalable endpoint (`fi_scalable_ep`).
pub struct ScalableEndpoint {
    fid: Fid,
    domain: Fid,
}

impl ScalableEndpoint {
    /// The identity of the endpoint.
    pub closed spec fn spec_fid(&self) -> Fid {
        self.fid
    }

    /// The domain the endpoint was opened on, which it keeps alive.
    pub closed spec fn spec_domain(&self) -> Fid {
        self.domain
    }

    /// The scalable endpoint that `fi_scalable_ep` created as `fid` on `domain`, once
    /// it returned `err`.
    pub fn new(domain: &Domain, fid: Fid, err: i32) -> (r: Result<ScalableEndpoint, Error>)
        requires
            valid_return_code(err as int),
        ensures
            err != 0 ==> r == Err::<ScalableEndpoint, Error>(Error { code: (-err) as u32 }),
            err == 0 ==> (r matches Ok(ep) && ep.spec_fid() == fid && ep.spec_domain() == domain.spec_fid()),
    {
        if err != 0 {
            Err(Error::from_err_code((-(err as i64)) as u32))
        } else {
            Ok(ScalableEndpoint { fid, domain: domain.fid() })
        }
    }

    /// The alias that `fi_ep_alias` created of this endpoint as `fid`, once it returned
    /// `err`: an endpoint on the same domain.
    pub fn alias(&self, fid: Fid, err: i32) -> (r: Result<ScalableEndpoint, Error>)
        requires
            valid_return_code(err as int),
        ensures
            err != 0 ==> r == Err::<ScalableEndpoint, Error>(Error { code: (-err) as u32 }),
            err == 0 ==> (r matches Ok(ep) && ep.spec_fid() == fid && ep.spec_domain() == self.spec_domain()),
    {
        if err != 0 {
            Err(Error::from_err_code((-(err as i64)) as u32))
        } else {
            Ok(ScalableEndpoint { fid, domain: self.domain })
        }
    }

    /// The identity of the endpoint.
    pub fn fid(&self) -> (r: Fid)
        ensures
            r == self.spec_fid(),
    {
        self.fid
    }

    /// The domain the endpoint was opened on.
    pub fn domain(&self) -> (r: Fid)
        ensures
            r == self.spec_domain(),
    {
        self.domain
    }
}

/// A passive endpoint (`fi_passive_ep`), listening for connection requests, the
/// fabric it was opened on, and the event queue it is bound to.
pub struct PassiveEndpoint {
    fid: Fid,
    fabric: Fid,
    eq: Option<Fid>,
}

impl PassiveEndpoint {
    /// The identity of the endpoint.
    pub closed spec fn spec_fid(&self) -> Fid {
        self.fid
    }

    /// The fabric the endpoint was opened on, which it keeps alive.
    pub closed spec fn spec_fabric(&self) -> Fid {
        self.fabric
    }

    /// The event queue the endpoint is bound to, if any.
    pub closed spec fn spec_eq(&self) -> Option<Fid> {
        self.eq
    }

    /// The passive endpoint that `fi_passive_ep` created as `fid` on the fabric
    /// `fabric`, once it returned `err`.
    pub fn new(fabric: Fid, fid: Fid, err: i32) -> (r: Result<PassiveEndpoint, Error>)
        requires
            valid_return_code(err as int),
        ensures
            err != 0 ==> r == Err::<PassiveEndpoint, Error>(Error { code: (-err) as u32 }),
            err == 0 ==> (r matches Ok(ep) && ep.spec_fid() == fid && ep.spec_fabric() == fabric
                && ep.spec_eq() is None),
    {
        if err != 0 {
            Err(Error::from_err_code((-(err as i64)) as u32))
        } else {
            Ok(PassiveEndpoint { fid, fabric, eq: None })
        }
    }

    /// The fabric the endpoint was opened on.
    pub fn fabric(&self) -> (r: Fid)
        ensures
            r == self.spec_fabric(),
    {
        self.fabric
    }

    /// The identity of the endpoint.
    pub fn fid(&self) -> (r: Fid)
        ensures
            r == self.spec_fid(),
    {
        self.fid
    }

    /// The event queue the endpoint is bound to, if any.
    pub fn eq(&self) -> (r: Option<Fid>)
        ensures
            r == self.spec_eq(),
    {
        self.eq
    }

    /// Records the binding of the event queue `eq` once `fi_pep_bind` returned `err`.
    pub fn bind(&mut self, eq: Fid, err: i32) -> (r: Result<(), Error>)
        requires
            valid_return_code(err as int),
            err == 0 ==> old(self).spec_eq() is None,
        ensures
            r == spec_check_error(err as int),
            final(self).spec_fid() == old(self).spec_fid(),
            final(self).spec_fabric() == old(self).spec_fabric(),
            err == 0 ==> final(self).spec_eq() == Some(eq),
            err != 0 ==> final(self).spec_eq() == old(self).spec_eq(),
    {
        if err != 0 {
            Err(Error::from_err_code((-(err as i64)) as u32))
        } else {
            self.eq = Some(eq);
            Ok(())
        }
    }
}

/// The attributes of an endpoint (`fi_ep_attr`). The endpoint type and protocol
/// are held as their libfabric values; 0 stands for "unspecified".
#[derive(Clone)]
pub struct EndpointAttr {
    pub ep_type: u32,
    pub protocol: u32,
    pub protocol_version: u32,
    pub max_msg_size: usize,
    pub msg_prefix_size: usize,
    pub max_order_raw_size: usize,
    pub max_order_war_size: usize,
    pub max_order_waw_size: usize,
    pub mem_tag_format: u64,
    pub tx_ctx_cnt: usize,
    pub rx_ctx_cnt: usize,
    pub auth_key: Vec<u8>,
}

/// Whether `attr` holds only the values a new attribute set starts with.
pub open spec fn is_default_ep_attr(attr: EndpointAttr) -> bool {
    &&& attr.ep_type == 0 && attr.protocol == 0 && attr.protocol_version == 0
    &&& attr.max_msg_size == 0 && attr.msg_prefix_size == 0
    &&& attr.max_order_raw_size == 0 && attr.max_order_war_size == 0 && attr.max_order_waw_size == 0
    &&& attr.mem_tag_format == 0 && attr.tx_ctx_cnt == 0 && attr.rx_ctx_cnt == 0
    &&& attr.auth_key@ == Seq::<u8>::empty()
}

fn copy_bytes(key: &[u8]) -> (r: Vec<u8>)
    ensures
        r@ == key@,
{
    let mut k: Vec<u8> = Vec::new();
    let mut i: usize = 0;
    while i < key.len()
        invariant
            i <= key@.len(),
            k@ == key@.subrange(0, i as int),
        decreases key@.len() - i,
    {
        k.push(key[i]);
        i += 1;
        assert(k@ =~= key@.subrange(0, i as int));
    }
    assert(k@ =~= key@);
    k
}

impl EndpointAttr {
    /// A set of endpoint attributes with every attribute unspecified or zero.
    pub fn new() -> (r: EndpointAttr)
        ensures
            is_default_ep_attr(r),
    {
        EndpointAttr {
            ep_type: 0,
            protocol: 0,
            protocol_version: 0,
            max_msg_size: 0,
            msg_prefix_size: 0,
            max_order_raw_size: 0,
            max_order_war_size: 0,
            max_order_waw_size: 0,
            mem_tag_format: 0,
            tx_ctx_cnt: 0,
            rx_ctx_cnt: 0,
            auth_key: Vec::new(),
        }
    }

    /// Sets the endpoint type.
    pub fn ep_type(&mut self, type_: u32) -> (r: &mut Self)
        ensures
            *r == (EndpointAttr { ep_type: type_, ..*old(self) }),
            *final(self) == *final(r),
    {
        self.ep_type = type_;
        self
    }

    /// Sets the protocol.
    pub fn protocol(&mut self, proto: u32) -> (r: &mut Self)
        ensures
            *r == (EndpointAttr { protocol: proto, ..*old(self) }),
            *final(self) == *final(r),
    {
        self.protocol = proto;
        self
    }

    /// Sets the maximum message size.
    pub fn max_msg_size(&mut self, size: usize) -> (r: &mut Self)
        ensures
            *r == (EndpointAttr { max_msg_size: size, ..*old(self) }),
            *final(self) == *final(r),
    {
        self.max_msg_size = size;
        self
    }

    /// Sets the size of the message prefix.
    pub fn msg_prefix_size(&mut self, size: usize) -> (r: &mut Self)
        ensures
            *r == (EndpointAttr { msg_prefix_size: size, ..*old(self) }),
            *final(self) == *final(r),
    {
        self.msg_prefix_size = size;
        self
    }

    /// Sets the maximum size of ordered read-after-write data.
    pub fn max_order_raw_size(&mut self, size: usize) -> (r: &mut Self)
        ensures
            *r == (EndpointAttr { max_order_raw_size: size, ..*old(self) }),
            *final(self) == *final(r),
    {
        self.max_order_raw_size = size;
        self
    }

    /// Sets the maximum size of ordered write-after-read data.
    pub fn max_order_war_size(&mut self, size: usize) -> (r: &mut Self)
        ensures
            *r == (EndpointAttr { max_order_war_size: size, ..*old(self) }),
            *final(self) == *final(r),
    {
        self.max_order_war_size = size;
        self
    }

    /// Sets the maximum size of ordered write-after-write data.
    pub fn max_order_waw_size(&mut self, size: usize) -> (r: &mut Self)
        ensures
            *r == (EndpointAttr { max_order_waw_size: size, ..*old(self) }),
            *final(self) == *final(r),
    {
        self.max_order_waw_size = size;
        self
    }

    /// Sets the format of memory tags.
    pub fn mem_tag_format(&mut self, tag: u64) -> (r: &mut Self)
        ensures
            *r == (EndpointAttr { mem_tag_format: tag, ..*old(self) }),
            *final(self) == *final(r),
    {
        self.mem_tag_format = tag;
        self
    }

    /// Sets the number of transmit contexts.
    pub fn tx_ctx_cnt(&mut self, size: usize) -> (r: &mut Self)
        ensures
            *r == (EndpointAttr { tx_ctx_cnt: size, ..*old(self) }),
            *final(self) == *final(r),
    {
        self.tx_ctx_cnt = size;
        self
    }

    /// Sets the number of receive contexts.
    pub fn rx_ctx_cnt(&mut self, size: usize) -> (r: &mut Self)
        ensures
            *r == (EndpointAttr { rx_ctx_cnt: size, ..*old(self) }),
            *final(self) == *final(r),
    {
        self.rx_ctx_cnt = size;
        self
    }

    /// Sets the authorisation key.
    pub fn auth_key(&mut self, key: &[u8]) -> (r: &mut Self)
        ensures
            r.auth_key@ == key@,
            *r == (EndpointAttr { auth_key: r.auth_key, ..*old(self) }),
            *final(self) == *final(r),
    {
        self.auth_key = copy_bytes(key);
        self
    }

    /// The endpoint type.
    pub fn get_type(&self) -> (r: u32)
        ensures
            r == self.ep_type,
    {
        self.ep_type
    }

    /// The maximum message size.
    pub fn get_max_msg_size(&self) -> (r: usize)
        ensures
            r == self.max_msg_size,
    {
        self.max_msg_size
    }

    /// The size of the message prefix.
    pub fn get_msg_prefix_size(&self) -> (r: usize)
        ensures
            r == self.msg_prefix_size,
    {
        self.msg_prefix_size
    }
}

/// Builder for an endpoint on the fabric interface `info`: its attributes, the
/// `fi_endpoint2` flags and an optional application context.
pub struct EndpointBuilder<'a, T, I> {
    pub ep_attr: EndpointAttr,
    pub flags: u64,
    pub info: &'a I,
    pub ctx: Option<&'a mut T>,
}

impl<'a, I> EndpointBuilder<'a, (), I> {
    /// Initiates the creation of an endpoint for `info`, with default attributes,
    /// no flags and no context.
    pub fn new(info: &'a I) -> (r: EndpointBuilder<'a, (), I>)
        ensures
            is_default_ep_attr(r.ep_attr),
            r.flags == 0,
            r.info == info,
            r.ctx is None,
    {
        EndpointBuilder { ep_attr: EndpointAttr::new(), flags: 0, info, ctx: None }
    }
}

impl<'a, T, I> EndpointBuilder<'a, T, I> {
    /// Sets the flags passed to `fi_endpoint2`.
    pub fn flags(self, flags: u64) -> (r: Self)
        ensures
            r.flags == flags,
            r.info == self.info,
            r.ctx == self.ctx,
            r.ep_attr == self.ep_attr,
    {
        EndpointBuilder { flags, ..self }
    }

    /// Sets the endpoint type.
    pub fn ep_type(self, type_: u32) -> (r: Self)
        ensures
            r.ep_attr == (EndpointAttr { ep_type: type_, ..self.ep_attr }),
            r.flags == self.flags,
            r.info == self.info,
            r.ctx == self.ctx,
    {
        let mut b = self;
        b.ep_attr.ep_type(type_);
        b
    }

    /// Sets the protocol.
    pub fn protocol(self, proto: u32) -> (r: Self)
        ensures
            r.ep_attr == (EndpointAttr { protocol: proto, ..self.ep_attr }),
            r.flags == self.flags,
            r.info == self.info,
            r.ctx == self.ctx,
    {
        let mut b = self;
        b.ep_attr.protocol(proto);
        b
    }

    /// Sets the maximum message size.
    pub fn max_msg_size(self, size: usize) -> (r: Self)
        ensures
            r.ep_attr == (EndpointAttr { max_msg_size: size, ..self.ep_attr }),
            r.flags == self.flags,
            r.info == self.info,
            r.ctx == self.ctx,
    {
        let mut b = self;
        b.ep_attr.max_msg_size(size);
        b
    }

    /// Sets the size of the message prefix.
    pub fn msg_prefix_size(self, size: usize) -> (r: Self)
        ensures
            r.ep_attr == (EndpointAttr { msg_prefix_size: size, ..self.ep_attr }),
            r.flags == self.flags,
            r.info == self.info,
            r.ctx == self.ctx,
    {
        let mut b = self;
        b.ep_attr.msg_prefix_size(size);
        b
    }

    /// Sets the maximum size of ordered read-after-write data.
    pub fn max_order_raw_size(self, size: usize) -> (r: Self)
        ensures
            r.ep_attr == (EndpointAttr { max_order_raw_size: size, ..self.ep_attr }),
            r.flags == self.flags,
            r.info == self.info,
            r.ctx == self.ctx,
    {
        let mut b = self;
        b.ep_attr.max_order_raw_size(size);
        b
    }

    /// Sets the maximum size of ordered write-after-read data.
    pub fn max_order_war_size(self, size: usize) -> (r: Self)
        ensures
            r.ep_attr == (EndpointAttr { max_order_war_size: size, ..self.ep_attr }),
            r.flags == self.flags,
            r.info == self.info,
            r.ctx == self.ctx,
    {
        let mut b = self;
        b.ep_attr.max_order_war_size(size);
        b
    }

    /// Sets the maximum size of ordered write-after-write data.
    pub fn max_order_waw_size(self, size: usize) -> (r: Self)
        ensures
            r.ep_attr == (EndpointAttr { max_order_waw_size: size, ..self.ep_attr }),
            r.flags == self.flags,
            r.info == self.info,
            r.ctx == self.ctx,
    {
        let mut b = self;
        b.ep_attr.max_order_waw_size(size);
        b
    }

    /// Sets the format of memory tags.
    pub fn mem_tag_format(self, tag: u64) -> (r: Self)
        ensures
            r.ep_attr == (EndpointAttr { mem_tag_format: tag, ..self.ep_attr }),
            r.flags == self.flags,
            r.info == self.info,
            r.ctx == self.ctx,
    {
        let mut b = self;
        b.ep_attr.mem_tag_format(tag);
        b
    }

    /// Sets the number of transmit contexts.
    pub fn tx_ctx_cnt(self, size: usize) -> (r: Self)
        ensures
            r.ep_attr == (EndpointAttr { tx_ctx_cnt: size, ..self.ep_attr }),
            r.flags == self.flags,
            r.info == self.info,
            r.ctx == self.ctx,
    {
        let mut b = self;
        b.ep_attr.tx_ctx_cnt(size);
        b
    }

    /// Sets the number of receive contexts.
    pub fn rx_ctx_cnt(self, size: usize) -> (r: Self)
        ensures
            r.ep_attr == (EndpointAttr { rx_ctx_cnt: size, ..self.ep_attr }),
            r.flags == self.flags,
            r.info == self.info,
            r.ctx == self.ctx,
    {
        let mut b = self;
        b.ep_attr.rx_ctx_cnt(size);
        b
    }

    /// Sets the authorisation key.
    pub fn auth_key(self, key: &[u8]) -> (r: Self)
        ensures
            r.ep_attr.auth_key@ == key@,
            r.ep_attr == (EndpointAttr { auth_key: r.ep_attr.auth_key, ..self.ep_attr }),
            r.flags == self.flags,
            r.info == self.info,
            r.ctx == self.ctx,
    {
        let mut b = self;
        b.ep_attr.auth_key(key);
        b
    }
}

} // verus!
