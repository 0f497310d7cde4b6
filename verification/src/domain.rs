use vstd::prelude::*;

use crate::error::{valid_return_code, Error};
use crate::fid::Fid;

verus! {

/// `FI_MR_RAW`: the provider uses raw memory-region keys.
pub const FI_MR_RAW: u64 = 0x8;

/// `FI_REG_MR`: memory registrations of the domain report their completion
/// through the event queue bound with this flag.
pub const FI_REG_MR: u64 = 0x800000000000000;

/// Whether a domain uses raw memory-region keys depends on the `FI_MR_RAW` bit of
/// its registration mode alone: two domains whose modes agree on that bit agree on
/// it, whatever other mode bits (`FI_MR_PROV_KEY`, `FI_MR_VIRT_ADDR`, ...) they set;
/// a domain whose mode is `FI_MR_RAW` (with or without other bits) uses raw keys,
/// and one whose mode has no bit set does not.
pub proof fn lemma_raw_keys_follow_the_raw_bit(d1: Domain, d2: Domain)
    ensures
        (d1.spec_mr_mode() & FI_MR_RAW) == (d2.spec_mr_mode() & FI_MR_RAW) ==> d1.spec_is_raw() == d2.spec_is_raw(),
        d1.spec_mr_mode() & FI_MR_RAW == FI_MR_RAW ==> d1.spec_is_raw(),
        d1.spec_mr_mode() == 0 ==> !d1.spec_is_raw(),
        d1.spec_mr_mode() == (d2.spec_mr_mode() | FI_MR_RAW) ==> d1.spec_is_raw(),
{
    let m1 = d1.spec_mr_mode();
    let m2 = d2.spec_mr_mode();
    assert((m1 == (m2 | 0x8u64)) ==> (m1 & 0x8u64) != 0) by (bit_vector);
    assert((m1 & 0x8u64) == 0x8u64 ==> (m1 & 0x8u64) != 0) by (bit_vector);
    assert(m1 == 0 ==> (m1 & 0x8u64) == 0) by (bit_vector);
}

/// An open access domain, as far as the library's own logic reads it: its
/// identity, the memory registration mode and key size of its provider, and the
/// event queue it is bound to (with whether registrations complete through it).
#[derive(Clone, Copy)]
pub struct Domain {
    pub(crate) fid: Fid,
    pub(crate) mr_mode: u64,
    pub(crate) mr_key_size: usize,
    pub(crate) eq: Option<Fid>,
    pub(crate) async_mr_reg: bool,
}

impl Domain {
    /// The identity of the domain.
    pub closed spec fn spec_fid(&self) -> Fid {
        self.fid
    }

    /// The memory registration mode bits of the domain.
    pub closed spec fn spec_mr_mode(&self) -> u64 {
        self.mr_mode
    }

    /// The size in bytes of a raw memory-region key of this domain.
    pub closed spec fn spec_mr_key_size(&self) -> usize {
        self.mr_key_size
    }

    /// Whether memory registration on this domain completes asynchronously.
    pub closed spec fn spec_async_mr_reg(&self) -> bool {
        self.async_mr_reg
    }

    /// The event queue the domain is bound to, if any.
    pub closed spec fn spec_eq(&self) -> Option<Fid> {
        self.eq
    }

    /// The domain that `fi_domain2` created as `fid`, once it returned `err`;
    /// `mr_mode` and `mr_key_size` are those of the provider's domain attributes.
    pub fn new2(fid: Fid, err: i32, mr_mode: u64, mr_key_size: usize) -> (r: Result<Domain, Error>)
        requires
            valid_return_code(err as int),
        ensures
            err != 0 ==> r == Err::<Domain, Error>(Error { code: (-err) as u32 }),
            err == 0 ==> (r matches Ok(d) && d.spec_fid() == fid && d.spec_mr_mode() == mr_mode
                && d.spec_mr_key_size() == mr_key_size && d.spec_eq() is None
                && !d.spec_async_mr_reg()),
    {
        if err != 0 {
            Err(Error::from_err_code((-(err as i64)) as u32))
        } else {
            Ok(Domain { fid, mr_mode, mr_key_size, eq: None, async_mr_reg: false })
        }
    }

    /// Records the binding of the event queue `eq` with `flags`, once `fi_domain_bind`
    /// returned `err`. With `FI_REG_MR`, memory registrations complete through `eq`.
    pub fn bind(&mut self, eq: Fid, flags: u64, err: i32) -> (r: Result<(), Error>)
        requires
            valid_return_code(err as int),
        ensures
            err != 0 ==> r == Err::<(), Error>(Error { code: (-err) as u32 }) && *final(self) == *old(self),
            err == 0 ==> r == Ok::<(), Error>(()) && final(self).spec_eq() == Some(eq)
                && final(self).spec_async_mr_reg() == (flags & FI_REG_MR != 0)
                && final(self).spec_fid() == old(self).spec_fid()
                && final(self).spec_mr_mode() == old(self).spec_mr_mode()
                && final(self).spec_mr_key_size() == old(self).spec_mr_key_size(),
    {
        if err != 0 {
            Err(Error::from_err_code((-(err as i64)) as u32))
        } else {
            self.eq = Some(eq);
            self.async_mr_reg = flags & FI_REG_MR != 0;
            Ok(())
        }
    }

    /// Whether memory registrations on this domain complete through its event queue.
    pub fn async_mr_reg(&self) -> (r: bool)
        ensures
            r == self.spec_async_mr_reg(),
    {
        self.async_mr_reg
    }

    /// Whether the domain requires raw memory-region keys.
    pub open spec fn spec_is_raw(&self) -> bool {
        self.spec_mr_mode() & FI_MR_RAW != 0
    }

    /// The identity of the domain.
    pub fn fid(&self) -> (r: Fid)
        ensures
            r == self.spec_fid(),
    {
        self.fid
    }

    /// The memory registration mode bits of the domain.
    pub fn get_mr_mode(&self) -> (r: u64)
        ensures
            r == self.spec_mr_mode(),
    {
        self.mr_mode
    }

    /// Whether the domain requires raw memory-region keys.
    pub fn is_raw(&self) -> (r: bool)
        ensures
            r == self.spec_is_raw(),
    {
        self.mr_mode & FI_MR_RAW != 0
    }

    /// The size in bytes of a raw memory-region key of this domain.
    pub fn get_mr_key_size(&self) -> (r: usize)
        ensures
            r == self.spec_mr_key_size(),
    {
        self.mr_key_size
    }
}

/// Builder for a [Domain] opened on `fabric` for the fabric interface `info`,
/// with an optional application context and `fi_domain2` flags.
pub struct DomainBuilder<'a, F, I, T> {
    fabric: &'a F,
    info: &'a I,
    ctx: Option<&'a mut T>,
    flags: u64,
}

impl<'a, F, I> DomainBuilder<'a, F, I, ()> {
    /// Initiates the creation of a domain on `fabric` for `info`, with no context
    /// and no flags.
    pub fn new(fabric: &'a F, info: &'a I) -> (r: DomainBuilder<'a, F, I, ()>)
        ensures
            r.spec_fabric() == fabric,
            r.spec_info() == info,
            r.spec_ctx() is None,
            r.spec_flags() == 0,
    {
        DomainBuilder { fabric, info, flags: 0, ctx: None }
    }
}

impl<'a, F, I, T> DomainBuilder<'a, F, I, T> {
    /// The fabric the domain will be opened on.
    pub closed spec fn spec_fabric(&self) -> &'a F {
        self.fabric
    }

    /// The fabric interface the domain will be opened for.
    pub closed spec fn spec_info(&self) -> &'a I {
        self.info
    }

    /// The application context that will be passed to `fi_domain2`.
    pub closed spec fn spec_ctx(&self) -> Option<&'a mut T> {
        self.ctx
    }

    /// The flags that will be passed to `fi_domain2`.
    pub closed spec fn spec_flags(&self) -> u64 {
        self.flags
    }

    /// Sets the application context. The flags set so far are cleared.
    pub fn context(self, ctx: &'a mut T) -> (r: DomainBuilder<'a, F, I, T>)
        ensures
            r.spec_fabric() == self.spec_fabric(),
            r.spec_info() == self.spec_info(),
            r.spec_ctx() matches Some(c) && *c == *old(ctx) && *final(c) == *final(ctx),
            r.spec_flags() == 0,
    {
        DomainBuilder { fabric: self.fabric, info: self.info, flags: 0, ctx: Some(ctx) }
    }

    /// Sets the flags passed to `fi_domain2`.
    pub fn flags(self, flags: u64) -> (r: Self)
        ensures
            r.spec_fabric() == self.spec_fabric(),
            r.spec_info() == self.spec_info(),
            r.spec_ctx() == self.spec_ctx(),
            r.spec_flags() == flags,
    {
        DomainBuilder { flags, ..self }
    }

    /// The flags that will be passed to `fi_domain2`.
    pub fn get_flags(&self) -> (r: u64)
        ensures
            r == self.spec_flags(),
    {
        self.flags
    }

    /// The parts of the request: fabric, fabric interface, context and flags, in
    /// that order, for the `fi_domain2` call that builds the domain.
    pub fn into_parts(self) -> (r: (&'a F, &'a I, Option<&'a mut T>, u64))
        ensures
            r.0 == self.spec_fabric(),
            r.1 == self.spec_info(),
            r.2 == self.spec_ctx(),
            r.3 == self.spec_flags(),
    {
        (self.fabric, self.info, self.ctx, self.flags)
    }
}

/// The attributes of a domain (`fi_domain_attr`). The enumerated attributes are
/// held as their libfabric values; 0 stands for "unspecified" in each of them.
#[derive(Clone)]
pub struct DomainAttr {
    pub domain: Option<Fid>,
    pub name: String,
    pub threading: u32,
    pub control_progress: u32,
    pub data_progress: u32,
    pub resource_mgmt: u32,
    pub av_type: u32,
    pub mr_mode: i32,
    pub mr_key_size: usize,
    pub cq_data_size: usize,
    pub cq_cnt: usize,
    pub ep_cnt: usize,
    pub tx_ctx_cnt: usize,
    pub rx_ctx_cnt: usize,
    pub max_ep_tx_ctx: usize,
    pub max_ep_rx_ctx: usize,
    pub max_ep_stx_ctx: usize,
    pub max_ep_srx_ctx: usize,
    pub cntr_cnt: usize,
    pub mr_iov_limit: usize,
    pub caps: u64,
    pub mode: u64,
    pub auth_key: Vec<u8>,
    pub max_err_data: usize,
    pub mr_cnt: usize,
    pub tclass: u32,
}

/// Whether `attr` holds only the values a new attribute set starts with.
pub open spec fn is_default_domain_attr(attr: DomainAttr) -> bool {
    &&& attr.domain is None
    &&& attr.name@ == Seq::<char>::empty()
    &&& attr.threading == 0 && attr.control_progress == 0 && attr.data_progress == 0
    &&& attr.resource_mgmt == 0 && attr.av_type == 0 && attr.mr_mode == 0
    &&& attr.mr_key_size == 0 && attr.cq_data_size == 0 && attr.cq_cnt == 0 && attr.ep_cnt == 0
    &&& attr.tx_ctx_cnt == 0 && attr.rx_ctx_cnt == 0 && attr.max_ep_tx_ctx == 0
    &&& attr.max_ep_rx_ctx == 0 && attr.max_ep_stx_ctx == 0 && attr.max_ep_srx_ctx == 0
    &&& attr.cntr_cnt == 0 && attr.mr_iov_limit == 0 && attr.caps == 0 && attr.mode == 0
    &&& attr.auth_key@ == Seq::<u8>::empty()
    &&& attr.max_err_data == 0 && attr.mr_cnt == 0 && attr.tclass == 0
}

impl DomainAttr {
    /// A set of domain attributes with every attribute unspecified or zero.
    pub fn new() -> (r: DomainAttr)
        ensures
            is_default_domain_attr(r),
    {
        DomainAttr {
            domain: None,
            name: String::new(),
            threading: 0,
            control_progress: 0,
            data_progress: 0,
            resource_mgmt: 0,
            av_type: 0,
            mr_mode: 0,
            mr_key_size: 0,
            cq_data_size: 0,
            cq_cnt: 0,
            ep_cnt: 0,
            tx_ctx_cnt: 0,
            rx_ctx_cnt: 0,
            max_ep_tx_ctx: 0,
            max_ep_rx_ctx: 0,
            max_ep_stx_ctx: 0,
            max_ep_srx_ctx: 0,
            cntr_cnt: 0,
            mr_iov_limit: 0,
            caps: 0,
            mode: 0,
            auth_key: Vec::new(),
            max_err_data: 0,
            mr_cnt: 0,
            tclass: 0,
        }
    }

    /// Sets the domain the attributes refer to.
    pub fn domain(&mut self, domain: &Domain) -> (r: &mut Self)
        ensures
            *r == (DomainAttr { domain: Some(domain.spec_fid()), ..*old(self) }),
            *final(self) == *final(r),
    {
        self.domain = Some(domain.fid());
        self
    }

    /// Sets the name of the domain, which must not hold a NUL character.
    pub fn name(&mut self, name: String) -> (r: &mut Self)
        requires
            forall|i: int| 0 <= i < name@.len() ==> name@[i] != '\0',
        ensures
            *r == (DomainAttr { name, ..*old(self) }),
            *final(self) == *final(r),
    {
        self.name = name;
        self
    }

    /// Sets the threading model.
    pub fn threading(&mut self, threading: u32) -> (r: &mut Self)
        ensures
            *r == (DomainAttr { threading: threading, ..*old(self) }),
            *final(self) == *final(r),
    {
        self.threading = threading;
        self
    }

    /// Sets the progress model of control operations.
    pub fn control_progress(&mut self, control_progress: u32) -> (r: &mut Self)
        ensures
            *r == (DomainAttr { control_progress: control_progress, ..*old(self) }),
            *final(self) == *final(r),
    {
        self.control_progress = control_progress;
        self
    }

    /// Sets the progress model of data transfers.
    pub fn data_progress(&mut self, data_progress: u32) -> (r: &mut Self)
        ensures
            *r == (DomainAttr { data_progress: data_progress, ..*old(self) }),
            *final(self) == *final(r),
    {
        self.data_progress = data_progress;
        self
    }

    /// Sets the resource management model.
    pub fn resource_mgmt(&mut self, res_mgmt: u32) -> (r: &mut Self)
        ensures
            *r == (DomainAttr { resource_mgmt: res_mgmt, ..*old(self) }),
            *final(self) == *final(r),
    {
        self.resource_mgmt = res_mgmt;
        self
    }

    /// Sets the address vector type.
    pub fn av_type(&mut self, av_type: u32) -> (r: &mut Self)
        ensures
            *r == (DomainAttr { av_type: av_type, ..*old(self) }),
            *final(self) == *final(r),
    {
        self.av_type = av_type;
        self
    }

    /// Sets the memory registration mode bits.
    pub fn mr_mode(&mut self, mr_mode: u32) -> (r: &mut Self)
        ensures
            *r == (DomainAttr { mr_mode: mr_mode as i32, ..*old(self) }),
            *final(self) == *final(r),
    {
        self.mr_mode = mr_mode as i32;
        self
    }

    /// Sets the size of raw memory region keys.
    pub fn mr_key_size(&mut self, size: usize) -> (r: &mut Self)
        ensures
            *r == (DomainAttr { mr_key_size: size, ..*old(self) }),
            *final(self) == *final(r),
    {
        self.mr_key_size = size;
        self
    }

    /// Sets the size of remote completion data.
    pub fn cq_data_size(&mut self, size: usize) -> (r: &mut Self)
        ensures
            *r == (DomainAttr { cq_data_size: size, ..*old(self) }),
            *final(self) == *final(r),
    {
        self.cq_data_size = size;
        self
    }

    /// Sets the number of completion queues.
    pub fn cq_cnt(&mut self, size: usize) -> (r: &mut Self)
        ensures
            *r == (DomainAttr { cq_cnt: size, ..*old(self) }),
            *final(self) == *final(r),
    {
        self.cq_cnt = size;
        self
    }

    /// Sets the number of endpoints.
    pub fn ep_cnt(&mut self, size: usize) -> (r: &mut Self)
        ensures
            *r == (DomainAttr { ep_cnt: size, ..*old(self) }),
            *final(self) == *final(r),
    {
        self.ep_cnt = size;
        self
    }

    /// Sets the number of transmit contexts.
    pub fn tx_ctx_cnt(&mut self, size: usize) -> (r: &mut Self)
        ensures
            *r == (DomainAttr { tx_ctx_cnt: size, ..*old(self) }),
            *final(self) == *final(r),
    {
        self.tx_ctx_cnt = size;
        self
    }

    /// Sets the number of receive contexts.
    pub fn rx_ctx_cnt(&mut self, size: usize) -> (r: &mut Self)
        ensures
            *r == (DomainAttr { rx_ctx_cnt: size, ..*old(self) }),
            *final(self) == *final(r),
    {
        self.rx_ctx_cnt = size;
        self
    }

    /// Sets the maximum number of transmit contexts per endpoint.
    pub fn max_ep_tx_ctx(&mut self, size: usize) -> (r: &mut Self)
        ensures
            *r == (DomainAttr { max_ep_tx_ctx: size, ..*old(self) }),
            *final(self) == *final(r),
    {
        self.max_ep_tx_ctx = size;
        self
    }

    /// Sets the maximum number of receive contexts per endpoint.
    pub fn max_ep_rx_ctx(&mut self, size: usize) -> (r: &mut Self)
        ensures
            *r == (DomainAttr { max_ep_rx_ctx: size, ..*old(self) }),
            *final(self) == *final(r),
    {
        self.max_ep_rx_ctx = size;
        self
    }

    /// Sets the maximum number of shared transmit contexts per endpoint.
    pub fn max_ep_stx_ctx(&mut self, size: usize) -> (r: &mut Self)
        ensures
            *r == (DomainAttr { max_ep_stx_ctx: size, ..*old(self) }),
            *final(self) == *final(r),
    {
        self.max_ep_stx_ctx = size;
        self
    }

    /// Sets the maximum number of shared receive contexts per endpoint.
    pub fn max_ep_srx_ctx(&mut self, size: usize) -> (r: &mut Self)
        ensures
            *r == (DomainAttr { max_ep_srx_ctx: size, ..*old(self) }),
            *final(self) == *final(r),
    {
        self.max_ep_srx_ctx = size;
        self
    }

    /// Sets the number of counters.
    pub fn cntr_cnt(&mut self, size: usize) -> (r: &mut Self)
        ensures
            *r == (DomainAttr { cntr_cnt: size, ..*old(self) }),
            *final(self) == *final(r),
    {
        self.cntr_cnt = size;
        self
    }

    /// Sets the maximum number of buffers of a memory registration.
    pub fn mr_iov_limit(&mut self, size: usize) -> (r: &mut Self)
        ensures
            *r == (DomainAttr { mr_iov_limit: size, ..*old(self) }),
            *final(self) == *final(r),
    {
        self.mr_iov_limit = size;
        self
    }

    /// Sets the domain capabilities.
    pub fn caps(&mut self, caps: u64) -> (r: &mut Self)
        ensures
            *r == (DomainAttr { caps: caps, ..*old(self) }),
            *final(self) == *final(r),
    {
        self.caps = caps;
        self
    }

    /// Sets the mode bits.
    pub fn mode(&mut self, mode: u64) -> (r: &mut Self)
        ensures
            *r == (DomainAttr { mode: mode, ..*old(self) }),
            *final(self) == *final(r),
    {
        self.mode = mode;
        self
    }

    /// Sets the authorisation key.
    pub fn auth_key(&mut self, key: &[u8]) -> (r: &mut Self)
        ensures
            r.auth_key@ == key@,
            *r == (DomainAttr { auth_key: r.auth_key, ..*old(self) }),
            *final(self) == *final(r),
    {
        let mut k: Vec<u8> = Vec::new();
        let mut i: usize = 0;
        while i < key.len()
            invariant
                i <= key@.len(),
                k@ == key@.subrange(0, i as int),
            decreases key@.len() - i,
        {
            k.push(key[i]);
            i += 1;
            assert(k@ =~= key@.subrange(0, i as int));
        }
        assert(k@ =~= key@);
        self.auth_key = k;
        self
    }

    /// Sets the maximum size of provider error data.
    pub fn max_err_data(&mut self, size: usize) -> (r: &mut Self)
        ensures
            *r == (DomainAttr { max_err_data: size, ..*old(self) }),
            *final(self) == *final(r),
    {
        self.max_err_data = size;
        self
    }

    /// Sets the number of memory regions.
    pub fn mr_cnt(&mut self, size: usize) -> (r: &mut Self)
        ensures
            *r == (DomainAttr { mr_cnt: size, ..*old(self) }),
            *final(self) == *final(r),
    {
        self.mr_cnt = size;
        self
    }

    /// Sets the traffic class.
    pub fn tclass(&mut self, class: u32) -> (r: &mut Self)
        ensures
            *r == (DomainAttr { tclass: class, ..*old(self) }),
            *final(self) == *final(r),
    {
        self.tclass = class;
        self
    }

    /// The mode bits.
    pub fn get_mode(&self) -> (r: u64)
        ensures
            r == self.mode,
    {
        self.mode
    }

    /// The memory registration mode bits, which must not be negative.
    pub fn get_mr_mode(&self) -> (r: u32)
        requires
            self.mr_mode >= 0,
        ensures
            r == self.mr_mode,
    {
        self.mr_mode as u32
    }

    /// The address vector type.
    pub fn get_av_type(&self) -> (r: u32)
        ensures
            r == self.av_type,
    {
        self.av_type
    }

    /// The progress model of data transfers.
    pub fn get_data_progress(&self) -> (r: u32)
        ensures
            r == self.data_progress,
    {
        self.data_progress
    }

    /// The maximum number of buffers of a memory registration.
    pub fn get_mr_iov_limit(&self) -> (r: usize)
        ensures
            r == self.mr_iov_limit,
    {
        self.mr_iov_limit
    }

    /// The number of counters.
    pub fn get_cntr_cnt(&self) -> (r: usize)
        ensures
            r == self.cntr_cnt,
    {
        self.cntr_cnt
    }

    /// The size of remote completion data.
    pub fn get_cq_data_size(&self) -> (r: u64)
        ensures
            r == self.cq_data_size,
    {
        self.cq_data_size as u64
    }
}

} // verus!
