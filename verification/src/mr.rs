use vstd::prelude::*;

use crate::domain::Domain;
use crate::error::{valid_return_code, Error, FI_ENOKEY, FI_ETOOSMALL};
use crate::fid::Fid;

verus! {

/// The eight bytes of `v`, least significant first.
pub open spec fn u64_le_bytes(v: u64) -> Seq<u8> {
    seq![
        (v & 0xff) as u8,
        ((v >> 8u64) & 0xff) as u8,
        ((v >> 16u64) & 0xff) as u8,
        ((v >> 24u64) & 0xff) as u8,
        ((v >> 32u64) & 0xff) as u8,
        ((v >> 40u64) & 0xff) as u8,
        ((v >> 48u64) & 0xff) as u8,
        ((v >> 56u64) & 0xff) as u8,
    ]
}

/// The `u64` whose bytes, least significant first, are the first eight of `s`.
pub open spec fn u64_from_le_bytes(s: Seq<u8>) -> u64 {
    (s[0] as u64) | ((s[1] as u64) << 8u64) | ((s[2] as u64) << 16u64) | ((s[3] as u64) << 24u64)
        | ((s[4] as u64) << 32u64) | ((s[5] as u64) << 40u64) | ((s[6] as u64) << 48u64) | ((
    s[7] as u64) << 56u64)
}

proof fn lemma_u64_bytes_of_value(v: u64)
    ensures
        u64_from_le_bytes(u64_le_bytes(v)) == v,
{
    let b = u64_le_bytes(v);
    let b0 = b[0];
    let b1 = b[1];
    let b2 = b[2];
    let b3 = b[3];
    let b4 = b[4];
    let b5 = b[5];
    let b6 = b[6];
    let b7 = b[7];
    assert(v == (b0 as u64) | ((b1 as u64) << 8u64) | ((b2 as u64) << 16u64) | ((b3 as u64)
        << 24u64) | ((b4 as u64) << 32u64) | ((b5 as u64) << 40u64) | ((b6 as u64) << 48u64) | ((
    b7 as u64) << 56u64)) by (bit_vector)
        requires
            b0 == (v & 0xff) as u8,
            b1 == ((v >> 8u64) & 0xff) as u8,
            b2 == ((v >> 16u64) & 0xff) as u8,
            b3 == ((v >> 24u64) & 0xff) as u8,
            b4 == ((v >> 32u64) & 0xff) as u8,
            b5 == ((v >> 40u64) & 0xff) as u8,
            b6 == ((v >> 48u64) & 0xff) as u8,
            b7 == ((v >> 56u64) & 0xff) as u8,
    ;
}

proof fn lemma_u64_value_of_bytes(s: Seq<u8>)
    requires
        s.len() == 8,
    ensures
        u64_le_bytes(u64_from_le_bytes(s)) == s,
{
    let v = u64_from_le_bytes(s);
    let b0 = s[0];
    let b1 = s[1];
    let b2 = s[2];
    let b3 = s[3];
    let b4 = s[4];
    let b5 = s[5];
    let b6 = s[6];
    let b7 = s[7];
    assert(b0 == (v & 0xff) as u8 && b1 == ((v >> 8u64) & 0xff) as u8 && b2 == ((v >> 16u64)
        & 0xff) as u8 && b3 == ((v >> 24u64) & 0xff) as u8 && b4 == ((v >> 32u64) & 0xff) as u8
        && b5 == ((v >> 40u64) & 0xff) as u8 && b6 == ((v >> 48u64) & 0xff) as u8 && b7 == ((v
        >> 56u64) & 0xff) as u8) by (bit_vector)
        requires
            v == (b0 as u64) | ((b1 as u64) << 8u64) | ((b2 as u64) << 16u64) | ((b3 as u64)
                << 24u64) | ((b4 as u64) << 32u64) | ((b5 as u64) << 40u64) | ((b6 as u64)
                << 48u64) | ((b7 as u64) << 56u64),
    ;
    assert(u64_le_bytes(v) =~= s);
}

/// The abstract value of a [MemoryRegionKey].
pub enum KeyModel {
    Plain(u64),
    Raw(Seq<u8>, u64),
}

/// Represents a key needed to access a remote memory region.
///
/// This enum encapsulates either a 'regular' key obtained from `fi_mr_key` or a 'raw' key
/// (the raw key bytes and the base address) obtained from `fi_mr_raw_attr`,
/// depending on the requirements of the provider.
pub enum MemoryRegionKey {
    Key(u64),
    RawKey((Vec<u8>, u64)),
}

impl View for MemoryRegionKey {
    type V = KeyModel;

    open spec fn view(&self) -> KeyModel {
        match self {
            MemoryRegionKey::Key(k) => KeyModel::Plain(*k),
            MemoryRegionKey::RawKey((raw, base)) => KeyModel::Raw(raw@, *base),
        }
    }
}

/// The bytes that represent a key on the wire: the key itself for a plain key,
/// and for a raw key the raw key bytes followed by the base address, each 64-bit
/// value in little-endian byte order.
pub open spec fn key_bytes(k: KeyModel) -> Seq<u8> {
    match k {
        KeyModel::Plain(key) => u64_le_bytes(key),
        KeyModel::Raw(raw, base) => raw + u64_le_bytes(base),
    }
}

/// Whether `raw` can be read as a key of a domain with the given raw mode and key size.
pub open spec fn key_bytes_readable(raw: Seq<u8>, is_raw: bool, key_size: nat) -> bool {
    if is_raw {
        raw.len() == key_size && raw.len() >= 8
    } else {
        raw.len() == 8
    }
}

/// The key that `raw` represents for a domain with the given raw mode, 64-bit
/// values being read in little-endian byte order.
pub open spec fn key_from_bytes(raw: Seq<u8>, is_raw: bool) -> KeyModel {
    if is_raw {
        KeyModel::Raw(
            raw.subrange(0, raw.len() - 8),
            u64_from_le_bytes(raw.subrange(raw.len() - 8, raw.len() as int)),
        )
    } else {
        KeyModel::Plain(u64_from_le_bytes(raw))
    }
}

/// Whether a key has the shape that a domain with the given raw mode and key size uses.
pub open spec fn key_fits_domain(k: KeyModel, is_raw: bool, key_size: nat) -> bool {
    match k {
        KeyModel::Plain(_) => !is_raw,
        KeyModel::Raw(raw, _) => is_raw && key_size == raw.len() + 8,
    }
}

fn push_u64_le(out: &mut Vec<u8>, v: u64)
    ensures
        final(out)@ == old(out)@ + u64_le_bytes(v),
{
    out.push((v & 0xff) as u8);
    out.push(((v >> 8u64) & 0xff) as u8);
    out.push(((v >> 16u64) & 0xff) as u8);
    out.push(((v >> 24u64) & 0xff) as u8);
    out.push(((v >> 32u64) & 0xff) as u8);
    out.push(((v >> 40u64) & 0xff) as u8);
    out.push(((v >> 48u64) & 0xff) as u8);
    out.push(((v >> 56u64) & 0xff) as u8);
    assert(final(out)@ =~= old(out)@ + u64_le_bytes(v));
}

fn read_u64_le(raw: &[u8], start: usize) -> (r: u64)
    requires
        start + 8 <= raw@.len(),
    ensures
        r == u64_from_le_bytes(raw@.subrange(start as int, start + 8)),
{
    (raw[start] as u64) | ((raw[start + 1] as u64) << 8u64) | ((raw[start + 2] as u64) << 16u64)
        | ((raw[start + 3] as u64) << 24u64) | ((raw[start + 4] as u64) << 32u64) | ((raw[start
        + 5] as u64) << 40u64) | ((raw[start + 6] as u64) << 48u64) | ((raw[start + 7] as u64)
        << 56u64)
}

impl MemoryRegionKey {
    /// Constructs a key from a `u64` value as received from a remote node.
    pub fn from_u64(key: u64) -> (r: MemoryRegionKey)
        ensures
            r@ == KeyModel::Plain(key),
    {
        MemoryRegionKey::Key(key)
    }

    /// Serialises the key so that it can be sent to a remote node. A plain key and
    /// the base address of a raw key are written in little-endian byte order, which
    /// is the machine's own order on little-endian targets only.
    pub fn to_bytes(&self) -> (r: Vec<u8>)
        ensures
            r@ == key_bytes(self@),
    {
        match self {
            MemoryRegionKey::Key(key) => {
                let mut bytes: Vec<u8> = Vec::new();
                push_u64_le(&mut bytes, *key);
                assert(bytes@ =~= u64_le_bytes(*key));
                bytes
            },
            MemoryRegionKey::RawKey((raw, base)) => {
                let mut bytes: Vec<u8> = Vec::new();
                let mut i: usize = 0;
                while i < raw.len()
                    invariant
                        i <= raw@.len(),
                        bytes@ == raw@.subrange(0, i as int),
                    decreases raw@.len() - i,
                {
                    bytes.push(raw[i]);
                    i += 1;
                    assert(bytes@ =~= raw@.subrange(0, i as int));
                }
                assert(bytes@ =~= raw@);
                push_u64_le(&mut bytes, *base);
                bytes
            },
        }
    }

    /// Constructs a key from bytes received from a remote node, following the
    /// key requirements of `domain`: a raw key (raw bytes followed by the base
    /// address) when the domain uses raw keys, and a plain key otherwise. 64-bit
    /// values are read in little-endian byte order, which is the machine's own
    /// order on little-endian targets only.
    pub fn from_bytes(raw: &[u8], domain: &Domain) -> (r: MemoryRegionKey)
        requires
            key_bytes_readable(raw@, domain.spec_is_raw(), domain.spec_mr_key_size() as nat),
        ensures
            r@ == key_from_bytes(raw@, domain.spec_is_raw()),
    {
        if domain.is_raw() {
            let split = raw.len() - 8;
            let base_addr = read_u64_le(raw, split);
            let mut key_part: Vec<u8> = Vec::new();
            let mut i: usize = 0;
            while i < split
                invariant
                    i <= split,
                    split + 8 == raw@.len(),
                    key_part@ == raw@.subrange(0, i as int),
                decreases split - i,
            {
                key_part.push(raw[i]);
                i += 1;
                assert(key_part@ =~= raw@.subrange(0, i as int));
            }
            MemoryRegionKey::RawKey((key_part, base_addr))
        } else {
            let key = read_u64_le(raw, 0);
            assert(raw@.subrange(0, 8) =~= raw@);
            MemoryRegionKey::Key(key)
        }
    }
}

/// The abstract value of a [MappedMemoryRegionKey]: the key to use in remote
/// accesses, and for a mapped raw key the domain that mapped it.
pub struct MappedKeyModel {
    pub key: u64,
    pub mapped_by: Option<Fid>,
}

#[derive(Clone, Copy)]
enum MappedMemoryRegionKeyImpl {
    Key(u64),
    MappedRawKey((u64, Fid)),
}

/// Uniformly represents a (mapped if raw) memory region key that can be used to
/// access remote memory regions. A key that was mapped from a raw key has to be
/// unmapped from its domain when it is dropped (see [MappedMemoryRegionKey::key_to_unmap]).
#[derive(Clone, Copy)]
pub struct MappedMemoryRegionKey {
    inner: MappedMemoryRegionKeyImpl,
}

impl View for MappedMemoryRegionKey {
    type V = MappedKeyModel;

    closed spec fn view(&self) -> MappedKeyModel {
        match self.inner {
            MappedMemoryRegionKeyImpl::Key(k) => MappedKeyModel { key: k, mapped_by: None },
            MappedMemoryRegionKeyImpl::MappedRawKey((k, d)) => MappedKeyModel {
                key: k,
                mapped_by: Some(d),
            },
        }
    }
}

impl MappedMemoryRegionKey {
    /// The key to use when accessing the remote memory region.
    pub fn get_key(&self) -> (r: u64)
        ensures
            r == self@.key,
    {
        match self.inner {
            MappedMemoryRegionKeyImpl::Key(key) => key,
            MappedMemoryRegionKeyImpl::MappedRawKey((key, _)) => key,
        }
    }

    /// What dropping this key has to undo: for a key mapped from a raw key, the
    /// mapped key and the domain to unmap it from; nothing for a plain key.
    pub fn key_to_unmap(&self) -> (r: Option<(u64, Fid)>)
        ensures
            r == (match self@.mapped_by {
                Some(d) => Some((self@.key, d)),
                None => None::<(u64, Fid)>,
            }),
    {
        match self.inner {
            MappedMemoryRegionKeyImpl::Key(_) => None,
            MappedMemoryRegionKeyImpl::MappedRawKey((key, domain)) => Some((key, domain)),
        }
    }
}

impl MemoryRegionKey {
    /// Turns the key into one that can be used in remote accesses on `domain`.
    ///
    /// A plain key is used as it is. A raw key is mapped by the domain (`fi_mr_map_raw`),
    /// which `map_raw` performs on the raw key bytes and the base address; its error,
    /// if any, is returned.
    pub fn into_mapped<F: FnOnce(Vec<u8>, u64) -> Result<u64, Error>>(
        self,
        domain: &Domain,
        map_raw: F,
    ) -> (r: Result<MappedMemoryRegionKey, Error>)
        requires
            forall|raw: Vec<u8>, base: u64| map_raw.requires((raw, base)),
        ensures
            (match self {
                MemoryRegionKey::Key(k) => r matches Ok(m) && m@ == MappedKeyModel {
                    key: k,
                    mapped_by: None,
                },
                MemoryRegionKey::RawKey((raw, base)) => exists|res: Result<u64, Error>|
                    #[trigger] map_raw.ensures((raw, base), res) && match res {
                        Ok(mapped) => r matches Ok(m) && m@ == MappedKeyModel {
                            key: mapped,
                            mapped_by: Some(domain.spec_fid()),
                        },
                        Err(e) => r == Err::<MappedMemoryRegionKey, Error>(e),
                    },
            }),
    {
        match self {
            MemoryRegionKey::Key(mapped_key) => {
                Ok(MappedMemoryRegionKey { inner: MappedMemoryRegionKeyImpl::Key(mapped_key) })
            },
            MemoryRegionKey::RawKey((raw, base)) => {
                let res = map_raw(raw, base);
                match res {
                    Ok(mapped_key) => Ok(
                        MappedMemoryRegionKey {
                            inner: MappedMemoryRegionKeyImpl::MappedRawKey(
                                (mapped_key, domain.fid()),
                            ),
                        },
                    ),
                    Err(e) => Err(e),
                }
            },
        }
    }
}

/// `FI_KEY_NOTAVAIL`: the memory region has no key.
pub const FI_KEY_NOTAVAIL: u64 = 0xffff_ffff_ffff_ffff;

/// What has to be asked of libfabric for the key of a memory region.
#[derive(Clone, Copy, Debug, PartialEq, Eq, Structural)]
pub enum KeyQuery {
    /// Ask `fi_mr_raw_attr` for the raw key, into a buffer of `key_size` bytes.
    RawAttr(usize),
    /// Ask `fi_mr_key` for the key.
    Key,
}

/// A registered memory region, as far as the library's own logic reads it: its
/// identity, the domain it was registered on, and the counter and endpoint it was
/// bound to.
pub struct MemoryRegion {
    fid: Fid,
    domain: Domain,
    bound_cntr: Option<Fid>,
    bound_ep: Option<Fid>,
}

/// The abstract state of a [MemoryRegion].
pub struct MemoryRegionModel {
    pub fid: Fid,
    pub domain_fid: Fid,
    pub domain_raw: bool,
    pub domain_key_size: usize,
    pub bound_cntr: Option<Fid>,
    pub bound_ep: Option<Fid>,
}

impl View for MemoryRegion {
    type V = MemoryRegionModel;

    closed spec fn view(&self) -> MemoryRegionModel {
        MemoryRegionModel {
            fid: self.fid,
            domain_fid: self.domain.spec_fid(),
            domain_raw: self.domain.spec_is_raw(),
            domain_key_size: self.domain.spec_mr_key_size(),
            bound_cntr: self.bound_cntr,
            bound_ep: self.bound_ep,
        }
    }
}

impl MemoryRegion {
    /// The memory region that `fi_mr_regattr` (or `fi_mr_reg`, `fi_mr_regv`) registered
    /// on `domain` as `fid`, once it returned `err`.
    pub fn new(domain: &Domain, fid: Fid, err: i32) -> (r: Result<MemoryRegion, Error>)
        requires
            valid_return_code(err as int),
        ensures
            err != 0 ==> r == Err::<MemoryRegion, Error>(Error { code: (-err) as u32 }),
            err == 0 ==> (r matches Ok(mr) && mr@ == MemoryRegionModel {
                fid,
                domain_fid: domain.spec_fid(),
                domain_raw: domain.spec_is_raw(),
                domain_key_size: domain.spec_mr_key_size(),
                bound_cntr: None,
                bound_ep: None,
            }),
    {
        if err != 0 {
            Err(Error::from_err_code((-(err as i64)) as u32))
        } else {
            Ok(MemoryRegion { fid, domain: *domain, bound_cntr: None, bound_ep: None })
        }
    }

    /// The identity of the memory region.
    pub fn fid(&self) -> (r: Fid)
        ensures
            r == self@.fid,
    {
        self.fid
    }

    /// The counter recorded for the region, if any.
    pub fn bound_cntr(&self) -> (r: Option<Fid>)
        ensures
            r == self@.bound_cntr,
    {
        self.bound_cntr
    }

    /// The endpoint recorded for the region, if any.
    pub fn bound_ep(&self) -> (r: Option<Fid>)
        ensures
            r == self@.bound_ep,
    {
        self.bound_ep
    }

    /// How the key of the region is obtained: through `fi_mr_raw_attr`, into a buffer
    /// of the domain's key size, when the domain uses raw keys, and through
    /// `fi_mr_key` otherwise.
    pub fn key_query(&self) -> (r: KeyQuery)
        ensures
            self@.domain_raw ==> r == KeyQuery::RawAttr(self@.domain_key_size),
            !self@.domain_raw ==> r == KeyQuery::Key,
    {
        if self.domain.is_raw() {
            KeyQuery::RawAttr(self.domain.get_mr_key_size())
        } else {
            KeyQuery::Key
        }
    }

    /// The key of the region once `fi_mr_key` returned `ret`: `FI_ENOKEY` when no key
    /// is available, and the key otherwise.
    pub fn key_outcome(&self, ret: u64) -> (r: Result<MemoryRegionKey, Error>)
        ensures
            ret == FI_KEY_NOTAVAIL ==> r == Err::<MemoryRegionKey, Error>(Error { code: FI_ENOKEY }),
            ret != FI_KEY_NOTAVAIL ==> (r matches Ok(k) && k@ == KeyModel::Plain(ret)),
    {
        if ret == FI_KEY_NOTAVAIL {
            Err(Error::from_err_code(FI_ENOKEY))
        } else {
            Ok(MemoryRegionKey::Key(ret))
        }
    }

    /// The key of the region once `fi_mr_raw_attr` returned `err` and filled `raw_key`
    /// (a buffer of the domain's key size): the error that a non-zero code names, and
    /// otherwise the key that the buffer holds for the domain.
    pub fn raw_key_outcome(&self, err: i32, raw_key: &[u8]) -> (r: Result<MemoryRegionKey, Error>)
        requires
            valid_return_code(err as int),
            err == 0 ==> key_bytes_readable(raw_key@, self@.domain_raw, self@.domain_key_size as nat),
        ensures
            err != 0 ==> r == Err::<MemoryRegionKey, Error>(Error { code: (-err) as u32 }),
            err == 0 ==> (r matches Ok(k) && k@ == key_from_bytes(raw_key@, self@.domain_raw)),
    {
        if err != 0 {
            Err(Error::from_err_code((-(err as i64)) as u32))
        } else {
            Ok(MemoryRegionKey::from_bytes(raw_key, &self.domain))
        }
    }

    /// The address of the memory backing the region once `fi_mr_raw_attr` (asked for no
    /// key) returned `err` and wrote `base_addr`: a buffer too small for the key is
    /// expected, and any other failure is reported.
    pub fn address_outcome(err: i32, base_addr: u64) -> (r: Result<u64, Error>)
        requires
            valid_return_code(err as int),
        ensures
            err != 0 && -err != FI_ETOOSMALL ==> r == Err::<u64, Error>(Error { code: (-err) as u32 }),
            err == 0 || -err == FI_ETOOSMALL ==> r == Ok::<u64, Error>(base_addr),
    {
        let code: u32 = (-(err as i64)) as u32;
        if err != 0 && code != FI_ETOOSMALL {
            Err(Error::from_err_code(code))
        } else {
            Ok(base_addr)
        }
    }

    /// Records the binding of the region to the counter `cntr` once `fi_mr_bind`
    /// returned `err`: on success the region keeps `cntr` alive with it, and on
    /// failure it is left as it was.
    pub fn bind_cntr(&mut self, cntr: Fid, err: i32) -> (r: Result<(), Error>)
        requires
            valid_return_code(err as int),
            err == 0 ==> old(self)@.bound_cntr is None,
        ensures
            r == crate::error::spec_check_error(err as int),
            err == 0 ==> final(self)@ == (MemoryRegionModel { bound_cntr: Some(cntr), ..old(self)@ }),
            err != 0 ==> final(self)@ == old(self)@,
    {
        if err != 0 {
            Err(Error::from_err_code((-(err as i64)) as u32))
        } else {
            self.bound_cntr = Some(cntr);
            Ok(())
        }
    }

    /// Records the binding of the region to the endpoint `ep` once `fi_mr_bind`
    /// returned `err`: on success the region keeps `ep` alive with it, and on
    /// failure it is left as it was.
    pub fn bind_ep(&mut self, ep: Fid, err: i32) -> (r: Result<(), Error>)
        requires
            valid_return_code(err as int),
            err == 0 ==> old(self)@.bound_ep is None,
        ensures
            r == crate::error::spec_check_error(err as int),
            err == 0 ==> final(self)@ == (MemoryRegionModel { bound_ep: Some(ep), ..old(self)@ }),
            err != 0 ==> final(self)@ == old(self)@,
    {
        if err != 0 {
            Err(Error::from_err_code((-(err as i64)) as u32))
        } else {
            self.bound_ep = Some(ep);
            Ok(())
        }
    }
}

/// An opaque descriptor of a memory region, as obtained from `fi_mr_desc`.
#[derive(Clone, Copy, Debug, PartialEq, Eq, Structural)]
pub struct MemoryRegionDesc {
    c_desc: usize,
}

impl MemoryRegionDesc {
    /// The descriptor `fi_mr_desc` returned, which must not be null.
    pub fn from_desc(c_desc: usize) -> (r: MemoryRegionDesc)
        requires
            c_desc != 0,
        ensures
            r.spec_desc() == c_desc,
    {
        MemoryRegionDesc { c_desc }
    }

    /// The descriptor value.
    pub closed spec fn spec_desc(&self) -> usize {
        self.c_desc
    }

    /// The descriptor value.
    pub fn get_desc(&self) -> (r: usize)
        ensures
            r == self.spec_desc(),
    {
        self.c_desc
    }
}

/// The descriptor to pass when no memory region describes a buffer.
pub fn default_desc() -> (r: MemoryRegionDesc)
    ensures
        r.spec_desc() == 0,
{
    MemoryRegionDesc { c_desc: 0 }
}

/// `FI_COLLECTIVE`: collective operations.
pub const FI_COLLECTIVE: u64 = 0x40;

/// The kind of memory that backs a registration, and its device.
#[derive(Clone, Copy, Debug, PartialEq, Eq, Structural)]
pub enum HmemIface {
    System,
    Cuda(i32),
    Rocr(i32),
    Ze(i32, i32),
    Neuron(i32),
    SynapseAi(i32),
}

/// The registration options of a memory region.
#[derive(Clone, Copy, Debug, PartialEq, Eq, Structural)]
pub struct MrRegOpt {
    pub hmem_device_only: bool,
    pub hmem_host_alloc: bool,
    pub rma_event: bool,
    pub rma_pmem: bool,
}

impl MrRegOpt {
    /// No option.
    pub fn new() -> (r: MrRegOpt)
        ensures
            r == (MrRegOpt { hmem_device_only: false, hmem_host_alloc: false, rma_event: false, rma_pmem: false }),
    {
        MrRegOpt { hmem_device_only: false, hmem_host_alloc: false, rma_event: false, rma_pmem: false }
    }
}

/// The attributes of a memory registration (`fi_mr_attr`), but for the buffers.
#[derive(Clone)]
pub struct MemoryRegionAttr {
    pub iov_count: usize,
    pub access: u64,
    pub offset: u64,
    pub requested_key: u64,
    pub context: usize,
    pub auth_key: Vec<u8>,
    pub iface: HmemIface,
}

impl MemoryRegionAttr {
    /// Attributes with no buffer, no access, no key, and system memory.
    pub fn new() -> (r: MemoryRegionAttr)
        ensures
            r.iov_count == 0 && r.access == 0 && r.offset == 0 && r.requested_key == 0,
            r.context == 0 && r.auth_key@ == Seq::<u8>::empty() && r.iface == HmemIface::System,
    {
        MemoryRegionAttr {
            iov_count: 0,
            access: 0,
            offset: 0,
            requested_key: 0,
            context: 0,
            auth_key: Vec::new(),
            iface: HmemIface::System,
        }
    }

    /// Sets the number of buffers.
    pub fn iov(&mut self, iov_count: usize) -> (r: &mut Self)
        ensures
            *r == (MemoryRegionAttr { iov_count: iov_count, ..*old(self) }),
            *final(self) == *final(r),
    {
        self.iov_count = iov_count;
        self
    }

    /// Sets the access permissions.
    pub fn access(&mut self, access: u64) -> (r: &mut Self)
        ensures
            *r == (MemoryRegionAttr { access: access, ..*old(self) }),
            *final(self) == *final(r),
    {
        self.access = access;
        self
    }

    /// Adds access for collective operations.
    pub fn access_collective(&mut self) -> (r: &mut Self)
        ensures
            *r == (MemoryRegionAttr { access: old(self).access | FI_COLLECTIVE, ..*old(self) }),
            *final(self) == *final(r),
    {
        self.access = self.access | FI_COLLECTIVE;
        self
    }

    /// Adds access for send operations.
    pub fn access_send(&mut self) -> (r: &mut Self)
        ensures
            *r == (MemoryRegionAttr { access: old(self).access | crate::ep::FI_SEND, ..*old(self) }),
            *final(self) == *final(r),
    {
        self.access = self.access | crate::ep::FI_SEND;
        self
    }

    /// Adds access for receive operations.
    pub fn access_recv(&mut self) -> (r: &mut Self)
        ensures
            *r == (MemoryRegionAttr { access: old(self).access | crate::ep::FI_RECV, ..*old(self) }),
            *final(self) == *final(r),
    {
        self.access = self.access | crate::ep::FI_RECV;
        self
    }

    /// Adds access as the result buffer of reads.
    pub fn access_read(&mut self) -> (r: &mut Self)
        ensures
            *r == (MemoryRegionAttr { access: old(self).access | crate::ep::FI_READ, ..*old(self) }),
            *final(self) == *final(r),
    {
        self.access = self.access | crate::ep::FI_READ;
        self
    }

    /// Adds access as the source buffer of writes.
    pub fn access_write(&mut self) -> (r: &mut Self)
        ensures
            *r == (MemoryRegionAttr { access: old(self).access | crate::ep::FI_WRITE, ..*old(self) }),
            *final(self) == *final(r),
    {
        self.access = self.access | crate::ep::FI_WRITE;
        self
    }

    /// Adds access as the target of writes by peers.
    pub fn access_remote_write(&mut self) -> (r: &mut Self)
        ensures
            *r == (MemoryRegionAttr { access: old(self).access | crate::ep::FI_REMOTE_WRITE, ..*old(self) }),
            *final(self) == *final(r),
    {
        self.access = self.access | crate::ep::FI_REMOTE_WRITE;
        self
    }

    /// Adds access as the source of reads by peers.
    pub fn access_remote_read(&mut self) -> (r: &mut Self)
        ensures
            *r == (MemoryRegionAttr { access: old(self).access | crate::ep::FI_REMOTE_READ, ..*old(self) }),
            *final(self) == *final(r),
    {
        self.access = self.access | crate::ep::FI_REMOTE_READ;
        self
    }

    /// Sets the offset of the registration.
    pub fn offset(&mut self, offset: u64) -> (r: &mut Self)
        ensures
            *r == (MemoryRegionAttr { offset: offset, ..*old(self) }),
            *final(self) == *final(r),
    {
        self.offset = offset;
        self
    }

    /// Sets the address of the application context.
    pub fn context(&mut self, ctx: usize) -> (r: &mut Self)
        ensures
            *r == (MemoryRegionAttr { context: ctx, ..*old(self) }),
            *final(self) == *final(r),
    {
        self.context = ctx;
        self
    }

    /// Sets the key the application asks for.
    pub fn requested_key(&mut self, key: u64) -> (r: &mut Self)
        ensures
            *r == (MemoryRegionAttr { requested_key: key, ..*old(self) }),
            *final(self) == *final(r),
    {
        self.requested_key = key;
        self
    }

    /// Sets the authorisation key.
    pub fn auth_key(&mut self, key: &[u8]) -> (r: &mut Self)
        ensures
            r.auth_key@ == key@,
            *r == (MemoryRegionAttr { auth_key: r.auth_key, ..*old(self) }),
            *final(self) == *final(r),
    {
        let mut k: Vec<u8> = Vec::new();
        let mut i: usize = 0;
        while i < key.len()
            invariant
                i <= key@.len(),
                k@ == key@.subrange(0, i as int),
            decreases key@.len() - i,
        {
            k.push(key[i]);
            i += 1;
            assert(k@ =~= key@.subrange(0, i as int));
        }
        assert(k@ =~= key@);
        self.auth_key = k;
        self
    }

    /// Sets the kind of memory backing the registration.
    pub fn iface(&mut self, iface: HmemIface) -> (r: &mut Self)
        ensures
            *r == (MemoryRegionAttr { iface: iface, ..*old(self) }),
            *final(self) == *final(r),
    {
        self.iface = iface;
        self
    }
}

/// Whether `after` is the builder `before` with the backing buffer `buff` added
/// after the others, and nothing else changed.
pub open spec fn buffer_added<B>(before: MemoryRegionBuilder<B>, after: MemoryRegionBuilder<B>, buff: B) -> bool {
    &&& after.iovs@ == before.iovs@.push(buff)
    &&& after.flags == before.flags
    &&& after.mr_attr == before.mr_attr
}

/// Adding the buffers `buffs` one after the other, `steps[i + 1]` being `steps[i]`
/// with `buffs[i]` added, keeps the buffers that were there, appends the added ones
/// in the order of the calls, and changes no attribute or option.
pub proof fn lemma_add_buffers<B>(steps: Seq<MemoryRegionBuilder<B>>, buffs: Seq<B>)
    requires
        steps.len() == buffs.len() + 1,
        forall|i: int| #![trigger buffs[i]] 0 <= i < buffs.len() ==> buffer_added(steps[i], steps[i + 1], buffs[i]),
    ensures
        steps.last().iovs@ == steps[0].iovs@ + buffs,
        steps.last().flags == steps[0].flags,
        steps.last().mr_attr == steps[0].mr_attr,
    decreases buffs.len(),
{
    if buffs.len() == 0 {
        assert(steps[0].iovs@ + buffs =~= steps[0].iovs@);
    } else {
        let n = buffs.len() - 1;
        let prev = steps.drop_last();
        let first = buffs.drop_last();
        assert forall|i: int| #![trigger first[i]] 0 <= i < first.len() implies buffer_added(
            prev[i],
            prev[i + 1],
            first[i],
        ) by {
            assert(buffs[i] == first[i]);
        }
        lemma_add_buffers(prev, first);
        assert(buffer_added(steps[n], steps[n + 1], buffs[n]));
        assert(prev.last() == steps[n]);
        assert(steps[0].iovs@ + first + seq![buffs[n]] =~= steps[0].iovs@ + buffs);
        assert(steps[n].iovs@.push(buffs[n]) =~= steps[n].iovs@ + seq![buffs[n]]);
    }
}

/// Builder for a memory region: its backing buffers (`B` describes one buffer),
/// its attributes and its registration options.
pub struct MemoryRegionBuilder<B> {
    pub mr_attr: MemoryRegionAttr,
    pub iovs: Vec<B>,
    pub flags: MrRegOpt,
}

impl<B> MemoryRegionBuilder<B> {
    /// Initiates the registration of the buffer `buff`, backed by memory of kind `iface`.
    pub fn new(buff: B, iface: HmemIface) -> (r: MemoryRegionBuilder<B>)
        ensures
            r.iovs@ == seq![buff],
            r.mr_attr.iface == iface,
            r.mr_attr.access == 0 && r.mr_attr.requested_key == 0 && r.mr_attr.offset == 0,
            r.mr_attr.context == 0 && r.mr_attr.iov_count == 0 && r.mr_attr.auth_key@ == Seq::<u8>::empty(),
            r.flags == (MrRegOpt { hmem_device_only: false, hmem_host_alloc: false, rma_event: false, rma_pmem: false }),
    {
        let mut mr_attr = MemoryRegionAttr::new();
        mr_attr.iface(iface);
        let mut iovs: Vec<B> = Vec::new();
        iovs.push(buff);
        MemoryRegionBuilder { mr_attr, flags: MrRegOpt::new(), iovs }
    }

    /// Adds another backing buffer.
    pub fn add_buffer(self, buff: B) -> (r: Self)
        ensures
            buffer_added(self, r, buff),
    {
        let mut b = self;
        b.iovs.push(buff);
        b
    }

    /// Adds access for collective operations.
    pub fn access_collective(self) -> (r: Self)
        ensures
            r.mr_attr.access == self.mr_attr.access | FI_COLLECTIVE,
            r.iovs@ == self.iovs@,
            r.flags == self.flags,
    {
        let mut b = self;
        b.mr_attr.access_collective();
        b
    }

    /// Adds access for send operations.
    pub fn access_send(self) -> (r: Self)
        ensures
            r.mr_attr.access == self.mr_attr.access | crate::ep::FI_SEND,
            r.iovs@ == self.iovs@,
            r.flags == self.flags,
    {
        let mut b = self;
        b.mr_attr.access_send();
        b
    }

    /// Adds access for receive operations.
    pub fn access_recv(self) -> (r: Self)
        ensures
            r.mr_attr.access == self.mr_attr.access | crate::ep::FI_RECV,
            r.iovs@ == self.iovs@,
            r.flags == self.flags,
    {
        let mut b = self;
        b.mr_attr.access_recv();
        b
    }

    /// Adds access as the result buffer of reads.
    pub fn access_read(self) -> (r: Self)
        ensures
            r.mr_attr.access == self.mr_attr.access | crate::ep::FI_READ,
            r.iovs@ == self.iovs@,
            r.flags == self.flags,
    {
        let mut b = self;
        b.mr_attr.access_read();
        b
    }

    /// Adds access as the source buffer of writes.
    pub fn access_write(self) -> (r: Self)
        ensures
            r.mr_attr.access == self.mr_attr.access | crate::ep::FI_WRITE,
            r.iovs@ == self.iovs@,
            r.flags == self.flags,
    {
        let mut b = self;
        b.mr_attr.access_write();
        b
    }

    /// Adds access as the target of writes by peers.
    pub fn access_remote_write(self) -> (r: Self)
        ensures
            r.mr_attr.access == self.mr_attr.access | crate::ep::FI_REMOTE_WRITE,
            r.iovs@ == self.iovs@,
            r.flags == self.flags,
    {
        let mut b = self;
        b.mr_attr.access_remote_write();
        b
    }

    /// Adds access as the source of reads by peers.
    pub fn access_remote_read(self) -> (r: Self)
        ensures
            r.mr_attr.access == self.mr_attr.access | crate::ep::FI_REMOTE_READ,
            r.iovs@ == self.iovs@,
            r.flags == self.flags,
    {
        let mut b = self;
        b.mr_attr.access_remote_read();
        b
    }

    /// Sets the access permissions all at once.
    pub fn access(self, access: u64) -> (r: Self)
        ensures
            r.mr_attr == (MemoryRegionAttr { access: access, ..self.mr_attr }),
            r.iovs@ == self.iovs@,
            r.flags == self.flags,
    {
        let mut b = self;
        b.mr_attr.access(access);
        b
    }

    /// Sets the address of the application context.
    pub fn context(self, ctx: usize) -> (r: Self)
        ensures
            r.mr_attr == (MemoryRegionAttr { context: ctx, ..self.mr_attr }),
            r.iovs@ == self.iovs@,
            r.flags == self.flags,
    {
        let mut b = self;
        b.mr_attr.context(ctx);
        b
    }

    /// Sets the key the application asks for.
    pub fn requested_key(self, key: u64) -> (r: Self)
        ensures
            r.mr_attr == (MemoryRegionAttr { requested_key: key, ..self.mr_attr }),
            r.iovs@ == self.iovs@,
            r.flags == self.flags,
    {
        let mut b = self;
        b.mr_attr.requested_key(key);
        b
    }

    /// Sets the authorisation key.
    pub fn auth_key(self, key: &[u8]) -> (r: Self)
        ensures
            r.mr_attr.auth_key@ == key@,
            r.mr_attr == (MemoryRegionAttr { auth_key: r.mr_attr.auth_key, ..self.mr_attr }),
            r.iovs@ == self.iovs@,
            r.flags == self.flags,
    {
        let mut b = self;
        b.mr_attr.auth_key(key);
        b
    }

    /// Asks for device-only memory.
    pub fn hmem_device_only(self) -> (r: Self)
        ensures
            r.flags == (MrRegOpt { hmem_device_only: true, ..self.flags }),
            r.mr_attr == self.mr_attr,
            r.iovs@ == self.iovs@,
    {
        let mut b = self;
        b.flags.hmem_device_only = true;
        b
    }

    /// Asks for memory allocated by the host.
    pub fn hmem_host_alloc(self) -> (r: Self)
        ensures
            r.flags == (MrRegOpt { hmem_host_alloc: true, ..self.flags }),
            r.mr_attr == self.mr_attr,
            r.iovs@ == self.iovs@,
    {
        let mut b = self;
        b.flags.hmem_host_alloc = true;
        b
    }

    /// Asks for events on remote accesses.
    pub fn rma_event(self) -> (r: Self)
        ensures
            r.flags == (MrRegOpt { rma_event: true, ..self.flags }),
            r.mr_attr == self.mr_attr,
            r.iovs@ == self.iovs@,
    {
        let mut b = self;
        b.flags.rma_event = true;
        b
    }

    /// Asks for persistent memory semantics.
    pub fn rma_pmem(self) -> (r: Self)
        ensures
            r.flags == (MrRegOpt { rma_pmem: true, ..self.flags }),
            r.mr_attr == self.mr_attr,
            r.iovs@ == self.iovs@,
    {
        let mut b = self;
        b.flags.rma_pmem = true;
        b
    }

    /// Finishes the configuration for a registration on `domain`: the attributes,
    /// with their buffer count set to the number of buffers, the buffers, and the
    /// options. Registrations that complete asynchronously are not supported here.
    pub fn build(self, domain: &Domain) -> (r: (MemoryRegionAttr, Vec<B>, MrRegOpt))
        requires
            !domain.spec_async_mr_reg(),
        ensures
            r.0 == (MemoryRegionAttr { iov_count: self.iovs@.len() as usize, ..self.mr_attr }),
            r.1@ == self.iovs@,
            r.2 == self.flags,
    {
        let mut b = self;
        let n = b.iovs.len();
        b.mr_attr.iov(n);
        (b.mr_attr, b.iovs, b.flags)
    }
}

/// Reading back the bytes of a key gives the key again, on a domain whose key
/// shape matches the key.
pub proof fn lemma_key_bytes_round_trip(k: KeyModel, is_raw: bool, key_size: nat)
    requires
        key_fits_domain(k, is_raw, key_size),
    ensures
        key_bytes_readable(key_bytes(k), is_raw, key_size),
        key_from_bytes(key_bytes(k), is_raw) == k,
{
    match k {
        KeyModel::Plain(key) => {
            lemma_u64_bytes_of_value(key);
        },
        KeyModel::Raw(raw, base) => {
            let b = key_bytes(k);
            assert(b.subrange(0, b.len() - 8) =~= raw);
            assert(b.subrange(b.len() - 8, b.len() as int) =~= u64_le_bytes(base));
            lemma_u64_bytes_of_value(base);
        },
    }
}

/// Serialising a key read from bytes gives the same bytes back.
pub proof fn lemma_bytes_key_round_trip(raw: Seq<u8>, is_raw: bool, key_size: nat)
    requires
        key_bytes_readable(raw, is_raw, key_size),
    ensures
        key_fits_domain(key_from_bytes(raw, is_raw), is_raw, key_size),
        key_bytes(key_from_bytes(raw, is_raw)) == raw,
{
    if is_raw {
        let tail = raw.subrange(raw.len() - 8, raw.len() as int);
        lemma_u64_value_of_bytes(tail);
        assert(raw.subrange(0, raw.len() - 8) + tail =~= raw);
    } else {
        lemma_u64_value_of_bytes(raw);
    }
}

} // verus!
