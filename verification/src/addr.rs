use vstd::prelude::*;

use crate::error::{Error, FI_EADDRNOTAVAIL};
use crate::fid::Fid;

verus! {

/// `FI_ADDR_NOTAVAIL`: no address is available.
pub const FI_ADDR_NOTAVAIL: u64 = 0xffff_ffff_ffff_ffff;

/// `FI_ADDR_UNSPEC`: the address is not specified.
pub const FI_ADDR_UNSPEC: u64 = 0xffff_ffff_ffff_ffff;

/// The way an address vector maps addresses.
#[derive(Clone, Copy, Debug, PartialEq, Eq, Structural)]
pub enum AddressVectorType {
    AvMap,
    Table,
    Unspec,
}

/// A raw `fi_addr_t`, tagged with the kind of address vector that produced it.
#[derive(Clone, Copy, Debug, PartialEq, Eq, Structural)]
pub enum RawMappedAddress {
    AvMap(u64),
    Table(u64),
    Unspec(u64),
}

impl RawMappedAddress {
    /// The raw `fi_addr_t` value.
    pub open spec fn spec_get(&self) -> u64 {
        match self {
            RawMappedAddress::AvMap(a) => *a,
            RawMappedAddress::Table(a) => *a,
            RawMappedAddress::Unspec(a) => *a,
        }
    }

    /// The raw `fi_addr_t` value.
    pub fn get(&self) -> (r: u64)
        ensures
            r == self.spec_get(),
    {
        match self {
            RawMappedAddress::AvMap(addr) => *addr,
            RawMappedAddress::Table(addr) => *addr,
            RawMappedAddress::Unspec(addr) => *addr,
        }
    }

    /// Tags `raw_addr` with the kind of the address vector (`Map` or `Table`) that produced it.
    pub fn from_raw(av_type: AddressVectorType, raw_addr: u64) -> (r: RawMappedAddress)
        requires
            av_type != AddressVectorType::Unspec,
        ensures
            av_type == AddressVectorType::AvMap ==> r == RawMappedAddress::AvMap(raw_addr),
            av_type == AddressVectorType::Table ==> r == RawMappedAddress::Table(raw_addr),
    {
        match av_type {
            AddressVectorType::AvMap => RawMappedAddress::AvMap(raw_addr),
            AddressVectorType::Table => RawMappedAddress::Table(raw_addr),
            AddressVectorType::Unspec => RawMappedAddress::Unspec(raw_addr),
        }
    }
}

/// The address vector, or address vector set, that an address was mapped by
/// (and that is kept alive with the address).
#[derive(Clone, Copy, Debug, PartialEq, Eq, Structural)]
pub enum AddressSource {
    Av(Fid),
    AvSet(Fid),
}

/// An address mapped by an address vector of type `FI_AV_TABLE`.
#[derive(Clone, Copy, Debug, PartialEq, Eq, Structural)]
pub struct TableMappedAddress {
    raw_mapped_addr: u64,
    av: AddressSource,
}

/// An address that no address vector mapped.
#[derive(Clone, Copy, Debug, PartialEq, Eq, Structural)]
pub struct UnspecMappedAddress {
    raw_mapped_addr: u64,
}

/// An address mapped by an address vector of type `FI_AV_MAP`.
#[derive(Clone, Copy, Debug, PartialEq, Eq, Structural)]
pub struct MapMappedAddress {
    raw_mapped_addr: u64,
    av: AddressSource,
}

/// The abstract value of a [MappedAddress]: the raw `fi_addr_t`, and the address
/// vector that mapped it, if any.
pub struct MappedAddressModel {
    pub kind: AddressVectorType,
    pub raw: u64,
    pub av: Option<AddressSource>,
}

impl View for TableMappedAddress {
    type V = (u64, AddressSource);

    closed spec fn view(&self) -> (u64, AddressSource) {
        (self.raw_mapped_addr, self.av)
    }
}

impl TableMappedAddress {
    /// The raw `fi_addr_t` value.
    pub fn raw_mapped_addr(&self) -> (r: u64)
        ensures
            r == self@.0,
    {
        self.raw_mapped_addr
    }

    /// The address vector that mapped the address.
    pub fn av(&self) -> (r: AddressSource)
        ensures
            r == self@.1,
    {
        self.av
    }
}

impl View for MapMappedAddress {
    type V = (u64, AddressSource);

    closed spec fn view(&self) -> (u64, AddressSource) {
        (self.raw_mapped_addr, self.av)
    }
}

impl MapMappedAddress {
    /// The raw `fi_addr_t` value.
    pub fn raw_mapped_addr(&self) -> (r: u64)
        ensures
            r == self@.0,
    {
        self.raw_mapped_addr
    }

    /// The address vector that mapped the address.
    pub fn av(&self) -> (r: AddressSource)
        ensures
            r == self@.1,
    {
        self.av
    }
}

impl View for UnspecMappedAddress {
    type V = u64;

    closed spec fn view(&self) -> u64 {
        self.raw_mapped_addr
    }
}

impl UnspecMappedAddress {
    /// The raw `fi_addr_t` value.
    pub fn raw_mapped_addr(&self) -> (r: u64)
        ensures
            r == self@,
    {
        self.raw_mapped_addr
    }
}

/// Owned wrapper around a libfabric `fi_addr_t`, usually generated by an address
/// vector after inserting an address. It keeps the address vector that mapped it
/// (if any) alive.
#[derive(Clone, Copy, Debug, PartialEq, Eq, Structural)]
pub enum MappedAddress {
    Unspec(UnspecMappedAddress),
    AvMap(MapMappedAddress),
    Table(TableMappedAddress),
}

impl View for MappedAddress {
    type V = MappedAddressModel;

    closed spec fn view(&self) -> MappedAddressModel {
        match self {
            MappedAddress::Unspec(u) => MappedAddressModel {
                kind: AddressVectorType::Unspec,
                raw: u.raw_mapped_addr,
                av: None,
            },
            MappedAddress::AvMap(m) => MappedAddressModel {
                kind: AddressVectorType::AvMap,
                raw: m.raw_mapped_addr,
                av: Some(m.av),
            },
            MappedAddress::Table(t) => MappedAddressModel {
                kind: AddressVectorType::Table,
                raw: t.raw_mapped_addr,
                av: Some(t.av),
            },
        }
    }
}

/// The kind of address vector that a raw address is tagged with.
pub open spec fn raw_kind(addr: RawMappedAddress) -> AddressVectorType {
    match addr {
        RawMappedAddress::AvMap(_) => AddressVectorType::AvMap,
        RawMappedAddress::Table(_) => AddressVectorType::Table,
        RawMappedAddress::Unspec(_) => AddressVectorType::Unspec,
    }
}

/// `fi_rx_addr`: the address of the receive context `rx_index` of the scalable
/// endpoint at `fi_addr`, whose receive contexts are told apart by the top
/// `rx_ctx_bits` bits of an address.
pub open spec fn fi_rx_addr(fi_addr: u64, rx_index: i32, rx_ctx_bits: i32) -> u64 {
    ((rx_index as u64) << ((64 - rx_ctx_bits) as u64)) | fi_addr
}

impl MappedAddress {
    /// Wraps the raw address `addr`, mapped by `av` (an unspecified address keeps no
    /// address vector).
    pub fn from_raw_addr(addr: RawMappedAddress, av: AddressSource) -> (r: MappedAddress)
        ensures
            r@.kind == raw_kind(addr),
            r@.raw == addr.spec_get(),
            r@.av == (if addr is Unspec { None } else { Some(av) }),
    {
        match addr {
            RawMappedAddress::AvMap(addr) => MappedAddress::AvMap(MapMappedAddress { raw_mapped_addr: addr, av }),
            RawMappedAddress::Table(addr) => MappedAddress::Table(TableMappedAddress { raw_mapped_addr: addr, av }),
            RawMappedAddress::Unspec(addr) => MappedAddress::Unspec(UnspecMappedAddress { raw_mapped_addr: addr }),
        }
    }

    /// Wraps the raw address `addr`, which no address vector mapped.
    pub fn from_raw_addr_no_av(addr: RawMappedAddress) -> (r: MappedAddress)
        requires
            addr is Unspec,
        ensures
            r@ == (MappedAddressModel { kind: AddressVectorType::Unspec, raw: addr.spec_get(), av: None }),
    {
        MappedAddress::Unspec(UnspecMappedAddress { raw_mapped_addr: addr.get() })
    }

    /// The raw `fi_addr_t` value.
    pub fn raw_addr(&self) -> (r: u64)
        ensures
            r == self@.raw,
    {
        match self {
            MappedAddress::AvMap(m) => m.raw_mapped_addr,
            MappedAddress::Table(t) => t.raw_mapped_addr,
            MappedAddress::Unspec(u) => u.raw_mapped_addr,
        }
    }

    /// The address of receive context `rx_index` of this (scalable endpoint) address,
    /// where `rx_ctx_bits` bits tell the receive contexts apart. The result keeps the
    /// kind and the address vector of this address; it is `FI_EADDRNOTAVAIL` when the
    /// computed address is `FI_ADDR_NOTAVAIL`.
    pub fn rx_addr(&self, rx_index: i32, rx_ctx_bits: i32) -> (r: Result<MappedAddress, Error>)
        requires
            1 <= rx_ctx_bits <= 64,
        ensures
            fi_rx_addr(self@.raw, rx_index, rx_ctx_bits) == FI_ADDR_NOTAVAIL ==> r == Err::<MappedAddress, Error>(Error { code: FI_EADDRNOTAVAIL }),
            fi_rx_addr(self@.raw, rx_index, rx_ctx_bits) != FI_ADDR_NOTAVAIL ==> (r matches Ok(a) && a@ == MappedAddressModel {
                raw: fi_rx_addr(self@.raw, rx_index, rx_ctx_bits),
                ..self@
            }),
    {
        let shift: u64 = (64 - rx_ctx_bits) as u64;
        let ret: u64 = ((rx_index as u64) << shift) | self.raw_addr();
        if ret == FI_ADDR_NOTAVAIL || ret == FI_ADDR_UNSPEC {
            return Err(Error::from_err_code(FI_EADDRNOTAVAIL));
        }
        Ok(match self {
            MappedAddress::AvMap(m) => MappedAddress::AvMap(MapMappedAddress { raw_mapped_addr: ret, av: m.av }),
            MappedAddress::Table(t) => MappedAddress::Table(TableMappedAddress { raw_mapped_addr: ret, av: t.av }),
            MappedAddress::Unspec(_) => MappedAddress::Unspec(UnspecMappedAddress { raw_mapped_addr: ret }),
        })
    }
}

} // verus!
