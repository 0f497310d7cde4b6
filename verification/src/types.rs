use vstd::prelude::*;

use vstd::layout::size_of;

verus! {

/// The datatypes of atomic and collective operations (`fi_datatype`).
#[derive(Clone, Copy, Debug, PartialEq, Eq, Structural)]
pub enum DataType {
    Void,
    Int8,
    Int16,
    Int32,
    Int64,
    Int128,
    UInt8,
    UInt16,
    UInt32,
    UInt64,
    UInt128,
    Float,
    Double,
}

/// The size in bytes of an element of libfabric datatype `d` (`FI_VOID` has none).
pub open spec fn datatype_size(d: DataType) -> nat {
    match d {
        DataType::Void => 0,
        DataType::Int8 | DataType::UInt8 => 1,
        DataType::Int16 | DataType::UInt16 => 2,
        DataType::Int32 | DataType::UInt32 | DataType::Float => 4,
        DataType::Int64 | DataType::UInt64 | DataType::Double => 8,
        DataType::Int128 | DataType::UInt128 => 16,
    }
}

/// Whether `d` is a signed integer datatype.
pub open spec fn datatype_signed_int(d: DataType) -> bool {
    match d {
        DataType::Int8 | DataType::Int16 | DataType::Int32 | DataType::Int64 | DataType::Int128 => true,
        _ => false,
    }
}

/// Whether `d` is an unsigned integer datatype.
pub open spec fn datatype_unsigned_int(d: DataType) -> bool {
    match d {
        DataType::UInt8 | DataType::UInt16 | DataType::UInt32 | DataType::UInt64 | DataType::UInt128 => true,
        _ => false,
    }
}

/// The datatype of each element type has that type's size, and is a signed integer
/// datatype exactly for the signed integer types and an unsigned one exactly for the
/// unsigned integer types, so that libfabric operates on the elements as they are.
pub proof fn lemma_datatypes_match_element_types()
    ensures
        datatype_size(<() as AsFiType>::fi_datatype()) == size_of::<()>(),
        datatype_size(<i8 as AsFiType>::fi_datatype()) == size_of::<i8>(),
        datatype_size(<i16 as AsFiType>::fi_datatype()) == size_of::<i16>(),
        datatype_size(<i32 as AsFiType>::fi_datatype()) == size_of::<i32>(),
        datatype_size(<i64 as AsFiType>::fi_datatype()) == size_of::<i64>(),
        datatype_size(<i128 as AsFiType>::fi_datatype()) == size_of::<i128>(),
        datatype_size(<isize as AsFiType>::fi_datatype()) == size_of::<isize>(),
        datatype_size(<u8 as AsFiType>::fi_datatype()) == size_of::<u8>(),
        datatype_size(<u16 as AsFiType>::fi_datatype()) == size_of::<u16>(),
        datatype_size(<u32 as AsFiType>::fi_datatype()) == size_of::<u32>(),
        datatype_size(<u64 as AsFiType>::fi_datatype()) == size_of::<u64>(),
        datatype_size(<u128 as AsFiType>::fi_datatype()) == size_of::<u128>(),
        datatype_size(<usize as AsFiType>::fi_datatype()) == size_of::<usize>(),
        datatype_signed_int(<i8 as AsFiType>::fi_datatype()),
        datatype_signed_int(<i16 as AsFiType>::fi_datatype()),
        datatype_signed_int(<i32 as AsFiType>::fi_datatype()),
        datatype_signed_int(<i64 as AsFiType>::fi_datatype()),
        datatype_signed_int(<i128 as AsFiType>::fi_datatype()),
        datatype_signed_int(<isize as AsFiType>::fi_datatype()),
        datatype_unsigned_int(<u8 as AsFiType>::fi_datatype()),
        datatype_unsigned_int(<u16 as AsFiType>::fi_datatype()),
        datatype_unsigned_int(<u32 as AsFiType>::fi_datatype()),
        datatype_unsigned_int(<u64 as AsFiType>::fi_datatype()),
        datatype_unsigned_int(<u128 as AsFiType>::fi_datatype()),
        datatype_unsigned_int(<usize as AsFiType>::fi_datatype()),
{
    broadcast use vstd::layout::layout_of_primitives, vstd::layout::layout_of_unit_tuple;
}

/// Types whose values libfabric can operate on, with their datatype.
pub trait AsFiType {
    /// The datatype of the type.
    spec fn fi_datatype() -> DataType;

    /// The datatype of the type.
    fn as_fi_datatype() -> (r: DataType)
        ensures
            r == Self::fi_datatype(),
    ;
}

impl AsFiType for () {
    open spec fn fi_datatype() -> DataType {
        DataType::Void
    }

    fn as_fi_datatype() -> (r: DataType) {
        DataType::Void
    }
}

impl AsFiType for i8 {
    open spec fn fi_datatype() -> DataType {
        DataType::Int8
    }

    fn as_fi_datatype() -> (r: DataType) {
        DataType::Int8
    }
}

impl AsFiType for i16 {
    open spec fn fi_datatype() -> DataType {
        DataType::Int16
    }

    fn as_fi_datatype() -> (r: DataType) {
        DataType::Int16
    }
}

impl AsFiType for i32 {
    open spec fn fi_datatype() -> DataType {
        DataType::Int32
    }

    fn as_fi_datatype() -> (r: DataType) {
        DataType::Int32
    }
}

impl AsFiType for i64 {
    open spec fn fi_datatype() -> DataType {
        DataType::Int64
    }

    fn as_fi_datatype() -> (r: DataType) {
        DataType::Int64
    }
}

impl AsFiType for i128 {
    open spec fn fi_datatype() -> DataType {
        DataType::Int128
    }

    fn as_fi_datatype() -> (r: DataType) {
        DataType::Int128
    }
}

impl AsFiType for u8 {
    open spec fn fi_datatype() -> DataType {
        DataType::UInt8
    }

    fn as_fi_datatype() -> (r: DataType) {
        DataType::UInt8
    }
}

impl AsFiType for u16 {
    open spec fn fi_datatype() -> DataType {
        DataType::UInt16
    }

    fn as_fi_datatype() -> (r: DataType) {
        DataType::UInt16
    }
}

impl AsFiType for u32 {
    open spec fn fi_datatype() -> DataType {
        DataType::UInt32
    }

    fn as_fi_datatype() -> (r: DataType) {
        DataType::UInt32
    }
}

impl AsFiType for u64 {
    open spec fn fi_datatype() -> DataType {
        DataType::UInt64
    }

    fn as_fi_datatype() -> (r: DataType) {
        DataType::UInt64
    }
}

impl AsFiType for u128 {
    open spec fn fi_datatype() -> DataType {
        DataType::UInt128
    }

    fn as_fi_datatype() -> (r: DataType) {
        DataType::UInt128
    }
}

impl AsFiType for usize {
    /// The unsigned datatype of the pointer width.
    open spec fn fi_datatype() -> DataType {
        if usize::BITS == 64 {
            DataType::UInt64
        } else {
            DataType::UInt32
        }
    }

    fn as_fi_datatype() -> (r: DataType) {
        if usize::BITS == 64 {
            DataType::UInt64
        } else {
            DataType::UInt32
        }
    }
}

impl AsFiType for isize {
    /// The signed datatype of the pointer width.
    open spec fn fi_datatype() -> DataType {
        if isize::BITS == 64 {
            DataType::Int64
        } else {
            DataType::Int32
        }
    }

    fn as_fi_datatype() -> (r: DataType) {
        if isize::BITS == 64 {
            DataType::Int64
        } else {
            DataType::Int32
        }
    }
}

} // verus!
