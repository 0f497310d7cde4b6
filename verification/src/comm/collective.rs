use vstd::prelude::*;

use std::marker::PhantomData;

use crate::error::{valid_return_code, Error};
use crate::fid::Fid;
use crate::types::AsFiType;
use crate::types::DataType;

verus! {

/// A multicast group or collective group joined by an endpoint (`fi_join`,
/// `fi_join_collective`); it keeps the endpoint alive.
pub struct MulticastGroupCollective {
    fid: Fid,
    ep: Fid,
}

impl MulticastGroupCollective {
    /// The identity of the group.
    pub closed spec fn spec_fid(&self) -> Fid {
        self.fid
    }

    /// The endpoint that joined the group.
    pub closed spec fn spec_ep(&self) -> Fid {
        self.ep
    }

    /// The group that the endpoint `ep` joined as `fid`, once the join returned `err`.
    pub fn new(ep: Fid, fid: Fid, err: i32) -> (r: Result<MulticastGroupCollective, Error>)
        requires
            valid_return_code(err as int),
        ensures
            err != 0 ==> r == Err::<MulticastGroupCollective, Error>(Error { code: (-err) as u32 }),
            err == 0 ==> (r matches Ok(g) && g.spec_fid() == fid && g.spec_ep() == ep),
    {
        if err != 0 {
            Err(Error::from_err_code((-(err as i64)) as u32))
        } else {
            Ok(MulticastGroupCollective { fid, ep })
        }
    }

    /// The identity of the group.
    pub fn fid(&self) -> (r: Fid)
        ensures
            r == self.spec_fid(),
    {
        self.fid
    }

    /// The endpoint that joined the group.
    pub fn ep(&self) -> (r: Fid)
        ensures
            r == self.spec_ep(),
    {
        self.ep
    }
}

/// The attributes of a collective operation on elements of type `T`
/// (`fi_collective_attr`).
pub struct CollectiveAttr<T> {
    pub op: u32,
    pub datatype: DataType,
    pub datatype_count: usize,
    pub datatype_size: usize,
    pub max_members: usize,
    pub mode: u64,
    pub phantom: PhantomData<T>,
}

impl<T: AsFiType> CollectiveAttr<T> {
    /// Attributes for elements of type `T`, with operation 0 and no member limit.
    pub fn new() -> (r: CollectiveAttr<T>)
        ensures
            r.op == 0,
            r.datatype == T::fi_datatype(),
            r.datatype_count == 0 && r.datatype_size == 0,
            r.max_members == 0,
            r.mode == 0,
    {
        CollectiveAttr {
            op: 0,
            datatype: T::as_fi_datatype(),
            datatype_count: 0,
            datatype_size: 0,
            max_members: 0,
            mode: 0,
            phantom: PhantomData,
        }
    }

    /// Sets the operation.
    pub fn op(self, op: u32) -> (r: Self)
        ensures
            r.op == op,
            r.datatype == self.datatype,
            r.datatype_count == self.datatype_count && r.datatype_size == self.datatype_size,
            r.max_members == self.max_members,
            r.mode == self.mode,
    {
        CollectiveAttr { op, ..self }
    }

    /// Sets the maximum number of members.
    pub fn max_members(self, members: usize) -> (r: Self)
        ensures
            r.max_members == members,
            r.op == self.op,
            r.datatype == self.datatype,
            r.datatype_count == self.datatype_count && r.datatype_size == self.datatype_size,
            r.mode == self.mode,
    {
        CollectiveAttr { max_members: members, ..self }
    }
}

} // verus!
