use vstd::prelude::*;

verus! {

/// The identity of a libfabric object (the address of its `struct fid`).
///
/// Two `Fid`s are equal exactly when they denote the same object.
#[derive(Clone, Copy, Debug, Hash, PartialEq, Eq, Structural)]
pub struct Fid(pub u64);

impl Fid {
    /// The raw identity of the object.
    pub fn as_raw_fid(&self) -> (r: u64)
        ensures
            r == self.0,
    {
        self.0
    }
}

} // verus!
