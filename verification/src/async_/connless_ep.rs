use vstd::prelude::*;

use crate::ep::{Connectionless, EndpointBase, MrNone};

verus! {

/// Marker for connectionless endpoints driven asynchronously.
pub trait ConnlessEp {}

impl ConnlessEp for EndpointBase<Connectionless, MrNone> {}

} // verus!
