use vstd::prelude::*;

verus! {

/// Marker for objects whose wait object is a retrievable file descriptor.
pub trait FdRetrievable {}

/// Marker for objects that support blocking waits.
pub trait Waitable {}

/// Marker for objects that can be written to.
pub trait Writable {}

/// Marker for objects whose wait object can be retrieved.
pub trait WaitRetrievable {}

/// The capabilities that can be requested of a fabric interface.
pub enum FabInfoCaps {
    MSG,
    RMA,
    TAG,
    ATOMIC,
    MCAST,
    NAMEDRXCTX,
    DRECV,
    VMSG,
    HMEM,
    COLL,
    XPU,
    SEND,
    RECV,
    WRITE,
    READ,
    RWRITE,
    RREAD,
}

impl FabInfoCaps {
    /// The position of the capability in the declaration order (MSG is 0, RREAD is 16).
    pub open spec fn index(&self) -> nat {
        match self {
            FabInfoCaps::MSG => 0,
            FabInfoCaps::RMA => 1,
            FabInfoCaps::TAG => 2,
            FabInfoCaps::ATOMIC => 3,
            FabInfoCaps::MCAST => 4,
            FabInfoCaps::NAMEDRXCTX => 5,
            FabInfoCaps::DRECV => 6,
            FabInfoCaps::VMSG => 7,
            FabInfoCaps::HMEM => 8,
            FabInfoCaps::COLL => 9,
            FabInfoCaps::XPU => 10,
            FabInfoCaps::SEND => 11,
            FabInfoCaps::RECV => 12,
            FabInfoCaps::WRITE => 13,
            FabInfoCaps::READ => 14,
            FabInfoCaps::RWRITE => 15,
            FabInfoCaps::RREAD => 16,
        }
    }

    /// The numeric value of the capability.
    pub fn value(&self) -> (r: usize)
        ensures
            r == self.index(),
    {
        match self {
            FabInfoCaps::MSG => 0,
            FabInfoCaps::RMA => 1,
            FabInfoCaps::TAG => 2,
            FabInfoCaps::ATOMIC => 3,
            FabInfoCaps::MCAST => 4,
            FabInfoCaps::NAMEDRXCTX => 5,
            FabInfoCaps::DRECV => 6,
            FabInfoCaps::VMSG => 7,
            FabInfoCaps::HMEM => 8,
            FabInfoCaps::COLL => 9,
            FabInfoCaps::XPU => 10,
            FabInfoCaps::SEND => 11,
            FabInfoCaps::RECV => 12,
            FabInfoCaps::WRITE => 13,
            FabInfoCaps::READ => 14,
            FabInfoCaps::RWRITE => 15,
            FabInfoCaps::RREAD => 16,
        }
    }
}

/// The capabilities of a completion queue or a counter.
pub enum SyncCaps {
    WAIT,
    RETRIEVE,
    FD,
}

impl SyncCaps {
    /// The position of the capability in the declaration order.
    pub open spec fn index(&self) -> nat {
        match self {
            SyncCaps::WAIT => 0,
            SyncCaps::RETRIEVE => 1,
            SyncCaps::FD => 2,
        }
    }

    /// The numeric value of the capability.
    pub fn value(&self) -> (r: usize)
        ensures
            r == self.index(),
    {
        match self {
            SyncCaps::WAIT => 0,
            SyncCaps::RETRIEVE => 1,
            SyncCaps::FD => 2,
        }
    }
}

/// The capabilities of an event queue.
pub enum EqCaps {
    WAIT,
    RETRIEVE,
    FD,
    WRITE,
}

impl EqCaps {
    /// The position of the capability in the declaration order.
    pub open spec fn index(&self) -> nat {
        match self {
            EqCaps::WAIT => 0,
            EqCaps::RETRIEVE => 1,
            EqCaps::FD => 2,
            EqCaps::WRITE => 3,
        }
    }

    /// The numeric value of the capability.
    pub fn value(&self) -> (r: usize)
        ensures
            r == self.index(),
    {
        match self {
            EqCaps::WAIT => 0,
            EqCaps::RETRIEVE => 1,
            EqCaps::FD => 2,
            EqCaps::WRITE => 3,
        }
    }
}

/// Distinct fabric capabilities have distinct values: a capability's value names it alone,
/// so asking for one capability never claims another.
pub proof fn lemma_fab_info_caps_values_distinct(c: FabInfoCaps)
    ensures
        forall|d: FabInfoCaps| #[trigger] d.index() == c.index() ==> d == c,
{
}

/// Distinct completion-queue and counter capabilities have distinct values: a capability's value names it alone,
/// so asking for one capability never claims another.
pub proof fn lemma_sync_caps_values_distinct(c: SyncCaps)
    ensures
        forall|d: SyncCaps| #[trigger] d.index() == c.index() ==> d == c,
{
}

/// Distinct event-queue capabilities have distinct values: a capability's value names it alone,
/// so asking for one capability never claims another.
pub proof fn lemma_eq_caps_values_distinct(c: EqCaps)
    ensures
        forall|d: EqCaps| #[trigger] d.index() == c.index() ==> d == c,
{
}

/// Whether the event-queue capability `index` is among the first `N` entries of `asked`.
/// Where `N` exceeds the length of `asked`, a match has to come before its end.
pub fn get_eq<const N: usize>(index: EqCaps, asked: &[EqCaps]) -> (r: bool)
    requires
        N <= asked@.len() || (exists|i: int|
            0 <= i < asked@.len() && i < N && #[trigger] asked@[i].index() == index.index()),
    ensures
        r == exists|i: int| 0 <= i < N && i < asked@.len() && #[trigger] asked@[i].index() == index.index(),
        r == exists|i: int| 0 <= i < N && i < asked@.len() && #[trigger] asked@[i] == index,
{
    proof {
        lemma_eq_caps_values_distinct(index);
    }
    let mut i: usize = 0;
    while i < N
        invariant
            i <= N,
            N <= asked@.len() || (exists|k: int|
                0 <= k < asked@.len() && k < N && #[trigger] asked@[k].index() == index.index()),
            forall|j: int| 0 <= j < i && j < asked@.len() ==> #[trigger] asked@[j].index() != index.index(),
        decreases N - i,
    {
        if index.value() == asked[i].value() {
            assert(asked@[i as int] == index);
            return true;
        }
        i += 1;
    }
    assert forall|j: int| 0 <= j < N && j < asked@.len() implies #[trigger] asked@[j] != index by {
        assert(asked@[j].index() != index.index());
    }
    false
}

/// Whether the synchronisation capability `index` is among the first `N` entries of `asked`.
/// Where `N` exceeds the length of `asked`, a match has to come before its end.
pub fn get_sync<const N: usize>(index: SyncCaps, asked: &[SyncCaps]) -> (r: bool)
    requires
        N <= asked@.len() || (exists|i: int|
            0 <= i < asked@.len() && i < N && #[trigger] asked@[i].index() == index.index()),
    ensures
        r == exists|i: int| 0 <= i < N && i < asked@.len() && #[trigger] asked@[i].index() == index.index(),
        r == exists|i: int| 0 <= i < N && i < asked@.len() && #[trigger] asked@[i] == index,
{
    proof {
        lemma_sync_caps_values_distinct(index);
    }
    let mut i: usize = 0;
    while i < N
        invariant
            i <= N,
            N <= asked@.len() || (exists|k: int|
                0 <= k < asked@.len() && k < N && #[trigger] asked@[k].index() == index.index()),
            forall|j: int| 0 <= j < i && j < asked@.len() ==> #[trigger] asked@[j].index() != index.index(),
        decreases N - i,
    {
        if index.value() == asked[i].value() {
            assert(asked@[i as int] == index);
            return true;
        }
        i += 1;
    }
    assert forall|j: int| 0 <= j < N && j < asked@.len() implies #[trigger] asked@[j] != index by {
        assert(asked@[j].index() != index.index());
    }
    false
}

/// Whether the fabric capability `index` is among the first `N` entries of `asked`.
/// Where `N` exceeds the length of `asked`, a match has to come before its end.
pub fn get_info<const N: usize>(index: FabInfoCaps, asked: &[FabInfoCaps]) -> (r: bool)
    requires
        N <= asked@.len() || (exists|i: int|
            0 <= i < asked@.len() && i < N && #[trigger] asked@[i].index() == index.index()),
    ensures
        r == exists|i: int| 0 <= i < N && i < asked@.len() && #[trigger] asked@[i].index() == index.index(),
        r == exists|i: int| 0 <= i < N && i < asked@.len() && #[trigger] asked@[i] == index,
{
    proof {
        lemma_fab_info_caps_values_distinct(index);
    }
    let mut i: usize = 0;
    while i < N
        invariant
            i <= N,
            N <= asked@.len() || (exists|k: int|
                0 <= k < asked@.len() && k < N && #[trigger] asked@[k].index() == index.index()),
            forall|j: int| 0 <= j < i && j < asked@.len() ==> #[trigger] asked@[j].index() != index.index(),
        decreases N - i,
    {
        if index.value() == asked[i].value() {
            assert(asked@[i as int] == index);
            return true;
        }
        i += 1;
    }
    assert forall|j: int| 0 <= j < N && j < asked@.len() implies #[trigger] asked@[j] != index by {
        assert(asked@[j].index() != index.index());
    }
    false
}

} // verus!
