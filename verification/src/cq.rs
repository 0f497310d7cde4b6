use vstd::prelude::*;

use crate::addr::{AddressVectorType, MappedAddress, MappedAddressModel, RawMappedAddress, FI_ADDR_NOTAVAIL};
use crate::domain::Domain;
use crate::error::{valid_return_code, Error};
use crate::fid::Fid;

verus! {

/// `FI_AFFINITY`: the completion queue has a signaling vector.
pub const FI_AFFINITY: u64 = 0x20000000;

/// The format of the entries of a completion queue.
#[derive(Clone, Copy, Debug, PartialEq, Eq, Structural)]
pub enum CqFormat {
    UNSPEC,
    CONTEXT,
    MSG,
    DATA,
    TAGGED,
}

/// The wait object of a completion queue.
#[derive(Clone, Copy, Debug, PartialEq, Eq, Structural)]
pub enum WaitObj {
    NoWait,
    Unspec,
    WaitSet(Fid),
    Fd,
    MutexCond,
    Yield,
}

/// The condition that wakes up a blocking read.
#[derive(Clone, Copy, Debug, PartialEq, Eq, Structural)]
pub enum WaitCond {
    NoCond,
    Threshold,
}

/// The attributes a completion queue is opened with (`fi_cq_attr`).
#[derive(Clone, Copy, Debug, PartialEq, Eq, Structural)]
pub struct CompletionQueueAttr {
    pub size: usize,
    pub flags: u64,
    pub format: CqFormat,
    pub wait_obj: WaitObj,
    pub signaling_vector: i32,
    pub wait_cond: WaitCond,
    pub wait_set: Option<Fid>,
}

impl CompletionQueueAttr {
    /// The attributes used when none are given: unspecified format and wait object,
    /// no wait condition, size 0.
    pub fn new() -> (r: CompletionQueueAttr)
        ensures
            r == (CompletionQueueAttr {
                size: 0,
                flags: 0,
                format: CqFormat::UNSPEC,
                wait_obj: WaitObj::Unspec,
                signaling_vector: 0,
                wait_cond: WaitCond::NoCond,
                wait_set: None,
            }),
    {
        CompletionQueueAttr {
            size: 0,
            flags: 0,
            format: CqFormat::UNSPEC,
            wait_obj: WaitObj::Unspec,
            signaling_vector: 0,
            wait_cond: WaitCond::NoCond,
            wait_set: None,
        }
    }

    /// Sets the minimum size of the queue.
    pub fn size(&mut self, size: usize) -> (r: &mut Self)
        ensures
            *r == (CompletionQueueAttr { size, ..*old(self) }),
            *final(self) == *final(r),
    {
        self.size = size;
        self
    }

    /// Sets the format of the entries.
    pub fn format(&mut self, format: CqFormat) -> (r: &mut Self)
        ensures
            *r == (CompletionQueueAttr { format, ..*old(self) }),
            *final(self) == *final(r),
    {
        self.format = format;
        self
    }

    /// Sets the wait object; a wait set is also recorded as the queue's wait set.
    pub fn wait_obj(&mut self, wait_obj: WaitObj) -> (r: &mut Self)
        ensures
            *r == (CompletionQueueAttr {
                wait_obj,
                wait_set: match wait_obj {
                    WaitObj::WaitSet(ws) => Some(ws),
                    _ => old(self).wait_set,
                },
                ..*old(self)
            }),
            *final(self) == *final(r),
    {
        if let WaitObj::WaitSet(wait_set) = wait_obj {
            self.wait_set = Some(wait_set);
        }
        self.wait_obj = wait_obj;
        self
    }

    /// Sets the signaling vector, and with it the `FI_AFFINITY` flag.
    pub fn signaling_vector(&mut self, signaling_vector: i32) -> (r: &mut Self)
        ensures
            *r == (CompletionQueueAttr { flags: old(self).flags | FI_AFFINITY, signaling_vector, ..*old(self) }),
            *final(self) == *final(r),
    {
        self.flags = self.flags | FI_AFFINITY;
        self.signaling_vector = signaling_vector;
        self
    }

    /// Sets the condition that wakes up blocking reads.
    pub fn wait_cond(&mut self, wait_cond: WaitCond) -> (r: &mut Self)
        ensures
            *r == (CompletionQueueAttr { wait_cond, ..*old(self) }),
            *final(self) == *final(r),
    {
        self.wait_cond = wait_cond;
        self
    }
}

/// Builder for a completion queue on `domain`: its attributes and an optional
/// application context.
pub struct CompletionQueueBuilder<'a, D, T> {
    pub cq_attr: CompletionQueueAttr,
    pub domain: &'a D,
    pub ctx: Option<&'a mut T>,
}

impl<'a, D> CompletionQueueBuilder<'a, D, ()> {
    /// Initiates the creation of a completion queue on `domain`, with the attributes
    /// used when none are given and no context.
    pub fn new(domain: &'a D) -> (r: CompletionQueueBuilder<'a, D, ()>)
        ensures
            r.cq_attr == (CompletionQueueAttr {
                size: 0,
                flags: 0,
                format: CqFormat::UNSPEC,
                wait_obj: WaitObj::Unspec,
                signaling_vector: 0,
                wait_cond: WaitCond::NoCond,
                wait_set: None,
            }),
            r.domain == domain,
            r.ctx is None,
    {
        CompletionQueueBuilder { cq_attr: CompletionQueueAttr::new(), domain, ctx: None }
    }
}

impl<'a, D, T> CompletionQueueBuilder<'a, D, T> {
    /// Sets the minimum size of the queue.
    pub fn size(self, size: usize) -> (r: Self)
        ensures
            r.cq_attr == (CompletionQueueAttr { size, ..self.cq_attr }),
            r.domain == self.domain,
            r.ctx == self.ctx,
    {
        let mut b = self;
        b.cq_attr.size(size);
        b
    }

    /// Sets the signaling vector (and the `FI_AFFINITY` flag).
    pub fn signaling_vector(self, signaling_vector: i32) -> (r: Self)
        ensures
            r.cq_attr == (CompletionQueueAttr {
                flags: self.cq_attr.flags | FI_AFFINITY,
                signaling_vector,
                ..self.cq_attr
            }),
            r.domain == self.domain,
            r.ctx == self.ctx,
    {
        let mut b = self;
        b.cq_attr.signaling_vector(signaling_vector);
        b
    }

    /// Sets the format of the entries.
    pub fn format(self, format: CqFormat) -> (r: Self)
        ensures
            r.cq_attr == (CompletionQueueAttr { format, ..self.cq_attr }),
            r.domain == self.domain,
            r.ctx == self.ctx,
    {
        let mut b = self;
        b.cq_attr.format(format);
        b
    }

    /// Uses no wait object.
    pub fn wait_none(self) -> (r: Self)
        ensures
            r.cq_attr == (CompletionQueueAttr { wait_obj: WaitObj::NoWait, ..self.cq_attr }),
            r.domain == self.domain,
            r.ctx == self.ctx,
    {
        let mut b = self;
        b.cq_attr.wait_obj(WaitObj::NoWait);
        b
    }

    /// Uses a file descriptor as wait object.
    pub fn wait_fd(self) -> (r: Self)
        ensures
            r.cq_attr == (CompletionQueueAttr { wait_obj: WaitObj::Fd, ..self.cq_attr }),
            r.domain == self.domain,
            r.ctx == self.ctx,
    {
        let mut b = self;
        b.cq_attr.wait_obj(WaitObj::Fd);
        b
    }

    /// Uses the wait set `set` as wait object.
    pub fn wait_set(self, set: Fid) -> (r: Self)
        ensures
            r.cq_attr == (CompletionQueueAttr {
                wait_obj: WaitObj::WaitSet(set),
                wait_set: Some(set),
                ..self.cq_attr
            }),
            r.domain == self.domain,
            r.ctx == self.ctx,
    {
        let mut b = self;
        b.cq_attr.wait_obj(WaitObj::WaitSet(set));
        b
    }

    /// Uses a mutex and condition variable as wait object.
    pub fn wait_mutex(self) -> (r: Self)
        ensures
            r.cq_attr == (CompletionQueueAttr { wait_obj: WaitObj::MutexCond, ..self.cq_attr }),
            r.domain == self.domain,
            r.ctx == self.ctx,
    {
        let mut b = self;
        b.cq_attr.wait_obj(WaitObj::MutexCond);
        b
    }

    /// Waits by yielding, without a wait object.
    pub fn wait_yield(self) -> (r: Self)
        ensures
            r.cq_attr == (CompletionQueueAttr { wait_obj: WaitObj::Yield, ..self.cq_attr }),
            r.domain == self.domain,
            r.ctx == self.ctx,
    {
        let mut b = self;
        b.cq_attr.wait_obj(WaitObj::Yield);
        b
    }

    /// Lets blocking reads wake up once a threshold of completions is reached.
    pub fn enable_wait_cond(self) -> (r: Self)
        ensures
            r.cq_attr == (CompletionQueueAttr { wait_cond: WaitCond::Threshold, ..self.cq_attr }),
            r.domain == self.domain,
            r.ctx == self.ctx,
    {
        let mut b = self;
        b.cq_attr.wait_cond(WaitCond::Threshold);
        b
    }

    /// Sets the application context passed to `fi_cq_open`.
    pub fn context(self, ctx: &'a mut T) -> (r: CompletionQueueBuilder<'a, D, T>)
        ensures
            r.cq_attr == self.cq_attr,
            r.domain == self.domain,
            r.ctx matches Some(c) && *c == *old(ctx) && *final(c) == *final(ctx),
    {
        CompletionQueueBuilder { ctx: Some(ctx), cq_attr: self.cq_attr, domain: self.domain }
    }
}

/// A completion that reports only the context of the operation (`fi_cq_entry`).
#[derive(Clone, Copy, Debug, PartialEq, Eq, Structural)]
pub struct CqEntry {
    pub op_context: usize,
}

/// A completion with flags and length (`fi_cq_msg_entry`).
#[derive(Clone, Copy, Debug, PartialEq, Eq, Structural)]
pub struct CqMsgEntry {
    pub op_context: usize,
    pub flags: u64,
    pub len: usize,
}

/// A completion with the received buffer and remote data (`fi_cq_data_entry`).
#[derive(Clone, Copy, Debug, PartialEq, Eq, Structural)]
pub struct CqDataEntry {
    pub op_context: usize,
    pub flags: u64,
    pub len: usize,
    pub buf: usize,
    pub data: u64,
}

/// A completion of a tagged operation (`fi_cq_tagged_entry`).
#[derive(Clone, Copy, Debug, PartialEq, Eq, Structural)]
pub struct CqTaggedEntry {
    pub op_context: usize,
    pub flags: u64,
    pub len: usize,
    pub buf: usize,
    pub data: u64,
    pub tag: u64,
}

impl CqEntry {
    /// An empty entry.
    pub fn new() -> (r: CqEntry)
        ensures
            r.op_context == 0,
    {
        CqEntry { op_context: 0 }
    }

    /// Whether the entry belongs to the operation whose context is at address `ctx`.
    pub fn is_op_context_equal(&self, ctx: usize) -> (r: bool)
        ensures
            r == (self.op_context == ctx),
    {
        self.op_context == ctx
    }
}

impl CqMsgEntry {
    /// An empty entry.
    pub fn new() -> (r: CqMsgEntry)
        ensures
            r == (CqMsgEntry { op_context: 0, flags: 0, len: 0 }),
    {
        CqMsgEntry { op_context: 0, flags: 0, len: 0 }
    }

    /// The completion flags of the entry.
    pub fn flags(&self) -> (r: u64)
        ensures
            r == self.flags,
    {
        self.flags
    }
}

impl CqDataEntry {
    /// An empty entry.
    pub fn new() -> (r: CqDataEntry)
        ensures
            r == (CqDataEntry { op_context: 0, flags: 0, len: 0, buf: 0, data: 0 }),
    {
        CqDataEntry { op_context: 0, flags: 0, len: 0, buf: 0, data: 0 }
    }

    /// The completion flags of the entry.
    pub fn flags(&self) -> (r: u64)
        ensures
            r == self.flags,
    {
        self.flags
    }

    /// The remote completion data.
    pub fn data(&self) -> (r: u64)
        ensures
            r == self.data,
    {
        self.data
    }
}

impl CqTaggedEntry {
    /// An empty entry.
    pub fn new() -> (r: CqTaggedEntry)
        ensures
            r == (CqTaggedEntry { op_context: 0, flags: 0, len: 0, buf: 0, data: 0, tag: 0 }),
    {
        CqTaggedEntry { op_context: 0, flags: 0, len: 0, buf: 0, data: 0, tag: 0 }
    }

    /// The completion flags of the entry.
    pub fn flags(&self) -> (r: u64)
        ensures
            r == self.flags,
    {
        self.flags
    }

    /// The remote completion data.
    pub fn data(&self) -> (r: u64)
        ensures
            r == self.data,
    {
        self.data
    }

    /// The tag of the message.
    pub fn tag(&self) -> (r: u64)
        ensures
            r == self.tag,
    {
        self.tag
    }
}

/// One or more entries read from a completion queue, in its format; a queue of
/// unspecified format reports only how many completions were read.
pub enum Completion {
    Unspec(usize),
    Context(Vec<CqEntry>),
    Message(Vec<CqMsgEntry>),
    Data(Vec<CqDataEntry>),
    Tagged(Vec<CqTaggedEntry>),
}

/// The abstract value of a [Completion]: the entries as sequences.
pub enum CompletionModel {
    Unspec(usize),
    Context(Seq<CqEntry>),
    Message(Seq<CqMsgEntry>),
    Data(Seq<CqDataEntry>),
    Tagged(Seq<CqTaggedEntry>),
}

impl View for Completion {
    type V = CompletionModel;

    open spec fn view(&self) -> CompletionModel {
        match self {
            Completion::Unspec(n) => CompletionModel::Unspec(*n),
            Completion::Context(v) => CompletionModel::Context(v@),
            Completion::Message(v) => CompletionModel::Message(v@),
            Completion::Data(v) => CompletionModel::Data(v@),
            Completion::Tagged(v) => CompletionModel::Tagged(v@),
        }
    }
}

impl CompletionModel {
    /// The number of entries held (for an unspecified format, the count reported).
    pub open spec fn len(self) -> nat {
        match self {
            CompletionModel::Unspec(n) => n as nat,
            CompletionModel::Context(v) => v.len(),
            CompletionModel::Message(v) => v.len(),
            CompletionModel::Data(v) => v.len(),
            CompletionModel::Tagged(v) => v.len(),
        }
    }

    /// The first `n` entries (a count reported for an unspecified format is kept).
    pub open spec fn take(self, n: int) -> CompletionModel {
        match self {
            CompletionModel::Unspec(k) => CompletionModel::Unspec(k),
            CompletionModel::Context(v) => CompletionModel::Context(v.take(n)),
            CompletionModel::Message(v) => CompletionModel::Message(v.take(n)),
            CompletionModel::Data(v) => CompletionModel::Data(v.take(n)),
            CompletionModel::Tagged(v) => CompletionModel::Tagged(v.take(n)),
        }
    }
}

/// The abstract value of the result of a read.
pub open spec fn read_result_view(r: Result<Completion, Error>) -> Result<CompletionModel, Error> {
    match r {
        Ok(c) => Ok(c@),
        Err(e) => Err(e),
    }
}

/// One entry read from a completion queue.
#[derive(Clone, Copy, Debug, PartialEq, Eq, Structural)]
pub enum SingleCompletion {
    Unspec(CqEntry),
    Ctx(CqEntry),
    Msg(CqMsgEntry),
    Data(CqDataEntry),
    Tagged(CqTaggedEntry),
}

impl SingleCompletion {
    /// The context of the operation the entry reports.
    pub open spec fn spec_op_context(&self) -> usize {
        match self {
            SingleCompletion::Unspec(e) => e.op_context,
            SingleCompletion::Ctx(e) => e.op_context,
            SingleCompletion::Msg(e) => e.op_context,
            SingleCompletion::Data(e) => e.op_context,
            SingleCompletion::Tagged(e) => e.op_context,
        }
    }

    /// The context of the operation the entry reports.
    pub fn op_context(&self) -> (r: usize)
        ensures
            r == self.spec_op_context(),
    {
        match self {
            SingleCompletion::Unspec(e) => e.op_context,
            SingleCompletion::Ctx(e) => e.op_context,
            SingleCompletion::Msg(e) => e.op_context,
            SingleCompletion::Data(e) => e.op_context,
            SingleCompletion::Tagged(e) => e.op_context,
        }
    }
}

/// An error completion (`fi_cq_err_entry`).
#[derive(Clone, Copy, Debug, PartialEq, Eq, Structural)]
pub struct CompletionError {
    pub op_context: usize,
    pub flags: u64,
    pub len: usize,
    pub buf: usize,
    pub data: u64,
    pub tag: u64,
    pub olen: usize,
    pub err: i32,
    pub prov_errno: i32,
    pub err_data: usize,
    pub err_data_size: usize,
}

impl CompletionError {
    /// An empty error entry.
    pub fn new() -> (r: CompletionError)
        ensures
            r == (CompletionError {
                op_context: 0,
                flags: 0,
                len: 0,
                buf: 0,
                data: 0,
                tag: 0,
                olen: 0,
                err: 0,
                prov_errno: 0,
                err_data: 0,
                err_data_size: 0,
            }),
    {
        CompletionError {
            op_context: 0,
            flags: 0,
            len: 0,
            buf: 0,
            data: 0,
            tag: 0,
            olen: 0,
            err: 0,
            prov_errno: 0,
            err_data: 0,
            err_data_size: 0,
        }
    }

    /// The provider-specific error code.
    pub fn prov_errno(&self) -> (r: i32)
        ensures
            r == self.prov_errno,
    {
        self.prov_errno
    }

    /// The completion flags of the failed operation.
    pub fn flags(&self) -> (r: u64)
        ensures
            r == self.flags,
    {
        self.flags
    }

    /// The remote completion data.
    pub fn data(&self) -> (r: u64)
        ensures
            r == self.data,
    {
        self.data
    }

    /// The tag of the message.
    pub fn tag(&self) -> (r: u64)
        ensures
            r == self.tag,
    {
        self.tag
    }

    /// The overflow length.
    pub fn overflow_length(&self) -> (r: usize)
        ensures
            r == self.olen,
    {
        self.olen
    }

    /// The error the entry reports (its `err` field read as an error number).
    pub fn error(&self) -> (r: Error)
        ensures
            r.code == self.err as u32,
    {
        Error::from_err_code(self.err as u32)
    }

    /// Whether the entry belongs to the operation whose context is at address `ctx`.
    pub fn is_op_context_equal(&self, ctx: usize) -> (r: bool)
        ensures
            r == (self.op_context == ctx),
    {
        self.op_context == ctx
    }
}

/// The low-level wait object of a completion queue.
#[derive(Clone, Copy, Debug, PartialEq, Eq, Structural)]
pub enum WaitObjType {
    Fd(i32),
    MutexCond(usize, usize),
    Unspec,
}

/// What has to be asked of libfabric (`fi_control` with `FI_GETWAIT`) to retrieve
/// the wait object of a completion queue.
#[derive(Clone, Copy, Debug, PartialEq, Eq, Structural)]
pub enum WaitObjQuery {
    /// Ask for the file descriptor.
    Fd,
    /// Ask for the mutex and condition variable.
    MutexCond,
    /// Nothing to ask: the wait object is unspecified.
    Unspec,
}

/// An open completion queue, as far as the library's own logic reads it: its
/// identity, the domain it was opened on (which it keeps alive), its format and
/// its wait object.
pub struct CompletionQueueImpl {
    fid: Fid,
    domain: Fid,
    format: CqFormat,
    wait_obj: Option<WaitObj>,
}

/// The result of a read from a queue of format `format` that returned `ret` and
/// filled the buffer `entries`: the error that a negative value names; for a queue
/// of unspecified format, the number of completions read; and otherwise the `ret`
/// entries read, which come first in the buffer.
pub open spec fn spec_read_result(format: CqFormat, ret: int, entries: CompletionModel) -> Result<
    CompletionModel,
    Error,
> {
    if ret < 0 {
        Err(Error { code: (-ret) as u32 })
    } else if format == CqFormat::UNSPEC {
        Ok(CompletionModel::Unspec(ret as usize))
    } else {
        Ok(entries.take(ret))
    }
}

/// The format whose entries `c` holds (`UNSPEC` for a bare count).
pub open spec fn entry_format(c: CompletionModel) -> CqFormat {
    match c {
        CompletionModel::Unspec(_) => CqFormat::UNSPEC,
        CompletionModel::Context(_) => CqFormat::CONTEXT,
        CompletionModel::Message(_) => CqFormat::MSG,
        CompletionModel::Data(_) => CqFormat::DATA,
        CompletionModel::Tagged(_) => CqFormat::TAGGED,
    }
}

/// Whether `c` holds exactly `n` entries, of the same format as `buffer`, each the
/// entry at the same position of `buffer`.
pub open spec fn holds_first_entries(c: CompletionModel, buffer: CompletionModel, n: int) -> bool {
    match (c, buffer) {
        (CompletionModel::Context(a), CompletionModel::Context(b)) => a.len() == n && forall|i: int|
            0 <= i < n ==> #[trigger] a[i] == b[i],
        (CompletionModel::Message(a), CompletionModel::Message(b)) => a.len() == n && forall|i: int|
            0 <= i < n ==> #[trigger] a[i] == b[i],
        (CompletionModel::Data(a), CompletionModel::Data(b)) => a.len() == n && forall|i: int|
            0 <= i < n ==> #[trigger] a[i] == b[i],
        (CompletionModel::Tagged(a), CompletionModel::Tagged(b)) => a.len() == n && forall|i: int|
            0 <= i < n ==> #[trigger] a[i] == b[i],
        _ => false,
    }
}

/// What a read reports, for every return value and buffer: a negative return value is
/// the error whose number is its negation; a queue of unspecified format reports the
/// number of completions read; and a queue of any other format, read into a buffer of
/// its format, gives the entries in that same format, exactly the `ret` entries read,
/// which are the first `ret` of the buffer.
pub proof fn lemma_read_reports_what_was_read(format: CqFormat, ret: int, buffer: CompletionModel)
    ensures
        ret < 0 ==> spec_read_result(format, ret, buffer) == Err::<CompletionModel, Error>(
            Error { code: (-ret) as u32 },
        ),
        0 <= ret <= usize::MAX && format == CqFormat::UNSPEC ==> spec_read_result(format, ret, buffer) == Ok::<
            CompletionModel,
            Error,
        >(CompletionModel::Unspec(ret as usize)),
        0 <= ret <= buffer.len() && format != CqFormat::UNSPEC && entry_format(buffer) == format ==> (
        spec_read_result(format, ret, buffer) matches Ok(c) && entry_format(c) == format && holds_first_entries(
            c,
            buffer,
            ret,
        )),
{
}

/// The first `n` entries of a buffer holding at least that many.
pub(crate) fn take_entries(entries: Completion, n: usize) -> (r: Completion)
    requires
        n <= entries@.len(),
    ensures
        r@ == entries@.take(n as int),
{
    match entries {
        Completion::Unspec(k) => Completion::Unspec(k),
        Completion::Context(mut v) => {
            v.truncate(n);
            Completion::Context(v)
        },
        Completion::Message(mut v) => {
            v.truncate(n);
            Completion::Message(v)
        },
        Completion::Data(mut v) => {
            v.truncate(n);
            Completion::Data(v)
        },
        Completion::Tagged(mut v) => {
            v.truncate(n);
            Completion::Tagged(v)
        },
    }
}

impl CompletionQueueImpl {
    /// The identity of the queue.
    pub closed spec fn spec_fid(&self) -> Fid {
        self.fid
    }

    /// The domain the queue was opened on.
    pub closed spec fn spec_domain(&self) -> Fid {
        self.domain
    }

    /// The format of the entries of the queue.
    pub closed spec fn spec_format(&self) -> CqFormat {
        self.format
    }

    /// The wait object of the queue.
    pub closed spec fn spec_wait_obj(&self) -> Option<WaitObj> {
        self.wait_obj
    }

    /// The completion queue that `fi_cq_open` created as `fid` on `domain` with `attr`,
    /// once it returned `err`.
    pub fn new(domain: &Domain, fid: Fid, err: i32, attr: &CompletionQueueAttr) -> (r: Result<
        CompletionQueueImpl,
        Error,
    >)
        requires
            valid_return_code(err as int),
        ensures
            err != 0 ==> r == Err::<CompletionQueueImpl, Error>(Error { code: (-err) as u32 }),
            err == 0 ==> (r matches Ok(cq) && cq.spec_fid() == fid && cq.spec_domain() == domain.spec_fid()
                && cq.spec_format() == attr.format && cq.spec_wait_obj() == Some(attr.wait_obj)),
    {
        if err != 0 {
            Err(Error::from_err_code((-(err as i64)) as u32))
        } else {
            Ok(CompletionQueueImpl { fid, domain: domain.fid(), format: attr.format, wait_obj: Some(attr.wait_obj) })
        }
    }

    /// The identity of the queue.
    pub fn fid(&self) -> (r: Fid)
        ensures
            r == self.spec_fid(),
    {
        self.fid
    }

    /// The domain the queue was opened on.
    pub fn domain(&self) -> (r: Fid)
        ensures
            r == self.spec_domain(),
    {
        self.domain
    }

    /// The wait object the queue was opened with.
    pub fn wait_obj(&self) -> (r: Option<WaitObj>)
        ensures
            r == self.spec_wait_obj(),
    {
        self.wait_obj
    }

    /// The format of the entries of the queue.
    pub fn format(&self) -> (r: CqFormat)
        ensures
            r == self.spec_format(),
    {
        self.format
    }

    /// The result of a read (`fi_cq_read`, `fi_cq_sread`) that returned `ret` and
    /// filled the buffer `entries`: the error that a negative value names; for a
    /// queue of unspecified format, `Completion::Unspec` holding the number of
    /// completions read; and otherwise the `ret` entries read.
    pub fn read_result(&self, ret: isize, entries: Completion) -> (r: Result<Completion, Error>)
        requires
            ret < 0 ==> valid_return_code(ret as int),
            ret >= 0 && self.spec_format() != CqFormat::UNSPEC ==> ret <= entries@.len(),
        ensures
            read_result_view(r) == spec_read_result(self.spec_format(), ret as int, entries@),
            ret >= 0 && self.spec_format() == CqFormat::UNSPEC ==> r == Ok::<Completion, Error>(
                Completion::Unspec(ret as usize),
            ),
            ret >= 0 && self.spec_format() != CqFormat::UNSPEC && entry_format(entries@) == self.spec_format() ==> (
            r matches Ok(c) && entry_format(c@) == self.spec_format() && holds_first_entries(
                c@,
                entries@,
                ret as int,
            )),
    {
        proof {
            lemma_read_reports_what_was_read(self.spec_format(), ret as int, entries@);
        }
        if ret < 0 {
            Err(Error::from_err_code((-(ret as i64)) as u32))
        } else if self.format == CqFormat::UNSPEC {
            Ok(Completion::Unspec(ret as usize))
        } else {
            Ok(take_entries(entries, ret as usize))
        }
    }

    /// The result of a read that also reports the source address (`fi_cq_readfrom`,
    /// `fi_cq_sreadfrom`), which returned `ret`, filled `entries` and wrote `address`:
    /// as [Self::read_result], with no address when it is `FI_ADDR_NOTAVAIL`.
    pub fn readfrom_result(&self, ret: isize, entries: Completion, address: u64) -> (r: Result<
        (Completion, Option<MappedAddress>),
        Error,
    >)
        requires
            ret < 0 ==> valid_return_code(ret as int),
            ret >= 0 && self.spec_format() != CqFormat::UNSPEC ==> ret <= entries@.len(),
        ensures
            ret < 0 ==> r == Err::<(Completion, Option<MappedAddress>), Error>(Error { code: (-ret) as u32 }),
            ret >= 0 ==> (r matches Ok((c, a)) && Ok::<CompletionModel, Error>(c@) == spec_read_result(
                self.spec_format(),
                ret as int,
                entries@,
            ) && (address == FI_ADDR_NOTAVAIL ==> a is None) && (address != FI_ADDR_NOTAVAIL ==> (
            a matches Some(m) && m@ == MappedAddressModel {
                kind: AddressVectorType::Unspec,
                raw: address,
                av: None,
            }))),
    {
        let addr = if address == FI_ADDR_NOTAVAIL {
            None
        } else {
            Some(MappedAddress::from_raw_addr_no_av(RawMappedAddress::Unspec(address)))
        };
        match self.read_result(ret, entries) {
            Ok(c) => Ok((c, addr)),
            Err(e) => Err(e),
        }
    }

    /// What to ask libfabric to retrieve the wait object of the queue.
    pub fn wait_object_query(&self) -> (r: WaitObjQuery)
        requires
            self.spec_wait_obj() matches Some(w) && (w == WaitObj::Fd || w == WaitObj::MutexCond
                || w == WaitObj::Unspec),
        ensures
            self.spec_wait_obj() == Some(WaitObj::Fd) ==> r == WaitObjQuery::Fd,
            self.spec_wait_obj() == Some(WaitObj::MutexCond) ==> r == WaitObjQuery::MutexCond,
            self.spec_wait_obj() == Some(WaitObj::Unspec) ==> r == WaitObjQuery::Unspec,
    {
        match self.wait_obj {
            Some(WaitObj::Fd) => WaitObjQuery::Fd,
            Some(WaitObj::MutexCond) => WaitObjQuery::MutexCond,
            _ => WaitObjQuery::Unspec,
        }
    }
}

} // verus!
