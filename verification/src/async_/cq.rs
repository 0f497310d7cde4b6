use vstd::prelude::*;

use std::collections::HashMap;

use crate::async_::ctx::AsyncCtx;
use crate::cq::{
    read_result_view, take_entries, Completion, CompletionModel, CompletionQueueAttr, CqDataEntry, CqEntry, CqFormat, CqMsgEntry, CqTaggedEntry, SingleCompletion, WaitCond,
    WaitObj, FI_AFFINITY,
};
use crate::error::{valid_return_code, Error, FI_EAGAIN};

verus! {

broadcast use vstd::std_specs::hash::group_hash_axioms;

/// The pending entries and the entry found after dispatching `batch` while
/// waiting for the operation whose context is `ctx`, starting from `pending`:
/// entries of other operations are kept by context (a later one replacing an
/// earlier one of the same context), and the last entry of `ctx` is the one found.
pub open spec fn dispatch_spec(
    pending: Map<usize, SingleCompletion>,
    ctx: usize,
    batch: Seq<SingleCompletion>,
) -> (Map<usize, SingleCompletion>, Option<SingleCompletion>)
    decreases batch.len(),
{
    if batch.len() == 0 {
        (pending, None)
    } else {
        let (m, found) = dispatch_spec(pending, ctx, batch.drop_last());
        let e = batch.last();
        if e.spec_op_context() == ctx {
            (m, Some(e))
        } else {
            (m.insert(e.spec_op_context(), e), found)
        }
    }
}

/// The completions that were read from an asynchronous completion queue while
/// waiting for another operation, kept by the context of their operation until
/// the operation that owns them asks for them.
pub struct PendingCompletions {
    entries: HashMap<usize, SingleCompletion>,
}

impl View for PendingCompletions {
    type V = Map<usize, SingleCompletion>;

    closed spec fn view(&self) -> Map<usize, SingleCompletion> {
        self.entries@
    }
}

impl PendingCompletions {
    /// No pending completion.
    pub fn new() -> (r: PendingCompletions)
        ensures
            r@ == Map::<usize, SingleCompletion>::empty(),
    {
        PendingCompletions { entries: HashMap::new() }
    }

    /// Whether no completion is pending.
    pub fn is_empty(&self) -> (r: bool)
        ensures
            r == (self@.dom().len() == 0),
    {
        self.entries.is_empty()
    }

    /// Takes the pending completion of the operation whose context is `ctx`, if one was read.
    pub fn take(&mut self, ctx: usize) -> (r: Option<SingleCompletion>)
        ensures
            r == (if old(self)@.contains_key(ctx) { Some(old(self)@[ctx]) } else { None }),
            final(self)@ == old(self)@.remove(ctx),
    {
        self.entries.remove(&ctx)
    }

    /// Dispatches the entries of `batch`, read while waiting for the operation whose
    /// context is `ctx`: the entry of that operation is returned (the last one, if
    /// several), and every other entry is kept pending under its own context.
    pub fn dispatch(&mut self, ctx: usize, batch: &Vec<SingleCompletion>) -> (r: Option<SingleCompletion>)
        ensures
            (final(self)@, r) == dispatch_spec(old(self)@, ctx, batch@),
    {
        let mut found: Option<SingleCompletion> = None;
        let mut i: usize = 0;
        while i < batch.len()
            invariant
                i <= batch@.len(),
                (self@, found) == dispatch_spec(old(self)@, ctx, batch@.take(i as int)),
            decreases batch@.len() - i,
        {
            let e = batch[i];
            proof {
                assert(batch@.take(i + 1).drop_last() =~= batch@.take(i as int));
                assert(batch@.take(i + 1).last() == e);
            }
            let key = e.op_context();
            if key == ctx {
                found = Some(e);
            } else {
                self.entries.insert(key, e);
            }
            i += 1;
        }
        assert(batch@.take(batch@.len() as int) =~= batch@);
        found
    }
}

/// Dispatching a batch loses no completion: the entry of the awaited operation is
/// found whenever the batch holds one, every other entry of the batch is pending
/// afterwards, and so is every completion that was pending before and belongs to
/// another operation.
pub proof fn lemma_dispatch_keeps_completions(
    pending: Map<usize, SingleCompletion>,
    ctx: usize,
    batch: Seq<SingleCompletion>,
)
    ensures
        (exists|i: int| 0 <= i < batch.len() && #[trigger] batch[i].spec_op_context() == ctx)
            <==> dispatch_spec(pending, ctx, batch).1 is Some,
        dispatch_spec(pending, ctx, batch).1 matches Some(e) ==> e.spec_op_context() == ctx,
        forall|i: int|
            0 <= i < batch.len() && #[trigger] batch[i].spec_op_context() != ctx
                ==> dispatch_spec(pending, ctx, batch).0.contains_key(batch[i].spec_op_context()),
        forall|k: usize|
            #[trigger] pending.contains_key(k) ==> dispatch_spec(pending, ctx, batch).0.contains_key(k),
    decreases batch.len(),
{
    if batch.len() > 0 {
        let prefix = batch.drop_last();
        lemma_dispatch_keeps_completions(pending, ctx, prefix);
        assert forall|i: int| 0 <= i < prefix.len() implies #[trigger] prefix[i] == batch[i] by {}
        assert forall|i: int|
            0 <= i < batch.len() && #[trigger] batch[i].spec_op_context() != ctx implies dispatch_spec(
            pending,
            ctx,
            batch,
        ).0.contains_key(batch[i].spec_op_context()) by {
            if i < batch.len() - 1 {
                assert(prefix[i].spec_op_context() != ctx);
            }
        }
        if dispatch_spec(pending, ctx, batch).1 is Some && batch.last().spec_op_context() != ctx {
            let j = choose|j: int| 0 <= j < prefix.len() && #[trigger] prefix[j].spec_op_context() == ctx;
            assert(batch[j].spec_op_context() == ctx);
        }
        if exists|i: int| 0 <= i < batch.len() && #[trigger] batch[i].spec_op_context() == ctx {
            let i = choose|i: int| 0 <= i < batch.len() && #[trigger] batch[i].spec_op_context() == ctx;
            if i < batch.len() - 1 {
                assert(prefix[i].spec_op_context() == ctx);
            }
        }
    }
}

/// What an asynchronous read does after trying to read from the queue.
#[derive(Clone, Copy, Debug, PartialEq, Eq, Structural)]
pub enum ReadStep {
    /// Nothing to read yet (`FI_EAGAIN`): wait for the queue to be readable again.
    Retry,
    /// `len` entries were read: the read is complete.
    Done(usize),
    /// The read failed.
    Fail(Error),
}

/// The next step of an asynchronous read after a read attempt that gave `res`.
pub fn read_step(res: Result<usize, Error>) -> (r: ReadStep)
    ensures
        r == (match res {
            Ok(len) => ReadStep::Done(len),
            Err(e) => if e.code == FI_EAGAIN {
                ReadStep::Retry
            } else {
                ReadStep::Fail(e)
            },
        }),
{
    match res {
        Ok(len) => ReadStep::Done(len),
        Err(e) => {
            if e.code == FI_EAGAIN {
                ReadStep::Retry
            } else {
                ReadStep::Fail(e)
            }
        },
    }
}

/// The result of a read by an asynchronous completion queue that returned `ret` and
/// filled the buffer `entries`: the error that a negative value names, and otherwise
/// the `ret` entries read. An asynchronous queue needs the context of every entry to
/// hand it to its operation, so a queue of unspecified format is read into a buffer
/// of context entries.
pub open spec fn spec_async_read_result(ret: int, entries: CompletionModel) -> Result<CompletionModel, Error> {
    if ret < 0 {
        Err(Error { code: (-ret) as u32 })
    } else {
        Ok(entries.take(ret))
    }
}

/// The result of a read by an asynchronous completion queue (see [spec_async_read_result]).
pub fn async_read_result(ret: isize, entries: Completion) -> (r: Result<Completion, Error>)
    requires
        ret < 0 ==> valid_return_code(ret as int),
        ret >= 0 ==> ret <= entries@.len(),
    ensures
        read_result_view(r) == spec_async_read_result(ret as int, entries@),
{
    if ret < 0 {
        Err(Error::from_err_code((-(ret as i64)) as u32))
    } else {
        Ok(take_entries(entries, ret as usize))
    }
}

/// The entry `e`, reporting `ctx` as the context of its operation.
pub open spec fn with_op_context(e: SingleCompletion, ctx: usize) -> SingleCompletion {
    match e {
        SingleCompletion::Unspec(_) => SingleCompletion::Unspec(CqEntry { op_context: ctx }),
        SingleCompletion::Ctx(_) => SingleCompletion::Ctx(CqEntry { op_context: ctx }),
        SingleCompletion::Msg(c) => SingleCompletion::Msg(CqMsgEntry { op_context: ctx, ..c }),
        SingleCompletion::Data(c) => SingleCompletion::Data(CqDataEntry { op_context: ctx, ..c }),
        SingleCompletion::Tagged(c) => SingleCompletion::Tagged(CqTaggedEntry { op_context: ctx, ..c }),
    }
}

/// Whether the entries `a` and `b` are of the same format and agree on everything
/// but the context of their operation.
pub open spec fn same_but_context(a: SingleCompletion, b: SingleCompletion) -> bool {
    match (a, b) {
        (SingleCompletion::Unspec(_), SingleCompletion::Unspec(_)) => true,
        (SingleCompletion::Ctx(_), SingleCompletion::Ctx(_)) => true,
        (SingleCompletion::Msg(x), SingleCompletion::Msg(y)) => x.flags == y.flags && x.len == y.len,
        (SingleCompletion::Data(x), SingleCompletion::Data(y)) => x.flags == y.flags && x.len == y.len
            && x.buf == y.buf && x.data == y.data,
        (SingleCompletion::Tagged(x), SingleCompletion::Tagged(y)) => x.flags == y.flags && x.len == y.len
            && x.buf == y.buf && x.data == y.data && x.tag == y.tag,
        _ => false,
    }
}

/// Reporting another context changes an entry of any format, the unspecified one
/// included, in that context alone: the entry then reports the given context, and
/// keeps its format and all its other fields.
pub proof fn lemma_reported_context_is_given(e: SingleCompletion, ctx: usize)
    ensures
        with_op_context(e, ctx).spec_op_context() == ctx,
        same_but_context(with_op_context(e, ctx), e),
{
}

/// The entry of an asynchronous operation as the application sees it: the operation
/// carried its asynchronous context `actx`, and the entry reports the application's
/// own context instead (null when the operation had none).
pub fn user_completion(e: SingleCompletion, actx: &AsyncCtx) -> (r: SingleCompletion)
    ensures
        r.spec_op_context() == (match actx.user_ctx {
            Some(u) => u,
            None => 0usize,
        }),
        same_but_context(r, e),
        r == with_op_context(
            e,
            match actx.user_ctx {
                Some(u) => u,
                None => 0usize,
            },
        ),
{
    let ctx: usize = match actx.user_ctx {
        Some(u) => u,
        None => 0,
    };
    match e {
        SingleCompletion::Unspec(_) => SingleCompletion::Unspec(CqEntry { op_context: ctx }),
        SingleCompletion::Ctx(_) => SingleCompletion::Ctx(CqEntry { op_context: ctx }),
        SingleCompletion::Msg(c) => SingleCompletion::Msg(CqMsgEntry { op_context: ctx, ..c }),
        SingleCompletion::Data(c) => SingleCompletion::Data(CqDataEntry { op_context: ctx, ..c }),
        SingleCompletion::Tagged(c) => SingleCompletion::Tagged(CqTaggedEntry { op_context: ctx, ..c }),
    }
}

/// Builder for an asynchronous completion queue on `domain`: its attributes, an
/// optional application context, and the number of entries its read buffer
/// starts with.
pub struct CompletionQueueBuilder<'a, D, T> {
    pub cq_attr: CompletionQueueAttr,
    pub domain: &'a D,
    pub ctx: Option<&'a mut T>,
    pub default_buff_size: usize,
}

impl<'a, D> CompletionQueueBuilder<'a, D, ()> {
    /// Initiates the creation of an asynchronous completion queue on `domain`, with
    /// the attributes used when none are given, no context, and a read buffer of 10 entries.
    pub fn new(domain: &'a D) -> (r: CompletionQueueBuilder<'a, D, ()>)
        ensures
            r.cq_attr == (CompletionQueueAttr {
                size: 0,
                flags: 0,
                format: CqFormat::UNSPEC,
                wait_obj: WaitObj::Unspec,
                signaling_vector: 0,
                wait_cond: WaitCond::NoCond,
                wait_set: None,
            }),
            r.domain == domain,
            r.ctx is None,
            r.default_buff_size == 10,
    {
        CompletionQueueBuilder { cq_attr: CompletionQueueAttr::new(), domain, ctx: None, default_buff_size: 10 }
    }
}

impl<'a, D, T> CompletionQueueBuilder<'a, D, T> {
    /// Sets the minimum size of the queue.
    pub fn size(self, size: usize) -> (r: Self)
        ensures
            r.cq_attr == (CompletionQueueAttr { size, ..self.cq_attr }),
            r.domain == self.domain,
            r.ctx == self.ctx,
            r.default_buff_size == self.default_buff_size,
    {
        let mut b = self;
        b.cq_attr.size(size);
        b
    }

    /// Sets the signaling vector (and the `FI_AFFINITY` flag).
    pub fn signaling_vector(self, signaling_vector: i32) -> (r: Self)
        ensures
            r.cq_attr == (CompletionQueueAttr {
                flags: self.cq_attr.flags | FI_AFFINITY,
                signaling_vector,
                ..self.cq_attr
            }),
            r.domain == self.domain,
            r.ctx == self.ctx,
            r.default_buff_size == self.default_buff_size,
    {
        let mut b = self;
        b.cq_attr.signaling_vector(signaling_vector);
        b
    }

    /// Sets the format of the entries.
    pub fn format(self, format: CqFormat) -> (r: Self)
        ensures
            r.cq_attr == (CompletionQueueAttr { format, ..self.cq_attr }),
            r.domain == self.domain,
            r.ctx == self.ctx,
            r.default_buff_size == self.default_buff_size,
    {
        let mut b = self;
        b.cq_attr.format(format);
        b
    }

    /// Sets the number of entries the read buffer starts with.
    pub fn default_buff_size(self, default_buff_size: usize) -> (r: Self)
        ensures
            r.cq_attr == self.cq_attr,
            r.domain == self.domain,
            r.ctx == self.ctx,
            r.default_buff_size == default_buff_size,
    {
        CompletionQueueBuilder { default_buff_size, ..self }
    }

    /// Sets the application context passed to `fi_cq_open`.
    pub fn context(self, ctx: &'a mut T) -> (r: CompletionQueueBuilder<'a, D, T>)
        ensures
            r.cq_attr == self.cq_attr,
            r.domain == self.domain,
            r.ctx matches Some(c) && *c == *old(ctx) && *final(c) == *final(ctx),
            r.default_buff_size == self.default_buff_size,
    {
        CompletionQueueBuilder {
            ctx: Some(ctx),
            cq_attr: self.cq_attr,
            domain: self.domain,
            default_buff_size: self.default_buff_size,
        }
    }

    /// The attributes `fi_cq_open` is called with for this queue: those configured,
    /// with a file descriptor as wait object (which asynchronous reads wait on).
    pub fn build_attr(&self) -> (r: CompletionQueueAttr)
        ensures
            r == (CompletionQueueAttr { wait_obj: WaitObj::Fd, ..self.cq_attr }),
    {
        let mut attr = self.cq_attr;
        attr.wait_obj(WaitObj::Fd);
        attr
    }
}

} // verus!
