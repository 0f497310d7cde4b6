use vstd::prelude::*;

use crate::error::Error;

verus! {

/// The context handed to libfabric for an asynchronous operation: it carries the
/// application's own context of the operation (if any), by address.
#[derive(Clone, Copy, Debug, PartialEq, Eq, Structural)]
pub struct AsyncCtx {
    pub user_ctx: Option<usize>,
}

impl AsyncCtx {
    /// The asynchronous context of an operation whose application context is `user_ctx`.
    pub fn new(user_ctx: Option<usize>) -> (r: AsyncCtx)
        ensures
            r.user_ctx == user_ctx,
    {
        AsyncCtx { user_ctx }
    }

    /// The asynchronous context of a message operation whose message carries the
    /// context address `real_user_ctx`; a null address means the operation has none.
    pub fn for_message(real_user_ctx: usize) -> (r: AsyncCtx)
        ensures
            r.user_ctx == (if real_user_ctx == 0 { None } else { Some(real_user_ctx) }),
    {
        AsyncCtx { user_ctx: if real_user_ctx == 0 { None } else { Some(real_user_ctx) } }
    }
}

/// The application context of a message, set aside while the message carries the
/// address of an asynchronous context instead.
pub struct MsgContextSwap {
    real_user_ctx: usize,
}

impl MsgContextSwap {
    /// The application context that was set aside.
    pub closed spec fn spec_saved(&self) -> usize {
        self.real_user_ctx
    }

    /// Sets aside the context of the message held in `msg_context` and makes the
    /// message carry `async_ctx_addr`, the address of the operation's asynchronous context.
    pub fn begin(msg_context: &mut usize, async_ctx_addr: usize) -> (r: MsgContextSwap)
        ensures
            r.spec_saved() == *old(msg_context),
            *final(msg_context) == async_ctx_addr,
    {
        let real_user_ctx = *msg_context;
        *msg_context = async_ctx_addr;
        MsgContextSwap { real_user_ctx }
    }

    /// The application context that was set aside.
    pub fn saved(&self) -> (r: usize)
        ensures
            r == self.spec_saved(),
    {
        self.real_user_ctx
    }

    /// Decides what follows the posting of the message operation, which gave `posted`.
    /// When the post failed, the message gets its own context back and the error is
    /// returned: there is no completion to wait for. Otherwise the context stays set
    /// aside (the message keeps carrying the asynchronous context) and the swap is
    /// handed back: the caller waits for the completion of the asynchronous context
    /// and then calls [MsgContextSwap::finish].
    pub fn after_post(self, msg_context: &mut usize, posted: Result<(), Error>) -> (r: Result<MsgContextSwap, Error>)
        ensures
            posted matches Err(e) ==> r == Err::<MsgContextSwap, Error>(e) && *final(msg_context) == self.spec_saved(),
            posted is Ok ==> (r matches Ok(s) && s.spec_saved() == self.spec_saved()) && *final(msg_context) == *old(
                msg_context,
            ),
    {
        match posted {
            Err(e) => {
                *msg_context = self.real_user_ctx;
                Err(e)
            },
            Ok(()) => Ok(self),
        }
    }

    /// Ends a posted message operation once the wait for its completion gave
    /// `completion`: the message gets its own context back, and the completion
    /// (or the error of the wait) is the result of the operation.
    pub fn finish<T>(self, msg_context: &mut usize, completion: Result<T, Error>) -> (r: Result<T, Error>)
        ensures
            *final(msg_context) == self.spec_saved(),
            r == completion,
    {
        *msg_context = self.real_user_ctx;
        completion
    }
}

} // verus!
