//! Execution environments of a runtime.
//!
//! A context is one global scope and call stack on a runtime's interpreter.
//! It counts as a holder of the runtime from the moment its native handle
//! exists until that handle has been freed, so the interpreter cannot be
//! released underneath it.

use crate::error::{Error, ErrorView};
use crate::model::Call;
use crate::runtime::{NativeCall, Runtime};
use vstd::prelude::*;

verus! {

/// One execution environment, bound to the runtime it was created from.
#[derive(Debug, PartialEq, Eq)]
pub struct Context {
    ctx: usize,
    rt: usize,
}

/// Mathematical content of a [`Context`].
pub struct ContextView {
    /// Address of the native context.
    pub ctx: usize,
    /// Address of the interpreter that owns it.
    pub rt: usize,
}

impl View for Context {
    type V = ContextView;

    closed spec fn view(&self) -> ContextView {
        ContextView { ctx: self.ctx, rt: self.rt }
    }
}

impl Context {
    #[verifier::type_invariant]
    spec fn allocated(self) -> bool {
        self.ctx != 0
    }

    /// Decides the call that allocates a context on `runtime`. Its outcome is
    /// to be handed to [`Context::new`].
    pub fn request(runtime: &mut Runtime)
        requires
            old(runtime).wf(),
            old(runtime)@.is_idle(),
            old(runtime)@.holders < usize::MAX,
        ensures
            final(runtime).wf(),
            final(runtime)@ == old(runtime)@.issue(Call::NewContext { rt: old(runtime)@.handle }),
    {
        let rt = runtime.handle();
        runtime.issue(NativeCall::NewContext { rt });
    }

    /// Wraps the handle that the pending context allocation returned and
    /// releases the runtime's lock. A null handle means the allocation
    /// failed; the runtime then has no more holders than before.
    pub fn new(runtime: &mut Runtime, ctx: usize) -> (result: Result<Context, Error>)
        requires
            old(runtime).wf(),
            old(runtime)@.pending == Some(Call::NewContext { rt: old(runtime)@.handle }),
        ensures
            final(runtime).wf(),
            final(runtime)@ == old(runtime)@.context_created(ctx),
            match result {
                Ok(context) => ctx != 0 && context@ == (ContextView {
                    ctx,
                    rt: old(runtime)@.handle,
                }),
                Err(e) => ctx == 0 && e@ == ErrorView::Allocation,
            },
    {
        let rt = runtime.handle();
        runtime.adopt(ctx);
        if ctx == 0 {
            return Err(Error::Allocation);
        }
        Ok(Context { ctx, rt })
    }

    /// Decides the call that frees this context. Once it has returned the
    /// context no longer holds the runtime.
    pub fn release(self, runtime: &mut Runtime)
        requires
            old(runtime).wf(),
            old(runtime)@.is_idle(),
            self@.rt == old(runtime)@.handle,
        ensures
            final(runtime).wf(),
            final(runtime)@ == old(runtime)@.issue(
                Call::FreeContext { rt: self@.rt, ctx: self@.ctx },
            ),
    {
        proof {
            use_type_invariant(&self);
        }
        runtime.issue(NativeCall::FreeContext { rt: self.rt, ctx: self.ctx });
    }

    /// Address of the native context.
    pub fn handle(&self) -> (ctx: usize)
        ensures
            ctx == self@.ctx,
            ctx != 0,
    {
        proof {
            use_type_invariant(self);
        }
        self.ctx
    }

    /// Address of the interpreter that owns the context.
    pub fn runtime(&self) -> (rt: usize)
        ensures
            rt == self@.rt,
    {
        self.rt
    }
}

} // verus!
