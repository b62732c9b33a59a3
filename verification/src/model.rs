//! The runtime seen as a transition system.
//!
//! A [`State`] records what this layer knows of one native interpreter: its
//! handle, the configuration applied so far, the native call that is due, the
//! lock, and how many holders keep the interpreter alive. The functions of
//! [`State`] are the transitions; the executable types in the rest of the crate
//! are specified by them, and the laws at the end of this file are proved
//! about them.

use crate::text::has_nul;
use vstd::prelude::*;

verus! {

/// One invocation of a native entry point, with its arguments.
pub enum Call {
    SetRuntimeInfo { rt: usize, info: Seq<u8> },
    SetMemoryLimit { rt: usize, limit: usize },
    SetGcThreshold { rt: usize, threshold: usize },
    RunGc { rt: usize },
    NewContext { rt: usize },
    FreeContext { rt: usize, ctx: usize },
    FreeRuntime { rt: usize },
}

impl Call {
    /// The interpreter that the call addresses.
    pub open spec fn rt(self) -> usize {
        match self {
            Call::SetRuntimeInfo { rt, .. } => rt,
            Call::SetMemoryLimit { rt, .. } => rt,
            Call::SetGcThreshold { rt, .. } => rt,
            Call::RunGc { rt } => rt,
            Call::NewContext { rt } => rt,
            Call::FreeContext { rt, .. } => rt,
            Call::FreeRuntime { rt } => rt,
        }
    }

    /// The call's arguments are fit to be handed to the interpreter.
    pub open spec fn wf(self) -> bool {
        match self {
            Call::SetRuntimeInfo { info, .. } => !has_nul(info),
            Call::FreeContext { ctx, .. } => ctx != 0,
            _ => true,
        }
    }

    /// The call configures the interpreter or runs its collector: it neither
    /// creates nor frees a native object.
    pub open spec fn is_configuration(self) -> bool {
        self is SetRuntimeInfo || self is SetMemoryLimit || self is SetGcThreshold || self is RunGc
    }
}

/// What this layer knows of one native interpreter.
pub struct State {
    /// Address of the native interpreter.
    pub handle: usize,
    /// Diagnostic text the interpreter currently refers to.
    pub info: Option<Seq<u8>>,
    /// Allocator ceiling last applied, if any.
    pub memory_limit: Option<usize>,
    /// Collection threshold last applied, if any.
    pub gc_threshold: Option<usize>,
    /// The native call that has been decided and not yet reported back.
    pub pending: Option<Call>,
    /// Whether the lock is held.
    pub locked: bool,
    /// Number of live holders: runtime handles and contexts.
    pub holders: nat,
    /// Whether the native interpreter has been freed.
    pub freed: bool,
}

impl State {
    /// The invariant of every state this crate produces.
    pub open spec fn wf(self) -> bool {
        &&& self.handle != 0
        &&& self.holders <= usize::MAX
        &&& self.info matches Some(text) ==> !has_nul(text)
        &&& self.locked == (self.pending is Some)
        &&& self.freed ==> self.holders == 0 && self.pending is None
        &&& match self.pending {
            Some(Call::FreeRuntime { rt }) => rt == self.handle && self.holders == 0,
            Some(call) => call.rt() == self.handle && call.wf() && self.holders >= 1,
            None => self.holders == 0 ==> self.freed,
        }
        &&& self.pending is Some && self.pending->0 is NewContext ==> self.holders < usize::MAX
    }

    /// Both states hold the same diagnostic text, allocator ceiling and
    /// collection threshold.
    pub open spec fn same_configuration(self, other: State) -> bool {
        &&& self.info == other.info
        &&& self.memory_limit == other.memory_limit
        &&& self.gc_threshold == other.gc_threshold
    }

    /// The interpreter is alive and no call is in flight: an operation may
    /// begin.
    pub open spec fn is_idle(self) -> bool {
        self.holders >= 1 && !self.locked
    }

    /// The state right after the native constructor returned `handle`.
    pub open spec fn created(handle: usize) -> State {
        State {
            handle,
            info: None,
            memory_limit: None,
            gc_threshold: None,
            pending: None,
            locked: false,
            holders: 1,
            freed: false,
        }
    }

    /// Takes the lock and makes `call` the pending call.
    pub open spec fn issue(self, call: Call) -> State {
        State { pending: Some(call), locked: true, ..self }
    }

    /// Releases the lock with nothing pending.
    pub open spec fn settle(self) -> State {
        State { pending: None, locked: false, ..self }
    }

    /// One holder leaves. When it was the last one, freeing the interpreter
    /// becomes the pending call.
    pub open spec fn release(self) -> State {
        if self.holders == 1 {
            State { holders: 0, ..self }.issue(Call::FreeRuntime { rt: self.handle })
        } else {
            State { holders: (self.holders - 1) as nat, ..self }
        }
    }

    /// One more holder shares the interpreter.
    pub open spec fn retain(self) -> State {
        State { holders: self.holders + 1, ..self }
    }

    /// The pending call has returned: its effect is recorded and the lock is
    /// released, unless the call freed the last context, in which case the
    /// interpreter's own release follows at once.
    pub open spec fn complete(self) -> State {
        match self.pending {
            Some(Call::SetRuntimeInfo { info, .. }) => State { info: Some(info), ..self.settle() },
            Some(Call::SetMemoryLimit { limit, .. }) => State {
                memory_limit: Some(limit),
                ..self.settle()
            },
            Some(Call::SetGcThreshold { threshold, .. }) => State {
                gc_threshold: Some(threshold),
                ..self.settle()
            },
            Some(Call::RunGc { .. }) => self.settle(),
            Some(Call::FreeContext { .. }) => self.settle().release(),
            Some(Call::FreeRuntime { .. }) => State { freed: true, ..self.settle() },
            Some(Call::NewContext { .. }) => self,
            None => self,
        }
    }

    /// The pending context allocation has returned `ctx`; a null handle leaves
    /// the holders as they were.
    pub open spec fn context_created(self, ctx: usize) -> State {
        if ctx == 0 {
            self.settle()
        } else {
            self.settle().retain()
        }
    }
}

/// A request the embedding shell can make of a runtime that is being
/// configured: begin an operation, or report that the pending call returned.
pub enum Step {
    Issue(Call),
    Complete,
}

impl State {
    /// `step` may be taken in this state.
    pub open spec fn enabled(self, step: Step) -> bool {
        match step {
            Step::Issue(call) => {
                &&& self.is_idle()
                &&& call.is_configuration()
                &&& call.rt() == self.handle
                &&& call.wf()
            },
            Step::Complete => self.pending is Some && !(self.pending->0 is NewContext),
        }
    }

    /// The state after `step`.
    pub open spec fn step(self, step: Step) -> State {
        match step {
            Step::Issue(call) => self.issue(call),
            Step::Complete => self.complete(),
        }
    }

    /// Every step of `steps` may be taken in turn, starting from this state.
    pub open spec fn admits(self, steps: Seq<Step>) -> bool
        decreases steps.len(),
    {
        steps.len() > 0 ==> self.enabled(steps[0]) && self.step(steps[0]).admits(
            steps.drop_first(),
        )
    }
}

/// A runtime made from a handle that is not null satisfies the invariant and
/// is ready for its first operation.
pub proof fn lemma_created_is_ready(handle: usize)
    requires
        handle != 0,
    ensures
        State::created(handle).wf(),
        State::created(handle).is_idle(),
{
}

/// Configuring never fails and never wears the runtime out: from a ready
/// runtime every configuration call can be issued, and once it has returned
/// the runtime is ready again, with the same holders.
pub proof fn lemma_configuration_keeps_ready(s: State, call: Call)
    requires
        s.wf(),
        s.is_idle(),
        call.is_configuration(),
        call.rt() == s.handle,
        call.wf(),
    ensures
        s.issue(call).wf(),
        s.issue(call).complete().wf(),
        s.issue(call).complete().is_idle(),
        s.issue(call).complete().holders == s.holders,
{
}

/// While a call is pending the lock is held and nothing else can begin.
pub proof fn lemma_pending_call_holds_lock(s: State)
    requires
        s.wf(),
        s.pending is Some,
    ensures
        s.locked,
        !s.is_idle(),
        forall|call: Call| !s.enabled(Step::Issue(call)),
{
}

/// Native calls never overlap: in every sequence of steps that a runtime
/// admits, a call that is issued is followed at once by its own completion,
/// so no second call is issued in between.
pub proof fn lemma_calls_never_overlap(s: State, steps: Seq<Step>, i: int)
    requires
        s.wf(),
        s.admits(steps),
        0 <= i < steps.len() - 1,
        steps[i] is Issue,
    ensures
        steps[i + 1] is Complete,
    decreases steps.len(),
{
    let rest = steps.drop_first();
    assert(s.step(steps[0]).admits(rest));
    if i == 0 {
        assert(s.step(steps[0]).enabled(rest[0]));
    } else {
        match steps[0] {
            Step::Issue(call) => lemma_configuration_keeps_ready(s, call),
            Step::Complete => lemma_complete_preserves_wf(s),
        }
        lemma_calls_never_overlap(s.step(steps[0]), rest, i - 1);
    }
}

/// Completing a call keeps the invariant.
pub proof fn lemma_complete_preserves_wf(s: State)
    requires
        s.wf(),
        s.pending is Some,
        !(s.pending->0 is NewContext),
    ensures
        s.complete().wf(),
{
}

/// Sharing, letting go and creating contexts keep the invariant: a ready
/// runtime may gain a holder, lose one, or ask for a context, and whatever
/// handle the allocation returns, the state that results is well formed.
pub proof fn lemma_holders_preserve_wf(s: State, ctx: usize)
    requires
        s.wf(),
        s.is_idle(),
    ensures
        s.release().wf(),
        s.holders < usize::MAX ==> s.retain().wf(),
        s.holders < usize::MAX ==> s.issue(Call::NewContext { rt: s.handle }).wf(),
        s.holders < usize::MAX ==> s.issue(Call::NewContext { rt: s.handle }).context_created(
            ctx,
        ).wf(),
        ctx != 0 ==> s.issue(Call::FreeContext { rt: s.handle, ctx }).wf(),
{
}

/// What has been configured stays configured. The diagnostic text, the
/// allocator ceiling and the collection threshold change only when a call
/// that sets one of them returns, and then only that one changes; until
/// then, and through every other transition, the state keeps them. In
/// particular the text the interpreter refers to is held until the call that
/// replaces it has returned.
pub proof fn lemma_configuration_is_kept(s: State, call: Call, ctx: usize)
    ensures
        s.issue(call).same_configuration(s),
        s.retain().same_configuration(s),
        s.release().same_configuration(s),
        s.context_created(ctx).same_configuration(s),
        match s.pending {
            Some(Call::SetRuntimeInfo { info, .. }) => s.complete().same_configuration(
                State { info: Some(info), ..s },
            ),
            Some(Call::SetMemoryLimit { limit, .. }) => s.complete().same_configuration(
                State { memory_limit: Some(limit), ..s },
            ),
            Some(Call::SetGcThreshold { threshold, .. }) => s.complete().same_configuration(
                State { gc_threshold: Some(threshold), ..s },
            ),
            _ => s.complete().same_configuration(s),
        },
{
}

/// The interpreter is never freed, nor due to be freed, while anything still
/// holds it.
pub proof fn lemma_freed_only_without_holders(s: State)
    requires
        s.wf(),
        s.freed || s.pending == Some(Call::FreeRuntime { rt: s.handle }),
    ensures
        s.holders == 0,
{
}

/// The interpreter is freed once only: after it has been freed no call is due
/// and no operation can begin, so nothing reaches it again.
pub proof fn lemma_freed_runtime_is_spent(s: State)
    requires
        s.wf(),
        s.freed,
    ensures
        s.pending is None,
        !s.is_idle(),
        forall|step: Step| !s.enabled(step),
{
}

/// The runtime outlives its contexts. Take a runtime with a single handle,
/// create a context, drop the handle, then drop the context: dropping the
/// handle frees nothing, the context's free is the next native call, and only
/// when that call has returned does freeing the interpreter become due.
pub proof fn lemma_runtime_outlives_context(s: State, ctx: usize)
    requires
        s.wf(),
        s.is_idle(),
        s.holders == 1,
        ctx != 0,
    ensures
        ({
            let with_context = s.issue(Call::NewContext { rt: s.handle }).context_created(ctx);
            let handle_dropped = with_context.release();
            let freeing_context = handle_dropped.issue(Call::FreeContext { rt: s.handle, ctx });
            let context_freed = freeing_context.complete();
            &&& handle_dropped.wf() && handle_dropped.is_idle() && !handle_dropped.freed
            &&& freeing_context.wf() && !freeing_context.freed
            &&& context_freed.wf() && !context_freed.freed
            &&& context_freed.pending == Some(Call::FreeRuntime { rt: s.handle })
            &&& context_freed.complete().wf() && context_freed.complete().freed
        }),
{
}

/// Collecting changes nothing that can be observed: after a collection pass
/// has been issued and has returned, the runtime is exactly as before, and so
/// it is after a second pass.
pub proof fn lemma_gc_is_idempotent(s: State)
    requires
        s.wf(),
        s.is_idle(),
    ensures
        s.issue(Call::RunGc { rt: s.handle }).complete() == s,
        s.issue(Call::RunGc { rt: s.handle }).complete().issue(
            Call::RunGc { rt: s.handle },
        ).complete() == s,
{
}

} // verus!
