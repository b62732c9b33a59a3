//! The interpreter handle and its lock.

use crate::error::{Error, ErrorView};
use crate::model::{Call, State};
use crate::text::{checked, NativeString};
use vstd::prelude::*;
use vstd::std_specs::convert::IntoSpec;

verus! {

/// A native call that has been decided here and is to be performed by the
/// embedding shell while the runtime stays locked.
#[derive(Debug, PartialEq, Eq)]
pub enum NativeCall {
    /// Point the interpreter at new diagnostic text.
    SetRuntimeInfo { rt: usize, info: NativeString },
    /// Set the allocator ceiling, in bytes.
    SetMemoryLimit { rt: usize, limit: usize },
    /// Set the threshold that triggers automatic collection, in bytes.
    SetGcThreshold { rt: usize, threshold: usize },
    /// Run one full collection pass.
    RunGc { rt: usize },
    /// Allocate a context on the interpreter.
    NewContext { rt: usize },
    /// Free a context of the interpreter.
    FreeContext { rt: usize, ctx: usize },
    /// Free the interpreter itself.
    FreeRuntime { rt: usize },
}

impl View for NativeCall {
    type V = Call;

    open spec fn view(&self) -> Call {
        match *self {
            NativeCall::SetRuntimeInfo { rt, info } => Call::SetRuntimeInfo { rt, info: info@ },
            NativeCall::SetMemoryLimit { rt, limit } => Call::SetMemoryLimit { rt, limit },
            NativeCall::SetGcThreshold { rt, threshold } => Call::SetGcThreshold { rt, threshold },
            NativeCall::RunGc { rt } => Call::RunGc { rt },
            NativeCall::NewContext { rt } => Call::NewContext { rt },
            NativeCall::FreeContext { rt, ctx } => Call::FreeContext { rt, ctx },
            NativeCall::FreeRuntime { rt } => Call::FreeRuntime { rt },
        }
    }
}

/// What the lock guards: the native handle, the configuration applied to it
/// and the call in flight.
#[derive(Debug)]
pub struct Inner {
    rt: usize,
    // Kept for as long as the interpreter may refer to it.
    info: Option<NativeString>,
    memory_limit: Option<usize>,
    gc_threshold: Option<usize>,
    pending: Option<NativeCall>,
    freed: bool,
}

/// The shared, lockable home of an [`Inner`].
#[derive(Debug)]
pub struct InnerRef {
    inner: Inner,
    held: bool,
    holders: usize,
}

impl InnerRef {
    /// The guarded data.
    pub closed spec fn inner(&self) -> Inner {
        self.inner
    }

    /// Whether the lock is held.
    pub closed spec fn is_locked(&self) -> bool {
        self.held
    }

    /// Number of live holders.
    pub closed spec fn holders(&self) -> nat {
        self.holders as nat
    }

    /// Takes the lock and grants access to the guarded data. Taking a lock
    /// that is already held is a programming error.
    pub fn lock(&mut self) -> (guard: &mut Inner)
        requires
            !old(self).is_locked(),
        ensures
            *guard == old(self).inner(),
            final(self).inner() == *final(guard),
            final(self).is_locked(),
            final(self).holders() == old(self).holders(),
    {
        self.held = true;
        &mut self.inner
    }

    /// Like [`InnerRef::lock`], for callers that expect an optional guard.
    pub fn try_lock(&mut self) -> (guard: Option<&mut Inner>)
        requires
            !old(self).is_locked(),
        ensures
            guard matches Some(g) && *g == old(self).inner() && final(self).inner() == *final(g),
            final(self).is_locked(),
            final(self).holders() == old(self).holders(),
    {
        self.held = true;
        Some(&mut self.inner)
    }

    /// Gives the lock back.
    pub fn unlock(&mut self)
        requires
            old(self).is_locked(),
        ensures
            !final(self).is_locked(),
            final(self).inner() == old(self).inner(),
            final(self).holders() == old(self).holders(),
    {
        self.held = false;
    }
}

/// View of an optional native string.
pub open spec fn info_view(info: Option<NativeString>) -> Option<Seq<u8>> {
    match info {
        Some(text) => Some(text@),
        None => None,
    }
}

/// View of an optional native call.
pub open spec fn call_view(call: Option<NativeCall>) -> Option<Call> {
    match call {
        Some(c) => Some(c@),
        None => None,
    }
}

/// View of a borrowed optional native string.
pub open spec fn info_view_of(info: Option<&NativeString>) -> Option<Seq<u8>> {
    match info {
        Some(text) => Some(text@),
        None => None,
    }
}

/// View of a borrowed optional native call.
pub open spec fn call_view_of(call: Option<&NativeCall>) -> Option<Call> {
    match call {
        Some(c) => Some(c@),
        None => None,
    }
}

/// How setting `bytes` as diagnostic text turns the state `before` into
/// `after`: bytes free of zeros become the argument of the pending call, and
/// any others are refused with the state untouched.
pub open spec fn set_info_outcome(
    before: State,
    bytes: Seq<u8>,
    after: State,
    result: Result<(), Error>,
) -> bool {
    match checked(bytes) {
        Ok(text) => {
            &&& result is Ok
            &&& after == before.issue(Call::SetRuntimeInfo { rt: before.handle, info: text })
        },
        Err(nul) => {
            &&& result matches Err(e)
            &&& e@ == ErrorView::InvalidString(nul)
            &&& after == before
        },
    }
}

/// Entry point of the library: one native interpreter, shared by every handle
/// and context made from it.
#[derive(Debug)]
pub struct Runtime {
    inner: InnerRef,
}

impl View for Runtime {
    type V = State;

    closed spec fn view(&self) -> State {
        State {
            handle: self.inner.inner.rt,
            info: info_view(self.inner.inner.info),
            memory_limit: self.inner.inner.memory_limit,
            gc_threshold: self.inner.inner.gc_threshold,
            pending: call_view(self.inner.inner.pending),
            locked: self.inner.held,
            holders: self.inner.holders as nat,
            freed: self.inner.inner.freed,
        }
    }
}

impl Runtime {
    /// The runtime satisfies the invariant of its model.
    pub open spec fn wf(&self) -> bool {
        self@.wf()
    }

    /// Wraps the handle that the native constructor returned. A null handle
    /// means the allocation failed.
    pub fn new(rt: usize) -> (result: Result<Runtime, Error>)
        ensures
            match result {
                Ok(runtime) => rt != 0 && runtime@ == State::created(rt) && runtime.wf(),
                Err(e) => rt == 0 && e@ == ErrorView::Allocation,
            },
    {
        if rt == 0 {
            return Err(Error::Allocation);
        }
        Ok(
            Runtime {
                inner: InnerRef {
                    inner: Inner {
                        rt,
                        info: None,
                        memory_limit: None,
                        gc_threshold: None,
                        pending: None,
                        freed: false,
                    },
                    held: false,
                    holders: 1,
                },
            },
        )
    }

    /// Decides the call that makes `info` the interpreter's diagnostic text.
    ///
    /// Text with a zero byte inside is refused and leaves the runtime as it
    /// was. Otherwise the terminated text travels with the pending call and
    /// replaces the text held so far once the call has returned.
    pub fn set_info_bytes(&mut self, info: Vec<u8>) -> (result: Result<(), Error>)
        requires
            old(self).wf(),
            old(self)@.is_idle(),
        ensures
            final(self).wf(),
            set_info_outcome(old(self)@, info@, final(self)@, result),
    {
        let guard = self.inner.lock();
        match NativeString::new(info) {
            Ok(text) => {
                guard.pending = Some(NativeCall::SetRuntimeInfo { rt: guard.rt, info: text });
                Ok(())
            },
            Err(e) => {
                self.inner.unlock();
                Err(Error::from(e))
            },
        }
    }

    /// Converts `info` to bytes and goes on as [`Runtime::set_info_bytes`].
    ///
    /// Which bytes those are is up to the conversion of `S`; where that
    /// conversion is specified, they are the ones it names.
    pub fn set_info<S: Into<Vec<u8>>>(&mut self, info: S) -> (result: Result<(), Error>)
        requires
            old(self).wf(),
            old(self)@.is_idle(),
        ensures
            final(self).wf(),
            exists|bytes: Seq<u8>| set_info_outcome(old(self)@, bytes, final(self)@, result),
            S::obeys_into_spec() ==> set_info_outcome(
                old(self)@,
                info.into_spec()@,
                final(self)@,
                result,
            ),
    {
        let bytes: Vec<u8> = info.into();
        let result = self.set_info_bytes(bytes);
        assert(set_info_outcome(old(self)@, bytes@, self@, result));
        result
    }

    /// Decides the call that sets the allocator ceiling to `limit` bytes.
    pub fn set_memory_limit(&mut self, limit: usize)
        requires
            old(self).wf(),
            old(self)@.is_idle(),
        ensures
            final(self).wf(),
            final(self)@ == old(self)@.issue(Call::SetMemoryLimit { rt: old(self)@.handle, limit }),
    {
        let guard = self.inner.lock();
        guard.pending = Some(NativeCall::SetMemoryLimit { rt: guard.rt, limit });
    }

    /// Decides the call that sets the threshold for automatic collection to
    /// `threshold` bytes.
    pub fn set_gc_threshold(&mut self, threshold: usize)
        requires
            old(self).wf(),
            old(self)@.is_idle(),
        ensures
            final(self).wf(),
            final(self)@ == old(self)@.issue(
                Call::SetGcThreshold { rt: old(self)@.handle, threshold },
            ),
    {
        let guard = self.inner.lock();
        guard.pending = Some(NativeCall::SetGcThreshold { rt: guard.rt, threshold });
    }

    /// Decides the call that runs one full collection pass.
    pub fn run_gc(&mut self)
        requires
            old(self).wf(),
            old(self)@.is_idle(),
        ensures
            final(self).wf(),
            final(self)@ == old(self)@.issue(Call::RunGc { rt: old(self)@.handle }),
    {
        let guard = self.inner.lock();
        guard.pending = Some(NativeCall::RunGc { rt: guard.rt });
    }

    /// Records that the pending call has returned and releases the lock.
    ///
    /// New diagnostic text replaces the old one only now, so the old buffer
    /// outlives the call that made the interpreter let go of it. When the call
    /// freed the last holder's context, freeing the interpreter becomes the
    /// next pending call and the lock stays held for it.
    pub fn complete(&mut self)
        requires
            old(self).wf(),
            old(self)@.pending is Some,
            !(old(self)@.pending->0 is NewContext),
        ensures
            final(self).wf(),
            final(self)@ == old(self)@.complete(),
    {
        let call = self.inner.inner.pending.take();
        self.inner.unlock();
        match call {
            Some(NativeCall::SetRuntimeInfo { rt: _, info }) => {
                self.inner.inner.info = Some(info);
            },
            Some(NativeCall::SetMemoryLimit { rt: _, limit }) => {
                self.inner.inner.memory_limit = Some(limit);
            },
            Some(NativeCall::SetGcThreshold { rt: _, threshold }) => {
                self.inner.inner.gc_threshold = Some(threshold);
            },
            Some(NativeCall::FreeContext { rt: _, ctx: _ }) => {
                self.release();
            },
            Some(NativeCall::FreeRuntime { rt: _ }) => {
                self.inner.inner.freed = true;
            },
            _ => {},
        }
    }

    /// Counts one more holder of the interpreter: a further handle.
    pub fn retain(&mut self)
        requires
            old(self).wf(),
            old(self)@.is_idle(),
            old(self)@.holders < usize::MAX,
        ensures
            final(self).wf(),
            final(self)@ == old(self)@.retain(),
    {
        self.inner.holders = self.inner.holders + 1;
    }

    /// One holder lets go of the interpreter. When it was the last one,
    /// freeing the interpreter becomes the pending call.
    pub fn release(&mut self)
        requires
            old(self).wf(),
            old(self)@.is_idle(),
        ensures
            final(self).wf(),
            final(self)@ == old(self)@.release(),
    {
        if self.inner.holders == 1 {
            self.inner.holders = 0;
            let guard = self.inner.lock();
            guard.pending = Some(NativeCall::FreeRuntime { rt: guard.rt });
        } else {
            self.inner.holders = self.inner.holders - 1;
        }
    }

    /// Address of the native interpreter.
    pub fn handle(&self) -> (rt: usize)
        ensures
            rt == self@.handle,
    {
        self.inner.inner.rt
    }

    /// Whether the lock is held, which is the case exactly while a native
    /// call is pending.
    pub fn is_locked(&self) -> (locked: bool)
        ensures
            locked == self@.locked,
    {
        self.inner.held
    }

    /// The native call that is due, if any.
    pub fn pending(&self) -> (call: Option<&NativeCall>)
        ensures
            call_view_of(call) == self@.pending,
    {
        self.inner.inner.pending.as_ref()
    }

    /// The diagnostic text the interpreter refers to, if any was set.
    pub fn info(&self) -> (info: Option<&NativeString>)
        ensures
            info_view_of(info) == self@.info,
    {
        self.inner.inner.info.as_ref()
    }

    /// The allocator ceiling last applied, if any.
    pub fn memory_limit(&self) -> (limit: Option<usize>)
        ensures
            limit == self@.memory_limit,
    {
        self.inner.inner.memory_limit
    }

    /// The collection threshold last applied, if any.
    pub fn gc_threshold(&self) -> (threshold: Option<usize>)
        ensures
            threshold == self@.gc_threshold,
    {
        self.inner.inner.gc_threshold
    }

    /// Number of live holders: handles and contexts.
    pub fn holders(&self) -> (holders: usize)
        ensures
            holders == self@.holders,
    {
        self.inner.holders
    }

    /// Whether the native interpreter has been freed.
    pub fn is_freed(&self) -> (freed: bool)
        ensures
            freed == self@.freed,
    {
        self.inner.inner.freed
    }

    /// Takes the lock for `call` and makes it the pending call.
    pub(crate) fn issue(&mut self, call: NativeCall)
        requires
            old(self).wf(),
            old(self)@.is_idle(),
            call@.rt() == old(self)@.handle,
            call@.wf(),
            !(call@ is FreeRuntime),
            call@ is NewContext ==> old(self)@.holders < usize::MAX,
        ensures
            final(self).wf(),
            final(self)@ == old(self)@.issue(call@),
    {
        match self.inner.try_lock() {
            Some(guard) => {
                guard.pending = Some(call);
            },
            None => {},
        }
    }

    /// Records the outcome of the pending context allocation and releases
    /// the lock. A context that was allocated counts as a holder.
    pub(crate) fn adopt(&mut self, ctx: usize)
        requires
            old(self).wf(),
            old(self)@.pending == Some(Call::NewContext { rt: old(self)@.handle }),
        ensures
            final(self).wf(),
            final(self)@ == old(self)@.context_created(ctx),
    {
        self.inner.inner.pending = None;
        self.inner.unlock();
        if ctx != 0 {
            self.inner.holders = self.inner.holders + 1;
        }
    }
}

} // verus!
