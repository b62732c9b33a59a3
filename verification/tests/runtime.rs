use quickrjs::{Context, Error, NativeCall, Runtime};

const HANDLE: usize = 0x1000;
const CONTEXT: usize = 0x2000;

fn fresh() -> Runtime {
    Runtime::new(HANDLE).unwrap()
}

#[test]
fn lib_base_runtime() {
    let _rt = Runtime::new(HANDLE).unwrap();
}

#[test]
fn runtime_base_runtime() {
    let mut rt = Runtime::new(HANDLE).unwrap();
    rt.set_info("test runtime").unwrap();
    rt.complete();
    rt.set_memory_limit(0xFFFF);
    rt.complete();
    rt.set_gc_threshold(0xFF);
    rt.complete();
    rt.run_gc();
    rt.complete();
}

#[test]
fn new_runtime_is_ready_and_unconfigured() {
    let rt = fresh();
    assert_eq!(rt.handle(), HANDLE);
    assert!(!rt.is_locked());
    assert!(!rt.is_freed());
    assert_eq!(rt.holders(), 1);
    assert_eq!(rt.pending(), None);
    assert_eq!(rt.info(), None);
    assert_eq!(rt.memory_limit(), None);
    assert_eq!(rt.gc_threshold(), None);
}

#[test]
fn null_handle_is_an_allocation_failure() {
    assert_eq!(Runtime::new(0).unwrap_err(), Error::Allocation);
}

#[test]
fn set_memory_limit_is_pending_until_completed() {
    let mut rt = fresh();
    rt.set_memory_limit(0xFFFF);
    assert!(rt.is_locked());
    assert_eq!(
        rt.pending(),
        Some(&NativeCall::SetMemoryLimit { rt: HANDLE, limit: 0xFFFF })
    );
    assert_eq!(rt.memory_limit(), None);
    rt.complete();
    assert!(!rt.is_locked());
    assert_eq!(rt.pending(), None);
    assert_eq!(rt.memory_limit(), Some(0xFFFF));
    assert_eq!(rt.gc_threshold(), None);
}

#[test]
fn set_gc_threshold_is_pending_until_completed() {
    let mut rt = fresh();
    rt.set_gc_threshold(0xFF);
    assert!(rt.is_locked());
    assert_eq!(
        rt.pending(),
        Some(&NativeCall::SetGcThreshold { rt: HANDLE, threshold: 0xFF })
    );
    rt.complete();
    assert!(!rt.is_locked());
    assert_eq!(rt.gc_threshold(), Some(0xFF));
    assert_eq!(rt.memory_limit(), None);
}

#[test]
fn later_limit_replaces_earlier_one() {
    let mut rt = fresh();
    rt.set_memory_limit(10);
    rt.complete();
    rt.set_memory_limit(usize::MAX);
    rt.complete();
    assert_eq!(rt.memory_limit(), Some(usize::MAX));
}

#[test]
fn set_info_carries_terminated_text() {
    let mut rt = fresh();
    rt.set_info("test runtime").unwrap();
    assert!(rt.is_locked());
    match rt.pending() {
        Some(NativeCall::SetRuntimeInfo { rt: handle, info }) => {
            assert_eq!(*handle, HANDLE);
            assert_eq!(info.as_bytes_with_nul(), b"test runtime\0");
        }
        other => panic!("unexpected pending call: {:?}", other),
    }
    assert_eq!(rt.info(), None);
    rt.complete();
    assert!(!rt.is_locked());
    assert_eq!(rt.info().unwrap().as_bytes_with_nul(), b"test runtime\0");
}

#[test]
fn set_info_keeps_old_text_until_the_call_returns() {
    let mut rt = fresh();
    rt.set_info_bytes(b"first".to_vec()).unwrap();
    rt.complete();
    rt.set_info_bytes(b"second".to_vec()).unwrap();
    assert_eq!(rt.info().unwrap().as_bytes_with_nul(), b"first\0");
    rt.complete();
    assert_eq!(rt.info().unwrap().as_bytes_with_nul(), b"second\0");
}

#[test]
fn set_info_accepts_empty_text() {
    let mut rt = fresh();
    rt.set_info(Vec::new()).unwrap();
    rt.complete();
    assert_eq!(rt.info().unwrap().as_bytes_with_nul(), b"\0");
}

#[test]
fn set_info_rejects_embedded_terminator() {
    let mut rt = fresh();
    rt.set_memory_limit(64);
    rt.complete();
    let err = rt.set_info("bad\0info\0").unwrap_err();
    match err {
        Error::InvalidString(e) => {
            assert_eq!(e.nul_position(), 3);
            assert_eq!(e.into_vec(), b"bad\0info\0".to_vec());
        }
        other => panic!("unexpected error: {:?}", other),
    }
    // The runtime is as it was, and still usable.
    assert!(!rt.is_locked());
    assert_eq!(rt.pending(), None);
    assert_eq!(rt.info(), None);
    assert_eq!(rt.memory_limit(), Some(64));
    assert_eq!(rt.holders(), 1);
    rt.set_info("good").unwrap();
    rt.complete();
    assert_eq!(rt.info().unwrap().as_bytes_with_nul(), b"good\0");
}

#[test]
fn set_info_bytes_rejects_leading_terminator() {
    let mut rt = fresh();
    match rt.set_info_bytes(vec![0, 1, 2]).unwrap_err() {
        Error::InvalidString(e) => assert_eq!(e.nul_position(), 0),
        other => panic!("unexpected error: {:?}", other),
    }
    assert!(!rt.is_locked());
}

#[test]
fn run_gc_twice_changes_no_configuration() {
    let mut rt = fresh();
    rt.set_info("info").unwrap();
    rt.complete();
    rt.set_memory_limit(0xFFFF);
    rt.complete();
    rt.set_gc_threshold(0xFF);
    rt.complete();
    for _ in 0..2 {
        rt.run_gc();
        assert_eq!(rt.pending(), Some(&NativeCall::RunGc { rt: HANDLE }));
        rt.complete();
        assert!(!rt.is_locked());
        assert_eq!(rt.memory_limit(), Some(0xFFFF));
        assert_eq!(rt.gc_threshold(), Some(0xFF));
        assert_eq!(rt.info().unwrap().as_bytes_with_nul(), b"info\0");
        assert_eq!(rt.holders(), 1);
        assert!(!rt.is_freed());
    }
}

#[test]
fn configured_runtime_still_creates_a_context() {
    let mut rt = Runtime::new(HANDLE).unwrap();
    rt.set_memory_limit(0xFFFF);
    rt.complete();
    rt.set_gc_threshold(0xFF);
    rt.complete();
    rt.run_gc();
    rt.complete();
    assert!(!rt.is_locked());
    assert!(!rt.is_freed());
    Context::request(&mut rt);
    assert_eq!(rt.pending(), Some(&NativeCall::NewContext { rt: HANDLE }));
    let ctx = Context::new(&mut rt, CONTEXT).unwrap();
    assert_eq!(ctx.handle(), CONTEXT);
    assert_eq!(ctx.runtime(), HANDLE);
    assert_eq!(rt.holders(), 2);
    assert!(!rt.is_locked());
    assert_eq!(rt.memory_limit(), Some(0xFFFF));
    assert_eq!(rt.gc_threshold(), Some(0xFF));
}

#[test]
fn failed_context_allocation_leaves_holders_alone() {
    let mut rt = fresh();
    Context::request(&mut rt);
    assert!(rt.is_locked());
    assert_eq!(Context::new(&mut rt, 0).unwrap_err(), Error::Allocation);
    assert!(!rt.is_locked());
    assert_eq!(rt.pending(), None);
    assert_eq!(rt.holders(), 1);
}

#[test]
fn runtime_outlives_its_context() {
    let mut rt = fresh();
    Context::request(&mut rt);
    let ctx = Context::new(&mut rt, CONTEXT).unwrap();

    // The handle goes first: nothing is freed.
    rt.release();
    assert_eq!(rt.holders(), 1);
    assert_eq!(rt.pending(), None);
    assert!(!rt.is_freed());

    // Then the context: its own free comes first.
    ctx.release(&mut rt);
    assert_eq!(
        rt.pending(),
        Some(&NativeCall::FreeContext { rt: HANDLE, ctx: CONTEXT })
    );
    assert!(!rt.is_freed());
    rt.complete();

    // Only now is the interpreter's free due.
    assert_eq!(rt.holders(), 0);
    assert!(rt.is_locked());
    assert_eq!(rt.pending(), Some(&NativeCall::FreeRuntime { rt: HANDLE }));
    assert!(!rt.is_freed());
    rt.complete();
    assert!(rt.is_freed());
    assert!(!rt.is_locked());
    assert_eq!(rt.pending(), None);
}

#[test]
fn context_dropped_before_handle_frees_only_itself() {
    let mut rt = fresh();
    Context::request(&mut rt);
    let ctx = Context::new(&mut rt, CONTEXT).unwrap();
    ctx.release(&mut rt);
    rt.complete();
    assert_eq!(rt.holders(), 1);
    assert_eq!(rt.pending(), None);
    assert!(!rt.is_locked());
    assert!(!rt.is_freed());
    rt.release();
    assert_eq!(rt.pending(), Some(&NativeCall::FreeRuntime { rt: HANDLE }));
    rt.complete();
    assert!(rt.is_freed());
}

#[test]
fn last_handle_frees_the_interpreter_once() {
    let mut rt = fresh();
    rt.retain();
    assert_eq!(rt.holders(), 2);
    rt.release();
    assert_eq!(rt.holders(), 1);
    assert_eq!(rt.pending(), None);
    rt.release();
    assert_eq!(rt.holders(), 0);
    assert_eq!(rt.pending(), Some(&NativeCall::FreeRuntime { rt: HANDLE }));
    rt.complete();
    assert!(rt.is_freed());
    assert_eq!(rt.pending(), None);
    assert_eq!(rt.holders(), 0);
}

#[test]
fn two_contexts_share_one_runtime() {
    let mut rt = fresh();
    Context::request(&mut rt);
    let a = Context::new(&mut rt, CONTEXT).unwrap();
    Context::request(&mut rt);
    let b = Context::new(&mut rt, CONTEXT + 8).unwrap();
    assert_eq!(rt.holders(), 3);
    rt.release();
    a.release(&mut rt);
    rt.complete();
    assert_eq!(rt.holders(), 1);
    assert_eq!(rt.pending(), None);
    b.release(&mut rt);
    assert_eq!(
        rt.pending(),
        Some(&NativeCall::FreeContext { rt: HANDLE, ctx: CONTEXT + 8 })
    );
    rt.complete();
    assert_eq!(rt.pending(), Some(&NativeCall::FreeRuntime { rt: HANDLE }));
}
