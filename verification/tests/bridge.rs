//! Scenarios for the bridge core: the lifecycle protocol, the dispatch
//! adapter, the address translator and the guest-facing entry points, driven
//! against an in-memory substitute backend.

use lind_bridge::backend::{wire_word, BackendOp};
use lind_bridge::dispatch::{assemble_call, BridgeCall, CageId, RustArg, BLANKARG};
use lind_bridge::entry::{check_admission, dispatch, lind_syscall, lind_syscall_inner, lind_write, lind_write_inner};
use lind_bridge::lifecycle::{
    lind_lindrustfinalize, lind_lindrustinit, lind_rustposix_thread_init, BridgeEngine, BridgeFault,
};
use lind_bridge::memory::{translate, GuestMemoryView};
use lind_bridge::syscall_ids::{
    syscall_in_namespace, LIND_SAFE_FS_CLOSE, LIND_SAFE_FS_OPEN, LIND_SAFE_FS_WRITE,
    LIND_SAFE_SYS_EXIT,
};

/// One write the substitute backend carried out: which cage, which
/// descriptor, and the bytes themselves.
#[derive(Debug, Clone, PartialEq, Eq)]
struct RecordedWrite {
    cageid: u64,
    fd: i32,
    bytes: Vec<u8>,
}

/// An in-memory substitute for the emulation backend.  Guest memory is
/// modelled as a byte vector whose host base address is 0, so a translated
/// host pointer is an index into the vector.
#[derive(Default)]
struct SubstituteBackend {
    guest_memory: Vec<u8>,
    init_calls: Vec<i32>,
    finalize_calls: usize,
    register_calls: Vec<(u64, u64)>,
    writes: Vec<RecordedWrite>,
    dispatches: Vec<BridgeCall>,
}

impl SubstituteBackend {
    fn with_guest_memory(bytes: &[u8]) -> Self {
        SubstituteBackend { guest_memory: bytes.to_vec(), ..Default::default() }
    }

    fn memory_view(&self) -> GuestMemoryView {
        GuestMemoryView::new(0, self.guest_memory.len() as u64)
    }

    fn perform(&mut self, op: &BackendOp) {
        match op {
            BackendOp::Init { verbosity } => self.init_calls.push(*verbosity),
            BackendOp::Finalize => self.finalize_calls += 1,
            BackendOp::ThreadRegister { cageid, signalflag } => {
                self.register_calls.push((cageid.0, *signalflag))
            }
            BackendOp::FastWrite { fd, buf, count, cageid } => {
                let start = *buf as usize;
                let bytes = self.guest_memory[start..start + count].to_vec();
                self.writes.push(RecordedWrite { cageid: cageid.0, fd: *fd, bytes });
            }
            BackendOp::Dispatch { call } => self.dispatches.push(*call),
            BackendOp::GenericSyscall { call, .. } => self.dispatches.push(*call),
        }
    }

    /// Everything written to one descriptor of one cage, concatenated.
    fn output_of(&self, cageid: u64, fd: i32) -> Vec<u8> {
        let mut out = Vec::new();
        for w in &self.writes {
            if w.cageid == cageid && w.fd == fd {
                out.extend_from_slice(&w.bytes);
            }
        }
        out
    }
}

fn initialized_engine_with_thread(thread: u64, cage: u64) -> BridgeEngine {
    let mut engine = BridgeEngine::new();
    lind_lindrustinit(&mut engine, 0).unwrap();
    lind_rustposix_thread_init(&mut engine, thread, CageId(cage), 0).unwrap();
    engine
}

#[test]
fn translate_is_base_plus_offset() {
    assert_eq!(translate(1000, 24), 1024);
    assert_eq!(translate(0, 0), 0);
    let mem = GuestMemoryView::new(4096, 65536);
    assert!(mem.contains(24));
    assert!(!mem.contains(65536));
    assert_eq!(mem.translate(24), 4120);
}

#[test]
fn retranslate_after_growth_differs() {
    let before = GuestMemoryView::new(4096, 65536);
    let after = GuestMemoryView::new(1 << 20, 2 * 65536);
    assert_ne!(before.translate(24), after.translate(24));
}

#[test]
fn adapter_pads_missing_slots_with_sentinel() {
    let args = vec![RustArg::Int(5), RustArg::CBuf(4096), RustArg::SizeT(13)];
    let call = assemble_call(CageId(7), LIND_SAFE_FS_WRITE, &args);
    assert_eq!(call.cageid, CageId(7));
    assert_eq!(call.callnum, LIND_SAFE_FS_WRITE);
    assert_eq!(call.arg1, RustArg::Int(5));
    assert_eq!(call.arg2, RustArg::CBuf(4096));
    assert_eq!(call.arg3, RustArg::SizeT(13));
    assert_eq!(call.arg4, RustArg::Blank);
    assert_eq!(call.arg5, RustArg::Blank);
    assert_eq!(call.arg6, RustArg::Blank);
}

#[test]
fn adapter_keeps_all_six_arguments() {
    let args = vec![
        RustArg::Int(1),
        RustArg::Int(2),
        RustArg::Int(3),
        RustArg::Int(4),
        RustArg::Int(5),
        RustArg::Int(6),
    ];
    let call = assemble_call(CageId(1), LIND_SAFE_FS_OPEN, &args);
    assert_eq!(call.arg6, RustArg::Int(6));
    assert_eq!(call.arg1, RustArg::Int(1));
}

#[test]
fn adapter_zero_arity_is_all_sentinel() {
    let call = assemble_call(CageId(3), LIND_SAFE_SYS_EXIT, &Vec::new());
    assert_eq!(call.arg1, BLANKARG);
    assert_eq!(call.arg2, BLANKARG);
    assert_eq!(call.arg3, BLANKARG);
    assert_eq!(call.arg4, BLANKARG);
    assert_eq!(call.arg5, BLANKARG);
    assert_eq!(call.arg6, BLANKARG);
}

#[test]
fn wire_words_carry_values_and_a_zero_sentinel() {
    assert_eq!(wire_word(&RustArg::Ulong(0o644)), 0o644);
    assert_eq!(wire_word(&RustArg::Blank), 0);
}

#[test]
fn dispatch_before_init_is_a_fault() {
    let engine = BridgeEngine::new();
    let r = dispatch(&engine, 1, CageId(1), LIND_SAFE_FS_WRITE, &Vec::new());
    assert_eq!(r, Err(BridgeFault::NotInitialized));
}

#[test]
fn dispatch_after_finalize_is_a_fault() {
    let mut engine = initialized_engine_with_thread(1, 1);
    lind_lindrustfinalize(&mut engine).unwrap();
    let r = dispatch(&engine, 1, CageId(1), LIND_SAFE_FS_WRITE, &Vec::new());
    assert_eq!(r, Err(BridgeFault::AlreadyFinalized));
}

#[test]
fn dispatch_on_unregistered_thread_is_a_fault() {
    let mut engine = BridgeEngine::new();
    lind_lindrustinit(&mut engine, 0).unwrap();
    let r = dispatch(&engine, 1, CageId(1), LIND_SAFE_FS_WRITE, &Vec::new());
    assert_eq!(r, Err(BridgeFault::ThreadNotRegistered));
}

#[test]
fn dispatch_for_another_cage_than_registered_is_a_fault() {
    let engine = initialized_engine_with_thread(1, 1);
    let r = dispatch(&engine, 1, CageId(2), LIND_SAFE_FS_WRITE, &Vec::new());
    assert_eq!(r, Err(BridgeFault::ThreadNotRegistered));
    assert_eq!(check_admission(&engine, 1, CageId(2)), Some(BridgeFault::ThreadNotRegistered));
    assert_eq!(check_admission(&engine, 1, CageId(1)), None);
}

#[test]
fn dispatch_outside_namespace_is_a_fault() {
    let engine = initialized_engine_with_thread(1, 1);
    assert!(!syscall_in_namespace(3));
    let r = dispatch(&engine, 1, CageId(1), 3, &Vec::new());
    assert_eq!(r, Err(BridgeFault::UnknownSyscall));
    let r = dispatch(&engine, 1, CageId(1), 200, &Vec::new());
    assert_eq!(r, Err(BridgeFault::UnknownSyscall));
}

#[test]
fn double_init_is_a_fault() {
    let mut engine = BridgeEngine::new();
    lind_lindrustinit(&mut engine, 0).unwrap();
    assert_eq!(lind_lindrustinit(&mut engine, 0), Err(BridgeFault::AlreadyInitialized));
}

#[test]
fn init_after_finalize_is_a_fault() {
    let mut engine = BridgeEngine::new();
    lind_lindrustinit(&mut engine, 0).unwrap();
    lind_lindrustfinalize(&mut engine).unwrap();
    assert_eq!(lind_lindrustinit(&mut engine, 0), Err(BridgeFault::AlreadyFinalized));
    assert_eq!(lind_lindrustfinalize(&mut engine), Err(BridgeFault::AlreadyFinalized));
}

#[test]
fn finalize_before_init_is_a_fault() {
    let mut engine = BridgeEngine::new();
    assert_eq!(lind_lindrustfinalize(&mut engine), Err(BridgeFault::NotInitialized));
}

#[test]
fn thread_registration_before_init_is_a_fault() {
    let mut engine = BridgeEngine::new();
    let r = lind_rustposix_thread_init(&mut engine, 1, CageId(1), 0);
    assert_eq!(r, Err(BridgeFault::NotInitialized));
}

#[test]
fn second_registration_of_a_thread_is_a_fault() {
    let mut engine = initialized_engine_with_thread(1, 1);
    let r = lind_rustposix_thread_init(&mut engine, 1, CageId(2), 0);
    assert_eq!(r, Err(BridgeFault::ThreadAlreadyRegistered));
}

#[test]
fn fast_write_before_registration_is_a_fault() {
    let mut engine = BridgeEngine::new();
    lind_lindrustinit(&mut engine, 0).unwrap();
    let r = lind_write_inner(&engine, 1, 1, 0, 13, CageId(1));
    assert_eq!(r, Err(BridgeFault::ThreadNotRegistered));
}

#[test]
fn hello_world_fast_write_reaches_backend_once() {
    let mut backend = SubstituteBackend::with_guest_memory(b"Hello, world!");
    let mut engine = BridgeEngine::new();

    let op = lind_lindrustinit(&mut engine, 0).unwrap();
    backend.perform(&op);
    let op = lind_rustposix_thread_init(&mut engine, 1, CageId(1), 0).unwrap();
    backend.perform(&op);

    let mem = backend.memory_view();
    let op = lind_write(&engine, 1, &mem, 1, 0, 13, CageId(1)).unwrap();
    backend.perform(&op);

    assert_eq!(backend.init_calls, vec![0]);
    assert_eq!(backend.register_calls, vec![(1, 0)]);
    assert_eq!(backend.writes.len(), 1);
    assert_eq!(backend.writes[0].cageid, 1);
    assert_eq!(backend.writes[0].fd, 1);
    assert_eq!(backend.writes[0].bytes, b"Hello, world!".to_vec());

    let op = lind_lindrustfinalize(&mut engine).unwrap();
    backend.perform(&op);
    assert_eq!(backend.finalize_calls, 1);
}

#[test]
fn generic_syscall_open_pads_slots_four_to_six() {
    let engine = initialized_engine_with_thread(1, 1);
    let args = vec![4096u64, 0o102u64, 0o644u64];
    let r = lind_syscall_inner(&engine, 1, CageId(1), LIND_SAFE_FS_OPEN as u32, 77, 4096, &args);
    match r {
        Ok(BackendOp::GenericSyscall { call, callname, memory_base }) => {
            assert_eq!(call.cageid, CageId(1));
            assert_eq!(call.callnum, LIND_SAFE_FS_OPEN);
            assert_eq!(call.arg1, RustArg::Ulong(4096));
            assert_eq!(call.arg2, RustArg::Ulong(0o102));
            assert_eq!(call.arg3, RustArg::Ulong(0o644));
            assert_eq!(call.arg4, RustArg::Blank);
            assert_eq!(call.arg5, RustArg::Blank);
            assert_eq!(call.arg6, RustArg::Blank);
            assert_eq!(callname, 77);
            assert_eq!(memory_base, 4096);
        }
        other => panic!("expected a generic syscall, got {other:?}"),
    }
}

#[test]
fn generic_syscall_resolves_base_from_the_view() {
    let engine = initialized_engine_with_thread(1, 1);
    let mem = GuestMemoryView::new(1 << 16, 4096);
    let args = vec![1u64, 2u64];
    let r = lind_syscall(&engine, 1, CageId(1), LIND_SAFE_FS_OPEN as u32, 9, &mem, &args);
    match r {
        Ok(BackendOp::GenericSyscall { memory_base, .. }) => assert_eq!(memory_base, 1 << 16),
        other => panic!("expected a generic syscall, got {other:?}"),
    }
}

#[test]
fn generic_syscall_outside_namespace_is_a_fault() {
    let engine = initialized_engine_with_thread(1, 1);
    let r = lind_syscall_inner(&engine, 1, CageId(1), 3, 0, 0, &Vec::new());
    assert_eq!(r, Err(BridgeFault::UnknownSyscall));
    let r = lind_syscall_inner(&engine, 1, CageId(1), u32::MAX, 0, 0, &Vec::new());
    assert_eq!(r, Err(BridgeFault::UnknownSyscall));
}

#[test]
fn two_cages_never_see_each_others_writes() {
    let mut backend = SubstituteBackend::with_guest_memory(b"first!second");
    let mut engine = BridgeEngine::new();
    backend.perform(&lind_lindrustinit(&mut engine, 0).unwrap());
    backend.perform(&lind_rustposix_thread_init(&mut engine, 11, CageId(1), 0).unwrap());
    backend.perform(&lind_rustposix_thread_init(&mut engine, 22, CageId(2), 0).unwrap());

    // Interleave writes to the same nominal resource, descriptor 1, from the
    // two threads driving their two cages.
    let mem = backend.memory_view();
    backend.perform(&lind_write(&engine, 11, &mem, 1, 0, 6, CageId(1)).unwrap());
    backend.perform(&lind_write(&engine, 22, &mem, 1, 6, 6, CageId(2)).unwrap());
    backend.perform(&lind_write(&engine, 11, &mem, 1, 5, 1, CageId(1)).unwrap());

    assert_eq!(backend.output_of(1, 1), b"first!!".to_vec());
    assert_eq!(backend.output_of(2, 1), b"second".to_vec());
    // Neither cage's descriptor 1 carries anything of the other cage's.
    assert!(!backend.output_of(1, 1).windows(6).any(|w| w == b"second"));
    assert!(!backend.output_of(2, 1).windows(5).any(|w| w == b"first"));
}

#[test]
fn dispatch_carries_cage_and_syscall_exactly() {
    let mut backend = SubstituteBackend::default();
    let engine = initialized_engine_with_thread(5, 9);
    let args = vec![RustArg::Int(3)];
    let op = dispatch(&engine, 5, CageId(9), LIND_SAFE_FS_CLOSE, &args).unwrap();
    backend.perform(&op);
    assert_eq!(backend.dispatches.len(), 1);
    assert_eq!(backend.dispatches[0].cageid, CageId(9));
    assert_eq!(backend.dispatches[0].callnum, LIND_SAFE_FS_CLOSE);
    assert_eq!(backend.dispatches[0].arg1, RustArg::Int(3));
    assert_eq!(backend.dispatches[0].arg2, RustArg::Blank);
}
