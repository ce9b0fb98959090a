//! The guest-facing entry points and the dispatch path.
//!
//! These are the functions a sandboxed module reaches: a fast-path write
//! call that bypasses the general numbered-dispatch path for the common
//! case, and a generic numbered-syscall call.  Both assemble the call,
//! perform address translation against a fresh view of guest memory, hold
//! the call to the lifecycle protocol, and yield the backend invocation to
//! perform.  A call that the protocol rejects comes back as a
//! [`BridgeFault`] on the explicit result channel — it never reaches the
//! backend and is never silently swallowed.

use vstd::prelude::*;

use crate::backend::BackendOp;
use crate::dispatch::{assemble_call, spec_padded, CageId, RustArg};
use crate::lifecycle::{BridgeEngine, BridgeFault};
use crate::memory::GuestMemoryView;
use crate::syscall_ids::{spec_syscall_in_namespace, syscall_in_namespace};

verus! {

/// The fault with which the lifecycle protocol rejects a dispatch by
/// `host_thread` on behalf of `cageid` in the engine's current state, or
/// `None` when the protocol admits the dispatch: the engine must be
/// initialized and not yet finalized, and the thread must have completed
/// registration for the target cage.
pub open spec fn spec_admission_fault(e: BridgeEngine, host_thread: u64, cageid: CageId) -> Option<
    BridgeFault,
> {
    if e.spec_state() is Uninitialized {
        Some(BridgeFault::NotInitialized)
    } else if e.spec_state() is Finalized {
        Some(BridgeFault::AlreadyFinalized)
    } else if !e.spec_registered_for(host_thread, cageid) {
        Some(BridgeFault::ThreadNotRegistered)
    } else {
        None
    }
}

/// Checks whether the lifecycle protocol admits a dispatch by
/// `host_thread` on behalf of `cageid`: the bridge fault that applies, or
/// `None` when the dispatch may proceed.
pub fn check_admission(e: &BridgeEngine, host_thread: u64, cageid: CageId) -> (r: Option<BridgeFault>)
    requires
        e.wf(),
    ensures
        r == spec_admission_fault(*e, host_thread, cageid),
{
    if !e.is_initialized() {
        if e.is_finalized() {
            Some(BridgeFault::AlreadyFinalized)
        } else {
            Some(BridgeFault::NotInitialized)
        }
    } else {
        match e.registration_of(host_thread) {
            Some(reg) => {
                if reg.cageid == cageid {
                    None
                } else {
                    proof {
                        e.lemma_registration_unique(host_thread);
                    }
                    Some(BridgeFault::ThreadNotRegistered)
                }
            },
            None => Some(BridgeFault::ThreadNotRegistered),
        }
    }
}

/// Dispatches a numbered syscall with 0 to 6 caller-supplied arguments
/// through the fixed-arity adapter, under the lifecycle protocol.
///
/// When the protocol admits the call and the syscall id belongs to the
/// namespace, the result is the backend dispatcher invocation carrying the
/// cage id, the syscall id, and the arguments right-padded with the
/// sentinel.  Otherwise the call comes back with the applicable fault and
/// nothing reaches the backend.
pub fn dispatch(
    e: &BridgeEngine,
    host_thread: u64,
    cageid: CageId,
    callnum: i32,
    args: &Vec<RustArg>,
) -> (r: Result<BackendOp, BridgeFault>)
    requires
        e.wf(),
        args@.len() <= 6,
    ensures
        match spec_admission_fault(*e, host_thread, cageid) {
            Some(fault) => r == Err::<BackendOp, BridgeFault>(fault),
            None => if !spec_syscall_in_namespace(callnum) {
                r == Err::<BackendOp, BridgeFault>(BridgeFault::UnknownSyscall)
            } else {
                r matches Ok(op) && op matches BackendOp::Dispatch { call } && {
                    &&& call.cageid == cageid
                    &&& call.callnum == callnum
                    &&& spec_padded(call.slots(), args@)
                }
            },
        },
{
    match check_admission(e, host_thread, cageid) {
        Some(fault) => Err(fault),
        None => {
            if !syscall_in_namespace(callnum) {
                Err(BridgeFault::UnknownSyscall)
            } else {
                let call = assemble_call(cageid, callnum, args);
                Ok(BackendOp::Dispatch { call })
            }
        },
    }
}

/// The inner fast-path write: `count` bytes at the already translated host
/// address `buf`, written to descriptor `fd` on behalf of cage `cageid`.
/// Held to the lifecycle protocol; on success it yields the backend's
/// fast-write invocation with exactly those values.
pub fn lind_write_inner(
    e: &BridgeEngine,
    host_thread: u64,
    fd: i32,
    buf: u64,
    count: usize,
    cageid: CageId,
) -> (r: Result<BackendOp, BridgeFault>)
    requires
        e.wf(),
    ensures
        match spec_admission_fault(*e, host_thread, cageid) {
            Some(fault) => r == Err::<BackendOp, BridgeFault>(fault),
            None => r == Ok::<BackendOp, BridgeFault>(
                BackendOp::FastWrite { fd, buf, count, cageid },
            ),
        },
{
    match check_admission(e, host_thread, cageid) {
        Some(fault) => Err(fault),
        None => Ok(BackendOp::FastWrite { fd, buf, count, cageid }),
    }
}

/// The guest-facing fast-path write entry point: translates the guest
/// buffer offset against a fresh view of guest memory and issues the
/// fast-path write for it.
///
/// The caller must have validated the buffer as lying within the view —
/// bounds validation belongs to the primitive that supplied the view, not
/// to the translator.  The view must be taken fresh for this call: a stale
/// base would translate to a dangling host address.
pub fn lind_write(
    e: &BridgeEngine,
    host_thread: u64,
    mem: &GuestMemoryView,
    fd: i32,
    buf_offset: u64,
    count: usize,
    cageid: CageId,
) -> (r: Result<BackendOp, BridgeFault>)
    requires
        e.wf(),
        mem.wf(),
        buf_offset + count <= mem.size,
    ensures
        match spec_admission_fault(*e, host_thread, cageid) {
            Some(fault) => r == Err::<BackendOp, BridgeFault>(fault),
            None => r == Ok::<BackendOp, BridgeFault>(
                BackendOp::FastWrite { fd, buf: (mem.base + buf_offset) as u64, count, cageid },
            ),
        },
{
    let buf = mem.translate(buf_offset);
    lind_write_inner(e, host_thread, fd, buf, count, cageid)
}

/// Whether the raw 32-bit call number names an operation of the syscall
/// namespace.
pub open spec fn spec_call_number_in_namespace(call_number: u32) -> bool {
    call_number <= i32::MAX && spec_syscall_in_namespace(call_number as i32)
}

/// The inner generic syscall: a numbered operation with up to six raw
/// 64-bit arguments and an already resolved guest-memory base address.
///
/// Held to the lifecycle protocol and the namespace.  On success the
/// adapter wraps each raw word as a raw-word argument slot, right-pads with
/// the sentinel, and the result is the backend's generic entry invocation
/// carrying the assembled call, the 64-bit name identifier, and the memory
/// base.
pub fn lind_syscall_inner(
    e: &BridgeEngine,
    host_thread: u64,
    cageid: CageId,
    call_number: u32,
    call_name: u64,
    start_address: u64,
    args: &Vec<u64>,
) -> (r: Result<BackendOp, BridgeFault>)
    requires
        e.wf(),
        args@.len() <= 6,
    ensures
        match spec_admission_fault(*e, host_thread, cageid) {
            Some(fault) => r == Err::<BackendOp, BridgeFault>(fault),
            None => if !spec_call_number_in_namespace(call_number) {
                r == Err::<BackendOp, BridgeFault>(BridgeFault::UnknownSyscall)
            } else {
                r matches Ok(op) && op matches BackendOp::GenericSyscall {
                    call,
                    callname,
                    memory_base,
                } && {
                    &&& call.cageid == cageid
                    &&& call.callnum == call_number as i32
                    &&& spec_padded(call.slots(), args@.map_values(|w: u64| RustArg::Ulong(w)))
                    &&& callname == call_name
                    &&& memory_base == start_address
                }
            },
        },
{
    match check_admission(e, host_thread, cageid) {
        Some(fault) => Err(fault),
        None => {
            if call_number > (i32::MAX as u32) || !syscall_in_namespace(call_number as i32) {
                Err(BridgeFault::UnknownSyscall)
            } else {
                let mut wrapped: Vec<RustArg> = Vec::new();
                let n = args.len();
                let mut k: usize = 0;
                while k < n
                    invariant
                        n == args@.len(),
                        0 <= k <= n,
                        wrapped@ =~= args@.map_values(|w: u64| RustArg::Ulong(w)).subrange(
                            0,
                            k as int,
                        ),
                    decreases n - k,
                {
                    wrapped.push(RustArg::Ulong(args[k]));
                    k = k + 1;
                }
                proof {
                    assert(wrapped@ =~= args@.map_values(|w: u64| RustArg::Ulong(w)));
                }
                let call = assemble_call(cageid, call_number as i32, &wrapped);
                Ok(
                    BackendOp::GenericSyscall {
                        call,
                        callname: call_name,
                        memory_base: start_address,
                    },
                )
            }
        },
    }
}

/// The guest-facing generic syscall entry point: resolves the guest
/// memory's current base address from a fresh view and issues the numbered
/// call through the inner generic path.
///
/// The view must be taken fresh for every call — a prior growth or
/// relocation of guest memory invalidates any previously computed base.
pub fn lind_syscall(
    e: &BridgeEngine,
    host_thread: u64,
    cageid: CageId,
    call_number: u32,
    call_name: u64,
    mem: &GuestMemoryView,
    args: &Vec<u64>,
) -> (r: Result<BackendOp, BridgeFault>)
    requires
        e.wf(),
        mem.wf(),
        args@.len() <= 6,
    ensures
        match spec_admission_fault(*e, host_thread, cageid) {
            Some(fault) => r == Err::<BackendOp, BridgeFault>(fault),
            None => if !spec_call_number_in_namespace(call_number) {
                r == Err::<BackendOp, BridgeFault>(BridgeFault::UnknownSyscall)
            } else {
                r matches Ok(op) && op matches BackendOp::GenericSyscall {
                    call,
                    callname,
                    memory_base,
                } && {
                    &&& call.cageid == cageid
                    &&& call.callnum == call_number as i32
                    &&& spec_padded(call.slots(), args@.map_values(|w: u64| RustArg::Ulong(w)))
                    &&& callname == call_name
                    &&& memory_base == mem.base
                }
            },
        },
{
    lind_syscall_inner(e, host_thread, cageid, call_number, call_name, mem.base, args)
}

} // verus!
