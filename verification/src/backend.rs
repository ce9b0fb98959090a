//! The interface to the emulation backend.
//!
//! The backend is an external engine reached through six fixed entry points.
//! This library never invokes it directly: each bridge operation instead
//! returns the exact invocation to perform as a [`BackendOp`] value.  The
//! caller that owns the real backend carries the operation out; a test can
//! hand the same values to an in-memory substitute backend instead.  Any
//! outcome the backend produces is returned to the guest by that caller over
//! an explicit result channel, never swallowed.

use vstd::prelude::*;

use crate::dispatch::{BridgeCall, CageId, RustArg};

verus! {

/// One invocation of the backend, ready to perform.  The variants mirror the
/// backend's six fixed native entry points.
#[derive(Clone, Copy, PartialEq, Eq, Structural, Debug)]
pub enum BackendOp {
    /// Process-wide initialization of the backend, with a verbosity level.
    Init { verbosity: i32 },
    /// Process-wide teardown of the backend.
    Finalize,
    /// Registration of the calling OS thread as the issuer of syscalls for
    /// one cage, with its signal-delivery flag.
    ThreadRegister { cageid: CageId, signalflag: u64 },
    /// A numbered syscall through the fixed six-slot dispatcher.
    Dispatch { call: BridgeCall },
    /// The fast-path write transport: `count` bytes at the translated host
    /// address `buf`, written to descriptor `fd` of the cage.
    FastWrite { fd: i32, buf: u64, count: usize, cageid: CageId },
    /// A numbered syscall through the generic raw-word entry point, which
    /// additionally carries a 64-bit identifier derived from the operation's
    /// symbolic name and the guest memory's current base address.
    GenericSyscall { call: BridgeCall, callname: u64, memory_base: u64 },
}

/// The raw 64-bit word that an argument slot of the generic syscall entry
/// point carries on the wire: the value itself for a raw-word argument, and
/// zero for the sentinel.
pub open spec fn spec_wire_word(a: RustArg) -> u64 {
    match a {
        RustArg::Ulong(w) => w,
        _ => 0,
    }
}

/// Lowers one argument slot of a generic syscall to the raw 64-bit word that
/// crosses into native code.  The generic entry point only produces raw-word
/// and sentinel slots, so only those are accepted here.
pub fn wire_word(a: &RustArg) -> (w: u64)
    requires
        a is Ulong || a is Blank,
    ensures
        w == spec_wire_word(*a),
{
    match a {
        RustArg::Ulong(v) => *v,
        _ => 0,
    }
}

} // verus!
