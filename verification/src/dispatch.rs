//! Argument encoding and the fixed-arity dispatch adapter.
//!
//! Every backend invocation presents exactly six argument slots.  A caller
//! supplies between zero and six real arguments; the adapter right-pads the
//! missing positions with the zero-valued sentinel [`RustArg::Blank`] and
//! performs no validation beyond that — which native form occupies which slot
//! is agreed between caller and backend per syscall id, never signalled at
//! run time.

use vstd::prelude::*;

verus! {

/// An opaque identity for a cage, the isolated process-like execution
/// context that the emulation backend manages.
///
/// The bridge never inspects cage-internal state; it only threads the id
/// through every call.  The dedicated handle type keeps a cage id from being
/// mixed up with the other 64-bit quantities that travel alongside it.
#[derive(Clone, Copy, PartialEq, Eq, Structural, Debug)]
pub struct CageId(pub u64);

/// One argument slot of a backend call.
///
/// The backend's native entry point takes a discriminant-free union with one
/// field per representable shape; this carrier keeps the same shapes but tags
/// the active one, so that producing or reading the wrong field is
/// impossible inside the library.  Pointer-shaped arguments hold an already
/// translated host address.  Exactly which variant a slot must carry for a
/// given syscall id and position is part of the wire contract with the
/// backend and is not checked here.
#[derive(Clone, Copy, PartialEq, Eq, Structural, Debug)]
pub enum RustArg {
    /// The zero-valued sentinel: this slot is unused for the call's arity.
    Blank,
    /// A signed 32-bit integer (descriptors, flags, modes).
    Int(i32),
    /// An unsigned 32-bit integer.
    Uint(u32),
    /// A signed 64-bit integer.
    Long(i64),
    /// An unsigned 64-bit integer.
    Ulong(u64),
    /// A size-class integer.
    SizeT(usize),
    /// A signed size-class integer.
    SsizeT(isize),
    /// A file offset.
    OffT(i64),
    /// A socket address length.
    SockLenT(u32),
    /// A host address of a mutable socket-length cell.
    SockLenPtr(u64),
    /// A host address of a read-only byte buffer.
    CBuf(u64),
    /// A host address of a writable byte buffer.
    MutCBuf(u64),
    /// A host address of a NUL-terminated string.
    CStr(u64),
    /// A host address of an array of NUL-terminated strings.
    CStrArr(u64),
    /// A host address of a mutable 32-bit cell (for out-parameters).
    IntPtr(u64),
    /// A host address of a resource-limit record.
    RlimitPtr(u64),
    /// A host address of a filesystem-statistics record.
    StatFsPtr(u64),
    /// A host address of a time-value record.
    TimeValPtr(u64),
    /// A host address of a timespec record.
    TimeSpecPtr(u64),
    /// A host address of a mutable socket-address record.
    SockAddrPtr(u64),
    /// A host address of a read-only socket-address record.
    ConstSockAddrPtr(u64),
    /// A host address of a two-element pipe descriptor array.
    PipeArrayPtr(u64),
    /// A host address of a mutable interval-timer record.
    ItimervalPtr(u64),
    /// A host address of a read-only interval-timer record.
    ConstItimervalPtr(u64),
    /// A host address of a descriptor set.
    FdSetPtr(u64),
}

/// The zero-valued sentinel that pads unused argument slots.
pub const BLANKARG: RustArg = RustArg::Blank;

/// The per-invocation tuple handed to the backend's fixed-arity entry point:
/// the cage on whose behalf the call runs, the syscall id, and exactly six
/// argument slots.  A `BridgeCall` is constructed fresh for each call and
/// never retained.
#[derive(Clone, Copy, PartialEq, Eq, Structural, Debug)]
pub struct BridgeCall {
    /// The cage on whose behalf the call is made.
    pub cageid: CageId,
    /// The identifier of the requested operation.
    pub callnum: i32,
    pub arg1: RustArg,
    pub arg2: RustArg,
    pub arg3: RustArg,
    pub arg4: RustArg,
    pub arg5: RustArg,
    pub arg6: RustArg,
}

impl BridgeCall {
    /// The six argument slots, in call order.
    pub open spec fn slots(&self) -> Seq<RustArg> {
        seq![self.arg1, self.arg2, self.arg3, self.arg4, self.arg5, self.arg6]
    }
}

/// Whether the six `slots` are exactly the caller's `args` in order,
/// right-padded with the sentinel: for an arity of `n`, the first `n` slots
/// are the real arguments and the remaining `6 - n` slots all equal
/// [`RustArg::Blank`].
pub open spec fn spec_padded(slots: Seq<RustArg>, args: Seq<RustArg>) -> bool {
    &&& slots.len() == 6
    &&& forall|i: int| 0 <= i < args.len() ==> slots[i] == args[i]
    &&& forall|i: int| args.len() <= i < 6 ==> slots[i] == RustArg::Blank
}

/// The dispatch adapter: normalizes a call of arity 0 to 6 into the
/// backend's fixed six-slot shape, right-padding the missing positions with
/// the sentinel.  It performs no validation of argument shapes — it only
/// pads and forwards.
pub fn assemble_call(cageid: CageId, callnum: i32, args: &Vec<RustArg>) -> (c: BridgeCall)
    requires
        args@.len() <= 6,
    ensures
        c.cageid == cageid,
        c.callnum == callnum,
        spec_padded(c.slots(), args@),
{
    let arg1 = if args.len() > 0 { args[0] } else { RustArg::Blank };
    let arg2 = if args.len() > 1 { args[1] } else { RustArg::Blank };
    let arg3 = if args.len() > 2 { args[2] } else { RustArg::Blank };
    let arg4 = if args.len() > 3 { args[3] } else { RustArg::Blank };
    let arg5 = if args.len() > 4 { args[4] } else { RustArg::Blank };
    let arg6 = if args.len() > 5 { args[5] } else { RustArg::Blank };
    BridgeCall { cageid, callnum, arg1, arg2, arg3, arg4, arg5, arg6 }
}

} // verus!
