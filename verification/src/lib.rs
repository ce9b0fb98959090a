//! A syscall-virtualization bridge: sandboxed guest code issues POSIX-like
//! operations, and this library assembles, checks and routes them towards an
//! external emulation backend that manages isolated execution contexts
//! ("cages").
//!
//! The library owns the syscall numbering namespace, the fixed-arity
//! argument-marshalling scheme, the guest-memory address translator, the
//! cage/thread/process lifecycle protocol, and the guest-facing entry points
//! that assemble and dispatch calls.  The backend itself is outside this
//! library: every operation here returns the exact backend invocation to
//! perform as a `BackendOp` value, so a caller (or a substitute backend in a
//! test) carries it out and hands any outcome back to the guest.

pub mod app_create;
pub mod app_info;
pub mod app_list;
pub mod app_util;
pub mod backend;
pub mod dispatch;
pub mod entry;
pub mod lifecycle;
pub mod memory;
pub mod package_cmd;
pub mod package_wait;
pub mod syscall_ids;
pub mod wast;
