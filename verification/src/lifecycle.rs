//! The cage/thread/process lifecycle protocol.
//!
//! The bridge moves through `Uninitialized -> Initialized -> Finalized`,
//! strictly forward: process-wide initialization happens exactly once before
//! any other bridge operation, finalization exactly once after all of them,
//! and there is no re-entry into `Initialized` after `Finalized`.  In
//! between, every OS thread that will issue syscalls for a cage must first
//! complete a one-time registration for that cage.  Lifecycle misuse —
//! double init, use after finalize, dispatch before registration — is a
//! bridge fault: it is reported fast and loud, never silently swallowed and
//! never retried.
//!
//! The whole protocol state lives in an explicitly constructed
//! [`BridgeEngine`] owned by the embedder, not in ambient global state, so a
//! process (or a test) has exactly one owner serializing init and finalize
//! against all other use.

use vstd::prelude::*;

use crate::backend::BackendOp;
use crate::dispatch::CageId;

verus! {

/// The process-wide lifecycle state of the bridge.
#[derive(Clone, Copy, PartialEq, Eq, Structural, Debug)]
pub enum LifecycleState {
    /// Before process-wide initialization: no bridge operation is valid.
    Uninitialized,
    /// Between init and finalize: the only state in which threads register
    /// and dispatches run.
    Initialized,
    /// After process-wide finalization: every further bridge call is
    /// invalid.
    Finalized,
}

/// A local, fatal-to-the-call fault of the bridge itself, as opposed to a
/// POSIX-style failure emulated inside the backend.  Faults indicate
/// programmer error against the lifecycle or wire contract; they are
/// reported on an explicit channel and the offending call never reaches the
/// backend.
#[derive(Clone, Copy, PartialEq, Eq, Structural, Debug)]
pub enum BridgeFault {
    /// An operation other than init was attempted before process-wide
    /// initialization.
    NotInitialized,
    /// Process-wide initialization was attempted a second time.
    AlreadyInitialized,
    /// An operation was attempted after process-wide finalization.
    AlreadyFinalized,
    /// The calling OS thread attempted a second registration.
    ThreadAlreadyRegistered,
    /// A dispatch was attempted on an OS thread that has not completed
    /// thread-registration for the target cage.
    ThreadNotRegistered,
    /// The syscall id lies outside the namespace.
    UnknownSyscall,
}

/// The completed registration of one OS thread as the issuer of syscalls for
/// one cage.
#[derive(Clone, Copy, PartialEq, Eq, Structural, Debug)]
pub struct ThreadRegistration {
    /// The registered OS thread.
    pub host_thread: u64,
    /// The cage whose syscalls that thread issues.
    pub cageid: CageId,
    /// The signal-delivery flag supplied at registration.
    pub signalflag: u64,
}

/// The explicit, single-owner lifecycle object of the bridge: the
/// process-wide state, the verbosity chosen at initialization, and the
/// per-thread cage registrations.
pub struct BridgeEngine {
    state: LifecycleState,
    verbosity: i32,
    registrations: Vec<ThreadRegistration>,
}

impl BridgeEngine {
    /// The current process-wide lifecycle state.
    pub closed spec fn spec_state(&self) -> LifecycleState {
        self.state
    }

    /// The verbosity level given at initialization.
    pub closed spec fn spec_verbosity(&self) -> int {
        self.verbosity as int
    }

    /// The completed thread registrations, in order of completion.
    pub closed spec fn spec_registrations(&self) -> Seq<ThreadRegistration> {
        self.registrations@
    }

    /// Whether `host_thread` has completed any registration.
    pub open spec fn spec_thread_registered(&self, host_thread: u64) -> bool {
        exists|i: int|
            0 <= i < self.spec_registrations().len()
                && (#[trigger] self.spec_registrations()[i]).host_thread == host_thread
    }

    /// Whether `host_thread` has completed thread-registration for the cage
    /// `cageid`.
    pub open spec fn spec_registered_for(&self, host_thread: u64, cageid: CageId) -> bool {
        exists|i: int|
            0 <= i < self.spec_registrations().len()
                && (#[trigger] self.spec_registrations()[i]) == (ThreadRegistration {
                host_thread,
                cageid,
                signalflag: self.spec_registrations()[i].signalflag,
            })
    }

    /// The engine's internal invariant: an OS thread registers at most once,
    /// and no registration exists before initialization.
    pub open spec fn wf(&self) -> bool {
        &&& forall|i: int, j: int|
            0 <= i < j < self.spec_registrations().len()
                ==> (#[trigger] self.spec_registrations()[i]).host_thread != (
            #[trigger] self.spec_registrations()[j]).host_thread
        &&& self.spec_state() is Uninitialized ==> self.spec_registrations().len() == 0
    }

    /// Constructs a bridge engine that has not yet been initialized.
    pub fn new() -> (e: BridgeEngine)
        ensures
            e.wf(),
            e.spec_state() is Uninitialized,
            e.spec_registrations() =~= Seq::<ThreadRegistration>::empty(),
    {
        BridgeEngine { state: LifecycleState::Uninitialized, verbosity: 0, registrations: Vec::new() }
    }

    /// Whether the engine is currently in the `Initialized` state.
    pub fn is_initialized(&self) -> (b: bool)
        ensures
            b == (self.spec_state() is Initialized),
    {
        match self.state {
            LifecycleState::Initialized => true,
            _ => false,
        }
    }

    /// Whether the engine has been finalized.
    pub fn is_finalized(&self) -> (b: bool)
        ensures
            b == (self.spec_state() is Finalized),
    {
        match self.state {
            LifecycleState::Finalized => true,
            _ => false,
        }
    }

    /// An OS thread registers at most once, so it is registered for at most
    /// one cage.
    pub proof fn lemma_registration_unique(&self, host_thread: u64)
        requires
            self.wf(),
        ensures
            forall|c1: CageId, c2: CageId|
                self.spec_registered_for(host_thread, c1) && self.spec_registered_for(
                    host_thread,
                    c2,
                ) ==> c1 == c2,
    {
        assert forall|c1: CageId, c2: CageId|
            self.spec_registered_for(host_thread, c1) && self.spec_registered_for(
                host_thread,
                c2,
            ) implies c1 == c2 by {
            let regs = self.spec_registrations();
            let i1 = choose|i: int|
                0 <= i < regs.len() && (#[trigger] regs[i]) == (ThreadRegistration {
                    host_thread,
                    cageid: c1,
                    signalflag: regs[i].signalflag,
                });
            let i2 = choose|i: int|
                0 <= i < regs.len() && (#[trigger] regs[i]) == (ThreadRegistration {
                    host_thread,
                    cageid: c2,
                    signalflag: regs[i].signalflag,
                });
            assert(regs[i1].host_thread == regs[i2].host_thread);
            assert(i1 == i2);
        }
    }

    /// Looks up the registration completed by `host_thread`, if any.
    pub fn registration_of(&self, host_thread: u64) -> (r: Option<ThreadRegistration>)
        ensures
            match r {
                Some(reg) => {
                    &&& self.spec_thread_registered(host_thread)
                    &&& reg.host_thread == host_thread
                    &&& self.spec_registered_for(host_thread, reg.cageid)
                },
                None => !self.spec_thread_registered(host_thread),
            },
    {
        let n = self.registrations.len();
        let mut k: usize = 0;
        while k < n
            invariant
                n == self.spec_registrations().len(),
                0 <= k <= n,
                forall|i: int|
                    0 <= i < k ==> (#[trigger] self.spec_registrations()[i]).host_thread
                        != host_thread,
            decreases n - k,
        {
            let reg = self.registrations[k];
            if reg.host_thread == host_thread {
                return Some(reg);
            }
            k = k + 1;
        }
        None
    }
}

/// Process-wide initialization of the backend, valid exactly once, before
/// any other bridge operation.  On the one valid call it moves the engine to
/// `Initialized`, records the verbosity level, and yields the backend's init
/// invocation; any repeated or late call is a fault and changes nothing.
pub fn lind_lindrustinit(e: &mut BridgeEngine, verbosity: i32) -> (r: Result<
    BackendOp,
    BridgeFault,
>)
    requires
        old(e).wf(),
    ensures
        final(e).wf(),
        old(e).spec_state() is Uninitialized ==> {
            &&& r == Ok::<BackendOp, BridgeFault>(BackendOp::Init { verbosity })
            &&& final(e).spec_state() is Initialized
            &&& final(e).spec_verbosity() == verbosity
            &&& final(e).spec_registrations() == old(e).spec_registrations()
        },
        old(e).spec_state() is Initialized ==> r == Err::<BackendOp, BridgeFault>(
            BridgeFault::AlreadyInitialized,
        ) && *final(e) == *old(e),
        old(e).spec_state() is Finalized ==> r == Err::<BackendOp, BridgeFault>(
            BridgeFault::AlreadyFinalized,
        ) && *final(e) == *old(e),
{
    match e.state {
        LifecycleState::Uninitialized => {
            e.state = LifecycleState::Initialized;
            e.verbosity = verbosity;
            Ok(BackendOp::Init { verbosity })
        },
        LifecycleState::Initialized => Err(BridgeFault::AlreadyInitialized),
        LifecycleState::Finalized => Err(BridgeFault::AlreadyFinalized),
    }
}

/// Process-wide finalization of the backend, valid exactly once, after which
/// any further bridge call is invalid.  On the one valid call it moves the
/// engine to `Finalized` and yields the backend's teardown invocation; a
/// call before init or after finalize is a fault and changes nothing.
pub fn lind_lindrustfinalize(e: &mut BridgeEngine) -> (r: Result<BackendOp, BridgeFault>)
    requires
        old(e).wf(),
    ensures
        final(e).wf(),
        old(e).spec_state() is Initialized ==> {
            &&& r == Ok::<BackendOp, BridgeFault>(BackendOp::Finalize)
            &&& final(e).spec_state() is Finalized
            &&& final(e).spec_verbosity() == old(e).spec_verbosity()
            &&& final(e).spec_registrations() == old(e).spec_registrations()
        },
        old(e).spec_state() is Uninitialized ==> r == Err::<BackendOp, BridgeFault>(
            BridgeFault::NotInitialized,
        ) && *final(e) == *old(e),
        old(e).spec_state() is Finalized ==> r == Err::<BackendOp, BridgeFault>(
            BridgeFault::AlreadyFinalized,
        ) && *final(e) == *old(e),
{
    match e.state {
        LifecycleState::Initialized => {
            e.state = LifecycleState::Finalized;
            Ok(BackendOp::Finalize)
        },
        LifecycleState::Uninitialized => Err(BridgeFault::NotInitialized),
        LifecycleState::Finalized => Err(BridgeFault::AlreadyFinalized),
    }
}

/// One-time registration of the OS thread `host_thread` as the issuer of
/// syscalls for cage `cageid`, with its signal-delivery flag.  Registration
/// is a thread-scoped rendezvous, not a per-call step: it must happen after
/// process init and before that thread's first dispatch.  On success it
/// records the registration and yields the backend's thread-registration
/// invocation; before init, after finalize, or on a thread that already
/// registered it is a fault and changes nothing.
pub fn lind_rustposix_thread_init(
    e: &mut BridgeEngine,
    host_thread: u64,
    cageid: CageId,
    signalflag: u64,
) -> (r: Result<BackendOp, BridgeFault>)
    requires
        old(e).wf(),
    ensures
        final(e).wf(),
        old(e).spec_state() is Uninitialized ==> r == Err::<BackendOp, BridgeFault>(
            BridgeFault::NotInitialized,
        ) && *final(e) == *old(e),
        old(e).spec_state() is Finalized ==> r == Err::<BackendOp, BridgeFault>(
            BridgeFault::AlreadyFinalized,
        ) && *final(e) == *old(e),
        old(e).spec_state() is Initialized && old(e).spec_thread_registered(host_thread) ==> r
            == Err::<BackendOp, BridgeFault>(BridgeFault::ThreadAlreadyRegistered) && *final(e)
            == *old(e),
        old(e).spec_state() is Initialized && !old(e).spec_thread_registered(host_thread) ==> {
            &&& r == Ok::<BackendOp, BridgeFault>(BackendOp::ThreadRegister { cageid, signalflag })
            &&& final(e).spec_state() is Initialized
            &&& final(e).spec_verbosity() == old(e).spec_verbosity()
            &&& final(e).spec_registrations() == old(e).spec_registrations().push(
                ThreadRegistration { host_thread, cageid, signalflag },
            )
            &&& final(e).spec_registered_for(host_thread, cageid)
        },
{
    match e.state {
        LifecycleState::Uninitialized => Err(BridgeFault::NotInitialized),
        LifecycleState::Finalized => Err(BridgeFault::AlreadyFinalized),
        LifecycleState::Initialized => {
            if e.registration_of(host_thread).is_some() {
                Err(BridgeFault::ThreadAlreadyRegistered)
            } else {
                let reg = ThreadRegistration { host_thread, cageid, signalflag };
                e.registrations.push(reg);
                proof {
                    let regs = e.spec_registrations();
                    assert(regs[regs.len() - 1] == reg);
                }
                Ok(BackendOp::ThreadRegister { cageid, signalflag })
            }
        },
    }
}

} // verus!
