//! Tracking which build artifacts of a freshly published package are still
//! being waited on.
//!
//! Publishing a package kicks off several backend-side build steps — the
//! container image, native executables, bindings.  A caller chooses which of
//! them to await; the wait state records which are still outstanding and is
//! updated as readiness events arrive, until nothing is left to wait for.

use vstd::prelude::*;

verus! {

/// Different conditions that can be "awaited" when publishing a package.
#[derive(Debug, Clone, Copy, PartialEq, Eq, Structural)]
pub enum PublishWait {
    Nothing,
    Container,
    NativeExecutables,
    Bindings,
    All,
}

/// A readiness event for one build artifact of a published package version,
/// as delivered by the registry's subscription stream.
#[derive(Debug, Clone, Copy, PartialEq, Eq, Structural)]
pub enum PackageVersionState {
    /// The container image has been generated.
    WebcGenerated,
    /// The language bindings have been generated.
    BindingsGenerated,
    /// The native executables have been generated.
    NativeExesGenerated,
    /// A state this library does not track; it leaves the wait unchanged.
    Other,
}

/// Which build artifacts of a published package are still being waited on.
#[derive(Debug, Clone, Copy, PartialEq, Eq, Structural)]
pub struct WaitPackageState {
    pub container: bool,
    pub native_executables: bool,
    pub bindings: bool,
}

impl WaitPackageState {
    /// Whether anything is still being waited on.
    pub fn is_any(self) -> (b: bool)
        ensures
            b == (self.container || self.native_executables || self.bindings),
    {
        self.container || self.native_executables || self.bindings
    }

    /// The state that waits for nothing.
    pub fn new_none() -> (s: WaitPackageState)
        ensures
            s == (WaitPackageState { container: false, native_executables: false, bindings: false }),
    {
        WaitPackageState { container: false, native_executables: false, bindings: false }
    }

    /// The state that waits for every artifact.
    pub fn new_all() -> (s: WaitPackageState)
        ensures
            s == (WaitPackageState { container: true, native_executables: true, bindings: true }),
    {
        WaitPackageState { container: true, native_executables: true, bindings: true }
    }

    /// The state that waits for the container image only.
    pub fn new_container() -> (s: WaitPackageState)
        ensures
            s == (WaitPackageState { container: true, native_executables: false, bindings: false }),
    {
        WaitPackageState { container: true, native_executables: false, bindings: false }
    }

    /// The state that waits for the container image and the native
    /// executables.
    pub fn new_exe() -> (s: WaitPackageState)
        ensures
            s == (WaitPackageState { container: true, native_executables: true, bindings: false }),
    {
        WaitPackageState { container: true, native_executables: true, bindings: false }
    }

    /// The state that waits for the container image and the bindings.
    pub fn new_bindings() -> (s: WaitPackageState)
        ensures
            s == (WaitPackageState { container: true, native_executables: false, bindings: true }),
    {
        WaitPackageState { container: true, native_executables: false, bindings: true }
    }

    /// The wait state after one readiness event: the event's artifact is no
    /// longer waited on, and nothing else changes.  An untracked event
    /// leaves the state as it is.
    pub open spec fn spec_apply_event(self, event: PackageVersionState) -> WaitPackageState {
        match event {
            PackageVersionState::WebcGenerated => WaitPackageState { container: false, ..self },
            PackageVersionState::BindingsGenerated => WaitPackageState { bindings: false, ..self },
            PackageVersionState::NativeExesGenerated => WaitPackageState {
                native_executables: false,
                ..self
            },
            PackageVersionState::Other => self,
        }
    }

    /// Applies one readiness event to the wait state; see
    /// [`Self::spec_apply_event`].
    pub fn apply_event(self, event: PackageVersionState) -> (s: WaitPackageState)
        ensures
            s == self.spec_apply_event(event),
    {
        match event {
            PackageVersionState::WebcGenerated => WaitPackageState { container: false, ..self },
            PackageVersionState::BindingsGenerated => WaitPackageState { bindings: false, ..self },
            PackageVersionState::NativeExesGenerated => WaitPackageState {
                native_executables: false,
                ..self
            },
            PackageVersionState::Other => self,
        }
    }
}

impl From<PublishWait> for WaitPackageState {
    /// The initial wait state for each awaited condition.
    fn from(value: PublishWait) -> (s: WaitPackageState) {
        match value {
            PublishWait::Nothing => Self::new_none(),
            PublishWait::Container => Self::new_container(),
            PublishWait::NativeExecutables => Self::new_exe(),
            PublishWait::Bindings => Self::new_bindings(),
            PublishWait::All => Self::new_all(),
        }
    }
}

impl vstd::std_specs::convert::FromSpecImpl<PublishWait> for WaitPackageState {
    open spec fn obeys_from_spec() -> bool {
        true
    }

    open spec fn from_spec(value: PublishWait) -> WaitPackageState {
        match value {
            PublishWait::Nothing => WaitPackageState {
                container: false,
                native_executables: false,
                bindings: false,
            },
            PublishWait::Container => WaitPackageState {
                container: true,
                native_executables: false,
                bindings: false,
            },
            PublishWait::NativeExecutables => WaitPackageState {
                container: true,
                native_executables: true,
                bindings: false,
            },
            PublishWait::Bindings => WaitPackageState {
                container: true,
                native_executables: false,
                bindings: true,
            },
            PublishWait::All => WaitPackageState {
                container: true,
                native_executables: true,
                bindings: true,
            },
        }
    }
}

/// Readiness events only retire waits: applying an event never starts
/// waiting on an artifact that was not already waited on, so once nothing
/// is outstanding, no event brings the wait back.
pub proof fn lemma_events_only_retire(s: WaitPackageState, event: PackageVersionState)
    ensures
        s.spec_apply_event(event).container ==> s.container,
        s.spec_apply_event(event).native_executables ==> s.native_executables,
        s.spec_apply_event(event).bindings ==> s.bindings,
{
}

} // verus!
