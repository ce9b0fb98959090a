//! Package related commands.

use vstd::prelude::*;

verus! {

/// Package related commands: which package operation was selected.  The
/// options each operation takes belong to the command layer around this
/// library.
#[derive(Debug, Clone, Copy, PartialEq, Eq, Structural)]
pub enum Package {
    /// Download a package.
    Download,
    /// Build a package.
    Build,
    /// Tag a package version.
    Tag,
    /// Push a package to the registry.
    Push,
    /// Publish (push and tag) a package.
    Publish,
}

} // verus!
