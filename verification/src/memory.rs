//! The guest-memory address translator.
//!
//! Guest linear memory is one contiguous region that the host sees as a base
//! address plus a size.  Translating a guest offset to a host pointer is pure
//! arithmetic: `base + offset`.  The base must be re-fetched for every call —
//! a growth or relocation of guest memory invalidates any previously computed
//! base, which is why a [`GuestMemoryView`] is only ever valid for the single
//! call it was produced for and must never be cached.

use vstd::prelude::*;

verus! {

/// One contiguous region of guest linear memory, as the host currently sees
/// it: the host address of its first byte, and its size in bytes.
///
/// A view describes the guest memory only at the moment it was taken.  It is
/// valid for the duration of a single call and must be constructed fresh for
/// each one, because the guest's base address can change (for example on
/// memory growth).
#[derive(Clone, Copy, PartialEq, Eq, Structural, Debug)]
pub struct GuestMemoryView {
    /// Host address of the first byte of guest linear memory.
    pub base: u64,
    /// Size of the region in bytes.
    pub size: u64,
}

impl GuestMemoryView {
    /// A view is well formed when the whole region lies inside the host
    /// address space, so that every in-bounds offset translates without
    /// wrapping.
    pub open spec fn wf(&self) -> bool {
        self.base + self.size <= u64::MAX
    }

    /// Builds the view of a guest memory region from its current host base
    /// address and size.
    pub fn new(base: u64, size: u64) -> (m: GuestMemoryView)
        requires
            base + size <= u64::MAX,
        ensures
            m.wf(),
            m.base == base,
            m.size == size,
    {
        GuestMemoryView { base, size }
    }

    /// Whether `offset` lies inside the region described by this view.
    pub fn contains(&self, offset: u64) -> (b: bool)
        ensures
            b == (offset < self.size),
    {
        offset < self.size
    }

    /// Translates a guest offset that is within this view's bound to a host
    /// address.
    pub fn translate(&self, offset: u64) -> (p: u64)
        requires
            self.wf(),
            offset <= self.size,
        ensures
            p == self.base + offset,
    {
        self.base + offset
    }
}

/// Translates a guest linear-memory offset against the guest memory's
/// current host base address, producing a host-dereferenceable pointer.
///
/// The translation is purely arithmetic.  Bounds checking of `offset` against
/// the guest memory's size is not this function's responsibility: the caller
/// must have validated `offset` as within the guest's own address space (for
/// example with [`GuestMemoryView::contains`]) before translating.
pub fn translate(base: u64, offset: u64) -> (p: u64)
    requires
        base + offset <= u64::MAX,
    ensures
        p == base + offset,
{
    base + offset
}

/// After a guest memory growth or relocation has moved the base address,
/// re-translating the same offset against the new base yields a different
/// host pointer.
pub proof fn lemma_retranslate_after_move(old_base: u64, new_base: u64, offset: u64)
    requires
        old_base != new_base,
        old_base + offset <= u64::MAX,
        new_base + offset <= u64::MAX,
    ensures
        old_base + offset != new_base + offset,
{
}

} // verus!
