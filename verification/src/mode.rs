use vstd::prelude::*;

verus! {

/// The allocation policies Brug can run under.
///
/// The first four name a concrete backend; `_BrugTemplate_` picks a backend
/// from the size of the request and a [`crate::BrugTemplate`];
/// `_BrugAutoOpt_` learns from measured reallocation times.
#[allow(non_camel_case_types)]
#[derive(Debug, Clone, Copy, PartialEq, Eq, Structural)]
pub enum Allocatormode {
    _SYS_,
    _JEMALLOC_,
    _MIMALLOC_,
    _MMAP_,
    _BrugTemplate_,
    _BrugAutoOpt_,
}

/// The mode Brug runs in outside of an explicit `set_mode` / `end_set` block,
/// and the backend it falls back to when a policy has no answer.
pub const DEFAULT_ALLOCATOR: Allocatormode = Allocatormode::_JEMALLOC_;

/// Size of a page of the first level of the page table (4 KiB).
pub const PTE_PAGE_SIZE: usize = 4096;

impl Allocatormode {
    /// Whether this mode names a concrete allocator backend rather than a policy.
    pub open spec fn is_backend(self) -> bool {
        !(self is _BrugTemplate_) && !(self is _BrugAutoOpt_)
    }

}

} // verus!
