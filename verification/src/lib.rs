//! Brug: a policy layer that decides, for every allocation, which memory
//! allocator backend (the system allocator, jemalloc, mimalloc or plain
//! `mmap`) serves it, and keeps the bookkeeping that the adaptive and
//! monitoring modes need.
//!
//! The library holds the decisions and the state; the code that actually
//! touches memory (the `GlobalAlloc` glue) hands it plain values.

pub mod mode;
pub mod template;
pub mod brug;
pub mod allocator;
pub mod laws;

pub use crate::mode::{Allocatormode, DEFAULT_ALLOCATOR, PTE_PAGE_SIZE};
pub use crate::template::BrugTemplate;
pub use crate::brug::{Allocdata, Monitordata, BrugStruct, DURATION_MAX_NANOS, RECORD_TIERS, RECORD_BACKENDS};
pub use crate::allocator::{BrugAllocator, ReallocPlan};
