use vstd::prelude::*;
use crate::mode::{Allocatormode, DEFAULT_ALLOCATOR, PTE_PAGE_SIZE};
use crate::template::template_choice;
use crate::brug::{
    Allocdata, Monitordata, BrugStruct, BrugView, size_tier, first_min, column_mode,
    record_column, recorded, record_fits, lookup_allocator, counter_grown, counter_fits,
    monitor_updated, monitor_update_fits,
};

verus! {

/// How a reallocation is carried out.
#[derive(Debug, Clone, Copy, PartialEq, Eq, Structural)]
pub enum ReallocPlan {
    /// The backend that holds the block resizes it in place (or moves it itself).
    Resize(Allocatormode),
    /// A new block is taken from `to`, the contents are copied over, and the
    /// old block goes back to `from`.
    Move { from: Allocatormode, to: Allocatormode },
}

/// The backend that serves a new allocation of `size` bytes.
pub open spec fn alloc_choice(v: BrugView, size: usize) -> Allocatormode {
    match v.mode {
        Allocatormode::_BrugTemplate_ => template_choice(v.template, size),
        Allocatormode::_BrugAutoOpt_ => Allocatormode::_SYS_,
        m => m,
    }
}

/// The state after an allocation of `size` bytes at `addr` that took
/// `elapsed` nanoseconds: the adaptive mode files the block as held by the
/// system allocator; the monitor, when on, records objects above its limit.
pub open spec fn after_alloc(v: BrugView, addr: usize, size: usize, elapsed: u128) -> BrugView {
    BrugView {
        mapping: if is_adaptive(v) {
            v.mapping.insert(addr, Allocdata { allocator: Allocatormode::_SYS_, counter: 1 })
        } else {
            v.mapping
        },
        monitor: if v.monitor_on && size > (v.limiter as usize) {
            v.monitor.insert(
                addr,
                Monitordata { realloc_counter: 0, addr_counter: 0, total_size: size, total_duration: elapsed },
            )
        } else {
            v.monitor
        },
        ..v
    }
}

/// Whether the adaptive mode is in force. It keeps a file on every block it
/// places, naming the backend that holds the block.
pub open spec fn is_adaptive(v: BrugView) -> bool {
    v.mode == Allocatormode::_BrugAutoOpt_
}

/// Whether the monitor accounts a reallocation of the block at `old_addr` to
/// `new_size` bytes: it is on, and it already follows the block or the new
/// size is above its limit.
pub open spec fn monitors_realloc(v: BrugView, old_addr: usize, new_size: usize) -> bool {
    v.monitor_on && (v.monitor.contains_key(old_addr) || new_size > (v.limiter as usize))
}

/// `a` if it is a backend, the system allocator otherwise.
pub open spec fn backend_or_sys(a: Allocatormode) -> Allocatormode {
    if a.is_backend() {
        a
    } else {
        Allocatormode::_SYS_
    }
}

/// The backend that holds the block at `addr` under the adaptive mode: the
/// one on file, or the default backend for a block the adaptive mode did not
/// place.
pub open spec fn filed_holder(v: BrugView, addr: usize) -> Allocatormode {
    backend_or_sys(lookup_allocator(v.mapping, addr))
}

/// The backend that takes back the block of `size` bytes at `addr`.
pub open spec fn dealloc_choice(v: BrugView, addr: usize, size: usize) -> Allocatormode {
    match v.mode {
        Allocatormode::_BrugTemplate_ => template_choice(v.template, size),
        Allocatormode::_BrugAutoOpt_ => filed_holder(v, addr),
        m => m,
    }
}

/// The state after the backend of a release of `size` bytes at `addr` was
/// chosen: the adaptive mode closes the block's file, and the monitor, when
/// on, forgets the block.
pub open spec fn after_dealloc(v: BrugView, addr: usize, size: usize) -> BrugView {
    BrugView {
        mapping: if is_adaptive(v) {
            v.mapping.remove(addr)
        } else {
            v.mapping
        },
        monitor: if v.monitor_on {
            v.monitor.remove(addr)
        } else {
            v.monitor
        },
        ..v
    }
}

/// The backend that holds the block before a reallocation from `old_size`
/// to `new_size` bytes under a policy mode, and the backend meant to hold it
/// after.
pub open spec fn realloc_targets(v: BrugView, addr: usize, old_size: usize, new_size: usize) -> (Allocatormode, Allocatormode) {
    if v.mode == Allocatormode::_BrugTemplate_ {
        (template_choice(v.template, old_size), template_choice(v.template, new_size))
    } else {
        (
            filed_holder(v, addr),
            column_mode(first_min(v.records[size_tier(new_size)])),
        )
    }
}

/// How a reallocation of the block at `addr` from `old_size` to `new_size`
/// bytes is carried out, and the backend that the adaptive mode accounts it
/// to (the default one outside the policy modes).
pub open spec fn realloc_choice(v: BrugView, addr: usize, old_size: usize, new_size: usize) -> (ReallocPlan, Allocatormode) {
    match v.mode {
        Allocatormode::_BrugTemplate_ | Allocatormode::_BrugAutoOpt_ => {
            let (current, target) = realloc_targets(v, addr, old_size, new_size);
            if current == target {
                (ReallocPlan::Resize(target), target)
            } else {
                (ReallocPlan::Move { from: current, to: target }, target)
            }
        },
        m => (ReallocPlan::Resize(m), DEFAULT_ALLOCATOR),
    }
}

/// The state after a reallocation from `old_addr` (`old_size` bytes) to
/// `new_addr` (`new_size` bytes), accounted to `new_allocator`, that took
/// `elapsed` nanoseconds. The adaptive mode moves the block's file to the new
/// address under `new_allocator`, counts one more reallocation, and, for a
/// block that was a page or more, records the time; the monitor accounts the
/// reallocation of a block it follows or that grew above its limit.
pub open spec fn after_realloc(
    v: BrugView,
    old_addr: usize,
    new_addr: usize,
    old_size: usize,
    new_size: usize,
    new_allocator: Allocatormode,
    elapsed: u128,
) -> BrugView {
    let v1 = if is_adaptive(v) {
        BrugView {
            mapping: counter_grown(v.mapping, old_addr, new_addr, new_allocator),
            records: if old_size >= PTE_PAGE_SIZE {
                recorded(v.records, size_tier(new_size), record_column(new_allocator), elapsed)
            } else {
                v.records
            },
            ..v
        }
    } else {
        v
    };
    if monitors_realloc(v, old_addr, new_size) {
        BrugView { monitor: monitor_updated(v.monitor, old_addr, new_addr, elapsed, new_size), ..v1 }
    } else {
        v1
    }
}

/// The bookkeeping of a reallocation overflows no counter, size or duration.
pub open spec fn realloc_fits(
    v: BrugView,
    old_addr: usize,
    new_addr: usize,
    old_size: usize,
    new_size: usize,
    new_allocator: Allocatormode,
    elapsed: u128,
) -> bool {
    &&& is_adaptive(v) ==> counter_fits(v.mapping, old_addr)
    &&& is_adaptive(v) && old_size >= PTE_PAGE_SIZE ==> record_fits(
        v.records,
        size_tier(new_size),
        new_allocator,
        elapsed,
    )
    &&& monitors_realloc(v, old_addr, new_size) ==> monitor_update_fits(v.monitor, old_addr, new_addr, elapsed, new_size)
}

/// The decisions of the Brug global allocator. The glue that implements
/// `GlobalAlloc` asks it which backend serves each request, performs the
/// request on that backend, and reports back what came of it.
pub struct BrugAllocator;

impl BrugAllocator {
    /// The backend that serves a new allocation of `size` bytes.
    pub fn alloc_backend(&self, brug: &BrugStruct, size: usize) -> (r: Allocatormode)
        ensures
            r == alloc_choice(brug@, size),
            r.is_backend(),
    {
        match brug.current_mode() {
            Allocatormode::_SYS_ => Allocatormode::_SYS_,
            Allocatormode::_MIMALLOC_ => Allocatormode::_MIMALLOC_,
            Allocatormode::_JEMALLOC_ => Allocatormode::_JEMALLOC_,
            Allocatormode::_MMAP_ => Allocatormode::_MMAP_,
            Allocatormode::_BrugTemplate_ => match brug.brug_template_mode(size) {
                Allocatormode::_SYS_ => Allocatormode::_SYS_,
                Allocatormode::_MIMALLOC_ => Allocatormode::_MIMALLOC_,
                Allocatormode::_JEMALLOC_ => Allocatormode::_JEMALLOC_,
                Allocatormode::_MMAP_ => Allocatormode::_MMAP_,
                _ => Allocatormode::_SYS_,
            },
            Allocatormode::_BrugAutoOpt_ => Allocatormode::_SYS_,
        }
    }

    /// The bookkeeping after an allocation of `size` bytes at `addr` that
    /// took `elapsed` nanoseconds.
    pub fn alloc_done(&self, brug: &mut BrugStruct, addr: usize, size: usize, elapsed: u128)
        ensures
            final(brug)@ == after_alloc(old(brug)@, addr, size, elapsed),
    {
        if brug.current_mode() == Allocatormode::_BrugAutoOpt_ {
            brug.input(addr, Allocdata { allocator: Allocatormode::_SYS_, counter: 1 });
        }
        if brug.monitor_enabled() && size > brug.monitor_limiter() as usize {
            let monitor_data = Monitordata {
                realloc_counter: 0,
                addr_counter: 0,
                total_size: size,
                total_duration: elapsed,
            };
            brug.monitor_input(addr, monitor_data);
        }
    }

    /// The backend that takes back the block of `size` bytes at `addr`; the
    /// adaptive mode closes the block's file and the monitor forgets it.
    pub fn dealloc_backend(&self, brug: &mut BrugStruct, addr: usize, size: usize) -> (r: Allocatormode)
        ensures
            r == dealloc_choice(old(brug)@, addr, size),
            r.is_backend(),
            final(brug)@ == after_dealloc(old(brug)@, addr, size),
    {
        if brug.monitor_enabled() {
            brug.monitor_release(addr);
        }
        match brug.current_mode() {
            Allocatormode::_SYS_ => Allocatormode::_SYS_,
            Allocatormode::_MIMALLOC_ => Allocatormode::_MIMALLOC_,
            Allocatormode::_JEMALLOC_ => Allocatormode::_JEMALLOC_,
            Allocatormode::_MMAP_ => Allocatormode::_MMAP_,
            Allocatormode::_BrugTemplate_ => brug.brug_template_mode(size),
            Allocatormode::_BrugAutoOpt_ => match brug.automode_get_allocator(addr) {
                Allocatormode::_SYS_ => Allocatormode::_SYS_,
                Allocatormode::_MIMALLOC_ => Allocatormode::_MIMALLOC_,
                Allocatormode::_JEMALLOC_ => Allocatormode::_JEMALLOC_,
                Allocatormode::_MMAP_ => Allocatormode::_MMAP_,
                _ => Allocatormode::_SYS_,
            },
        }
    }

    /// How to reallocate the block at `addr` from `old_size` to `new_size`
    /// bytes, and the backend the reallocation is accounted to. The state is
    /// left as it is: [`BrugAllocator::realloc_done`] moves the file.
    pub fn realloc_plan(&self, brug: &BrugStruct, addr: usize, old_size: usize, new_size: usize) -> (r: (ReallocPlan, Allocatormode))
        ensures
            r == realloc_choice(brug@, addr, old_size, new_size),
    {
        match brug.current_mode() {
            Allocatormode::_SYS_ => (ReallocPlan::Resize(Allocatormode::_SYS_), DEFAULT_ALLOCATOR),
            Allocatormode::_MIMALLOC_ => (ReallocPlan::Resize(Allocatormode::_MIMALLOC_), DEFAULT_ALLOCATOR),
            Allocatormode::_JEMALLOC_ => (ReallocPlan::Resize(Allocatormode::_JEMALLOC_), DEFAULT_ALLOCATOR),
            Allocatormode::_MMAP_ => (ReallocPlan::Resize(Allocatormode::_MMAP_), DEFAULT_ALLOCATOR),
            _ => {
                let current_allocator: Allocatormode;
                let new_allocator: Allocatormode;
                if brug.current_mode() == Allocatormode::_BrugTemplate_ {
                    current_allocator = brug.brug_template_mode(old_size);
                    new_allocator = brug.brug_template_mode(new_size);
                } else {
                    new_allocator = brug.optimization_mode(new_size);
                    current_allocator = match brug.allocator_of(addr) {
                        Allocatormode::_SYS_ => Allocatormode::_SYS_,
                        Allocatormode::_MIMALLOC_ => Allocatormode::_MIMALLOC_,
                        Allocatormode::_JEMALLOC_ => Allocatormode::_JEMALLOC_,
                        Allocatormode::_MMAP_ => Allocatormode::_MMAP_,
                        _ => Allocatormode::_SYS_,
                    };
                }
                if current_allocator == new_allocator {
                    (ReallocPlan::Resize(new_allocator), new_allocator)
                } else {
                    (ReallocPlan::Move { from: current_allocator, to: new_allocator }, new_allocator)
                }
            },
        }
    }

    /// The bookkeeping after the block at `old_addr` (`old_size` bytes) was
    /// reallocated to `new_addr` (`new_size` bytes) in `elapsed` nanoseconds,
    /// accounted to `new_allocator`.
    pub fn realloc_done(
        &self,
        brug: &mut BrugStruct,
        old_addr: usize,
        new_addr: usize,
        old_size: usize,
        new_size: usize,
        new_allocator: Allocatormode,
        elapsed: u128,
    )
        requires
            realloc_fits(old(brug)@, old_addr, new_addr, old_size, new_size, new_allocator, elapsed),
        ensures
            final(brug)@ == after_realloc(old(brug)@, old_addr, new_addr, old_size, new_size, new_allocator, elapsed),
    {
        if brug.current_mode() == Allocatormode::_BrugAutoOpt_ {
            brug.counter_grow(old_addr, new_addr, new_allocator);
            if old_size >= PTE_PAGE_SIZE {
                brug.record(new_size, elapsed, new_allocator);
            }
        }
        if brug.monitor_enabled() && (brug.is_monitored(old_addr) || new_size > brug.monitor_limiter() as usize) {
            brug.monitor_update(old_addr, new_addr, elapsed, new_size);
        }
    }

    /// Whether [`BrugAllocator::realloc_done`] can do its bookkeeping without
    /// overflowing a counter, a size or a duration.
    pub fn realloc_done_fits(
        &self,
        brug: &BrugStruct,
        old_addr: usize,
        new_addr: usize,
        old_size: usize,
        new_size: usize,
        new_allocator: Allocatormode,
        elapsed: u128,
    ) -> (r: bool)
        ensures
            r == realloc_fits(brug@, old_addr, new_addr, old_size, new_size, new_allocator, elapsed),
    {
        let adaptive_ok = if brug.current_mode() == Allocatormode::_BrugAutoOpt_ {
            brug.can_counter_grow(old_addr) && (old_size < PTE_PAGE_SIZE || brug.can_record(
                new_size,
                elapsed,
                new_allocator,
            ))
        } else {
            true
        };
        let monitor_ok = if brug.monitor_enabled() && (brug.is_monitored(old_addr) || new_size > brug.monitor_limiter() as usize) {
            brug.can_monitor_update(old_addr, new_addr, elapsed, new_size)
        } else {
            true
        };
        adaptive_ok && monitor_ok
    }
}

} // verus!
