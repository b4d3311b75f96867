use brug::{
    Allocatormode, Allocdata, BrugAllocator, BrugStruct, BrugTemplate, Monitordata, ReallocPlan,
    DEFAULT_ALLOCATOR, PTE_PAGE_SIZE,
};

const GIB: u128 = 1 << 30;

#[test]
fn default_template_values() {
    let t = BrugTemplate::default();
    assert_eq!(t.sys, (true, 4096, 65536));
    assert_eq!(t.jemalloc, (true, 0, 4096));
    assert_eq!(t.mimalloc, (false, 0, 0));
    assert_eq!(t.mmap, (true, 65536, 128 * GIB));
}

#[test]
fn default_template_choices() {
    let brug = BrugStruct::new();
    // No entry covers 0 bytes: the system allocator takes it.
    assert_eq!(brug.brug_template_mode(0), Allocatormode::_SYS_);
    assert_eq!(brug.brug_template_mode(1), Allocatormode::_JEMALLOC_);
    assert_eq!(brug.brug_template_mode(4096), Allocatormode::_JEMALLOC_);
    assert_eq!(brug.brug_template_mode(4097), Allocatormode::_SYS_);
    assert_eq!(brug.brug_template_mode(8192), Allocatormode::_SYS_);
    assert_eq!(brug.brug_template_mode(65536), Allocatormode::_SYS_);
    assert_eq!(brug.brug_template_mode(65537), Allocatormode::_MMAP_);
    assert_eq!(brug.brug_template_mode((128 * GIB) as usize), Allocatormode::_MMAP_);
    assert_eq!(brug.brug_template_mode((128 * GIB) as usize + 1), Allocatormode::_SYS_);
}

#[test]
fn template_order_and_ranges() {
    let mut brug = BrugStruct::new();
    let t = BrugTemplate {
        sys: (true, 1000, 2000),
        jemalloc: (false, 0, 0),
        mimalloc: (false, 10, 20),
        mmap: (true, 0, 100),
    };
    brug.set_template(t);
    assert_eq!(brug.template().sys, (true, 1000, 2000));
    assert_eq!(brug.brug_template_mode(1500), Allocatormode::_SYS_);
    // Uncovered sizes go to the system allocator.
    assert_eq!(brug.brug_template_mode(1000), Allocatormode::_SYS_);
    assert_eq!(brug.brug_template_mode(2000), Allocatormode::_SYS_);
    assert_eq!(brug.brug_template_mode(15), Allocatormode::_MMAP_);
    assert_eq!(brug.brug_template_mode(5000), Allocatormode::_SYS_);
    let t2 = BrugTemplate { mimalloc: (true, 10, 20), ..t };
    brug.set_template(t2);
    assert_eq!(brug.brug_template_mode(15), Allocatormode::_MIMALLOC_);
    let t3 = BrugTemplate { jemalloc: (true, 0, 50), ..t2 };
    brug.set_template(t3);
    assert_eq!(brug.brug_template_mode(15), Allocatormode::_JEMALLOC_);
    let t4 = BrugTemplate { sys: (false, 1000, 2000), mmap: (true, 0, 1600), ..t3 };
    brug.set_template(t4);
    // The system entry is off: its range no longer draws 1500 away from mmap.
    assert_eq!(brug.brug_template_mode(1500), Allocatormode::_MMAP_);
}

#[test]
fn size_match_tiers() {
    assert_eq!(BrugStruct::size_match(0), 0);
    assert_eq!(BrugStruct::size_match(4095), 0);
    assert_eq!(BrugStruct::size_match(4096), 1);
    assert_eq!(BrugStruct::size_match(81919), 19);
    assert_eq!(BrugStruct::size_match(81920), 20);
    assert_eq!(BrugStruct::size_match(usize::MAX), 20);
}

#[test]
fn position_min_first_smallest() {
    assert_eq!(BrugStruct::position_min(&[]), None);
    assert_eq!(BrugStruct::position_min(&[5]), Some(0));
    assert_eq!(BrugStruct::position_min(&[3, 1, 2, 1]), Some(1));
    assert_eq!(BrugStruct::position_min(&[2, 2, 2]), Some(0));
    assert_eq!(BrugStruct::position_min(&[9, 8, 7, 6]), Some(3));
}

#[test]
fn set_mode_and_end_set() {
    let mut brug = BrugStruct::new();
    assert_eq!(brug.current_mode(), DEFAULT_ALLOCATOR);
    brug.set_mode(Allocatormode::_BrugAutoOpt_);
    assert_eq!(brug.current_mode(), Allocatormode::_BrugAutoOpt_);
    brug.end_set();
    assert_eq!(brug.current_mode(), Allocatormode::_JEMALLOC_);
}

#[test]
fn record_and_optimization() {
    let mut brug = BrugStruct::new();
    // All columns are zero: the first (system) wins the tie.
    assert_eq!(brug.optimization_mode(10_000), Allocatormode::_SYS_);
    // A cell becomes the mean of the time and its previous value: (100 + 0) / 2.
    brug.record(10_000, 100, Allocatormode::_SYS_);
    // System is 50 now, the others 0: jemalloc is the first smallest.
    assert_eq!(brug.optimization_mode(10_000), Allocatormode::_JEMALLOC_);
    // jemalloc: (300 + 0) / 2 = 150.
    brug.record(10_000, 300, Allocatormode::_JEMALLOC_);
    assert_eq!(brug.optimization_mode(10_000), Allocatormode::_MIMALLOC_);
    brug.record(10_000, 300, Allocatormode::_MIMALLOC_);
    assert_eq!(brug.optimization_mode(10_000), Allocatormode::_MMAP_);
    brug.record(10_000, 300, Allocatormode::_MMAP_);
    // System 50, the others 150.
    assert_eq!(brug.optimization_mode(10_000), Allocatormode::_SYS_);
    // System: (1000 + 50) / 2 = 525.
    brug.record(10_000, 1000, Allocatormode::_SYS_);
    assert_eq!(brug.optimization_mode(10_000), Allocatormode::_JEMALLOC_);
    // jemalloc: (0 + 150) / 2 = 75; mimalloc: (140 + 150) / 2 = 145.
    brug.record(10_000, 0, Allocatormode::_JEMALLOC_);
    brug.record(10_000, 140, Allocatormode::_MIMALLOC_);
    // mmap: (0 + 150) / 2 = 75 ties with jemalloc, which comes first.
    brug.record(10_000, 0, Allocatormode::_MMAP_);
    assert_eq!(brug.optimization_mode(10_000), Allocatormode::_JEMALLOC_);
    // jemalloc: (100 + 75) / 2 = 87, above mmap's 75.
    brug.record(10_000, 100, Allocatormode::_JEMALLOC_);
    assert_eq!(brug.optimization_mode(10_000), Allocatormode::_MMAP_);
    // Other rows are untouched.
    assert_eq!(brug.optimization_mode(0), Allocatormode::_SYS_);
    // Policy modes are not recorded.
    brug.record(10_000, 0, Allocatormode::_BrugTemplate_);
    assert_eq!(brug.optimization_mode(10_000), Allocatormode::_MMAP_);
}

#[test]
fn record_combines_with_own_cell() {
    let mut brug = BrugStruct::new();
    // Row 1, jemalloc: 10, then (20 + 10) / 2 = 15.
    brug.record(4096, 20, Allocatormode::_JEMALLOC_);
    brug.record(4096, 20, Allocatormode::_JEMALLOC_);
    // The system column of row 1 is still 0, so 15 is above it.
    assert_eq!(brug.optimization_mode(4096), Allocatormode::_SYS_);
    brug.record(4096, 32, Allocatormode::_SYS_);
    brug.record(4096, 32, Allocatormode::_MIMALLOC_);
    brug.record(4096, 32, Allocatormode::_MMAP_);
    // System, mimalloc and mmap hold 16, jemalloc holds 15.
    assert_eq!(brug.optimization_mode(4096), Allocatormode::_JEMALLOC_);
}

#[test]
fn mapping_bookkeeping() {
    let mut brug = BrugStruct::new();
    assert_eq!(brug.automode_get_allocator(64), DEFAULT_ALLOCATOR);
    brug.input(64, Allocdata { allocator: Allocatormode::_MMAP_, counter: 1 });
    assert_eq!(brug.automode_get_allocator(64), Allocatormode::_MMAP_);
    // The lookup closed the file.
    assert_eq!(brug.automode_get_allocator(64), DEFAULT_ALLOCATOR);
    brug.suggest(128, Allocdata { allocator: Allocatormode::_MIMALLOC_, counter: 7 });
    brug.counter_grow(128, 256, Allocatormode::_SYS_);
    assert_eq!(brug.automode_get_allocator(128), DEFAULT_ALLOCATOR);
    assert_eq!(brug.automode_get_allocator(256), Allocatormode::_SYS_);
    brug.counter_grow(512, 1024, Allocatormode::_MMAP_);
    assert_eq!(brug.automode_get_allocator(1024), Allocatormode::_MMAP_);
}

#[test]
fn monitor_bookkeeping() {
    let mut brug = BrugStruct::new();
    assert_eq!(brug.monitor_entries(), None);
    brug.enable_monitor();
    assert!(brug.monitor_enabled());
    brug.change_monitor_limiter(4096);
    assert_eq!(brug.monitor_limiter(), 4096);
    let d = Monitordata { realloc_counter: 0, addr_counter: 0, total_size: 10, total_duration: 5 };
    brug.monitor_input(300, d);
    brug.monitor_input(100, d);
    brug.monitor_update(300, 200, 7, 20);
    brug.monitor_update(100, 100, 1, 30);
    brug.monitor_update(900, 50, 3, 40);
    let entries = brug.monitor_entries().unwrap();
    assert_eq!(
        entries,
        vec![
            (50, Monitordata { realloc_counter: 1, addr_counter: 0, total_size: 40, total_duration: 3 }),
            (100, Monitordata { realloc_counter: 1, addr_counter: 0, total_size: 40, total_duration: 6 }),
            (200, Monitordata { realloc_counter: 1, addr_counter: 1, total_size: 30, total_duration: 12 }),
        ]
    );
    brug.monitor_release(100);
    assert_eq!(brug.monitor_entries().unwrap().len(), 2);
    brug.disable_monitor();
    assert!(!brug.monitor_enabled());
    assert_eq!(brug.monitor_entries(), None);
    brug.enable_monitor();
    assert_eq!(brug.monitor_entries(), Some(vec![]));
}

#[test]
fn alloc_backend_per_mode() {
    let a = BrugAllocator;
    let mut brug = BrugStruct::new();
    for m in [
        Allocatormode::_SYS_,
        Allocatormode::_JEMALLOC_,
        Allocatormode::_MIMALLOC_,
        Allocatormode::_MMAP_,
    ] {
        brug.set_mode(m);
        assert_eq!(a.alloc_backend(&brug, 1 << 20), m);
        assert_eq!(a.dealloc_backend(&mut brug, 8, 1 << 20), m);
        assert_eq!(a.realloc_plan(&brug, 8, 10, 1 << 20), (ReallocPlan::Resize(m), DEFAULT_ALLOCATOR));
    }
    brug.set_mode(Allocatormode::_BrugTemplate_);
    assert_eq!(a.alloc_backend(&brug, 100), Allocatormode::_JEMALLOC_);
    assert_eq!(a.alloc_backend(&brug, 100_000), Allocatormode::_MMAP_);
    assert_eq!(a.dealloc_backend(&mut brug, 8, 100_000), Allocatormode::_MMAP_);
    brug.set_mode(Allocatormode::_BrugAutoOpt_);
    assert_eq!(a.alloc_backend(&brug, 100_000), Allocatormode::_SYS_);
}

#[test]
fn autoopt_release_goes_to_filed_backend() {
    let a = BrugAllocator;
    let mut brug = BrugStruct::new();
    brug.set_mode(Allocatormode::_BrugAutoOpt_);
    a.alloc_done(&mut brug, 4096 * 10, 5 * PTE_PAGE_SIZE, 12);
    brug.suggest(4096 * 20, Allocdata { allocator: Allocatormode::_MMAP_, counter: 3 });
    assert_eq!(a.dealloc_backend(&mut brug, 4096 * 20, 5 * PTE_PAGE_SIZE), Allocatormode::_MMAP_);
    assert_eq!(a.dealloc_backend(&mut brug, 4096 * 10, 5 * PTE_PAGE_SIZE), Allocatormode::_SYS_);
    // The release closed the file: the address is unknown again.
    assert_eq!(brug.automode_get_allocator(4096 * 10), DEFAULT_ALLOCATOR);
    // Small blocks are filed too, and go back to their holder.
    a.alloc_done(&mut brug, 8, 100, 1);
    assert_eq!(brug.allocator_of(8), Allocatormode::_SYS_);
    assert_eq!(a.dealloc_backend(&mut brug, 8, 100), Allocatormode::_SYS_);
    // A block the adaptive mode did not place (say, allocated under the
    // default mode) goes back to the default backend.
    assert_eq!(a.dealloc_backend(&mut brug, 16, 100), DEFAULT_ALLOCATOR);
    assert_eq!(a.dealloc_backend(&mut brug, 4096 * 60, 5 * PTE_PAGE_SIZE), DEFAULT_ALLOCATOR);
    // A policy on file is served by the system allocator.
    brug.suggest(4096 * 40, Allocdata { allocator: Allocatormode::_BrugTemplate_, counter: 1 });
    assert_eq!(a.dealloc_backend(&mut brug, 4096 * 40, 5 * PTE_PAGE_SIZE), Allocatormode::_SYS_);
}

#[test]
fn autoopt_grown_and_shrunk_blocks_go_back_to_their_holder() {
    let a = BrugAllocator;
    let mut brug = BrugStruct::new();
    brug.set_mode(Allocatormode::_BrugAutoOpt_);
    // A small block grown past a page by the system allocator.
    a.alloc_done(&mut brug, 8, 100, 1);
    let (plan, target) = a.realloc_plan(&brug, 8, 100, 8192);
    assert_eq!((plan, target), (ReallocPlan::Resize(Allocatormode::_SYS_), Allocatormode::_SYS_));
    a.realloc_done(&mut brug, 8, 16384, 100, 8192, target, 5);
    assert_eq!(a.dealloc_backend(&mut brug, 16384, 8192), Allocatormode::_SYS_);
    // A large block moved to mmap and then shrunk below a page.
    brug.suggest(4096, Allocdata { allocator: Allocatormode::_MMAP_, counter: 1 });
    let (plan, target) = a.realloc_plan(&brug, 4096, 8192, 100);
    assert_eq!(
        (plan, target),
        (ReallocPlan::Move { from: Allocatormode::_MMAP_, to: Allocatormode::_SYS_ }, Allocatormode::_SYS_)
    );
    a.realloc_done(&mut brug, 4096, 32, 8192, 100, target, 5);
    assert_eq!(brug.allocator_of(4096), DEFAULT_ALLOCATOR);
    assert_eq!(a.dealloc_backend(&mut brug, 32, 100), Allocatormode::_SYS_);
    assert_eq!(brug.allocator_of(32), DEFAULT_ALLOCATOR);
}

#[test]
fn alloc_done_monitor_limit() {
    let a = BrugAllocator;
    let mut brug = BrugStruct::new();
    brug.enable_monitor();
    a.alloc_done(&mut brug, 16, 1024, 5);
    a.alloc_done(&mut brug, 32, 1025, 6);
    assert_eq!(
        brug.monitor_entries().unwrap(),
        vec![(32, Monitordata { realloc_counter: 0, addr_counter: 0, total_size: 1025, total_duration: 6 })]
    );
    // A negative limit reads as a huge size: nothing is monitored.
    brug.change_monitor_limiter(-1);
    a.alloc_done(&mut brug, 48, 1 << 30, 7);
    assert_eq!(brug.monitor_entries().unwrap().len(), 1);
}

#[test]
fn realloc_plans_under_policies() {
    let a = BrugAllocator;
    let mut brug = BrugStruct::new();
    brug.set_mode(Allocatormode::_BrugTemplate_);
    assert_eq!(
        a.realloc_plan(&brug, 8, 100, 200),
        (ReallocPlan::Resize(Allocatormode::_JEMALLOC_), Allocatormode::_JEMALLOC_)
    );
    assert_eq!(
        a.realloc_plan(&brug, 8, 100, 100_000),
        (
            ReallocPlan::Move { from: Allocatormode::_JEMALLOC_, to: Allocatormode::_MMAP_ },
            Allocatormode::_MMAP_
        )
    );
    brug.set_mode(Allocatormode::_BrugAutoOpt_);
    // A block the adaptive mode placed, zeroed table: system to system.
    a.alloc_done(&mut brug, 8, 100, 1);
    assert_eq!(
        a.realloc_plan(&brug, 8, 100, 200),
        (ReallocPlan::Resize(Allocatormode::_SYS_), Allocatormode::_SYS_)
    );
    // A block that is not on file is held by the default backend.
    assert_eq!(
        a.realloc_plan(&brug, 4096, 8192, 8192),
        (
            ReallocPlan::Move { from: DEFAULT_ALLOCATOR, to: Allocatormode::_SYS_ },
            Allocatormode::_SYS_
        )
    );
}

#[test]
fn realloc_done_accounts() {
    let a = BrugAllocator;
    let mut brug = BrugStruct::new();
    brug.set_mode(Allocatormode::_BrugAutoOpt_);
    brug.enable_monitor();
    a.alloc_done(&mut brug, 8192, 2 * PTE_PAGE_SIZE, 4);
    let (plan, target) = a.realloc_plan(&brug, 8192, 2 * PTE_PAGE_SIZE, 3 * PTE_PAGE_SIZE);
    assert_eq!(plan, ReallocPlan::Resize(Allocatormode::_SYS_));
    // Planning leaves the file open.
    assert_eq!(brug.allocator_of(8192), Allocatormode::_SYS_);
    a.realloc_done(&mut brug, 8192, 16384, 2 * PTE_PAGE_SIZE, 3 * PTE_PAGE_SIZE, target, 40);
    // The file moved to the new address.
    assert_eq!(brug.allocator_of(8192), DEFAULT_ALLOCATOR);
    assert_eq!(brug.allocator_of(16384), Allocatormode::_SYS_);
    // The time went to row 3, system column: (40 + 0) / 2 = 20, so jemalloc is now fastest there.
    assert_eq!(brug.optimization_mode(3 * PTE_PAGE_SIZE), Allocatormode::_JEMALLOC_);
    assert_eq!(
        brug.monitor_entries().unwrap(),
        vec![(
            16384,
            Monitordata { realloc_counter: 1, addr_counter: 1, total_size: 8192 + 12288, total_duration: 44 }
        )]
    );
    // The release goes to the backend on file, and forgets the block.
    assert_eq!(a.dealloc_backend(&mut brug, 16384, 3 * PTE_PAGE_SIZE), Allocatormode::_SYS_);
    assert_eq!(brug.allocator_of(16384), DEFAULT_ALLOCATOR);
    assert_eq!(brug.monitor_entries(), Some(vec![]));
}

#[test]
fn realloc_counter_grows() {
    let a = BrugAllocator;
    let mut brug = BrugStruct::new();
    brug.set_mode(Allocatormode::_BrugAutoOpt_);
    brug.suggest(8192, Allocdata { allocator: Allocatormode::_SYS_, counter: i32::MAX - 2 });
    let (_, target) = a.realloc_plan(&brug, 8192, 2 * PTE_PAGE_SIZE, 2 * PTE_PAGE_SIZE);
    assert!(a.realloc_done_fits(&brug, 8192, 8192, 2 * PTE_PAGE_SIZE, 2 * PTE_PAGE_SIZE, target, 1));
    a.realloc_done(&mut brug, 8192, 8192, 2 * PTE_PAGE_SIZE, 2 * PTE_PAGE_SIZE, target, 1);
    // The counter is now i32::MAX - 1: one more reallocation still fits.
    assert!(brug.can_counter_grow(8192));
    let (_, target) = a.realloc_plan(&brug, 8192, 2 * PTE_PAGE_SIZE, 2 * PTE_PAGE_SIZE);
    a.realloc_done(&mut brug, 8192, 8192, 2 * PTE_PAGE_SIZE, 2 * PTE_PAGE_SIZE, target, 1);
    // Now it is i32::MAX: the next one would overflow.
    assert!(!brug.can_counter_grow(8192));
    assert!(!a.realloc_done_fits(&brug, 8192, 8192, 2 * PTE_PAGE_SIZE, 2 * PTE_PAGE_SIZE, target, 1));
}

#[test]
fn monitor_limit_on_realloc() {
    let a = BrugAllocator;
    let mut brug = BrugStruct::new();
    brug.enable_monitor();
    // An unknown block reallocated to a size up to the limit stays out.
    a.realloc_done(&mut brug, 64, 128, 100, 1024, DEFAULT_ALLOCATOR, 9);
    assert_eq!(brug.monitor_entries(), Some(vec![]));
    assert!(!brug.is_monitored(128));
    // Grown above the limit, it comes in.
    a.realloc_done(&mut brug, 128, 256, 1024, 1025, DEFAULT_ALLOCATOR, 9);
    assert_eq!(
        brug.monitor_entries().unwrap(),
        vec![(256, Monitordata { realloc_counter: 1, addr_counter: 0, total_size: 1025, total_duration: 9 })]
    );
    // A followed block stays followed when it shrinks.
    a.realloc_done(&mut brug, 256, 256, 1025, 10, DEFAULT_ALLOCATOR, 1);
    assert_eq!(
        brug.monitor_entries().unwrap(),
        vec![(256, Monitordata { realloc_counter: 2, addr_counter: 0, total_size: 1035, total_duration: 10 })]
    );
    // Its release forgets it.
    assert_eq!(a.dealloc_backend(&mut brug, 256, 10), DEFAULT_ALLOCATOR);
    assert!(!brug.is_monitored(256));
}
