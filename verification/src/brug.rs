use vstd::prelude::*;
use std::collections::BTreeMap;
use vstd::std_specs::iter::IteratorSpec;
use vstd::std_specs::cmp::OrdSpec;
use crate::mode::{Allocatormode, DEFAULT_ALLOCATOR, PTE_PAGE_SIZE};
use crate::template::{BrugTemplate, default_template, template_choice};

verus! {

/// What the adaptive mode remembers of one block it placed: the backend that
/// holds it and how many times it has been reallocated.
#[derive(Debug, Clone, Copy, PartialEq, Eq, Structural)]
pub struct Allocdata {
    pub allocator: Allocatormode,
    pub counter: i32,
}

/// What the monitor mode remembers of one object: how often it was
/// reallocated, how often a reallocation moved it, the sum of the sizes it
/// was reallocated to, and the time spent (in nanoseconds).
#[derive(Debug, Clone, Copy, PartialEq, Eq, Structural)]
pub struct Monitordata {
    pub realloc_counter: i32,
    pub addr_counter: i32,
    pub total_size: usize,
    pub total_duration: u128,
}

/// The longest span a `std::time::Duration` can hold, in nanoseconds
/// (`u64::MAX` seconds and 999 999 999 nanoseconds). Durations are kept as
/// nanosecond counts; a sum of two durations above this bound is where
/// `Duration`'s addition panics.
pub const DURATION_MAX_NANOS: u128 = 18_446_744_073_709_551_615_999_999_999u128;

/// Rows of the timing table: one per 4 KiB tier, the last one for everything
/// from 80 KiB on.
pub const RECORD_TIERS: usize = 21;

/// Columns of the timing table: system, jemalloc, mimalloc, mmap.
pub const RECORD_BACKENDS: usize = 4;

/// The abstract state of Brug.
pub struct BrugView {
    /// Blocks placed under the adaptive mode, by address.
    pub mapping: Map<usize, Allocdata>,
    /// Mean reallocation times, by size tier and backend column.
    pub records: Seq<Seq<u128>>,
    /// The policy in force.
    pub mode: Allocatormode,
    /// Whether the monitor is on.
    pub monitor_on: bool,
    /// Monitored objects, by address.
    pub monitor: Map<usize, Monitordata>,
    /// Objects up to this size are not monitored.
    pub limiter: i32,
    /// The size-based policy of the template mode.
    pub template: BrugTemplate,
}

impl BrugView {
    /// The timing table has a row of four columns for each tier.
    pub open spec fn wf(self) -> bool {
        &&& self.records.len() == RECORD_TIERS
        &&& forall|i: int| 0 <= i < RECORD_TIERS ==> #[trigger] self.records[i].len() == RECORD_BACKENDS
    }
}

/// The size tier of a request: whole 4 KiB pages, capped at 20.
pub open spec fn size_tier(size: usize) -> int {
    if size / PTE_PAGE_SIZE >= 20 {
        20
    } else {
        (size / PTE_PAGE_SIZE) as int
    }
}

/// `i` is the position of the first smallest element of `s`.
pub open spec fn is_first_min(s: Seq<u128>, i: int) -> bool {
    &&& 0 <= i < s.len()
    &&& forall|j: int| 0 <= j < s.len() ==> s[i] <= #[trigger] s[j]
    &&& forall|j: int| 0 <= j < i ==> s[i] < #[trigger] s[j]
}

/// The position of the first smallest element of a non-empty sequence.
pub open spec fn first_min(s: Seq<u128>) -> int {
    choose|i: int| is_first_min(s, i)
}

/// The backend that a column of the timing table stands for.
pub open spec fn column_mode(i: int) -> Allocatormode {
    if i == 0 {
        Allocatormode::_SYS_
    } else if i == 1 {
        Allocatormode::_JEMALLOC_
    } else if i == 2 {
        Allocatormode::_MIMALLOC_
    } else if i == 3 {
        Allocatormode::_MMAP_
    } else {
        DEFAULT_ALLOCATOR
    }
}

/// The column of the timing table that a backend's times go to, or -1 for a
/// policy, whose times are not recorded.
pub open spec fn record_column(a: Allocatormode) -> int {
    match a {
        Allocatormode::_SYS_ => 0,
        Allocatormode::_JEMALLOC_ => 1,
        Allocatormode::_MIMALLOC_ => 2,
        Allocatormode::_MMAP_ => 3,
        _ => -1,
    }
}

/// The timing table after a reallocation of `time` nanoseconds was recorded
/// in row `tier`, column `col`: the cell becomes the mean of `time` and its
/// previous value.
pub open spec fn recorded(r: Seq<Seq<u128>>, tier: int, col: int, time: u128) -> Seq<Seq<u128>> {
    if col < 0 {
        r
    } else {
        r.update(tier, r[tier].update(col, ((time + r[tier][col]) / 2) as u128))
    }
}

/// Recording `time` for `allocator` in `tier` stays within what a duration
/// can hold.
pub open spec fn record_fits(r: Seq<Seq<u128>>, tier: int, allocator: Allocatormode, time: u128) -> bool {
    record_column(allocator) >= 0 ==> time + r[tier][record_column(allocator)] <= DURATION_MAX_NANOS
}

/// The allocator the adaptive mode has on file for `addr`, or the default.
pub open spec fn lookup_allocator(m: Map<usize, Allocdata>, addr: usize) -> Allocatormode {
    if m.contains_key(addr) {
        m[addr].allocator
    } else {
        DEFAULT_ALLOCATOR
    }
}

/// The bookkeeping of the adaptive mode after the object at `old_addr` moved
/// to `new_addr` under `allocator`: its counter goes up by one (or starts at
/// one for an unknown object).
pub open spec fn counter_grown(
    m: Map<usize, Allocdata>,
    old_addr: usize,
    new_addr: usize,
    allocator: Allocatormode,
) -> Map<usize, Allocdata> {
    let counter: i32 = if m.contains_key(old_addr) {
        (m[old_addr].counter + 1) as i32
    } else {
        1
    };
    m.remove(old_addr).insert(new_addr, Allocdata { allocator, counter })
}

/// Growing the counter of `old_addr` does not overflow.
pub open spec fn counter_fits(m: Map<usize, Allocdata>, old_addr: usize) -> bool {
    m.contains_key(old_addr) ==> m[old_addr].counter < i32::MAX
}

/// The monitor's table after the object at `old_addr` was reallocated to
/// `new_addr` with `new_size` bytes in `duration` nanoseconds.
pub open spec fn monitor_updated(
    m: Map<usize, Monitordata>,
    old_addr: usize,
    new_addr: usize,
    duration: u128,
    new_size: usize,
) -> Map<usize, Monitordata> {
    let data = if m.contains_key(old_addr) {
        let d = m[old_addr];
        Monitordata {
            realloc_counter: (d.realloc_counter + 1) as i32,
            addr_counter: if old_addr != new_addr {
                (d.addr_counter + 1) as i32
            } else {
                d.addr_counter
            },
            total_size: (d.total_size + new_size) as usize,
            total_duration: (d.total_duration + duration) as u128,
        }
    } else {
        Monitordata {
            realloc_counter: 1,
            addr_counter: 0,
            total_size: new_size,
            total_duration: duration,
        }
    };
    m.remove(old_addr).insert(new_addr, data)
}

/// Updating the monitor's entry of `old_addr` overflows none of its fields.
pub open spec fn monitor_update_fits(
    m: Map<usize, Monitordata>,
    old_addr: usize,
    new_addr: usize,
    duration: u128,
    new_size: usize,
) -> bool {
    m.contains_key(old_addr) ==> {
        let d = m[old_addr];
        &&& d.realloc_counter < i32::MAX
        &&& (old_addr != new_addr ==> d.addr_counter < i32::MAX)
        &&& d.total_size + new_size <= usize::MAX
        &&& d.total_duration + duration <= DURATION_MAX_NANOS
    }
}

/// `s` lists the entries of `m` in increasing order of address.
pub open spec fn lists_in_order(s: Seq<(usize, Monitordata)>, m: Map<usize, Monitordata>) -> bool {
    &&& forall|i: int, j: int| 0 <= i < j < s.len() ==> #[trigger] s[i].0 < #[trigger] s[j].0
    &&& forall|i: int| 0 <= i < s.len() ==> m.contains_key(#[trigger] s[i].0) && m[s[i].0] == s[i].1
    &&& forall|k: usize| #[trigger] m.contains_key(k) ==> exists|i: int| 0 <= i < s.len() && #[trigger] s[i].0 == k
}

/// The state after switching to `mode`.
pub open spec fn after_set_mode(v: BrugView, mode: Allocatormode) -> BrugView {
    BrugView { mode, ..v }
}

/// The state after going back to the default mode.
pub open spec fn after_end_set(v: BrugView) -> BrugView {
    BrugView { mode: DEFAULT_ALLOCATOR, ..v }
}

/// The state Brug starts in.
pub open spec fn initial_view() -> BrugView {
    BrugView {
        mapping: Map::empty(),
        records: Seq::new(RECORD_TIERS as nat, |i: int| Seq::new(RECORD_BACKENDS as nat, |j: int| 0u128)),
        mode: DEFAULT_ALLOCATOR,
        monitor_on: false,
        monitor: Map::empty(),
        limiter: 1024,
        template: default_template(),
    }
}

/// `i` is the only position of the first smallest element of `s`.
pub proof fn lemma_first_min_unique(s: Seq<u128>, i: int)
    requires
        is_first_min(s, i),
    ensures
        first_min(s) == i,
{
    let k = first_min(s);
    assert(is_first_min(s, k));
    if k < i {
        assert(s[i] < s[k]);
        assert(s[k] <= s[i]);
    } else if i < k {
        assert(s[k] < s[i]);
        assert(s[i] <= s[k]);
    }
}

/// For addresses, the order of the standard library is the order of numbers.
proof fn lemma_less_in_order(a: usize, b: usize)
    requires
        a.cmp_spec(&b) is Less,
    ensures
        a < b,
{
}

/// The state of the Brug allocator: the policy in force, the bookkeeping of
/// the adaptive mode and of the monitor.
pub struct BrugStruct {
    mapping: BTreeMap<usize, Allocdata>,
    records: [[u128; 4]; 21],
    current_alloc: Allocatormode,
    monitor_flag: bool,
    monitor_map: BTreeMap<usize, Monitordata>,
    monitor_size_limiter: i32,
    template: BrugTemplate,
}

impl View for BrugStruct {
    type V = BrugView;

    closed spec fn view(&self) -> BrugView {
        BrugView {
            mapping: self.mapping@,
            records: self.records@.map_values(|row: [u128; 4]| row@),
            mode: self.current_alloc,
            monitor_on: self.monitor_flag,
            monitor: self.monitor_map@,
            limiter: self.monitor_size_limiter,
            template: self.template,
        }
    }
}

impl BrugStruct {
    /// Every state has a timing table of 21 rows of 4 columns.
    pub proof fn lemma_view_wf(&self)
        ensures
            self@.wf(),
    {
    }

    /// Brug as it starts: the default mode, no bookkeeping, a zeroed timing
    /// table, the monitor off with a limit of 1024 bytes, the default template.
    pub fn new() -> (s: BrugStruct)
        ensures
            s@ == initial_view(),
    {
        let s = BrugStruct {
            mapping: BTreeMap::new(),
            records: [[0u128; 4]; 21],
            current_alloc: DEFAULT_ALLOCATOR,
            monitor_flag: false,
            monitor_map: BTreeMap::new(),
            monitor_size_limiter: 1024,
            template: BrugTemplate::default(),
        };
        assert forall|i: int| 0 <= i < RECORD_TIERS implies #[trigger] s@.records[i] =~= initial_view().records[i] by {
            assert(s.records@[i]@ =~= Seq::new(RECORD_BACKENDS as nat, |j: int| 0u128));
        }
        assert(s@.records =~= initial_view().records);
        s
    }

    /// The policy in force.
    pub fn current_mode(&self) -> (m: Allocatormode)
        ensures
            m == self@.mode,
    {
        self.current_alloc
    }

    /// Switches to `mode`.
    pub fn set_mode(&mut self, mode: Allocatormode)
        ensures
            final(self)@ == after_set_mode(old(self)@, mode),
    {
        self.current_alloc = mode;
    }

    /// Goes back to the default mode.
    pub fn end_set(&mut self)
        ensures
            final(self)@ == after_end_set(old(self)@),
    {
        self.current_alloc = DEFAULT_ALLOCATOR;
    }

    /// The template in force.
    pub fn template(&self) -> (t: BrugTemplate)
        ensures
            t == self@.template,
    {
        self.template
    }

    /// Replaces the template.
    pub fn set_template(&mut self, template: BrugTemplate)
        ensures
            final(self)@ == (BrugView { template, ..old(self)@ }),
    {
        self.template = template;
    }

    /// The backend the template in force assigns to `size` bytes.
    pub fn brug_template_mode(&self, size: usize) -> (r: Allocatormode)
        ensures
            r == template_choice(self@.template, size),
            r.is_backend(),
    {
        self.template.choose_backend(size)
    }
    /// Puts `alloc_data` on file for the object at `address`.
    pub fn input(&mut self, address: usize, alloc_data: Allocdata)
        ensures
            final(self)@ == (BrugView { mapping: old(self)@.mapping.insert(address, alloc_data), ..old(self)@ }),
    {
        self.mapping.insert(address, alloc_data);
    }

    /// Puts `alloc_data` on file for the object at `ptr`, so that its next
    /// reallocation or release goes by it.
    pub fn suggest(&mut self, ptr: usize, alloc_data: Allocdata)
        ensures
            final(self)@ == (BrugView { mapping: old(self)@.mapping.insert(ptr, alloc_data), ..old(self)@ }),
    {
        self.mapping.insert(ptr, alloc_data);
    }

    /// Moves the file of the object at `old_address` to `new_address`, now
    /// held by `new_allocator`, and counts one more reallocation of it.
    pub fn counter_grow(&mut self, old_address: usize, new_address: usize, new_allocator: Allocatormode)
        requires
            counter_fits(old(self)@.mapping, old_address),
        ensures
            final(self)@ == (BrugView {
                mapping: counter_grown(old(self)@.mapping, old_address, new_address, new_allocator),
                ..old(self)@
            }),
    {
        let new_counter: i32 = match self.mapping.remove(&old_address) {
            Some(allocdata) => allocdata.counter + 1,
            None => 1,
        };
        let new_data = Allocdata { allocator: new_allocator, counter: new_counter };
        self.mapping.insert(new_address, new_data);
    }

    /// The row of the timing table for a request of `size` bytes: one row per
    /// 4 KiB page, all sizes of 20 pages and more sharing the last row.
    pub fn size_match(size: usize) -> (tier: usize)
        ensures
            tier == size_tier(size),
            tier < RECORD_TIERS,
    {
        let tier_size: usize = size / PTE_PAGE_SIZE;
        if tier_size >= 20 {
            return 20;
        }
        tier_size
    }

    /// Records that a reallocation of `size` bytes under `allocator` took
    /// `time` nanoseconds: the backend's cell in the row of `size` becomes the
    /// mean of `time` and its previous value. Times under a policy mode are
    /// not recorded.
    pub fn record(&mut self, size: usize, time: u128, allocator: Allocatormode)
        requires
            record_fits(old(self)@.records, size_tier(size), allocator, time),
        ensures
            final(self)@ == (BrugView {
                records: recorded(old(self)@.records, size_tier(size), record_column(allocator), time),
                ..old(self)@
            }),
    {
        let size_type = Self::size_match(size);
        let ghost before = self@.records;
        let mut row: [u128; 4] = self.records[size_type];
        match allocator {
            Allocatormode::_SYS_ => {
                row[0] = (time + row[0]) / 2;
            },
            Allocatormode::_JEMALLOC_ => {
                row[1] = (time + row[1]) / 2;
            },
            Allocatormode::_MIMALLOC_ => {
                row[2] = (time + row[2]) / 2;
            },
            Allocatormode::_MMAP_ => {
                row[3] = (time + row[3]) / 2;
            },
            _ => {},
        }
        self.records[size_type] = row;
        assert(self@.records =~= recorded(before, size_tier(size), record_column(allocator), time));
    }

    /// The position of the first smallest element of `slice`, or `None` for
    /// an empty slice.
    pub fn position_min(slice: &[u128]) -> (r: Option<usize>)
        ensures
            slice@.len() == 0 <==> r is None,
            r matches Some(i) ==> is_first_min(slice@, i as int) && i == first_min(slice@),
            r matches Some(i) ==> {
                &&& i < slice@.len()
                &&& forall|j: int| 0 <= j < slice@.len() ==> slice@[i as int] <= #[trigger] slice@[j]
                &&& forall|j: int| 0 <= j < i ==> slice@[i as int] < #[trigger] slice@[j]
            },
    {
        if slice.len() == 0 {
            return None;
        }
        let mut best: usize = 0;
        let mut i: usize = 1;
        while i < slice.len()
            invariant
                1 <= i <= slice@.len(),
                best < i,
                forall|j: int| 0 <= j < i ==> slice@[best as int] <= #[trigger] slice@[j],
                forall|j: int| 0 <= j < best ==> slice@[best as int] < #[trigger] slice@[j],
            decreases slice@.len() - i,
        {
            if slice[i] < slice[best] {
                best = i;
            }
            i = i + 1;
        }
        proof {
            lemma_first_min_unique(slice@, best as int);
        }
        Some(best)
    }

    /// The backend with the smallest mean reallocation time in the row of
    /// `size`; on a tie the first column wins.
    pub fn optimization_mode(&self, size: usize) -> (r: Allocatormode)
        ensures
            r == column_mode(first_min(self@.records[size_tier(size)])),
            r.is_backend(),
    {
        let size_type = Self::size_match(size);
        let row: [u128; 4] = self.records[size_type];
        let allocator_type = Self::position_min(&row).unwrap();
        match allocator_type {
            0 => Allocatormode::_SYS_,
            1 => Allocatormode::_JEMALLOC_,
            2 => Allocatormode::_MIMALLOC_,
            3 => Allocatormode::_MMAP_,
            _ => DEFAULT_ALLOCATOR,
        }
    }

    /// The allocator on file for the object at `ptr` (the default one when
    /// there is none); the file is closed.
    pub fn automode_get_allocator(&mut self, ptr: usize) -> (r: Allocatormode)
        ensures
            r == lookup_allocator(old(self)@.mapping, ptr),
            final(self)@ == (BrugView { mapping: old(self)@.mapping.remove(ptr), ..old(self)@ }),
    {
        match self.mapping.remove(&ptr) {
            Some(allocdata) => allocdata.allocator,
            None => DEFAULT_ALLOCATOR,
        }
    }

    /// The allocator on file for the object at `ptr` (the default one when
    /// there is none), leaving the file open.
    pub fn allocator_of(&self, ptr: usize) -> (r: Allocatormode)
        ensures
            r == lookup_allocator(self@.mapping, ptr),
    {
        match self.mapping.get(&ptr) {
            Some(allocdata) => allocdata.allocator,
            None => DEFAULT_ALLOCATOR,
        }
    }

    /// Switches the monitor on.
    pub fn enable_monitor(&mut self)
        ensures
            final(self)@ == (BrugView { monitor_on: true, ..old(self)@ }),
    {
        self.monitor_flag = true;
    }

    /// Sets the size up to which objects are not monitored.
    pub fn change_monitor_limiter(&mut self, val: i32)
        ensures
            final(self)@ == (BrugView { limiter: val, ..old(self)@ }),
    {
        self.monitor_size_limiter = val;
    }

    /// Switches the monitor off and forgets what it recorded.
    pub fn disable_monitor(&mut self)
        ensures
            final(self)@ == (BrugView { monitor_on: false, monitor: Map::empty(), ..old(self)@ }),
    {
        self.monitor_flag = false;
        self.monitor_map.clear();
    }

    /// Whether the monitor is on.
    pub fn monitor_enabled(&self) -> (b: bool)
        ensures
            b == self@.monitor_on,
    {
        self.monitor_flag
    }

    /// The size up to which objects are not monitored.
    pub fn monitor_limiter(&self) -> (l: i32)
        ensures
            l == self@.limiter,
    {
        self.monitor_size_limiter
    }

    /// Whether the monitor follows the object at `address`.
    pub fn is_monitored(&self, address: usize) -> (b: bool)
        ensures
            b == self@.monitor.contains_key(address),
    {
        self.monitor_map.contains_key(&address)
    }

    /// Starts monitoring the object at `address` with `monitor_data`.
    pub fn monitor_input(&mut self, address: usize, monitor_data: Monitordata)
        ensures
            final(self)@ == (BrugView { monitor: old(self)@.monitor.insert(address, monitor_data), ..old(self)@ }),
    {
        self.monitor_map.insert(address, monitor_data);
    }

    /// Accounts a reallocation of the object at `old_address` to
    /// `new_address` with `new_size` bytes that took `duration` nanoseconds.
    pub fn monitor_update(&mut self, old_address: usize, new_address: usize, duration: u128, new_size: usize)
        requires
            monitor_update_fits(old(self)@.monitor, old_address, new_address, duration, new_size),
        ensures
            final(self)@ == (BrugView {
                monitor: monitor_updated(old(self)@.monitor, old_address, new_address, duration, new_size),
                ..old(self)@
            }),
    {
        let new_data = match self.monitor_map.remove(&old_address) {
            Some(monitor_data) => {
                let addr_counter: i32 = if old_address != new_address {
                    monitor_data.addr_counter + 1
                } else {
                    monitor_data.addr_counter
                };
                Monitordata {
                    realloc_counter: monitor_data.realloc_counter + 1,
                    addr_counter,
                    total_size: monitor_data.total_size + new_size,
                    total_duration: monitor_data.total_duration + duration,
                }
            },
            None => Monitordata {
                realloc_counter: 1,
                addr_counter: 0,
                total_size: new_size,
                total_duration: duration,
            },
        };
        self.monitor_map.insert(new_address, new_data);
    }

    /// Stops monitoring the object at `addr`.
    pub fn monitor_release(&mut self, addr: usize)
        ensures
            final(self)@ == (BrugView { monitor: old(self)@.monitor.remove(addr), ..old(self)@ }),
    {
        self.monitor_map.remove(&addr);
    }

    /// What the monitor has recorded, by increasing address, or `None` when
    /// the monitor is off.
    pub fn monitor_entries(&self) -> (r: Option<Vec<(usize, Monitordata)>>)
        ensures
            !self@.monitor_on ==> r is None,
            self@.monitor_on ==> (r matches Some(v) && lists_in_order(v@, self@.monitor)),
    {
        if !self.monitor_flag {
            return None;
        }
        let mut out: Vec<(usize, Monitordata)> = Vec::new();
        let entries = self.monitor_map.iter();
        let ghost all = entries.remaining();
        for kv in it: entries
            invariant
                it.seq() == all,
                out@.len() == it.index(),
                forall|i: int| 0 <= i < it.index() ==> #[trigger] out@[i] == (*all[i].0, *all[i].1),
        {
            let (k, v) = kv;
            out.push((*k, *v));
        }
        proof {
            // The iterator yields the map's entries by increasing key.
            let keys = all.map_values(|kv: (&usize, &Monitordata)| *kv.0);
            assert(vstd::std_specs::btree::increasing_seq(keys));
            assert forall|i: int, j: int| 0 <= i < j < out@.len() implies #[trigger] out@[i].0 < #[trigger] out@[j].0 by {
                assert(keys[i] == out@[i].0);
                assert(keys[j] == out@[j].0);
                lemma_less_in_order(keys[i], keys[j]);
            }
            assert forall|k: usize| #[trigger] self@.monitor.contains_key(k) implies exists|i: int| 0 <= i < out@.len() && #[trigger] out@[i].0 == k by {
                assert(all.contains((&k, &self@.monitor[k])));
                let i = choose|i: int| 0 <= i < all.len() && all[i] == (&k, &self@.monitor[k]);
                assert(out@[i].0 == k);
            }
        }
        assert(lists_in_order(out@, self@.monitor));
        Some(out)
    }

    /// Whether [`BrugStruct::counter_grow`] can count one more reallocation
    /// of the object at `old_address` without overflow.
    pub fn can_counter_grow(&self, old_address: usize) -> (r: bool)
        ensures
            r == counter_fits(self@.mapping, old_address),
    {
        match self.mapping.get(&old_address) {
            Some(allocdata) => allocdata.counter < i32::MAX,
            None => true,
        }
    }

    /// Whether [`BrugStruct::record`] can record `time` nanoseconds for a
    /// reallocation of `size` bytes under `allocator` without overflowing a
    /// duration.
    pub fn can_record(&self, size: usize, time: u128, allocator: Allocatormode) -> (r: bool)
        ensures
            r == record_fits(self@.records, size_tier(size), allocator, time),
    {
        let size_type = Self::size_match(size);
        let row: [u128; 4] = self.records[size_type];
        let previous: u128 = match allocator {
            Allocatormode::_SYS_ => row[0],
            Allocatormode::_JEMALLOC_ => row[1],
            Allocatormode::_MIMALLOC_ => row[2],
            Allocatormode::_MMAP_ => row[3],
            _ => {
                return true;
            },
        };
        time <= DURATION_MAX_NANOS && previous <= DURATION_MAX_NANOS - time
    }

    /// Whether [`BrugStruct::monitor_update`] can account this reallocation
    /// without overflowing a counter, the total size or the total duration.
    pub fn can_monitor_update(&self, old_address: usize, new_address: usize, duration: u128, new_size: usize) -> (r: bool)
        ensures
            r == monitor_update_fits(self@.monitor, old_address, new_address, duration, new_size),
    {
        match self.monitor_map.get(&old_address) {
            Some(d) => {
                &&& d.realloc_counter < i32::MAX
                &&& (old_address == new_address || d.addr_counter < i32::MAX)
                &&& d.total_size <= usize::MAX - new_size
                &&& duration <= DURATION_MAX_NANOS && d.total_duration <= DURATION_MAX_NANOS - duration
            },
            None => true,
        }
    }
}

} // verus!
