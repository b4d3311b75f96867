use vstd::prelude::*;
use crate::mode::{Allocatormode, DEFAULT_ALLOCATOR, PTE_PAGE_SIZE};
use crate::template::template_choice;
use crate::brug::{
    Allocdata, BrugView, after_set_mode, after_end_set, initial_view, RECORD_TIERS, RECORD_BACKENDS, size_tier, is_first_min, first_min,
    column_mode, record_column, recorded, lookup_allocator, lemma_first_min_unique,
    Monitordata, monitor_updated, counter_grown,
};
use crate::template::{BrugTemplate, default_template};
use crate::allocator::{
    ReallocPlan, is_adaptive,
    alloc_choice, after_alloc, dealloc_choice, monitors_realloc, after_dealloc, realloc_choice, after_realloc,
};

verus! {

/// Every non-empty sequence has a first smallest element.
pub proof fn lemma_first_min_exists(s: Seq<u128>)
    requires
        s.len() > 0,
    ensures
        is_first_min(s, first_min(s)),
    decreases s.len(),
{
    if s.len() == 1 {
        assert(is_first_min(s, 0));
    } else {
        let p = s.drop_last();
        lemma_first_min_exists(p);
        let i = first_min(p);
        assert(forall|j: int| 0 <= j < p.len() ==> p[j] == s[j]);
        if s.last() < s[i] {
            assert(is_first_min(s, s.len() - 1));
        } else {
            assert(is_first_min(s, i));
        }
    }
}

/// `end_set` leaves Brug in the mode it starts in, whatever mode was set
/// before it and whatever happened since, and changes nothing else; a
/// `set_mode` / `end_set` block leaves the state as `end_set` alone would.
pub proof fn law_end_set_restores_default(v: BrugView, m: Allocatormode)
    ensures
        after_end_set(v).mode == DEFAULT_ALLOCATOR,
        after_end_set(v).mode == Allocatormode::_JEMALLOC_,
        after_end_set(v).mode == initial_view().mode,
        after_end_set(v).mapping == v.mapping,
        after_end_set(v).records == v.records,
        after_end_set(v).monitor_on == v.monitor_on,
        after_end_set(v).monitor == v.monitor,
        after_end_set(v).limiter == v.limiter,
        after_end_set(v).template == v.template,
        after_end_set(after_set_mode(v, m)) == after_end_set(v),
{
}

/// Every policy ends in a concrete backend: allocations, releases and both
/// ends of a reallocation are served by the system allocator, jemalloc,
/// mimalloc or mmap, never by a policy.
pub proof fn law_choices_are_backends(v: BrugView, addr: usize, old_size: usize, new_size: usize)
    requires
        v.wf(),
    ensures
        alloc_choice(v, new_size).is_backend(),
        dealloc_choice(v, addr, old_size).is_backend(),
        realloc_choice(v, addr, old_size, new_size).1.is_backend(),
        realloc_choice(v, addr, old_size, new_size).0 matches ReallocPlan::Resize(b) ==> b.is_backend(),
        realloc_choice(v, addr, old_size, new_size).0 matches ReallocPlan::Move { to, .. } ==> to.is_backend(),
{
}

/// A block goes back to the backend that served it: after an allocation of
/// `size` bytes at `addr`, its release under the same mode is served by the
/// backend that served the allocation.
pub proof fn law_release_matches_allocation(v: BrugView, addr: usize, size: usize, elapsed: u128)
    ensures
        dealloc_choice(after_alloc(v, addr, size, elapsed), addr, size) == alloc_choice(v, size),
{
}

/// The backend that serves a reallocation: the one that resizes the block,
/// or the one the block moves to.
pub open spec fn realloc_served(v: BrugView, addr: usize, old_size: usize, new_size: usize) -> Allocatormode {
    match realloc_choice(v, addr, old_size, new_size).0 {
        ReallocPlan::Resize(b) => b,
        ReallocPlan::Move { to, .. } => to,
    }
}

/// A reallocation starts from the backend that holds the block: the backend
/// that resizes the block, or the one the block moves away from, is the one
/// that would release it.
pub proof fn law_realloc_starts_at_holder(v: BrugView, addr: usize, old_size: usize, new_size: usize)
    ensures
        realloc_choice(v, addr, old_size, new_size).0 matches ReallocPlan::Resize(b) ==> b == dealloc_choice(v, addr, old_size),
        realloc_choice(v, addr, old_size, new_size).0 matches ReallocPlan::Move { from, .. } ==> from == dealloc_choice(v, addr, old_size),
{
}

/// A reallocated block goes back, when released, to the backend that served
/// the reallocation, whatever the sizes before and after.
pub proof fn law_release_after_realloc(
    v: BrugView,
    old_addr: usize,
    new_addr: usize,
    old_size: usize,
    new_size: usize,
    elapsed: u128,
)
    ensures
        ({
            let target = realloc_choice(v, old_addr, old_size, new_size).1;
            let w = after_realloc(v, old_addr, new_addr, old_size, new_size, target, elapsed);
            dealloc_choice(w, new_addr, new_size) == realloc_served(v, old_addr, old_size, new_size)
        }),
{
}

/// What decides the release of the block at `addr` is the mode, the
/// template and the file of `addr`: two states that agree on these release
/// it through the same backend.
pub proof fn law_release_depends_on_own_file(v: BrugView, w: BrugView, addr: usize, size: usize)
    requires
        w.mode == v.mode,
        w.template == v.template,
        lookup_allocator(w.mapping, addr) == lookup_allocator(v.mapping, addr),
    ensures
        dealloc_choice(w, addr, size) == dealloc_choice(v, addr, size),
{
}

/// An allocation, release or reallocation as the allocator carries it out.
pub enum Step {
    Alloc { addr: usize, size: usize, elapsed: u128 },
    Dealloc { addr: usize, size: usize },
    Realloc { old_addr: usize, new_addr: usize, old_size: usize, new_size: usize, elapsed: u128 },
}

/// The state after one step.
pub open spec fn after_step(v: BrugView, s: Step) -> BrugView {
    match s {
        Step::Alloc { addr, size, elapsed } => after_alloc(v, addr, size, elapsed),
        Step::Dealloc { addr, size } => after_dealloc(v, addr, size),
        Step::Realloc { old_addr, new_addr, old_size, new_size, elapsed } => after_realloc(
            v,
            old_addr,
            new_addr,
            old_size,
            new_size,
            realloc_choice(v, old_addr, old_size, new_size).1,
            elapsed,
        ),
    }
}

/// The state after a run of steps.
pub open spec fn after_steps(v: BrugView, steps: Seq<Step>) -> BrugView
    decreases steps.len(),
{
    if steps.len() == 0 {
        v
    } else {
        after_step(after_steps(v, steps.drop_last()), steps.last())
    }
}

/// A step that concerns neither the block at `addr` nor the block it
/// makes.
pub open spec fn avoids(s: Step, addr: usize) -> bool {
    match s {
        Step::Alloc { addr: a, .. } => a != addr,
        Step::Dealloc { addr: a, .. } => a != addr,
        Step::Realloc { old_addr, new_addr, .. } => old_addr != addr && new_addr != addr,
    }
}

/// Steps on other blocks change neither the mode, the template, nor the file
/// of `addr`, so they leave the backend that releases `addr` as it was.
pub proof fn law_other_steps_keep_holder(v: BrugView, steps: Seq<Step>, addr: usize, size: usize)
    requires
        forall|i: int| 0 <= i < steps.len() ==> avoids(#[trigger] steps[i], addr),
    ensures
        after_steps(v, steps).mode == v.mode,
        after_steps(v, steps).template == v.template,
        lookup_allocator(after_steps(v, steps).mapping, addr) == lookup_allocator(v.mapping, addr),
        dealloc_choice(after_steps(v, steps), addr, size) == dealloc_choice(v, addr, size),
    decreases steps.len(),
{
    if steps.len() > 0 {
        let p = steps.drop_last();
        assert forall|i: int| 0 <= i < p.len() implies avoids(#[trigger] p[i], addr) by {
            assert(p[i] == steps[i]);
        }
        law_other_steps_keep_holder(v, p, addr, size);
        let u = after_steps(v, p);
        assert(avoids(steps[steps.len() - 1], addr));
        let w = after_step(u, steps.last());
        assert(lookup_allocator(w.mapping, addr) == lookup_allocator(u.mapping, addr));
    }
}

/// A block goes back to the backend that served it, whatever allocations,
/// releases and reallocations of other blocks happen in between, as long as
/// the mode and the template stay as they were.
pub proof fn law_release_matches_allocation_across_steps(
    v: BrugView,
    addr: usize,
    size: usize,
    elapsed: u128,
    steps: Seq<Step>,
)
    requires
        forall|i: int| 0 <= i < steps.len() ==> avoids(#[trigger] steps[i], addr),
    ensures
        dealloc_choice(after_steps(after_alloc(v, addr, size, elapsed), steps), addr, size) == alloc_choice(v, size),
{
    law_other_steps_keep_holder(after_alloc(v, addr, size, elapsed), steps, addr, size);
}

/// Likewise for a reallocated block: it goes back to the backend that served
/// the reallocation, whatever other blocks do in between.
pub proof fn law_release_after_realloc_across_steps(
    v: BrugView,
    old_addr: usize,
    new_addr: usize,
    old_size: usize,
    new_size: usize,
    elapsed: u128,
    steps: Seq<Step>,
)
    requires
        forall|i: int| 0 <= i < steps.len() ==> avoids(#[trigger] steps[i], new_addr),
    ensures
        ({
            let target = realloc_choice(v, old_addr, old_size, new_size).1;
            let w = after_realloc(v, old_addr, new_addr, old_size, new_size, target, elapsed);
            dealloc_choice(after_steps(w, steps), new_addr, new_size) == realloc_served(v, old_addr, old_size, new_size)
        }),
{
    let target = realloc_choice(v, old_addr, old_size, new_size).1;
    let w = after_realloc(v, old_addr, new_addr, old_size, new_size, target, elapsed);
    law_other_steps_keep_holder(w, steps, new_addr, new_size);
}

/// The adaptive mode closes the file it opened: an allocation followed by
/// its release leaves the files as they were, but for `addr`.
pub proof fn law_release_closes_file(v: BrugView, addr: usize, size: usize, elapsed: u128)
    requires
        is_adaptive(v),
    ensures
        after_dealloc(after_alloc(v, addr, size, elapsed), addr, size).mapping == v.mapping.remove(addr),
{
    assert(after_dealloc(after_alloc(v, addr, size, elapsed), addr, size).mapping =~= v.mapping.remove(addr));
}

/// A release makes the monitor, when on, forget the block.
pub proof fn law_release_forgets_monitor_record(v: BrugView, addr: usize, size: usize)
    requires
        v.monitor_on,
    ensures
        !after_dealloc(v, addr, size).monitor.contains_key(addr),
        after_dealloc(v, addr, size).monitor == v.monitor.remove(addr),
{
}

/// What `suggest` files for an address is what the next lookup of it gives
/// back, and the lookup closes the file.
pub proof fn law_suggest_then_lookup(v: BrugView, p: usize, d: Allocdata)
    ensures
        ({
            let w = BrugView { mapping: v.mapping.insert(p, d), ..v };
            &&& lookup_allocator(w.mapping, p) == d.allocator
            &&& !w.mapping.remove(p).contains_key(p)
            &&& lookup_allocator(w.mapping.remove(p), p) == DEFAULT_ALLOCATOR
        }),
{
}

/// Each reallocation of a filed block under the adaptive mode counts one
/// more: its file moves to the new address, with the target backend and the
/// counter grown by one.
pub proof fn law_realloc_counts(
    v: BrugView,
    old_addr: usize,
    new_addr: usize,
    old_size: usize,
    new_size: usize,
    elapsed: u128,
)
    requires
        is_adaptive(v),
        v.mapping.contains_key(old_addr),
        v.mapping[old_addr].counter < i32::MAX,
    ensures
        ({
            let target = realloc_choice(v, old_addr, old_size, new_size).1;
            let w = after_realloc(v, old_addr, new_addr, old_size, new_size, target, elapsed);
            &&& w.mapping.contains_key(new_addr)
            &&& w.mapping[new_addr].allocator == target
            &&& w.mapping[new_addr].counter == v.mapping[old_addr].counter + 1
            &&& (old_addr != new_addr ==> !w.mapping.contains_key(old_addr))
        }),
{
}

/// The monitor's limit keeps small objects out: reallocating an object the
/// monitor does not follow to a size up to the limit leaves its table as it
/// was.
pub proof fn law_monitor_skips_small_reallocs(
    v: BrugView,
    old_addr: usize,
    new_addr: usize,
    old_size: usize,
    new_size: usize,
    new_allocator: Allocatormode,
    elapsed: u128,
)
    requires
        !v.monitor.contains_key(old_addr),
        new_size <= (v.limiter as usize),
    ensures
        after_realloc(v, old_addr, new_addr, old_size, new_size, new_allocator, elapsed).monitor == v.monitor,
{
}

/// The adaptive mode picks a fastest backend: the backend it chooses for a
/// size has the smallest mean reallocation time in the row of that size.
pub proof fn law_optimization_picks_fastest(v: BrugView, size: usize)
    requires
        v.wf(),
    ensures
        ({
            let row = v.records[size_tier(size)];
            let chosen = column_mode(first_min(row));
            forall|j: int| 0 <= j < RECORD_BACKENDS ==> row[record_column(chosen)] <= #[trigger] row[j]
        }),
{
    let row = v.records[size_tier(size)];
    lemma_first_min_exists(row);
}

/// `size_match` is monotone: a larger size never gets a lower row of the
/// timing table, and every row is within the table.
pub proof fn law_size_match_monotone(a: usize, b: usize)
    requires
        a <= b,
    ensures
        0 <= size_tier(a) <= size_tier(b) < RECORD_TIERS,
{
    assert(a / PTE_PAGE_SIZE <= b / PTE_PAGE_SIZE) by (nonlinear_arith)
        requires
            a <= b,
    ;
}

/// Recording a time changes one cell only, and puts there a value between
/// the recorded time and the cell's previous value.
pub proof fn law_record_is_mean(r: Seq<Seq<u128>>, size: usize, allocator: Allocatormode, time: u128)
    requires
        r.len() == RECORD_TIERS,
        forall|i: int| 0 <= i < RECORD_TIERS ==> #[trigger] r[i].len() == RECORD_BACKENDS,
        record_column(allocator) >= 0,
        time + r[size_tier(size)][record_column(allocator)] <= u128::MAX,
    ensures
        ({
            let t = size_tier(size);
            let c = record_column(allocator);
            let n = recorded(r, t, c, time);
            &&& n.len() == r.len()
            &&& forall|i: int, j: int| 0 <= i < RECORD_TIERS && 0 <= j < RECORD_BACKENDS && !(i == t && j == c)
                ==> #[trigger] n[i][j] == r[i][j]
            &&& (time <= r[t][c] ==> time <= n[t][c] <= r[t][c])
            &&& (r[t][c] <= time ==> r[t][c] <= n[t][c] <= time)
        }),
{
    law_size_match_monotone(size, size);
}

/// The template policy serves a size with the same backend whether it
/// allocates or releases it, so a block never changes hands under it.
pub proof fn law_template_consistent(v: BrugView, addr: usize, size: usize)
    requires
        v.mode is _BrugTemplate_,
    ensures
        alloc_choice(v, size) == dealloc_choice(v, addr, size),
        alloc_choice(v, size) == template_choice(v.template, size),
{
}

/// An entry of the template is taken only when it is active and its range
/// `(lower, upper]` holds the size; the system allocator takes what no
/// active entry holds; and earlier entries (jemalloc, then mimalloc, then
/// the system allocator, then mmap) win over later ones.
pub proof fn law_template_takes_active_covering_entries(t: BrugTemplate, size: usize)
    ensures
        ({
            let s = size as u128;
            let je = t.jemalloc.0 && t.jemalloc.1 < s && s <= t.jemalloc.2;
            let mi = t.mimalloc.0 && t.mimalloc.1 < s && s <= t.mimalloc.2;
            let sy = t.sys.0 && t.sys.1 < s && s <= t.sys.2;
            let mm = t.mmap.0 && t.mmap.1 < s && s <= t.mmap.2;
            let r = template_choice(t, size);
            &&& (r == Allocatormode::_JEMALLOC_ ==> je)
            &&& (r == Allocatormode::_MIMALLOC_ ==> mi && !je)
            &&& (r == Allocatormode::_MMAP_ ==> mm && !je && !mi && !sy)
            &&& (r == Allocatormode::_SYS_ ==> !je && !mi)
            &&& (r == Allocatormode::_SYS_ && !sy ==> !mm)
            &&& (je ==> r == Allocatormode::_JEMALLOC_)
            &&& (mi && !je ==> r == Allocatormode::_MIMALLOC_)
            &&& (sy && !je && !mi ==> r == Allocatormode::_SYS_)
            &&& (mm && !je && !mi && !sy ==> r == Allocatormode::_MMAP_)
            &&& (!je && !mi && !sy && !mm ==> r == Allocatormode::_SYS_)
            &&& r.is_backend()
        }),
{
}

/// Size tiers are whole 4 KiB pages, capped at 20: a size lies within the
/// page count of its tier, and every size of 20 pages or more shares the
/// last tier.
pub proof fn law_size_tier_is_page_count(size: usize)
    ensures
        0 <= size_tier(size) <= 20,
        size_tier(size) * 4096 <= size,
        size_tier(size) < 20 ==> size < (size_tier(size) + 1) * 4096,
        size >= 20 * 4096 ==> size_tier(size) == 20,
{
}

/// Under the adaptive mode, a reallocation targets the backend with the
/// smallest mean time in the timing row of the new size, the first such
/// column on a tie, and the plan resizes with that backend or moves the
/// block to it.
pub proof fn law_adaptive_realloc_targets_fastest(v: BrugView, addr: usize, old_size: usize, new_size: usize)
    requires
        v.wf(),
        is_adaptive(v),
    ensures
        ({
            let k = if new_size / 4096 >= 20 { 20int } else { (new_size / 4096) as int };
            let row = v.records[k];
            let choice = realloc_choice(v, addr, old_size, new_size);
            let c = record_column(choice.1);
            &&& 0 <= c < RECORD_BACKENDS
            &&& forall|j: int| 0 <= j < RECORD_BACKENDS ==> row[c] <= #[trigger] row[j]
            &&& forall|j: int| 0 <= j < c ==> row[c] < #[trigger] row[j]
            &&& (choice.0 matches ReallocPlan::Resize(b) ==> b == choice.1)
            &&& (choice.0 matches ReallocPlan::Move { to, .. } ==> to == choice.1)
        }),
{
    let k = size_tier(new_size);
    lemma_first_min_exists(v.records[k]);
}

/// The adaptive mode's choice for a size is the backend with the smallest
/// mean time in the row of that size, the first such column on a tie.
pub proof fn law_optimization_first_fastest(v: BrugView, size: usize)
    requires
        v.wf(),
    ensures
        ({
            let k = if size / 4096 >= 20 { 20int } else { (size / 4096) as int };
            let row = v.records[k];
            let c = record_column(column_mode(first_min(v.records[size_tier(size)])));
            &&& 0 <= c < RECORD_BACKENDS
            &&& forall|j: int| 0 <= j < RECORD_BACKENDS ==> row[c] <= #[trigger] row[j]
            &&& forall|j: int| 0 <= j < c ==> row[c] < #[trigger] row[j]
        }),
{
    lemma_first_min_exists(v.records[size_tier(size)]);
}

/// Recording combines: the backend's cell becomes the mean of the recorded
/// time and its previous value, rounded down (twice the new value is the
/// sum, or one less), and no other cell changes.
pub proof fn law_record_combines_with_previous(
    r: Seq<Seq<u128>>,
    size: usize,
    allocator: Allocatormode,
    time: u128,
)
    requires
        r.len() == RECORD_TIERS,
        forall|i: int| 0 <= i < RECORD_TIERS ==> #[trigger] r[i].len() == RECORD_BACKENDS,
        allocator.is_backend(),
        time + r[size_tier(size)][record_column(allocator)] <= u128::MAX,
    ensures
        ({
            let k = if size / 4096 >= 20 { 20int } else { (size / 4096) as int };
            let c = record_column(allocator);
            let n = recorded(r, size_tier(size), c, time);
            let before = r[k][c];
            &&& 0 <= c < RECORD_BACKENDS
            &&& 2 * n[k][c] <= time + before < 2 * n[k][c] + 2
            &&& n.len() == r.len()
            &&& forall|i: int, j: int| 0 <= i < RECORD_TIERS && 0 <= j < RECORD_BACKENDS && !(i == k && j == c)
                ==> #[trigger] n[i][j] == r[i][j]
        }),
{
}

/// Policies are never recorded: recording a time for a policy mode leaves
/// the timing table as it was.
pub proof fn law_record_skips_policies(r: Seq<Seq<u128>>, size: usize, allocator: Allocatormode, time: u128)
    requires
        !allocator.is_backend(),
    ensures
        recorded(r, size_tier(size), record_column(allocator), time) == r,
{
}

/// The monitor's accounting of a reallocation of a followed object: one
/// more reallocation; one more move exactly when the address changed; the
/// new size added to the total size and the time to the total time; the
/// entry moves to the new address and no other entry changes. An object the
/// monitor did not follow starts at one reallocation, no move, its size and
/// its time.
pub proof fn law_monitor_update_accounts(
    m: Map<usize, Monitordata>,
    old_addr: usize,
    new_addr: usize,
    duration: u128,
    new_size: usize,
    other: usize,
)
    requires
        m.contains_key(old_addr) ==> {
            &&& m[old_addr].realloc_counter < i32::MAX
            &&& m[old_addr].addr_counter < i32::MAX
            &&& m[old_addr].total_size + new_size <= usize::MAX
            &&& m[old_addr].total_duration + duration <= u128::MAX
        },
    ensures
        ({
            let n = monitor_updated(m, old_addr, new_addr, duration, new_size);
            &&& n.contains_key(new_addr)
            &&& (old_addr != new_addr ==> !n.contains_key(old_addr))
            &&& (other != old_addr && other != new_addr ==> (n.contains_key(other) == m.contains_key(other)
                && (m.contains_key(other) ==> n[other] == m[other])))
            &&& (m.contains_key(old_addr) ==> {
                let d = m[old_addr];
                let e = n[new_addr];
                &&& e.realloc_counter == d.realloc_counter + 1
                &&& (old_addr == new_addr ==> e.addr_counter == d.addr_counter)
                &&& (old_addr != new_addr ==> e.addr_counter == d.addr_counter + 1)
                &&& e.total_size == d.total_size + new_size
                &&& e.total_duration == d.total_duration + duration
            })
            &&& (!m.contains_key(old_addr) ==> {
                let e = n[new_addr];
                &&& e.realloc_counter == 1
                &&& e.addr_counter == 0
                &&& e.total_size == new_size
                &&& e.total_duration == duration
            })
        }),
{
}

/// A reallocation the monitor accounts is accounted as above: a followed
/// object, or one that grew above the limit, gets its entry moved and
/// counted.
pub proof fn law_monitor_accounts_followed_reallocs(
    v: BrugView,
    old_addr: usize,
    new_addr: usize,
    old_size: usize,
    new_size: usize,
    new_allocator: Allocatormode,
    elapsed: u128,
)
    requires
        v.monitor_on,
        v.monitor.contains_key(old_addr) || new_size > (v.limiter as usize),
    ensures
        monitors_realloc(v, old_addr, new_size),
        after_realloc(v, old_addr, new_addr, old_size, new_size, new_allocator, elapsed).monitor
            == monitor_updated(v.monitor, old_addr, new_addr, elapsed, new_size),
{
}

/// The adaptive mode starts every block on the system allocator and files
/// it as held there with a count of one, whatever its timing table holds;
/// the monitor, when on, starts following objects above its limit with no
/// reallocation, no move, their size and their allocation time.
pub proof fn law_adaptive_alloc_starts_on_system(v: BrugView, addr: usize, size: usize, elapsed: u128)
    ensures
        is_adaptive(v) ==> alloc_choice(v, size) == Allocatormode::_SYS_,
        is_adaptive(v) ==> after_alloc(v, addr, size, elapsed).mapping == v.mapping.insert(
            addr,
            Allocdata { allocator: Allocatormode::_SYS_, counter: 1 },
        ),
        !is_adaptive(v) ==> after_alloc(v, addr, size, elapsed).mapping == v.mapping,
        (v.monitor_on && size > (v.limiter as usize)) ==> after_alloc(v, addr, size, elapsed).monitor
            == v.monitor.insert(
            addr,
            Monitordata { realloc_counter: 0, addr_counter: 0, total_size: size, total_duration: elapsed },
        ),
        !(v.monitor_on && size > (v.limiter as usize)) ==> after_alloc(v, addr, size, elapsed).monitor == v.monitor,
{
}

/// Brug starts in the jemalloc mode with nothing on file, a timing table of
/// 21 rows of 4 zeros, the monitor off with nothing recorded and a limit of
/// 1024 bytes, and the template that gives jemalloc sizes up to 4 KiB, the
/// system allocator sizes above 4 KiB up to 64 KiB, mmap sizes above 64 KiB
/// up to 128 GiB, and switches mimalloc off.
pub proof fn law_initial_state()
    ensures
        initial_view().mode == Allocatormode::_JEMALLOC_,
        initial_view().mapping == Map::<usize, Allocdata>::empty(),
        initial_view().records.len() == 21,
        forall|i: int, j: int| 0 <= i < 21 && 0 <= j < 4 ==> #[trigger] initial_view().records[i][j] == 0,
        forall|i: int| 0 <= i < 21 ==> #[trigger] initial_view().records[i].len() == 4,
        !initial_view().monitor_on,
        initial_view().monitor == Map::<usize, Monitordata>::empty(),
        initial_view().limiter == 1024,
        initial_view().template == default_template(),
        default_template().jemalloc == (true, 0u128, 4096u128),
        default_template().sys == (true, 4096u128, 65536u128),
        default_template().mimalloc == (false, 0u128, 0u128),
        default_template().mmap == (true, 65536u128, 137438953472u128),
{
}

/// Under one of the four backend modes, every request goes to that backend:
/// allocations, releases, and reallocations, which the backend resizes
/// itself; the adaptive mode's files and timings are left alone.
pub proof fn law_backend_modes_use_their_backend(
    v: BrugView,
    addr: usize,
    new_addr: usize,
    old_size: usize,
    new_size: usize,
    new_allocator: Allocatormode,
    elapsed: u128,
)
    requires
        v.mode.is_backend(),
    ensures
        alloc_choice(v, new_size) == v.mode,
        dealloc_choice(v, addr, old_size) == v.mode,
        realloc_choice(v, addr, old_size, new_size).0 == ReallocPlan::Resize(v.mode),
        after_alloc(v, addr, new_size, elapsed).mapping == v.mapping,
        after_dealloc(v, addr, old_size).mapping == v.mapping,
        after_realloc(v, addr, new_addr, old_size, new_size, new_allocator, elapsed).mapping == v.mapping,
        after_realloc(v, addr, new_addr, old_size, new_size, new_allocator, elapsed).records == v.records,
{
}

/// Under the adaptive mode a release goes to the backend on file; a policy
/// on file is served by the system allocator, and a block with no file (one
/// the adaptive mode did not place) by jemalloc, the default backend.
pub proof fn law_adaptive_release_goes_to_file(v: BrugView, addr: usize, size: usize)
    requires
        is_adaptive(v),
    ensures
        v.mapping.contains_key(addr) && v.mapping[addr].allocator.is_backend()
            ==> dealloc_choice(v, addr, size) == v.mapping[addr].allocator,
        v.mapping.contains_key(addr) && !v.mapping[addr].allocator.is_backend()
            ==> dealloc_choice(v, addr, size) == Allocatormode::_SYS_,
        !v.mapping.contains_key(addr) ==> dealloc_choice(v, addr, size) == Allocatormode::_JEMALLOC_,
        after_dealloc(v, addr, size).mapping == v.mapping.remove(addr),
{
}

/// Moving a file: the object's entry leaves the old address and arrives at
/// the new one under the given backend, with its count grown by one (one
/// for an object not on file); no other address changes.
pub proof fn law_counter_grow_moves_file(
    m: Map<usize, Allocdata>,
    old_addr: usize,
    new_addr: usize,
    allocator: Allocatormode,
    other: usize,
)
    requires
        m.contains_key(old_addr) ==> m[old_addr].counter < i32::MAX,
    ensures
        ({
            let n = counter_grown(m, old_addr, new_addr, allocator);
            &&& n.contains_key(new_addr)
            &&& n[new_addr].allocator == allocator
            &&& (m.contains_key(old_addr) ==> n[new_addr].counter == m[old_addr].counter + 1)
            &&& (!m.contains_key(old_addr) ==> n[new_addr].counter == 1)
            &&& (old_addr != new_addr ==> !n.contains_key(old_addr))
            &&& (other != old_addr && other != new_addr ==> (n.contains_key(other) == m.contains_key(other)
                && (m.contains_key(other) ==> n[other] == m[other])))
        }),
{
}

/// Under the adaptive mode a reallocation of a block that was a page or
/// more records its time in the row of the new size, in the column of the
/// target backend; a smaller block's reallocation records nothing.
pub proof fn law_adaptive_realloc_records(
    v: BrugView,
    old_addr: usize,
    new_addr: usize,
    old_size: usize,
    new_size: usize,
    new_allocator: Allocatormode,
    elapsed: u128,
)
    requires
        is_adaptive(v),
    ensures
        ({
            let w = after_realloc(v, old_addr, new_addr, old_size, new_size, new_allocator, elapsed);
            &&& (old_size >= 4096 ==> w.records == recorded(
                v.records,
                size_tier(new_size),
                record_column(new_allocator),
                elapsed,
            ))
            &&& (old_size < 4096 ==> w.records == v.records)
        }),
{
}

} // verus!
