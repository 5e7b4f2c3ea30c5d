//! Memory management: a bump-pointer memory pool, system memory accounting,
//! and the fixed-capacity stack allocator.
//!
//! The stack allocator hands out page-aligned regions to be used as call
//! stacks for tasks, records each live region in a fixed table of 32 slots,
//! and reclaims a region when the caller returns the top-of-stack value it
//! was given.  Because only the top-of-stack value is handed out, reclaiming
//! scans the table for the slot whose address range contains the pointer.
//! The allocator models its underlying heap as a map of pages: a grant
//! takes the first run of free pages that fits, and a release frees the
//! region's pages again wherever they lie, so freed memory is reusable.

use vstd::prelude::*;

verus! {

/// Size of the modelled kernel heap (4 MiB).
pub const HEAP_SIZE: usize = 4 * 1024 * 1024;

/// Base address of the modelled kernel heap region (page-aligned).
pub const HEAP_BASE: usize = 0x0010_0000;

/// Default stack size (64 KiB).
pub const DEFAULT_STACK_SIZE: usize = 64 * 1024;

/// Capacity of the stack table.
pub const MAX_STACKS: usize = 32;

/// Size of one page; stack regions are aligned to this.
pub const PAGE_SIZE: usize = 4096;

/// Number of pages of the modelled heap.
pub const PAGE_COUNT: usize = 1024;

/// Mathematical page round-up: the least multiple of 4096 that is >= `size`.
pub open spec fn page_round_up(size: int) -> int {
    ((size + 4095) / 4096) * 4096
}

/// Round a size up to the next page boundary.
fn round_up_to_page(size: usize) -> (r: usize)
    requires
        size + 4095 <= usize::MAX,
    ensures
        r == page_round_up(size as int),
        r % 4096 == 0,
        size <= r < size + 4096,
{
    let q = (size + 4095) / 4096;
    proof {
        assert(q * 4096 <= size + 4095 && size <= q * 4096 && (q * 4096) % 4096 == 0)
            by (nonlinear_arith)
            requires
                q == (size + 4095) / 4096,
        ;
    }
    q * 4096
}

/// A bump-pointer memory pool over a fixed address range.  Allocation hands
/// out consecutive addresses; nothing is ever reclaimed.
pub struct MemoryPool {
    base_addr: usize,
    size: usize,
    used: usize,
}

impl MemoryPool {
    /// Base address of the pool's range.
    pub closed spec fn spec_base(&self) -> usize {
        self.base_addr
    }

    /// Total capacity of the pool in bytes.
    pub closed spec fn spec_size(&self) -> usize {
        self.size
    }

    /// Number of bytes granted so far (the bump pointer's offset).
    pub closed spec fn spec_used(&self) -> usize {
        self.used
    }

    /// The pool accounts for a range that fits in the address space.
    pub open spec fn wf(&self) -> bool {
        &&& self.spec_used() <= self.spec_size()
        &&& self.spec_base() + self.spec_size() <= usize::MAX
    }

    /// Create a new pool over `[base_addr, base_addr + size)`.
    pub fn new(base_addr: usize, size: usize) -> (r: Self)
        requires
            base_addr + size <= usize::MAX,
        ensures
            r.wf(),
            r.spec_base() == base_addr,
            r.spec_size() == size,
            r.spec_used() == 0,
    {
        Self { base_addr, size, used: 0 }
    }

    /// Grant `size` bytes from the front of the free range.  Succeeds
    /// exactly when that many bytes are still free, and then returns the
    /// first address of the granted region.
    pub fn allocate(&mut self, size: usize) -> (r: Option<usize>)
        requires
            old(self).wf(),
        ensures
            final(self).wf(),
            final(self).spec_base() == old(self).spec_base(),
            final(self).spec_size() == old(self).spec_size(),
            r is Some <==> old(self).spec_used() + size <= old(self).spec_size(),
            r matches Some(addr) ==> addr == old(self).spec_base() + old(self).spec_used()
                && final(self).spec_used() == old(self).spec_used() + size,
            r is None ==> final(self).spec_used() == old(self).spec_used(),
    {
        if size <= self.size - self.used {
            let addr = self.base_addr + self.used;
            self.used = self.used + size;
            Some(addr)
        } else {
            None
        }
    }

    /// Release a granted region.  A placeholder in this simplified pool:
    /// nothing is ever reclaimed, and the pool is left untouched.
    pub fn deallocate(&mut self, _addr: usize, _size: usize)
        ensures
            *final(self) == *old(self),
    {
    }
}

/// System memory accounting derived from the heap's usage counter.
pub struct SystemMemory {
    pub total: usize,
    pub used: usize,
    pub free: usize,
}

impl SystemMemory {
    /// Build the accounting record for a heap that has `used` bytes in use.
    pub fn get_info(used: usize) -> (r: Self)
        ensures
            r.total == HEAP_SIZE,
            r.used == used,
            r.free == if used <= HEAP_SIZE {
                (HEAP_SIZE - used) as int
            } else {
                0
            },
    {
        Self { total: HEAP_SIZE, used, free: HEAP_SIZE.saturating_sub(used) }
    }
}

/// Number of bytes of the pool currently in use.
pub fn get_heap_usage(pool: &MemoryPool) -> (r: usize)
    ensures
        r == pool.spec_used(),
{
    pool.spec_used_exec()
}

impl MemoryPool {
    /// Exec accessor for the usage counter.
    fn spec_used_exec(&self) -> (r: usize)
        ensures
            r == self.spec_used(),
    {
        self.used
    }
}

/// One recorded stack region: its base address, its page-rounded size,
/// whether it is live, and whether a guard page was requested for it.
#[derive(Debug, Clone, Copy, PartialEq, Eq, Structural)]
pub struct StackInfo {
    pub base_addr: usize,
    pub size: usize,
    pub in_use: bool,
    pub guard_page: bool,
}

/// A recorded slot that is live.
pub open spec fn slot_live(s: Option<StackInfo>) -> bool {
    s matches Some(info) && info.in_use
}

/// 1 for a live slot, 0 otherwise.
pub open spec fn live_contrib(s: Option<StackInfo>) -> nat {
    if slot_live(s) {
        1nat
    } else {
        0nat
    }
}

/// Number of live slots in the table.
pub open spec fn live_count(s: Seq<Option<StackInfo>>) -> nat
    decreases s.len(),
{
    if s.len() == 0 {
        0nat
    } else {
        live_count(s.drop_last()) + live_contrib(s.last())
    }
}

/// Size contribution of a slot: its recorded size when live, 0 otherwise.
pub open spec fn size_contrib(s: Option<StackInfo>) -> nat {
    match s {
        Some(info) => if info.in_use {
            info.size as nat
        } else {
            0nat
        },
        None => 0nat,
    }
}

/// Total number of bytes recorded in live slots.
pub open spec fn live_size(s: Seq<Option<StackInfo>>) -> nat
    decreases s.len(),
{
    if s.len() == 0 {
        0nat
    } else {
        live_size(s.drop_last()) + size_contrib(s.last())
    }
}

/// Whether a stack pointer falls in a live slot's address range.  The top
/// of the region itself is included, since that is the value handed out.
pub open spec fn slot_matches(s: Option<StackInfo>, stack_pointer: usize) -> bool {
    s matches Some(info) && info.in_use && info.base_addr < stack_pointer
        && stack_pointer <= info.base_addr + info.size
}

/// Number of granted pages in the heap map.
pub open spec fn count_true(s: Seq<bool>) -> nat
    decreases s.len(),
{
    if s.len() == 0 {
        0nat
    } else {
        count_true(s.drop_last()) + if s.last() {
            1nat
        } else {
            0nat
        }
    }
}

/// Updating one page changes the granted count by the difference of the
/// old and new flags.
proof fn lemma_count_true_update(s: Seq<bool>, i: int, v: bool)
    requires
        0 <= i < s.len(),
    ensures
        count_true(s.update(i, v)) + (if s[i] {
            1nat
        } else {
            0nat
        }) == count_true(s) + (if v {
            1nat
        } else {
            0nat
        }),
    decreases s.len(),
{
    let t = s.update(i, v);
    if i == s.len() - 1 {
        assert(t.drop_last() =~= s.drop_last());
        assert(t.last() == v);
    } else {
        assert(t.drop_last() =~= s.drop_last().update(i, v));
        assert(t.last() == s.last());
        lemma_count_true_update(s.drop_last(), i, v);
    }
}

/// No more pages are granted than exist.
proof fn lemma_count_true_le(s: Seq<bool>)
    ensures
        count_true(s) <= s.len(),
    decreases s.len(),
{
    if s.len() > 0 {
        lemma_count_true_le(s.drop_last());
    }
}

/// The heap map holds `[p, p + k)` entirely free.
pub open spec fn free_run_at(pages: Seq<bool>, p: int, k: int) -> bool {
    &&& 0 <= p
    &&& p + k <= pages.len()
    &&& forall|j: int| p <= j < p + k ==> !pages[j]
}

/// `p` is the first position of a free run of `k` pages.
pub open spec fn first_fit_at(pages: Seq<bool>, p: int, k: int) -> bool {
    &&& free_run_at(pages, p, k)
    &&& forall|q: int| 0 <= q < p ==> !free_run_at(pages, q, k)
}

/// `post` is `pre` with the pages `[p, p + k)` set to `v` and every other
/// page unchanged.
pub open spec fn pages_marked(pre: Seq<bool>, post: Seq<bool>, p: int, k: int, v: bool) -> bool {
    &&& post.len() == pre.len()
    &&& (forall|j: int| p <= j < p + k ==> 0 <= j < pre.len() && post[j] == v)
    &&& (forall|j: int| 0 <= j < pre.len() && !(p <= j < p + k) ==> post[j] == pre[j])
}

/// The first page of a recorded region inside the heap.
pub open spec fn slot_first_page(info: StackInfo) -> int {
    (info.base_addr - HEAP_BASE) / 4096
}

/// Number of pages of a recorded region.
pub open spec fn slot_page_count(info: StackInfo) -> int {
    info.size as int / 4096
}

/// A recorded slot is consistent with the heap map: live, page-aligned,
/// inside the heap's range, and every one of its pages granted.
pub open spec fn slot_wf(pages: Seq<bool>, s: Option<StackInfo>) -> bool {
    s matches Some(info) ==> {
        &&& info.in_use
        &&& info.base_addr % 4096 == 0
        &&& info.size % 4096 == 0
        &&& HEAP_BASE <= info.base_addr
        &&& info.base_addr + info.size <= HEAP_BASE + HEAP_SIZE
        &&& (forall|j: int|
            slot_first_page(info) <= j < slot_first_page(info) + slot_page_count(info)
                ==> 0 <= j < pages.len() && pages[j])
    }
}

/// Recorded slots of positive size occupy pairwise disjoint address ranges.
/// (A slot of size zero records an empty region and overlaps nothing.)
pub open spec fn slots_disjoint(s: Seq<Option<StackInfo>>) -> bool {
    forall|i: int, j: int|
        0 <= i < s.len() && 0 <= j < s.len() && i != j && #[trigger] s[i] is Some
            && #[trigger] s[j] is Some && s[i]->0.size > 0 && s[j]->0.size > 0
            ==> s[i]->0.base_addr + s[i]->0.size <= s[j]->0.base_addr
            || s[j]->0.base_addr + s[j]->0.size <= s[i]->0.base_addr
}

/// The fixed-capacity stack allocator: a table of up to 32 recorded stack
/// regions carved out of the page-map heap model.
pub struct StackAllocator {
    stacks: [Option<StackInfo>; 32],
    next_id: usize,
    pages: Vec<bool>,
    pages_used: usize,
}

impl StackAllocator {
    /// The slot table.
    pub closed spec fn slots(&self) -> Seq<Option<StackInfo>> {
        self.stacks@
    }

    /// Index just past the most recently filled slot.
    pub closed spec fn spec_next_id(&self) -> usize {
        self.next_id
    }

    /// The heap map: one flag per page, granted or free.
    pub closed spec fn heap_pages(&self) -> Seq<bool> {
        self.pages@
    }

    /// Number of heap bytes granted.
    pub closed spec fn spec_used(&self) -> usize {
        self.pages_used
    }

    /// The allocator's invariant: a full page map whose granted-byte
    /// account matches both the map and the recorded regions, every
    /// recorded slot live, aligned, inside the heap and fully granted,
    /// and positive regions pairwise disjoint.
    pub open spec fn wf(&self) -> bool {
        &&& self.heap_pages().len() == PAGE_COUNT
        &&& self.spec_used() == 4096 * count_true(self.heap_pages())
        &&& live_size(self.slots()) == self.spec_used()
        &&& self.slots().len() == 32
        &&& (forall|i: int|
            0 <= i < self.slots().len() ==> slot_wf(self.heap_pages(), #[trigger] self.slots()[i]))
        &&& slots_disjoint(self.slots())
    }

    /// Create an allocator with an empty table over a fully free heap.
    pub fn new() -> (r: Self)
        ensures
            r.wf(),
            forall|i: int| 0 <= i < r.slots().len() ==> r.slots()[i] is None,
            live_count(r.slots()) == 0,
            live_size(r.slots()) == 0,
            r.spec_used() == 0,
            forall|j: int| 0 <= j < r.heap_pages().len() ==> !r.heap_pages()[j],
            r.spec_next_id() == 0,
    {
        let mut pages: Vec<bool> = Vec::new();
        let mut i: usize = 0;
        while i < PAGE_COUNT
            invariant
                0 <= i <= 1024,
                pages@.len() == i,
                forall|j: int| 0 <= j < i ==> !pages@[j],
            decreases 1024 - i,
        {
            pages.push(false);
            i = i + 1;
        }
        let r = Self { stacks: [None; 32], next_id: 0, pages, pages_used: 0 };
        proof {
            lemma_all_empty_counts(r.slots());
            lemma_all_free_count(r.heap_pages());
        }
        r
    }
}

/// A table of empty slots has no live slots and no recorded bytes.
proof fn lemma_all_empty_counts(s: Seq<Option<StackInfo>>)
    requires
        forall|i: int| 0 <= i < s.len() ==> s[i] is None,
    ensures
        live_count(s) == 0,
        live_size(s) == 0,
    decreases s.len(),
{
    if s.len() > 0 {
        lemma_all_empty_counts(s.drop_last());
    }
}

/// A fully free heap map grants nothing.
proof fn lemma_all_free_count(s: Seq<bool>)
    requires
        forall|j: int| 0 <= j < s.len() ==> !s[j],
    ensures
        count_true(s) == 0,
    decreases s.len(),
{
    if s.len() > 0 {
        lemma_all_free_count(s.drop_last());
    }
}

/// Updating slot `i` changes the live count by the difference of the old
/// and new contributions, and the recorded bytes likewise.
proof fn lemma_counts_update(s: Seq<Option<StackInfo>>, i: int, v: Option<StackInfo>)
    requires
        0 <= i < s.len(),
    ensures
        live_count(s.update(i, v)) + live_contrib(s[i]) == live_count(s) + live_contrib(v),
        live_size(s.update(i, v)) + size_contrib(s[i]) == live_size(s) + size_contrib(v),
    decreases s.len(),
{
    let t = s.update(i, v);
    if i == s.len() - 1 {
        assert(t.drop_last() =~= s.drop_last());
        assert(t.last() == v);
    } else {
        assert(t.drop_last() =~= s.drop_last().update(i, v));
        assert(t.last() == s.last());
        lemma_counts_update(s.drop_last(), i, v);
    }
}

/// The counts of a prefix never exceed the counts of the whole table.
proof fn lemma_counts_take_le(s: Seq<Option<StackInfo>>, i: int)
    requires
        0 <= i <= s.len(),
    ensures
        live_count(s.take(i)) <= live_count(s),
        live_size(s.take(i)) <= live_size(s),
    decreases s.len() - i,
{
    if i == s.len() {
        assert(s.take(i) =~= s);
    } else {
        lemma_counts_take_le(s, i + 1);
        lemma_counts_take_step(s, i);
    }
}

/// Extending a prefix by one slot adds exactly that slot's contributions.
proof fn lemma_counts_take_step(s: Seq<Option<StackInfo>>, i: int)
    requires
        0 <= i < s.len(),
    ensures
        live_count(s.take(i + 1)) == live_count(s.take(i)) + live_contrib(s[i]),
        live_size(s.take(i + 1)) == live_size(s.take(i)) + size_contrib(s[i]),
{
    assert(s.take(i + 1).drop_last() =~= s.take(i));
    assert(s.take(i + 1).last() == s[i]);
}

/// The live count never exceeds the table's length.
proof fn lemma_count_le_len(s: Seq<Option<StackInfo>>)
    ensures
        live_count(s) <= s.len(),
    decreases s.len(),
{
    if s.len() > 0 {
        lemma_count_le_len(s.drop_last());
    }
}

/// A live slot's size never exceeds the recorded total.
proof fn lemma_slot_size_le_live(s: Seq<Option<StackInfo>>, i: int)
    requires
        0 <= i < s.len(),
    ensures
        size_contrib(s[i]) <= live_size(s),
    decreases s.len(),
{
    if i == s.len() - 1 {
    } else {
        lemma_slot_size_le_live(s.drop_last(), i);
    }
}

/// Aligned regions whose page ranges are disjoint have disjoint byte
/// ranges.
proof fn lemma_page_disjoint_bytes(a: StackInfo, b: StackInfo)
    requires
        a.base_addr % 4096 == 0,
        a.size % 4096 == 0,
        a.base_addr >= HEAP_BASE,
        b.base_addr % 4096 == 0,
        b.size % 4096 == 0,
        b.base_addr >= HEAP_BASE,
        slot_first_page(a) + slot_page_count(a) <= slot_first_page(b) || slot_first_page(b)
            + slot_page_count(b) <= slot_first_page(a),
    ensures
        a.base_addr + a.size <= b.base_addr || b.base_addr + b.size <= a.base_addr,
{
    assert(a.base_addr == HEAP_BASE + 4096 * slot_first_page(a) && a.size == 4096
        * slot_page_count(a)) by (nonlinear_arith)
        requires
            a.base_addr % 4096 == 0,
            a.size % 4096 == 0,
            a.base_addr >= HEAP_BASE,
            HEAP_BASE % 4096 == 0,
            slot_first_page(a) == (a.base_addr - HEAP_BASE) / 4096,
            slot_page_count(a) == a.size as int / 4096,
    ;
    assert(b.base_addr == HEAP_BASE + 4096 * slot_first_page(b) && b.size == 4096
        * slot_page_count(b)) by (nonlinear_arith)
        requires
            b.base_addr % 4096 == 0,
            b.size % 4096 == 0,
            b.base_addr >= HEAP_BASE,
            HEAP_BASE % 4096 == 0,
            slot_first_page(b) == (b.base_addr - HEAP_BASE) / 4096,
            slot_page_count(b) == b.size as int / 4096,
    ;
    if slot_first_page(a) + slot_page_count(a) <= slot_first_page(b) {
        assert(a.base_addr + a.size <= b.base_addr) by (nonlinear_arith)
            requires
                a.base_addr == HEAP_BASE + 4096 * slot_first_page(a),
                a.size == 4096 * slot_page_count(a),
                b.base_addr == HEAP_BASE + 4096 * slot_first_page(b),
                slot_first_page(a) + slot_page_count(a) <= slot_first_page(b),
        ;
    } else {
        assert(b.base_addr + b.size <= a.base_addr) by (nonlinear_arith)
            requires
                b.base_addr == HEAP_BASE + 4096 * slot_first_page(b),
                b.size == 4096 * slot_page_count(b),
                a.base_addr == HEAP_BASE + 4096 * slot_first_page(a),
                slot_first_page(b) + slot_page_count(b) <= slot_first_page(a),
        ;
    }
}

/// What a successful stack allocation did at slot `i` and page `p`: the
/// first free slot records the region of the first free page run, the
/// run's pages are granted, and the returned pointer is the region's top.
pub open spec fn allocate_at_post(
    pre: StackAllocator,
    post: StackAllocator,
    size: usize,
    stack_pointer: usize,
    i: int,
    p: int,
) -> bool {
    let aligned = page_round_up(size as int);
    let k = aligned / 4096;
    let base = HEAP_BASE + 4096 * p;
    &&& 0 <= i < pre.slots().len()
    &&& pre.slots()[i] is None
    &&& (forall|j: int| 0 <= j < i ==> pre.slots()[j] is Some)
    &&& first_fit_at(pre.heap_pages(), p, k)
    &&& post.slots() =~= pre.slots().update(
        i,
        Some(
            (StackInfo {
                base_addr: base as usize,
                size: aligned as usize,
                in_use: true,
                guard_page: false,
            }),
        ),
    )
    &&& pages_marked(pre.heap_pages(), post.heap_pages(), p, k, true)
    &&& post.spec_used() == pre.spec_used() + aligned
    &&& post.spec_next_id() == i + 1
    &&& stack_pointer == base + aligned
}

/// A successful allocation filled the first free slot from the first
/// fitting page run.
pub open spec fn allocate_some_post(
    pre: StackAllocator,
    post: StackAllocator,
    size: usize,
    stack_pointer: usize,
) -> bool {
    exists|i: int, p: int| allocate_at_post(pre, post, size, stack_pointer, i, p)
}

/// Full postcondition of `allocate_stack`, relating the allocator before
/// and after the call to the request and the result.
pub open spec fn allocate_post(
    pre: StackAllocator,
    post: StackAllocator,
    size: usize,
    r: Option<usize>,
) -> bool {
    let aligned = page_round_up(size as int);
    let k = aligned / 4096;
    &&& post.wf()
    &&& (r is Some <==> (exists|p: int| free_run_at(pre.heap_pages(), p, k)) && (exists|i: int|
        0 <= i < pre.slots().len() && pre.slots()[i] is None))
    &&& (r matches Some(sp) ==> {
        &&& allocate_some_post(pre, post, size, sp)
        &&& live_count(post.slots()) == live_count(pre.slots()) + 1
        &&& live_size(post.slots()) == live_size(pre.slots()) + aligned
    })
    &&& (r is None ==> {
        &&& post.slots() =~= pre.slots()
        &&& post.heap_pages() =~= pre.heap_pages()
        &&& post.spec_used() == pre.spec_used()
        &&& post.spec_next_id() == pre.spec_next_id()
    })
}

/// What a successful deallocation did at slot `i`: the matched slot is
/// cleared, its pages are freed again wherever they lie, and the heap's
/// granted-byte account drops by the slot's size.
pub open spec fn deallocate_at_post(
    pre: StackAllocator,
    post: StackAllocator,
    stack_pointer: usize,
    i: int,
) -> bool {
    let info = pre.slots()[i]->0;
    &&& 0 <= i < pre.slots().len()
    &&& slot_matches(pre.slots()[i], stack_pointer)
    &&& post.slots() =~= pre.slots().update(i, None)
    &&& live_count(post.slots()) == live_count(pre.slots()) - 1
    &&& pages_marked(
        pre.heap_pages(),
        post.heap_pages(),
        slot_first_page(info),
        slot_page_count(info),
        false,
    )
    &&& post.spec_used() == pre.spec_used() - info.size
}

/// Full postcondition of `deallocate_stack`: the result says whether some
/// live slot's range contained the pointer; if so that slot is cleared
/// and its region is returned to the heap.
pub open spec fn deallocate_post(
    pre: StackAllocator,
    post: StackAllocator,
    stack_pointer: usize,
    r: bool,
) -> bool {
    &&& post.wf()
    &&& post.spec_next_id() == pre.spec_next_id()
    &&& (r == exists|i: int|
        0 <= i < pre.slots().len() && slot_matches(#[trigger] pre.slots()[i], stack_pointer))
    &&& (r ==> exists|i: int| deallocate_at_post(pre, post, stack_pointer, i))
    &&& (!r ==> post.slots() =~= pre.slots() && post.heap_pages() =~= pre.heap_pages()
        && post.spec_used() == pre.spec_used())
}

/// What a successful guard-page request did at slot `i`: only the matched
/// slot's guard flag is raised.
pub open spec fn guard_at_post(
    pre: StackAllocator,
    post: StackAllocator,
    stack_pointer: usize,
    i: int,
) -> bool {
    &&& 0 <= i < pre.slots().len()
    &&& slot_matches(pre.slots()[i], stack_pointer)
    &&& post.slots() =~= pre.slots().update(
        i,
        Some(
            (StackInfo {
                guard_page: true,
                ..pre.slots()[i]->0
            }),
        ),
    )
}

impl StackAllocator {
    /// Find the first run of `k` free pages.
    fn find_free_run(&self, k: usize) -> (r: Option<usize>)
        requires
            self.heap_pages().len() == PAGE_COUNT,
        ensures
            r is Some <==> exists|p: int| free_run_at(self.heap_pages(), p, k as int),
            r matches Some(p) ==> first_fit_at(self.heap_pages(), p as int, k as int),
    {
        if k > PAGE_COUNT {
            proof {
                assert forall|p: int| !free_run_at(self.heap_pages(), p, k as int) by {}
            }
            return None;
        }
        let mut p: usize = 0;
        while p + k <= PAGE_COUNT
            invariant
                self.heap_pages().len() == 1024,
                k <= 1024,
                0 <= p <= 1024,
                forall|q: int| 0 <= q < p ==> !free_run_at(self.heap_pages(), q, k as int),
            decreases 1024 - p,
        {
            let mut j: usize = 0;
            let mut blocked = false;
            while j < k && !blocked
                invariant
                    self.heap_pages().len() == 1024,
                    p + k <= 1024,
                    0 <= j <= k,
                    !blocked ==> forall|t: int| p <= t < p + j ==> !self.heap_pages()[t],
                    blocked ==> exists|t: int| p <= t < p + k && self.heap_pages()[t],
                decreases k - j + (if blocked {
                    0int
                } else {
                    1int
                }),
            {
                if self.pages[p + j] {
                    blocked = true;
                } else {
                    j = j + 1;
                }
            }
            if !blocked {
                proof {
                    assert(free_run_at(self.heap_pages(), p as int, k as int));
                }
                return Some(p);
            }
            p = p + 1;
        }
        proof {
            assert forall|q: int| !free_run_at(self.heap_pages(), q, k as int) by {
                if 0 <= q < p {
                }
            }
        }
        None
    }

    /// Set the pages `[from, from + k)` of the heap map to `value`,
    /// keeping the granted-byte account in step.
    fn mark_pages(&mut self, from: usize, k: usize, value: bool)
        requires
            old(self).heap_pages().len() == PAGE_COUNT,
            from + k <= PAGE_COUNT,
            old(self).spec_used() == 4096 * count_true(old(self).heap_pages()),
            value ==> (forall|j: int| from <= j < from + k ==> !old(self).heap_pages()[j]),
            !value ==> (forall|j: int| from <= j < from + k ==> old(self).heap_pages()[j]),
            value ==> old(self).spec_used() + 4096 * k <= usize::MAX,
            !value ==> 4096 * k <= old(self).spec_used(),
        ensures
            final(self).heap_pages().len() == PAGE_COUNT,
            pages_marked(old(self).heap_pages(), final(self).heap_pages(), from as int, k as int, value),
            final(self).spec_used() == if value {
                old(self).spec_used() + 4096 * k
            } else {
                old(self).spec_used() - 4096 * k
            },
            final(self).spec_used() == 4096 * count_true(final(self).heap_pages()),
            final(self).slots() == old(self).slots(),
            final(self).spec_next_id() == old(self).spec_next_id(),
    {
        let mut j: usize = 0;
        while j < k
            invariant
                old(self).heap_pages().len() == 1024,
                self.heap_pages().len() == 1024,
                from + k <= 1024,
                0 <= j <= k,
                pages_marked(old(self).heap_pages(), self.heap_pages(), from as int, j as int, value),
                value ==> (forall|t: int|
                    from + j <= t < from + k ==> !self.heap_pages()[t]) && self.spec_used() == old(
                    self,
                ).spec_used() + 4096 * j,
                !value ==> (forall|t: int|
                    from + j <= t < from + k ==> self.heap_pages()[t]) && self.spec_used() == old(
                    self,
                ).spec_used() - 4096 * j,
                self.spec_used() == 4096 * count_true(self.heap_pages()),
                value ==> old(self).spec_used() + 4096 * k <= usize::MAX,
                !value ==> 4096 * k <= old(self).spec_used(),
                self.slots() == old(self).slots(),
                self.spec_next_id() == old(self).spec_next_id(),
            decreases k - j,
        {
            proof {
                lemma_count_true_update(self.heap_pages(), (from + j) as int, value);
            }
            self.pages[from + j] = value;
            if value {
                self.pages_used = self.pages_used + 4096;
            } else {
                self.pages_used = self.pages_used - 4096;
            }
            j = j + 1;
        }
    }

    /// Allocate a stack of at least `size` bytes.  The request is rounded
    /// up to a page boundary and placed in the first run of free heap
    /// pages that fits; the region is recorded in the first free slot;
    /// the returned value is the region's top, the initial stack pointer
    /// of a downward-growing stack.  Fails when no free run fits or the
    /// table is full; in the latter case the pages already granted are
    /// freed again.
    pub fn allocate_stack(&mut self, size: usize) -> (r: Option<usize>)
        requires
            old(self).wf(),
            size + 4095 <= usize::MAX,
        ensures
            allocate_post(*old(self), *final(self), size, r),
    {
        let aligned_size = round_up_to_page(size);
        let k = aligned_size / 4096;
        proof {
            assert(aligned_size == 4096 * k) by (nonlinear_arith)
                requires
                    aligned_size % 4096 == 0,
                    k == aligned_size / 4096,
            ;
            lemma_count_true_le(self.heap_pages());
        }
        let ghost pre = *self;
        let base_page = match self.find_free_run(k) {
            None => {
                return None;
            },
            Some(p) => p,
        };
        proof {
            // A fitting run keeps the grant inside the heap's byte range,
            // and the accounting within bounds.
            assert(base_page + k <= 1024);
            assert(4096 * (base_page + k) <= HEAP_SIZE && 4096 * k <= HEAP_SIZE && 4096 * base_page
                <= HEAP_SIZE) by (nonlinear_arith)
                requires
                    base_page + k <= 1024,
                    0 <= base_page,
                    0 <= k,
                    HEAP_SIZE == 4096 * 1024,
            ;
            assert(pre.spec_used() <= HEAP_SIZE) by (nonlinear_arith)
                requires
                    pre.spec_used() == 4096 * count_true(pre.heap_pages()),
                    count_true(pre.heap_pages()) <= 1024,
                    HEAP_SIZE == 4096 * 1024,
            ;
        }
        self.mark_pages(base_page, k, true);
        let base_addr = HEAP_BASE + 4096 * base_page;
        let ghost marked = *self;
        let mut id: usize = 0;
        while id < 32
            invariant
                pre == *old(self),
                *self == marked,
                0 <= id <= 32,
                forall|j: int| 0 <= j < id ==> self.slots()[j] is Some,
                self.slots() =~= pre.slots(),
                self.spec_next_id() == pre.spec_next_id(),
                self.heap_pages().len() == 1024,
                pages_marked(pre.heap_pages(), self.heap_pages(), base_page as int, k as int, true),
                self.spec_used() == pre.spec_used() + 4096 * k,
                self.spec_used() == 4096 * count_true(self.heap_pages()),
                pre.wf(),
                aligned_size == page_round_up(size as int),
                aligned_size == 4096 * k,
                aligned_size % 4096 == 0,
                first_fit_at(pre.heap_pages(), base_page as int, k as int),
                base_page + k <= 1024,
                base_addr == HEAP_BASE + 4096 * base_page,
            decreases 32 - id,
        {
            if self.stacks[id].is_none() {
                let info = StackInfo {
                    base_addr,
                    size: aligned_size,
                    in_use: true,
                    guard_page: false,
                };
                proof {
                    lemma_counts_update(pre.slots(), id as int, Some(info));
                }
                self.stacks[id] = Some(info);
                self.next_id = id + 1;
                proof {
                    assert(self.slots() =~= pre.slots().update(id as int, Some(info)));
                    assert(base_addr % 4096 == 0 && slot_first_page(info) == base_page
                        && slot_page_count(info) == k as int) by (nonlinear_arith)
                        requires
                            base_addr == HEAP_BASE + 4096 * base_page,
                            HEAP_BASE % 4096 == 0,
                            info.base_addr == base_addr,
                            info.size == aligned_size,
                            aligned_size == 4096 * k,
                            slot_first_page(info) == (info.base_addr - HEAP_BASE) / 4096,
                            slot_page_count(info) == info.size as int / 4096,
                    ;
                    assert(base_addr + aligned_size <= HEAP_BASE + HEAP_SIZE) by (nonlinear_arith)
                        requires
                            base_addr == HEAP_BASE + 4096 * base_page,
                            aligned_size == 4096 * k,
                            base_page + k <= 1024,
                            HEAP_SIZE == 4096 * 1024,
                    ;
                    assert forall|i: int| 0 <= i < self.slots().len() implies slot_wf(
                        self.heap_pages(),
                        #[trigger] self.slots()[i],
                    ) by {
                        if i != id {
                            assert(slot_wf(pre.heap_pages(), pre.slots()[i]));
                            if self.slots()[i] is Some {
                                // An old slot's pages were granted before, so
                                // none lies in the freshly granted run.
                                let other = self.slots()[i]->0;
                                assert forall|j: int|
                                    slot_first_page(other) <= j < slot_first_page(other)
                                        + slot_page_count(other) implies 0 <= j
                                    < self.heap_pages().len() && self.heap_pages()[j] by {
                                    assert(pre.heap_pages()[j]);
                                    assert(!(base_page <= j < base_page + k));
                                }
                            }
                        }
                    }
                    assert forall|i: int, j: int|
                        0 <= i < self.slots().len() && 0 <= j < self.slots().len() && i != j
                            && #[trigger] self.slots()[i] is Some
                            && #[trigger] self.slots()[j] is Some && self.slots()[i]->0.size > 0
                            && self.slots()[j]->0.size > 0 implies self.slots()[i]->0.base_addr
                        + self.slots()[i]->0.size <= self.slots()[j]->0.base_addr
                        || self.slots()[j]->0.base_addr + self.slots()[j]->0.size
                        <= self.slots()[i]->0.base_addr by {
                        if i != id && j != id {
                            assert(slot_wf(pre.heap_pages(), pre.slots()[i]));
                            assert(slot_wf(pre.heap_pages(), pre.slots()[j]));
                        } else {
                            let o = if i == id {
                                j
                            } else {
                                i
                            };
                            assert(slot_wf(pre.heap_pages(), pre.slots()[o]));
                            let other = pre.slots()[o]->0;
                            // The new run was free while the old slot's pages
                            // were granted, so their page ranges are disjoint.
                            assert(slot_first_page(other) + slot_page_count(other) <= base_page
                                || base_page + k <= slot_first_page(other)) by {
                                if slot_first_page(other) < base_page + k && base_page
                                    < slot_first_page(other) + slot_page_count(other) {
                                    let shared = if slot_first_page(other) >= base_page as int {
                                        slot_first_page(other)
                                    } else {
                                        base_page as int
                                    };
                                    assert(pre.heap_pages()[shared]);
                                    assert(!pre.heap_pages()[shared]);
                                }
                            }
                            lemma_page_disjoint_bytes(info, other);
                        }
                    }
                    assert(allocate_at_post(
                        pre,
                        *self,
                        size,
                        (base_addr + aligned_size) as usize,
                        id as int,
                        base_page as int,
                    ));
                }
                return Some(base_addr + aligned_size);
            }
            id = id + 1;
        }
        // The table is full: free the granted run again.
        self.mark_pages(base_page, k, false);
        proof {
            assert(self.heap_pages() =~= pre.heap_pages());
        }
        None
    }

    /// Release the stack whose range contains `stack_pointer`, returning
    /// its pages to the heap.  Returns false, changing nothing, when no
    /// live stack's range contains it (an invalid pointer or a double
    /// free).
    pub fn deallocate_stack(&mut self, stack_pointer: usize) -> (r: bool)
        requires
            old(self).wf(),
        ensures
            deallocate_post(*old(self), *final(self), stack_pointer, r),
    {
        let ghost pre = *self;
        let mut id: usize = 0;
        while id < 32
            invariant
                pre == *old(self),
                0 <= id <= 32,
                forall|j: int| 0 <= j < id ==> !slot_matches(#[trigger] pre.slots()[j], stack_pointer),
                *self == pre,
                pre.wf(),
            decreases 32 - id,
        {
            if let Some(info) = self.stacks[id] {
                if info.in_use && stack_pointer > info.base_addr && stack_pointer <= info.base_addr
                    + info.size {
                    proof {
                        assert(slot_wf(pre.heap_pages(), pre.slots()[id as int]));
                        lemma_counts_update(pre.slots(), id as int, None);
                        lemma_slot_size_le_live(pre.slots(), id as int);
                    }
                    let first_page = (info.base_addr - HEAP_BASE) / 4096;
                    let page_count = info.size / 4096;
                    proof {
                        assert(first_page == slot_first_page(info) && page_count
                            == slot_page_count(info) && 4096 * page_count == info.size
                            && first_page + page_count <= 1024) by (nonlinear_arith)
                            requires
                                info.base_addr % 4096 == 0,
                                info.size % 4096 == 0,
                                info.base_addr >= HEAP_BASE,
                                info.base_addr + info.size <= HEAP_BASE + HEAP_SIZE,
                                HEAP_BASE % 4096 == 0,
                                HEAP_SIZE == 4096 * 1024,
                                first_page == (info.base_addr - HEAP_BASE) / 4096,
                                page_count == info.size / 4096,
                                slot_first_page(info) == (info.base_addr - HEAP_BASE) / 4096,
                                slot_page_count(info) == info.size as int / 4096,
                        ;
                    }
                    self.mark_pages(first_page, page_count, false);
                    self.stacks[id] = None;
                    proof {
                        assert(self.slots() =~= pre.slots().update(id as int, None));
                        lemma_deallocate_wf(pre, *self, id as int, info);
                        assert(deallocate_at_post(pre, *self, stack_pointer, id as int));
                    }
                    return true;
                }
            }
            id = id + 1;
        }
        false
    }

    /// Request a guard page for the stack whose range contains
    /// `stack_pointer`; records the request only.
    pub fn enable_guard_page(&mut self, stack_pointer: usize) -> (r: bool)
        requires
            old(self).wf(),
        ensures
            final(self).wf(),
            final(self).heap_pages() == old(self).heap_pages(),
            final(self).spec_used() == old(self).spec_used(),
            final(self).spec_next_id() == old(self).spec_next_id(),
            r == exists|i: int|
                0 <= i < old(self).slots().len() && slot_matches(
                    #[trigger] old(self).slots()[i],
                    stack_pointer,
                ),
            r ==> exists|i: int| guard_at_post(*old(self), *final(self), stack_pointer, i),
            !r ==> final(self).slots() =~= old(self).slots(),
            live_count(final(self).slots()) == live_count(old(self).slots()),
            live_size(final(self).slots()) == live_size(old(self).slots()),
    {
        let ghost pre = *self;
        let mut id: usize = 0;
        while id < 32
            invariant
                pre == *old(self),
                0 <= id <= 32,
                forall|j: int| 0 <= j < id ==> !slot_matches(#[trigger] pre.slots()[j], stack_pointer),
                *self == pre,
                pre.wf(),
            decreases 32 - id,
        {
            if let Some(info) = self.stacks[id] {
                if info.in_use && stack_pointer > info.base_addr && stack_pointer <= info.base_addr
                    + info.size {
                    let updated = StackInfo { guard_page: true, ..info };
                    proof {
                        lemma_counts_update(pre.slots(), id as int, Some(updated));
                    }
                    self.stacks[id] = Some(updated);
                    proof {
                        assert(self.slots() =~= pre.slots().update(id as int, Some(updated)));
                        assert forall|i: int| 0 <= i < self.slots().len() implies slot_wf(
                            self.heap_pages(),
                            #[trigger] self.slots()[i],
                        ) by {
                            assert(slot_wf(pre.heap_pages(), pre.slots()[i]));
                        }
                        assert forall|i: int, j: int|
                            0 <= i < self.slots().len() && 0 <= j < self.slots().len() && i != j
                                && #[trigger] self.slots()[i] is Some
                                && #[trigger] self.slots()[j] is Some && self.slots()[i]->0.size
                                > 0 && self.slots()[j]->0.size > 0 implies self.slots()[i]->0.base_addr
                            + self.slots()[i]->0.size <= self.slots()[j]->0.base_addr
                            || self.slots()[j]->0.base_addr + self.slots()[j]->0.size
                            <= self.slots()[i]->0.base_addr by {
                            assert(slot_wf(pre.heap_pages(), pre.slots()[i]));
                            assert(slot_wf(pre.heap_pages(), pre.slots()[j]));
                        }
                        assert(guard_at_post(pre, *self, stack_pointer, id as int));
                    }
                    return true;
                }
            }
            id = id + 1;
        }
        false
    }

    /// Report how many stacks are live and how many bytes they record.
    pub fn get_stack_usage(&self) -> (r: (usize, usize))
        requires
            self.wf(),
        ensures
            r.0 == live_count(self.slots()),
            r.1 == live_size(self.slots()),
    {
        let mut in_use: usize = 0;
        let mut total_size: usize = 0;
        let mut id: usize = 0;
        proof {
            lemma_count_le_len(self.slots());
        }
        while id < 32
            invariant
                0 <= id <= 32,
                self.wf(),
                in_use == live_count(self.slots().take(id as int)),
                total_size == live_size(self.slots().take(id as int)),
            decreases 32 - id,
        {
            proof {
                lemma_counts_take_step(self.slots(), id as int);
                lemma_counts_take_le(self.slots(), id as int + 1);
                lemma_count_le_len(self.slots());
            }
            if let Some(info) = self.stacks[id] {
                if info.in_use {
                    in_use = in_use + 1;
                    total_size = total_size + info.size;
                }
            }
            id = id + 1;
        }
        proof {
            assert(self.slots().take(32) =~= self.slots());
        }
        (in_use, total_size)
    }
}

/// Clearing the matched slot and freeing its pages preserves the
/// allocator invariant.
proof fn lemma_deallocate_wf(pre: StackAllocator, post: StackAllocator, idx: int, info: StackInfo)
    requires
        pre.wf(),
        0 <= idx < pre.slots().len(),
        pre.slots()[idx] == Some(info),
        info.in_use,
        post.slots() =~= pre.slots().update(idx, None),
        post.spec_next_id() == pre.spec_next_id(),
        post.heap_pages().len() == PAGE_COUNT,
        pages_marked(
            pre.heap_pages(),
            post.heap_pages(),
            slot_first_page(info),
            slot_page_count(info),
            false,
        ),
        post.spec_used() == pre.spec_used() - info.size,
        post.spec_used() == 4096 * count_true(post.heap_pages()),
        live_size(post.slots()) + size_contrib(pre.slots()[idx]) == live_size(pre.slots()),
    ensures
        post.wf(),
{
    assert(slot_wf(pre.heap_pages(), pre.slots()[idx]));
    assert forall|i: int| 0 <= i < post.slots().len() implies slot_wf(
        post.heap_pages(),
        #[trigger] post.slots()[i],
    ) by {
        if i != idx && post.slots()[i] is Some {
            assert(slot_wf(pre.heap_pages(), pre.slots()[i]));
            let other = pre.slots()[i]->0;
            // The freed slot's pages are disjoint from every other live
            // region's pages, so those stay granted.
            assert forall|j: int|
                slot_first_page(other) <= j < slot_first_page(other) + slot_page_count(other)
                    implies 0 <= j < post.heap_pages().len() && post.heap_pages()[j] by {
                assert(pre.heap_pages()[j]);
                if slot_first_page(info) <= j < slot_first_page(info) + slot_page_count(info) {
                    // Both byte ranges would then hold a common page.
                    assert(other.size > 0 && info.size > 0) by (nonlinear_arith)
                        requires
                            slot_first_page(other) <= j < slot_first_page(other) + slot_page_count(
                                other,
                            ),
                            slot_first_page(info) <= j < slot_first_page(info) + slot_page_count(
                                info,
                            ),
                            slot_page_count(other) == other.size as int / 4096,
                            slot_page_count(info) == info.size as int / 4096,
                            other.size % 4096 == 0,
                            info.size % 4096 == 0,
                    ;
                    assert(pre.slots()[i] is Some && pre.slots()[idx] is Some);
                    assert(other.base_addr + other.size <= info.base_addr || info.base_addr
                        + info.size <= other.base_addr);
                    assert(slot_first_page(other) + slot_page_count(other) <= slot_first_page(info)
                        || slot_first_page(info) + slot_page_count(info) <= slot_first_page(other))
                        by (nonlinear_arith)
                        requires
                            other.base_addr + other.size <= info.base_addr || info.base_addr
                                + info.size <= other.base_addr,
                            other.base_addr % 4096 == 0,
                            other.size % 4096 == 0,
                            info.base_addr % 4096 == 0,
                            info.size % 4096 == 0,
                            other.base_addr >= HEAP_BASE,
                            info.base_addr >= HEAP_BASE,
                            HEAP_BASE % 4096 == 0,
                            slot_first_page(other) == (other.base_addr - HEAP_BASE) / 4096,
                            slot_page_count(other) == other.size as int / 4096,
                            slot_first_page(info) == (info.base_addr - HEAP_BASE) / 4096,
                            slot_page_count(info) == info.size as int / 4096,
                    ;
                }
            }
        }
    }
    assert forall|i: int, j: int|
        0 <= i < post.slots().len() && 0 <= j < post.slots().len() && i != j
            && #[trigger] post.slots()[i] is Some && #[trigger] post.slots()[j] is Some
            && post.slots()[i]->0.size > 0 && post.slots()[j]->0.size > 0 implies post.slots()[i]->0.base_addr
        + post.slots()[i]->0.size <= post.slots()[j]->0.base_addr || post.slots()[j]->0.base_addr
        + post.slots()[j]->0.size <= post.slots()[i]->0.base_addr by {
        assert(pre.slots()[i] is Some && pre.slots()[j] is Some);
    }
}

/// Allocate a stack from an explicitly owned allocator.
pub fn allocate_stack(allocator: &mut StackAllocator, size: usize) -> (r: Option<usize>)
    requires
        old(allocator).wf(),
        size + 4095 <= usize::MAX,
    ensures
        allocate_post(*old(allocator), *final(allocator), size, r),
{
    allocator.allocate_stack(size)
}

/// Allocate a stack of the default size (64 KiB).
pub fn allocate_default_stack(allocator: &mut StackAllocator) -> (r: Option<usize>)
    requires
        old(allocator).wf(),
    ensures
        allocate_post(*old(allocator), *final(allocator), DEFAULT_STACK_SIZE, r),
{
    allocator.allocate_stack(DEFAULT_STACK_SIZE)
}

/// Release the stack whose range contains `stack_pointer`.
pub fn deallocate_stack(allocator: &mut StackAllocator, stack_pointer: usize) -> (r: bool)
    requires
        old(allocator).wf(),
    ensures
        deallocate_post(*old(allocator), *final(allocator), stack_pointer, r),
{
    allocator.deallocate_stack(stack_pointer)
}

/// Report the live stack count and their total recorded bytes.
pub fn get_stack_usage(allocator: &StackAllocator) -> (r: (usize, usize))
    requires
        allocator.wf(),
    ensures
        r.0 == live_count(allocator.slots()),
        r.1 == live_size(allocator.slots()),
{
    allocator.get_stack_usage()
}

/// Every slot the allocator has recorded holds a page-aligned base address;
/// the value handed to the caller is the region's top, base plus size.
pub proof fn lemma_live_slot_base_aligned(a: StackAllocator, i: int)
    requires
        a.wf(),
        0 <= i < a.slots().len(),
        a.slots()[i] is Some,
    ensures
        a.slots()[i]->0.base_addr % 4096 == 0,
{
    assert(slot_wf(a.heap_pages(), a.slots()[i]));
}

/// The bytes recorded in live slots are exactly the bytes the heap has
/// granted, and the heap never grants more than its capacity.
pub proof fn lemma_live_bytes_bounded(a: StackAllocator)
    requires
        a.wf(),
    ensures
        live_size(a.slots()) == a.spec_used(),
        a.spec_used() <= HEAP_SIZE,
{
    lemma_count_true_le(a.heap_pages());
}

/// Allocating a stack and immediately deallocating the pointer it returned
/// restores the live-slot count to its value before the allocation.
pub proof fn lemma_allocate_then_deallocate(
    s0: StackAllocator,
    s1: StackAllocator,
    s2: StackAllocator,
    size: usize,
    stack_pointer: usize,
    freed: bool,
)
    requires
        s0.wf(),
        size > 0,
        size + 4095 <= usize::MAX,
        allocate_post(s0, s1, size, Some(stack_pointer)),
        deallocate_post(s1, s2, stack_pointer, freed),
    ensures
        freed,
        live_count(s2.slots()) == live_count(s0.slots()),
{
    let aligned = page_round_up(size as int);
    assert(aligned >= 4096) by (nonlinear_arith)
        requires
            size > 0,
            aligned == ((size as int + 4095) / 4096) * 4096,
    ;
    let (i, p) = choose|i: int, p: int| allocate_at_post(s0, s1, size, stack_pointer, i, p);
    assert(allocate_at_post(s0, s1, size, stack_pointer, i, p));
    assert(slot_matches(s1.slots()[i], stack_pointer));
}

/// Deallocation with a pointer that lies in no live stack's range returns
/// false and leaves the table and the heap unchanged.
pub proof fn lemma_deallocate_foreign_pointer(
    s0: StackAllocator,
    s1: StackAllocator,
    stack_pointer: usize,
    freed: bool,
)
    requires
        deallocate_post(s0, s1, stack_pointer, freed),
        forall|i: int|
            0 <= i < s0.slots().len() ==> !slot_matches(#[trigger] s0.slots()[i], stack_pointer),
    ensures
        !freed,
        s1.slots() =~= s0.slots(),
        s1.heap_pages() =~= s0.heap_pages(),
        s1.spec_used() == s0.spec_used(),
{
}

/// A freed region is reusable: after a successful deallocation, the freed
/// slot's page run is free again, so an allocation of no more than that
/// size finds a run to grant.
pub proof fn lemma_freed_memory_is_reusable(
    s0: StackAllocator,
    s1: StackAllocator,
    stack_pointer: usize,
    size: usize,
)
    requires
        s0.wf(),
        deallocate_post(s0, s1, stack_pointer, true),
        size + 4095 <= usize::MAX,
        exists|i: int|
            0 <= i < s0.slots().len() && slot_matches(#[trigger] s0.slots()[i], stack_pointer)
                && page_round_up(size as int) <= s0.slots()[i]->0.size,
    ensures
        exists|p: int| #[trigger] free_run_at(s1.heap_pages(), p, page_round_up(size as int) / 4096),
{
    let i = choose|i: int| deallocate_at_post(s0, s1, stack_pointer, i);
    assert(deallocate_at_post(s0, s1, stack_pointer, i));
    let j = choose|j: int|
        0 <= j < s0.slots().len() && slot_matches(#[trigger] s0.slots()[j], stack_pointer)
            && page_round_up(size as int) <= s0.slots()[j]->0.size;
    let info = s0.slots()[i]->0;
    let other = s0.slots()[j]->0;
    // Two matching live regions overlap at the pointer, so by the
    // disjointness invariant they are the same slot.
    assert(i == j) by {
        if i != j {
            assert(other.base_addr + other.size <= info.base_addr || info.base_addr + info.size
                <= other.base_addr);
        }
    }
    let k = page_round_up(size as int) / 4096;
    assert(slot_wf(s0.heap_pages(), s0.slots()[i]));
    assert(k <= slot_page_count(info) && 4096 * slot_page_count(info) == info.size)
        by (nonlinear_arith)
        requires
            page_round_up(size as int) <= info.size,
            info.size % 4096 == 0,
            k == page_round_up(size as int) / 4096,
            slot_page_count(info) == info.size as int / 4096,
            page_round_up(size as int) == ((size as int + 4095) / 4096) * 4096,
    ;
    assert(free_run_at(s1.heap_pages(), slot_first_page(info), k));
}

} // verus!
