//! Tests for the memory pool and the stack allocator.

use retron::kernel::memory::{
    allocate_default_stack, allocate_stack, deallocate_stack, get_heap_usage, get_stack_usage,
    MemoryPool, StackAllocator, SystemMemory,
};

#[test]
fn pool_hands_out_consecutive_addresses() {
    let mut pool = MemoryPool::new(0x1000, 64);
    assert_eq!(pool.allocate(16), Some(0x1000));
    assert_eq!(pool.allocate(16), Some(0x1010));
    assert_eq!(get_heap_usage(&pool), 32);
}

#[test]
fn pool_rejects_oversized_requests() {
    let mut pool = MemoryPool::new(0x1000, 64);
    assert_eq!(pool.allocate(65), None);
    assert_eq!(get_heap_usage(&pool), 0);
}

#[test]
fn pool_deallocate_changes_nothing() {
    let mut pool = MemoryPool::new(0x1000, 64);
    let a = pool.allocate(16).unwrap();
    let b = pool.allocate(16).unwrap();
    // The pool's release is a recorded placeholder: whatever is handed
    // back, the pool is exactly as it was.
    pool.deallocate(a, 16);
    assert_eq!(get_heap_usage(&pool), 32);
    pool.deallocate(b, 16);
    assert_eq!(get_heap_usage(&pool), 32);
    assert_eq!(pool.allocate(16), Some(0x1020));
}

#[test]
fn system_memory_reports_the_heap_size() {
    let info = SystemMemory::get_info(1024);
    assert_eq!(info.total, 4 * 1024 * 1024);
    assert_eq!(info.used, 1024);
    assert_eq!(info.free, 4 * 1024 * 1024 - 1024);
}

#[test]
fn system_memory_saturates_on_overuse() {
    let info = SystemMemory::get_info(usize::MAX);
    assert_eq!(info.free, 0);
}

#[test]
fn allocate_rounds_up_and_returns_the_top() {
    let mut a = StackAllocator::new();
    let sp = a.allocate_stack(100).unwrap();
    // The base is page-aligned and the size rounds up to one page, so
    // the top sits exactly one page above the aligned base.
    assert_eq!(sp % 4096, 0);
    let (count, total) = a.get_stack_usage();
    assert_eq!(count, 1);
    assert_eq!(total, 4096);
}

#[test]
fn allocate_then_deallocate_restores_the_live_count() {
    let mut a = StackAllocator::new();
    let before = a.get_stack_usage().0;
    let sp = a.allocate_stack(8192).unwrap();
    assert_eq!(a.get_stack_usage().0, before + 1);
    assert!(a.deallocate_stack(sp));
    assert_eq!(a.get_stack_usage().0, before);
}

#[test]
fn thirty_two_stacks_fit_and_the_next_fails() {
    let mut a = StackAllocator::new();
    let mut pointers = Vec::new();
    for _ in 0..32 {
        let sp = a.allocate_stack(4096);
        assert!(sp.is_some());
        pointers.push(sp.unwrap());
    }
    assert_eq!(a.get_stack_usage().0, 32);
    // The table is full: the next allocation fails.
    assert_eq!(a.allocate_stack(4096), None);
    // The failed attempt leaked nothing: freeing one slot makes room.
    assert!(a.deallocate_stack(pointers[31]));
    assert!(a.allocate_stack(4096).is_some());
}

#[test]
fn deallocate_rejects_a_foreign_pointer() {
    let mut a = StackAllocator::new();
    let sp = a.allocate_stack(4096).unwrap();
    let before = a.get_stack_usage();
    // A pointer far outside every granted region.
    assert!(!a.deallocate_stack(3));
    assert_eq!(a.get_stack_usage(), before);
    // The real pointer still works afterwards.
    assert!(a.deallocate_stack(sp));
}

#[test]
fn deallocate_rejects_a_double_free() {
    let mut a = StackAllocator::new();
    let sp = a.allocate_stack(4096).unwrap();
    assert!(a.deallocate_stack(sp));
    assert!(!a.deallocate_stack(sp));
    assert_eq!(a.get_stack_usage().0, 0);
}

#[test]
fn default_stack_scenario() {
    let mut a = StackAllocator::new();
    let sp = allocate_stack(&mut a, 64 * 1024);
    assert!(sp.is_some());
    let sp = sp.unwrap();
    let (count, total) = get_stack_usage(&a);
    assert_eq!(count, 1);
    assert!(total >= 64 * 1024);
    assert!(deallocate_stack(&mut a, sp));
    let (count_after, _) = get_stack_usage(&a);
    assert_eq!(count_after, 0);
}

#[test]
fn default_stack_uses_sixty_four_kibibytes() {
    let mut a = StackAllocator::new();
    let sp = allocate_default_stack(&mut a);
    assert!(sp.is_some());
    let (count, total) = get_stack_usage(&a);
    assert_eq!(count, 1);
    assert_eq!(total, 64 * 1024);
}

#[test]
fn freed_stacks_return_to_the_heap() {
    let mut a = StackAllocator::new();
    let first = a.allocate_stack(8192).unwrap();
    let second = a.allocate_stack(4096).unwrap();
    let third = a.allocate_stack(4096).unwrap();
    let used_before = a.get_stack_usage().1;
    // Freeing the middle grant gives its pages back at once.
    assert!(a.deallocate_stack(second));
    assert_eq!(a.get_stack_usage().1, used_before - 4096);
    // A same-sized request fits in the freed gap: the first-fit scan
    // hands the gap's base out again.
    let again = a.allocate_stack(4096).unwrap();
    assert_eq!(again, second);
    assert!(a.deallocate_stack(first));
    assert!(a.deallocate_stack(third));
    assert!(a.deallocate_stack(again));
    assert_eq!(a.get_stack_usage(), (0, 0));
}

#[test]
fn an_early_hole_swallows_a_smaller_request() {
    let mut a = StackAllocator::new();
    let big = a.allocate_stack(3 * 4096).unwrap();
    let fence = a.allocate_stack(4096).unwrap();
    assert!(a.deallocate_stack(big));
    // The freed three-page hole sits before the fence; a one-page
    // request is placed at its start, not after the fence.
    let small = a.allocate_stack(4096).unwrap();
    assert_eq!(small, big - 2 * 4096);
    assert!(small < fence);
}

#[test]
fn guard_pages_are_recorded_per_stack() {
    let mut a = StackAllocator::new();
    let sp = a.allocate_stack(4096).unwrap();
    assert!(a.enable_guard_page(sp));
    assert!(!a.enable_guard_page(3));
    // The guarded stack can still be released.
    assert!(a.deallocate_stack(sp));
}
