use rustfs_mimalloc::api::{MiMalloc, ProcessInfo};
use rustfs_mimalloc::heap::{
    arena_from_status, arena_from_success, reservation_status, ArenaError, Heap, HeapAction,
};
use rustfs_mimalloc::sys::mi_option_t;

#[test]
fn created_heap_is_owned() {
    assert!(Heap::from_created(0).is_none());
    let heap = Heap::from_created(0x7f00_1000).unwrap();
    assert_eq!(heap.as_ptr(), 0x7f00_1000);
    assert_eq!(heap.drop_action(), HeapAction::Delete(0x7f00_1000));
    assert_eq!(heap.delete(), HeapAction::Delete(0x7f00_1000));
    let heap = Heap::owned(0x2000);
    assert_eq!(heap.destroy(), HeapAction::Destroy(0x2000));
}

#[test]
fn borrowed_heap_is_left_alone() {
    assert!(Heap::from_existing(0).is_none());
    let heap = Heap::from_existing(0x3000).unwrap();
    assert_eq!(heap.as_ptr(), 0x3000);
    assert_eq!(heap.drop_action(), HeapAction::Keep);
    assert_eq!(heap.delete(), HeapAction::Keep);
    assert_eq!(Heap::borrowed(0x3000).destroy(), HeapAction::Keep);
}

#[test]
fn arena_status_codes() {
    let arena = arena_from_status(0, 0xabc).unwrap();
    assert_eq!(arena.raw(), 0xabc);
    assert_eq!(arena_from_status(12, 0xabc).unwrap_err(), ArenaError::Failed);
    assert_eq!(arena_from_status(-1, 0).unwrap_err(), ArenaError::Failed);
    assert_eq!(arena_from_success(true, 7).unwrap().raw(), 7);
    assert_eq!(arena_from_success(false, 7).unwrap_err(), ArenaError::Failed);
    assert_eq!(reservation_status(0), Ok(()));
    assert_eq!(reservation_status(12), Err(ArenaError::Failed));
}

#[test]
fn option_values_match_the_c_interface() {
    assert_eq!(mi_option_t::mi_option_show_errors.value(), 0);
    assert_eq!(mi_option_t::mi_option_arena_eager_commit.value(), 4);
    assert_eq!(mi_option_t::mi_option_purge_delay.value(), 15);
    assert_eq!(mi_option_t::mi_option_destroy_on_exit.value(), 22);
    assert_eq!(mi_option_t::mi_option_allow_thp.value(), 43);
    assert_eq!(mi_option_t::mi_option_collect_merges_stats.value(), 47);
}

#[test]
fn process_info_starts_at_zero() {
    let info = ProcessInfo::default();
    assert_eq!(info.peak_rss, 0);
    assert_eq!(info.page_faults, 0);
    assert_eq!(info.elapsed_msecs, 0);
    let _ = MiMalloc::default();
}
