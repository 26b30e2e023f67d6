use catnip::collections::waker_page::{
    harvest, holds_slot, last_handle, slot_mask, WakerPage, WakerPageRef, WakerRef, WAKER_PAGE_SIZE,
};
use futures::task::AtomicWaker;
use std::mem;
use std::sync::atomic::{AtomicUsize, Ordering};
use std::sync::Arc;
use std::task::{Wake, Waker};

struct CountingWake {
    wakes: AtomicUsize,
}

impl Wake for CountingWake {
    fn wake(self: Arc<Self>) {
        self.wakes.fetch_add(1, Ordering::SeqCst);
    }
}

fn counting_waker() -> (Arc<CountingWake>, Waker) {
    let counter = Arc::new(CountingWake { wakes: AtomicUsize::new(0) });
    let waker = Waker::from(counter.clone());
    (counter, waker)
}

fn fresh_page() -> (WakerPage, WakerPageRef) {
    let page = WakerPage::new(Arc::new(AtomicWaker::new()));
    let handle = WakerPageRef::at(0x1000).expect("an aligned base");
    (page, handle)
}

#[test]
fn test_size() {
    assert_eq!(mem::size_of::<Arc<AtomicWaker>>(), 8);
    assert_eq!(mem::size_of::<WakerPage>(), 64);
}

#[test]
fn test_basic() {
    let waker = Arc::new(AtomicWaker::new());
    let mut p = WakerPage::new(waker);
    let handle = WakerPageRef::at(0x4000).unwrap();

    let q = handle.waker(&mut p, 0);
    let r = handle.waker(&mut p, 63);
    let s = handle.waker(&mut p, 16);

    q.wake(&mut p);
    r.wake(&mut p);

    assert_eq!(p.take_notified(), 1 << 0 | 1 << 63);

    s.wake(&mut p);

    assert_eq!(p.take_notified(), 1 << 16);
}

#[test]
fn page_size_constant_is_one_cache_line() {
    assert_eq!(WAKER_PAGE_SIZE, 64);
}

#[test]
fn new_page_is_empty_with_one_handle() {
    let (mut page, _handle) = fresh_page();
    assert_eq!(page.refcount(), 1);
    assert_eq!(page.take_notified(), 0);
    assert_eq!(page.take_dropped(), 0);
    for ix in 0..64 {
        assert!(!page.has_completed(ix));
        assert!(!page.was_dropped(ix));
    }
}

#[test]
fn slot_mask_is_one_bit() {
    assert_eq!(slot_mask(0), 1);
    assert_eq!(slot_mask(5), 32);
    assert_eq!(slot_mask(63), 0x8000_0000_0000_0000);
}

#[test]
fn completion_masks_notification() {
    let (mut page, _handle) = fresh_page();
    page.notify(5);
    page.mark_completed(5);
    assert!(page.has_completed(5));
    assert_eq!(page.take_notified(), 0);
}

#[test]
fn drop_masks_notification() {
    let (mut page, _handle) = fresh_page();
    page.notify(7);
    page.mark_dropped(7);
    assert!(page.was_dropped(7));
    assert_eq!(page.take_notified(), 0);
    assert_eq!(page.take_dropped(), 1 << 7);
    assert_eq!(page.take_dropped(), 0);
    assert!(!page.was_dropped(7));
}

#[test]
fn harvest_is_notified_less_completed_and_dropped() {
    let (mut page, _handle) = fresh_page();
    page.mark_completed(3);
    page.mark_dropped(9);
    for ix in [1usize, 3, 9, 40, 1, 63] {
        page.notify(ix);
    }
    assert_eq!(page.take_notified(), (1 << 1) | (1 << 40) | (1 << 63));
    assert!(page.has_completed(3));
    assert!(page.was_dropped(9));
}

#[test]
fn a_masked_notification_is_forgotten_by_the_harvest() {
    let (mut page, _handle) = fresh_page();
    page.notify(5);
    page.mark_completed(5);
    assert_eq!(page.take_notified(), 0);
    page.clear(5);
    assert_eq!(page.take_notified(), 0);
}

#[test]
fn second_harvest_is_empty() {
    let (mut page, _handle) = fresh_page();
    page.notify(2);
    page.notify(33);
    assert_eq!(page.take_notified(), (1 << 2) | (1 << 33));
    assert_eq!(page.take_notified(), 0);
}

#[test]
fn initialize_notifies_and_unmasks_every_slot() {
    for ix in 0..64usize {
        let (mut page, _handle) = fresh_page();
        page.mark_completed(ix);
        page.mark_dropped(ix);
        page.initialize(ix);
        assert!(!page.has_completed(ix));
        assert!(!page.was_dropped(ix));
        assert_eq!(page.take_notified(), 1u64 << ix);
    }
}

#[test]
fn initialize_leaves_other_slots() {
    let (mut page, _handle) = fresh_page();
    page.mark_completed(4);
    page.mark_dropped(6);
    page.notify(8);
    page.initialize(5);
    assert!(page.has_completed(4));
    assert!(page.was_dropped(6));
    assert_eq!(page.take_notified(), (1 << 5) | (1 << 8));
}

#[test]
fn clear_resets_one_slot_only() {
    let (mut page, _handle) = fresh_page();
    for ix in [10usize, 11] {
        page.notify(ix);
        page.mark_completed(ix);
        page.mark_dropped(ix);
    }
    page.clear(10);
    assert!(!page.has_completed(10));
    assert!(!page.was_dropped(10));
    assert!(page.has_completed(11));
    assert!(page.was_dropped(11));
    page.clear(11);
    assert_eq!(page.take_dropped(), 0);
    assert_eq!(page.take_notified(), 0);
}

#[test]
fn mark_completed_does_not_touch_the_other_sets() {
    let (mut page, _handle) = fresh_page();
    page.mark_completed(20);
    assert!(page.has_completed(20));
    assert!(!page.has_completed(21));
    assert!(!page.was_dropped(20));
    assert_eq!(page.take_notified(), 0);
}

#[test]
fn notify_wakes_the_scheduler() {
    let primitive = Arc::new(AtomicWaker::new());
    let (counter, waker) = counting_waker();
    primitive.register(&waker);
    let mut page = WakerPage::new(primitive);
    page.notify(1);
    assert_eq!(counter.wakes.load(Ordering::SeqCst), 1);
}

#[test]
fn mark_dropped_wakes_the_scheduler() {
    let primitive = Arc::new(AtomicWaker::new());
    let (counter, waker) = counting_waker();
    primitive.register(&waker);
    let mut page = WakerPage::new(primitive);
    page.mark_dropped(1);
    assert_eq!(counter.wakes.load(Ordering::SeqCst), 1);
}

#[test]
fn mark_completed_does_not_wake() {
    let primitive = Arc::new(AtomicWaker::new());
    let (counter, waker) = counting_waker();
    primitive.register(&waker);
    let mut page = WakerPage::new(primitive);
    page.mark_completed(1);
    page.initialize(2);
    page.clear(2);
    assert_eq!(counter.wakes.load(Ordering::SeqCst), 0);
}

#[test]
fn wake_by_ref_wakes_and_keeps_the_notifier() {
    let primitive = Arc::new(AtomicWaker::new());
    let (counter, waker) = counting_waker();
    primitive.register(&waker);
    let mut page = WakerPage::new(primitive);
    let handle = WakerPageRef::at(0x40).unwrap();
    let notifier = handle.waker(&mut page, 12);
    assert_eq!(page.refcount(), 2);
    notifier.wake_by_ref(&mut page);
    assert_eq!(counter.wakes.load(Ordering::SeqCst), 1);
    assert_eq!(page.refcount(), 2);
    assert_eq!(page.take_notified(), 1 << 12);
    assert!(!notifier.drop_handle(&mut page));
    assert_eq!(page.refcount(), 1);
}

#[test]
fn handle_base_must_be_a_page_address() {
    assert!(WakerPageRef::at(0).is_none());
    assert!(WakerPageRef::at(1).is_none());
    assert!(WakerPageRef::at(63).is_none());
    assert!(WakerPageRef::at(65).is_none());
    assert!(WakerPageRef::at(usize::MAX).is_none());
    assert!(WakerPageRef::at(usize::MAX - 63).is_some());
    assert_eq!(WakerPageRef::at(64).unwrap().base_addr(), 64);
    assert_eq!(WakerPageRef::at(0x7f00).unwrap().base_addr(), 0x7f00);
}

#[test]
fn slot_address_round_trips_for_every_slot() {
    let base = 0x5_0000usize;
    let handle = WakerPageRef::at(base).unwrap();
    let mut page = WakerPage::new(Arc::new(AtomicWaker::new()));
    for ix in 0..64usize {
        let data = handle.raw_waker(&mut page, ix);
        assert_eq!(data, base + ix);
        let notifier = WakerRef::from_raw(data);
        assert_eq!(notifier.base_ptr(), (base, ix));
    }
    assert_eq!(page.refcount(), 65);
}

#[test]
fn base_ptr_of_an_aligned_address_is_slot_zero() {
    assert_eq!(WakerRef::from_raw(0x1000).base_ptr(), (0x1000, 0));
    assert_eq!(WakerRef::from_raw(0x1001).base_ptr(), (0x1000, 1));
    assert_eq!(WakerRef::from_raw(0x103f).base_ptr(), (0x1000, 63));
    assert_eq!(WakerRef::from_raw(0x1040).base_ptr(), (0x1040, 0));
}

#[test]
fn into_raw_waker_keeps_the_share() {
    let (mut page, handle) = fresh_page();
    let notifier = handle.waker(&mut page, 9);
    let data = notifier.into_raw_waker();
    assert_eq!(data, 0x1000 + 9);
    assert_eq!(page.refcount(), 2);
    let back = WakerRef::from_raw(data);
    assert!(!back.wake(&mut page));
    assert_eq!(page.refcount(), 1);
    assert_eq!(page.take_notified(), 1 << 9);
}

#[test]
fn clones_count_and_name_the_same_place() {
    let (mut page, handle) = fresh_page();
    let second = handle.clone_handle(&mut page);
    assert_eq!(second.base_addr(), handle.base_addr());
    assert_eq!(page.refcount(), 2);
    let notifier = second.waker(&mut page, 3);
    let twin = notifier.clone_handle(&mut page);
    assert_eq!(page.refcount(), 4);
    assert_eq!(twin.base_ptr(), notifier.base_ptr());
    twin.wake_by_ref(&mut page);
    assert_eq!(page.take_notified(), 1 << 3);
}

#[test]
fn refcount_is_conserved_and_the_page_freed_once() {
    let (mut page, creator) = fresh_page();
    let mut notifiers = Vec::new();
    let mut handles = Vec::new();
    for ix in 0..5usize {
        notifiers.push(creator.waker(&mut page, ix));
    }
    for _ in 0..3 {
        handles.push(creator.clone_handle(&mut page));
    }
    assert_eq!(page.refcount(), 1 + 5 + 3);
    let mut frees = 0;
    for notifier in notifiers {
        if notifier.drop_handle(&mut page) {
            frees += 1;
        }
    }
    for handle in handles {
        if handle.drop_handle(&mut page) {
            frees += 1;
        }
    }
    assert_eq!(page.refcount(), 1);
    assert_eq!(frees, 0);
    assert!(creator.drop_handle(&mut page));
    assert_eq!(page.refcount(), 0);
}

#[test]
fn consuming_wake_of_the_last_handle_frees_the_page() {
    let (mut page, creator) = fresh_page();
    let notifier = creator.waker(&mut page, 30);
    assert!(!creator.drop_handle(&mut page));
    assert!(notifier.wake(&mut page));
    assert_eq!(page.refcount(), 0);
    assert_eq!(page.take_notified(), 1 << 30);
}

#[test]
fn harvest_masks_completed_and_dropped_slots() {
    assert_eq!(harvest(0b1111, 0b0010, 0b0100), 0b1001);
    assert_eq!(harvest(0, u64::MAX, u64::MAX), 0);
    assert_eq!(harvest(u64::MAX, 0, 0), u64::MAX);
    assert_eq!(harvest(1 << 63, 1, 2), 1 << 63);
    assert_eq!(harvest(1 << 7, 1 << 7, 0), 0);
    assert_eq!(harvest(1 << 7, 0, 1 << 7), 0);
}

#[test]
fn holds_slot_reads_one_bit() {
    assert!(holds_slot(1, 0));
    assert!(!holds_slot(1, 1));
    assert!(holds_slot(1 << 63, 63));
    assert!(!holds_slot(!(1 << 20), 20));
    assert!(holds_slot(!(1 << 20), 21));
}

#[test]
fn only_the_handle_that_finds_a_count_of_one_is_last() {
    assert!(last_handle(1));
    assert!(!last_handle(0));
    assert!(!last_handle(2));
    assert!(!last_handle(u64::MAX));
}

#[test]
fn slot_addr_is_base_plus_slot() {
    let handle = WakerPageRef::at(0x2000).unwrap();
    assert_eq!(handle.slot_addr(0), 0x2000);
    assert_eq!(handle.slot_addr(63), 0x203f);
    let top = WakerPageRef::at(usize::MAX - 63).unwrap();
    assert_eq!(top.slot_addr(63), usize::MAX);
}
