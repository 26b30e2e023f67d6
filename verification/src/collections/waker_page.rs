//! The waker page: one cache line that tells a scheduler which of up to 64
//! tasks were notified, which completed and which were dropped, together with
//! the count of the handles that keep the page alive.
//!
//! The page is held here as sequential state. A handle is a plain address:
//! the page's base for a page handle, the base plus the slot index for a slot
//! notifier. Every operation of a handle takes the page it belongs to, so the
//! caller decides how the page is reached and shared.

use crate::collections::slot_bits::{
    lemma_slot_set_and_not, lemma_slot_set_injective, lemma_slot_set_insert,
    lemma_slot_set_remove, lemma_slot_set_test, lemma_slot_set_zero, slot_set,
};
use futures::task::AtomicWaker;
use std::sync::Arc;
use vstd::prelude::*;

verus! {

/// The size of a page in bytes, which is also its alignment and the number of
/// its slots.
pub const WAKER_PAGE_SIZE: usize = 64;

/// The count of handles stays below this bound.
pub const REFCOUNT_LIMIT: u64 = 0x8000_0000_0000_0000;

/// `futures::task::AtomicWaker`, the wake primitive of the scheduler. A value
/// of it is carried, never looked into.
#[verifier::external_type_specification]
#[verifier::external_body]
pub struct ExAtomicWaker(AtomicWaker);

/// Calls `AtomicWaker::wake`, which wakes the task that was last registered
/// with the primitive, if there is one. Nothing is claimed of its effect.
#[verifier::external_body]
fn wake_scheduler(waker: &AtomicWaker) {
    waker.wake()
}

/// The mask that has only the bit of slot `ix` set.
pub fn slot_mask(ix: usize) -> (mask: u64)
    requires
        ix < 64,
    ensures
        mask == 1u64 << (ix as u64),
        slot_set(mask) == set![ix as int],
{
    proof {
        crate::collections::slot_bits::lemma_slot_set_mask(ix as u64);
    }
    1u64 << (ix as u64)
}

/// The slots to poll, given the words of a page: the notified ones that have
/// neither completed nor been dropped.
pub fn harvest(notified: u64, completed: u64, dropped: u64) -> (ready: u64)
    ensures
        slot_set(ready) == slot_set(notified).difference(slot_set(completed)).difference(
            slot_set(dropped),
        ),
{
    proof {
        lemma_slot_set_and_not(notified, completed);
        lemma_slot_set_and_not(notified & !completed, dropped);
    }
    notified & !completed & !dropped
}

/// Whether slot `ix` is in the word `bits`.
pub fn holds_slot(bits: u64, ix: usize) -> (held: bool)
    requires
        ix < 64,
    ensures
        held == slot_set(bits).contains(ix as int),
{
    proof {
        lemma_slot_set_test(bits, ix as u64);
    }
    bits & slot_mask(ix) != 0
}

/// Whether the handle that is given up is the last one, so that the page is
/// to be deallocated, given the count of handles before.
pub fn last_handle(count: u64) -> (last: bool)
    ensures
        last == (count == 1),
{
    count == 1
}

/// What a page holds: the number of live handles, the three sets of slots,
/// and the primitive that it wakes.
pub struct PageView {
    pub refcount: nat,
    pub notified: Set<int>,
    pub completed: Set<int>,
    pub dropped: Set<int>,
    pub waker: Arc<AtomicWaker>,
}

impl PageView {
    /// Slot `ix` is notified.
    pub open spec fn notify(self, ix: int) -> PageView {
        PageView { notified: self.notified.insert(ix), ..self }
    }

    /// The slots that a harvest hands to the scheduler: those notified that
    /// have neither completed nor been dropped.
    pub open spec fn harvest(self) -> Set<int> {
        self.notified.difference(self.completed).difference(self.dropped)
    }

    /// The page after a harvest: no slot is notified any more.
    pub open spec fn take_notified(self) -> PageView {
        PageView { notified: Set::empty(), ..self }
    }

    /// Slot `ix` has completed.
    pub open spec fn mark_completed(self, ix: int) -> PageView {
        PageView { completed: self.completed.insert(ix), ..self }
    }

    /// Slot `ix` was dropped.
    pub open spec fn mark_dropped(self, ix: int) -> PageView {
        PageView { dropped: self.dropped.insert(ix), ..self }
    }

    /// The page after the dropped slots were collected.
    pub open spec fn take_dropped(self) -> PageView {
        PageView { dropped: Set::empty(), ..self }
    }

    /// Slot `ix` is given to a fresh task, which is to be polled once.
    pub open spec fn initialize(self, ix: int) -> PageView {
        PageView {
            notified: self.notified.insert(ix),
            completed: self.completed.remove(ix),
            dropped: self.dropped.remove(ix),
            ..self
        }
    }

    /// Slot `ix` is reclaimed.
    pub open spec fn clear(self, ix: int) -> PageView {
        PageView {
            notified: self.notified.remove(ix),
            completed: self.completed.remove(ix),
            dropped: self.dropped.remove(ix),
            ..self
        }
    }

    /// One more handle lives.
    pub open spec fn retain(self) -> PageView {
        PageView { refcount: self.refcount + 1, ..self }
    }

    /// One handle less lives.
    pub open spec fn release(self) -> PageView {
        PageView { refcount: (self.refcount - 1) as nat, ..self }
    }

    /// Whether the handle that is released now is the last one, so that the
    /// page is to be deallocated.
    pub open spec fn release_frees(self) -> bool {
        self.refcount == 1
    }

    /// The page after the slots of `slots` were notified one after the other.
    pub open spec fn notify_all(self, slots: Seq<int>) -> PageView
        decreases slots.len(),
    {
        if slots.len() == 0 {
            self
        } else {
            self.notify_all(slots.drop_last()).notify(slots.last())
        }
    }
}

/// The state of one page. It fills one cache line.
pub struct WakerPage {
    refcount: u64,
    notified: u64,
    completed: u64,
    dropped: u64,
    waker: Arc<AtomicWaker>,
    _unused: [u8; 24],
}

impl View for WakerPage {
    type V = PageView;

    closed spec fn view(&self) -> PageView {
        PageView {
            refcount: self.refcount as nat,
            notified: slot_set(self.notified),
            completed: slot_set(self.completed),
            dropped: slot_set(self.dropped),
            waker: self.waker,
        }
    }
}

impl WakerPage {
    /// A page on which nothing has happened yet, with the one handle that its
    /// creator holds.
    pub fn new(waker: Arc<AtomicWaker>) -> (page: WakerPage)
        ensures
            page@ == (PageView {
                refcount: 1,
                notified: Set::empty(),
                completed: Set::empty(),
                dropped: Set::empty(),
                waker,
            }),
    {
        proof {
            lemma_slot_set_zero();
        }
        WakerPage { refcount: 1, notified: 0, completed: 0, dropped: 0, waker, _unused: [0u8; 24] }
    }

    /// Marks slot `ix` as notified and wakes the scheduler.
    pub fn notify(&mut self, ix: usize)
        requires
            ix < 64,
        ensures
            final(self)@ == old(self)@.notify(ix as int),
    {
        proof {
            lemma_slot_set_insert(self.notified, ix as u64);
        }
        self.notified = self.notified | slot_mask(ix);
        wake_scheduler(&self.waker);
    }

    /// Hands out the notified slots and forgets them. A slot that has
    /// completed or was dropped since its notification is left out, so that
    /// its task is not polled again.
    pub fn take_notified(&mut self) -> (ready: u64)
        ensures
            slot_set(ready) == old(self)@.harvest(),
            final(self)@ == old(self)@.take_notified(),
    {
        proof {
            lemma_slot_set_zero();
        }
        let notified = self.notified;
        self.notified = 0;
        harvest(notified, self.completed, self.dropped)
    }

    /// Whether slot `ix` has completed.
    pub fn has_completed(&self, ix: usize) -> (completed: bool)
        requires
            ix < 64,
        ensures
            completed == self@.completed.contains(ix as int),
    {
        holds_slot(self.completed, ix)
    }

    /// Marks slot `ix` as completed. The scheduler is not woken.
    pub fn mark_completed(&mut self, ix: usize)
        requires
            ix < 64,
        ensures
            final(self)@ == old(self)@.mark_completed(ix as int),
    {
        proof {
            lemma_slot_set_insert(self.completed, ix as u64);
        }
        self.completed = self.completed | slot_mask(ix);
    }

    /// Marks slot `ix` as dropped and wakes the scheduler, which has to see
    /// the drop to reclaim the slot.
    pub fn mark_dropped(&mut self, ix: usize)
        requires
            ix < 64,
        ensures
            final(self)@ == old(self)@.mark_dropped(ix as int),
    {
        proof {
            lemma_slot_set_insert(self.dropped, ix as u64);
        }
        self.dropped = self.dropped | slot_mask(ix);
        wake_scheduler(&self.waker);
    }

    /// Hands out the dropped slots and forgets them.
    pub fn take_dropped(&mut self) -> (dropped: u64)
        ensures
            slot_set(dropped) == old(self)@.dropped,
            final(self)@ == old(self)@.take_dropped(),
    {
        proof {
            lemma_slot_set_zero();
        }
        let dropped = self.dropped;
        self.dropped = 0;
        dropped
    }

    /// Whether slot `ix` was dropped.
    pub fn was_dropped(&self, ix: usize) -> (dropped: bool)
        requires
            ix < 64,
        ensures
            dropped == self@.dropped.contains(ix as int),
    {
        holds_slot(self.dropped, ix)
    }

    /// Gives slot `ix` to a fresh task: the slot is notified, so that the task
    /// is polled once, and is neither completed nor dropped.
    pub fn initialize(&mut self, ix: usize)
        requires
            ix < 64,
        ensures
            final(self)@ == old(self)@.initialize(ix as int),
    {
        proof {
            lemma_slot_set_insert(self.notified, ix as u64);
            lemma_slot_set_remove(self.completed, ix as u64);
            lemma_slot_set_remove(self.dropped, ix as u64);
        }
        self.notified = self.notified | slot_mask(ix);
        self.completed = self.completed & !slot_mask(ix);
        self.dropped = self.dropped & !slot_mask(ix);
    }

    /// Reclaims slot `ix`: it is no longer notified, completed or dropped.
    pub fn clear(&mut self, ix: usize)
        requires
            ix < 64,
        ensures
            final(self)@ == old(self)@.clear(ix as int),
    {
        proof {
            lemma_slot_set_remove(self.notified, ix as u64);
            lemma_slot_set_remove(self.completed, ix as u64);
            lemma_slot_set_remove(self.dropped, ix as u64);
        }
        let mask = !slot_mask(ix);
        self.notified = self.notified & mask;
        self.completed = self.completed & mask;
        self.dropped = self.dropped & mask;
    }

    /// The number of live handles.
    pub fn refcount(&self) -> (count: u64)
        ensures
            count == self@.refcount,
    {
        self.refcount
    }

    /// Counts one more handle.
    fn retain(&mut self)
        requires
            old(self)@.refcount + 1 < REFCOUNT_LIMIT,
        ensures
            final(self)@ == old(self)@.retain(),
    {
        self.refcount = self.refcount + 1;
    }

    /// Counts one handle less and tells whether it was the last one.
    fn release(&mut self) -> (free: bool)
        requires
            old(self)@.refcount > 0,
        ensures
            final(self)@ == old(self)@.release(),
            free == old(self)@.release_frees(),
    {
        let previous = self.refcount;
        self.refcount = previous - 1;
        last_handle(previous)
    }
}

/// The address of byte `slot` of the page at `base`.
pub open spec fn slot_address(base: int, slot: int) -> int {
    base + slot
}

/// The base of the page that the address `addr` lies in.
pub open spec fn page_base(addr: int) -> int {
    addr - addr % 64
}

/// The slot that the address `addr` stands for.
pub open spec fn page_slot(addr: int) -> int {
    addr % 64
}

/// Whether a page can lie at `base`: the address is not null, is a multiple
/// of the page size, and the page ends within the address space.
pub open spec fn valid_page_base(base: int) -> bool {
    0 < base && base % 64 == 0 && base + 63 <= usize::MAX
}

/// A handle that owns a share of a page. It is the address of the page.
pub struct WakerPageRef {
    base: usize,
}

/// A slot notifier: a handle that owns a share of a page and names one of its
/// slots. It is the address of the byte of that slot, so it takes no memory of
/// its own.
pub struct WakerRef {
    addr: usize,
}

impl WakerPageRef {
    #[verifier::type_invariant]
    spec fn well_placed(self) -> bool {
        valid_page_base(self.base as int)
    }

    /// The address of the page.
    pub closed spec fn base(self) -> int {
        self.base as int
    }

    /// The handle that the creator of the page at `base` holds. There is none
    /// where no page can lie at `base`.
    pub fn at(base: usize) -> (handle: Option<WakerPageRef>)
        ensures
            handle is Some <==> valid_page_base(base as int),
            handle matches Some(h) ==> h.base() == base,
    {
        if base != 0 && base % WAKER_PAGE_SIZE == 0 && base <= usize::MAX - 63 {
            Some(WakerPageRef { base })
        } else {
            None
        }
    }

    /// The address of the page.
    pub fn base_addr(&self) -> (base: usize)
        ensures
            base == self.base(),
            valid_page_base(base as int),
    {
        proof {
            use_type_invariant(self);
        }
        self.base
    }

    /// The address of slot `ix` of the page, which is what a notifier for
    /// that slot is.
    pub fn slot_addr(&self, ix: usize) -> (addr: usize)
        requires
            ix < 64,
        ensures
            addr == slot_address(self.base(), ix as int),
    {
        proof {
            use_type_invariant(self);
        }
        self.base + ix
    }

    /// A notifier for slot `ix` of `page`. It is one more handle.
    pub fn waker(&self, page: &mut WakerPage, ix: usize) -> (notifier: WakerRef)
        requires
            ix < 64,
            old(page)@.refcount + 1 < REFCOUNT_LIMIT,
        ensures
            notifier.addr() == slot_address(self.base(), ix as int),
            final(page)@ == old(page)@.retain(),
    {
        page.retain();
        WakerRef { addr: self.slot_addr(ix) }
    }

    /// A notifier for slot `ix` of `page`, given up as the address that a raw
    /// waker carries. The share that the notifier owns goes with the address.
    pub fn raw_waker(&self, page: &mut WakerPage, ix: usize) -> (data: usize)
        requires
            ix < 64,
            old(page)@.refcount + 1 < REFCOUNT_LIMIT,
        ensures
            data == slot_address(self.base(), ix as int),
            final(page)@ == old(page)@.retain(),
    {
        self.waker(page, ix).into_raw_waker()
    }

    /// One more handle to `page`.
    pub fn clone_handle(&self, page: &mut WakerPage) -> (handle: WakerPageRef)
        requires
            old(page)@.refcount + 1 < REFCOUNT_LIMIT,
        ensures
            handle.base() == self.base(),
            final(page)@ == old(page)@.retain(),
    {
        proof {
            use_type_invariant(self);
        }
        page.retain();
        WakerPageRef { base: self.base }
    }

    /// Gives the handle up. The result tells whether it was the last handle
    /// to `page`, in which case the page is to be deallocated.
    pub fn drop_handle(self, page: &mut WakerPage) -> (free: bool)
        requires
            old(page)@.refcount > 0,
        ensures
            free == old(page)@.release_frees(),
            final(page)@ == old(page)@.release(),
    {
        page.release()
    }
}

impl WakerRef {
    /// The address that the notifier is.
    pub closed spec fn addr(self) -> int {
        self.addr as int
    }

    /// The notifier that the address `data` of a raw waker stands for.
    pub fn from_raw(data: usize) -> (notifier: WakerRef)
        ensures
            notifier.addr() == data,
    {
        WakerRef { addr: data }
    }

    /// The base of the page and the slot that the notifier names.
    pub fn base_ptr(&self) -> (place: (usize, usize))
        ensures
            place.0 == page_base(self.addr()),
            place.1 == page_slot(self.addr()),
            place.1 < 64,
    {
        let forward_offset = (WAKER_PAGE_SIZE - self.addr % WAKER_PAGE_SIZE) % WAKER_PAGE_SIZE;
        let mut base = self.addr;
        let mut offset: usize = 0;
        if forward_offset != 0 {
            offset = WAKER_PAGE_SIZE - forward_offset;
            base = self.addr - offset;
        }
        (base, offset)
    }

    /// Notifies the slot on `page` and keeps the notifier.
    pub fn wake_by_ref(&self, page: &mut WakerPage)
        ensures
            final(page)@ == old(page)@.notify(page_slot(self.addr())),
    {
        let (_, offset) = self.base_ptr();
        page.notify(offset);
    }

    /// Notifies the slot on `page` and gives the notifier up. The result
    /// tells whether `page` is to be deallocated.
    pub fn wake(self, page: &mut WakerPage) -> (free: bool)
        requires
            old(page)@.refcount > 0,
        ensures
            free == old(page)@.release_frees(),
            final(page)@ == old(page)@.notify(page_slot(self.addr())).release(),
    {
        self.wake_by_ref(page);
        self.drop_handle(page)
    }

    /// Gives the notifier up as the address that a raw waker carries. The
    /// share that it owns goes with the address.
    pub fn into_raw_waker(self) -> (data: usize)
        ensures
            data == self.addr(),
    {
        self.addr
    }

    /// One more notifier for the same slot of `page`.
    pub fn clone_handle(&self, page: &mut WakerPage) -> (notifier: WakerRef)
        requires
            old(page)@.refcount + 1 < REFCOUNT_LIMIT,
        ensures
            notifier.addr() == self.addr(),
            final(page)@ == old(page)@.retain(),
    {
        page.retain();
        WakerRef { addr: self.addr }
    }

    /// Gives the notifier up. The result tells whether it was the last handle
    /// to `page`, in which case the page is to be deallocated.
    pub fn drop_handle(self, page: &mut WakerPage) -> (free: bool)
        requires
            old(page)@.refcount > 0,
        ensures
            free == old(page)@.release_frees(),
            final(page)@ == old(page)@.release(),
    {
        page.release()
    }
}

/// What happens to the handles of a page: one is made, by cloning a handle or
/// by making a notifier, or one is given up.
pub enum HandleEvent {
    Made,
    GivenUp,
}

impl PageView {
    /// The page after the events of `events`, in their order.
    pub open spec fn after(self, events: Seq<HandleEvent>) -> PageView
        decreases events.len(),
    {
        if events.len() == 0 {
            self
        } else {
            match events.last() {
                HandleEvent::Made => self.after(events.drop_last()).retain(),
                HandleEvent::GivenUp => self.after(events.drop_last()).release(),
            }
        }
    }

    /// Whether `events` can happen: each event needs a handle that lives, one
    /// to clone or one to give up.
    pub open spec fn admits(self, events: Seq<HandleEvent>) -> bool
        decreases events.len(),
    {
        events.len() == 0 || (self.admits(events.drop_last()) && self.after(
            events.drop_last(),
        ).refcount > 0)
    }

    /// How often, in the course of `events`, the page was to be deallocated.
    pub open spec fn deallocations(self, events: Seq<HandleEvent>) -> nat
        decreases events.len(),
    {
        if events.len() == 0 {
            0
        } else {
            let before = self.after(events.drop_last());
            let now: nat = if events.last() is GivenUp && before.release_frees() {
                1
            } else {
                0
            };
            self.deallocations(events.drop_last()) + now
        }
    }
}

/// How many handles `events` makes.
pub open spec fn made(events: Seq<HandleEvent>) -> nat
    decreases events.len(),
{
    if events.len() == 0 {
        0
    } else {
        made(events.drop_last()) + if events.last() is Made {
            1nat
        } else {
            0nat
        }
    }
}

/// How many handles `events` gives up.
pub open spec fn given_up(events: Seq<HandleEvent>) -> nat
    decreases events.len(),
{
    if events.len() == 0 {
        0
    } else {
        given_up(events.drop_last()) + if events.last() is GivenUp {
            1nat
        } else {
            0nat
        }
    }
}

proof fn lemma_notify_all_notified(page: PageView, slots: Seq<int>)
    ensures
        page.notify_all(slots) == (PageView {
            notified: page.notified.union(slots.to_set()),
            ..page
        }),
    decreases slots.len(),
{
    if slots.len() == 0 {
        assert(page.notified.union(slots.to_set()) =~= page.notified);
    } else {
        let front = slots.drop_last();
        lemma_notify_all_notified(page, front);
        assert forall|ix: int| #[trigger]
            slots.to_set().contains(ix) <==> (front.to_set().contains(ix) || ix == slots.last()) by {
            if slots.to_set().contains(ix) {
                let i = choose|i: int| 0 <= i < slots.len() && slots[i] == ix;
                if i < front.len() {
                    assert(front[i] == ix);
                }
            }
            if front.to_set().contains(ix) {
                let i = choose|i: int| 0 <= i < front.len() && front[i] == ix;
                assert(slots[i] == ix);
            }
            if ix == slots.last() {
                assert(slots[slots.len() - 1] == ix);
            }
        }
        assert(page.notified.union(front.to_set()).insert(slots.last()) =~= page.notified.union(
            slots.to_set(),
        ));
    }
}

/// After any run of notifications, one harvest yields exactly the slots that
/// were notified, in the run or before it, less those that have completed or
/// were dropped by then. The run changes nothing else.
pub proof fn lemma_harvest_after_notifications(page: PageView, slots: Seq<int>)
    ensures
        page.notify_all(slots).harvest() == page.notified.union(slots.to_set()).difference(
            page.completed,
        ).difference(page.dropped),
        page.notify_all(slots).completed == page.completed,
        page.notify_all(slots).dropped == page.dropped,
        page.notify_all(slots).refcount == page.refcount,
{
    lemma_notify_all_notified(page, slots);
}

/// A harvest that follows a harvest at once yields nothing: its set of slots
/// is empty, and the only word with that set is zero.
pub proof fn lemma_second_harvest_is_empty(page: PageView)
    ensures
        page.take_notified().harvest() == Set::<int>::empty(),
        forall|ready: u64| slot_set(ready) == page.take_notified().harvest() ==> ready == 0,
{
    assert(page.take_notified().harvest() =~= Set::<int>::empty());
    assert forall|ready: u64| slot_set(ready) == page.take_notified().harvest() implies ready
        == 0 by {
        lemma_slot_set_zero();
        lemma_slot_set_injective(ready, 0);
    }
}

/// A slot that was just given to a fresh task is in the next harvest.
pub proof fn lemma_initialized_slot_is_harvested(page: PageView, ix: int)
    requires
        0 <= ix < 64,
    ensures
        page.initialize(ix).harvest().contains(ix),
{
}

proof fn lemma_handle_events(page: PageView, events: Seq<HandleEvent>)
    requires
        page.refcount > 0,
        page.admits(events),
    ensures
        page.after(events).refcount == page.refcount + made(events) - given_up(events),
        page.deallocations(events) == (if page.after(events).refcount == 0 {
            1nat
        } else {
            0nat
        }),
    decreases events.len(),
{
    if events.len() > 0 {
        lemma_handle_events(page, events.drop_last());
    }
}

/// The count of a page is the number of handles that live: the one of its
/// creator, and one more for each that was made and not yet given up. When
/// all of them have been given up the count is zero, and the page was to be
/// deallocated exactly once.
pub proof fn lemma_refcount_conservation(page: PageView, events: Seq<HandleEvent>)
    requires
        page.refcount == 1,
        page.admits(events),
    ensures
        page.after(events).refcount == 1 + made(events) - given_up(events),
        given_up(events) == made(events) + 1 ==> page.after(events).refcount == 0
            && page.deallocations(events) == 1,
        given_up(events) <= made(events) ==> page.deallocations(events) == 0,
{
    lemma_handle_events(page, events);
}

/// The events of making `handles` handles and then giving up all of them and
/// the creator's own.
pub open spec fn make_then_give_up(handles: nat) -> Seq<HandleEvent> {
    Seq::new(handles, |i: int| HandleEvent::Made) + Seq::new(
        handles + 1,
        |i: int| HandleEvent::GivenUp,
    )
}

proof fn lemma_all_made(page: PageView, count: nat)
    requires
        page.refcount > 0,
    ensures
        page.admits(Seq::new(count, |i: int| HandleEvent::Made)),
        page.after(Seq::new(count, |i: int| HandleEvent::Made)).refcount == page.refcount + count,
        made(Seq::new(count, |i: int| HandleEvent::Made)) == count,
        given_up(Seq::new(count, |i: int| HandleEvent::Made)) == 0,
    decreases count,
{
    let events = Seq::new(count, |i: int| HandleEvent::Made);
    if count > 0 {
        lemma_all_made(page, (count - 1) as nat);
        assert(events.drop_last() =~= Seq::new((count - 1) as nat, |i: int| HandleEvent::Made));
    }
}

proof fn lemma_then_given_up(page: PageView, handles: nat, count: nat)
    requires
        page.refcount > 0,
        count <= page.refcount + handles,
    ensures
        ({
            let events = Seq::new(handles, |i: int| HandleEvent::Made) + Seq::new(
                count,
                |i: int| HandleEvent::GivenUp,
            );
            &&& page.admits(events)
            &&& made(events) == handles
            &&& given_up(events) == count
        }),
    decreases count,
{
    let all_made = Seq::new(handles, |i: int| HandleEvent::Made);
    let events = all_made + Seq::new(count, |i: int| HandleEvent::GivenUp);
    if count == 0 {
        lemma_all_made(page, handles);
    } else {
        let front = all_made + Seq::new((count - 1) as nat, |i: int| HandleEvent::GivenUp);
        lemma_then_given_up(page, handles, (count - 1) as nat);
        assert(events.drop_last() =~= front);
        lemma_handle_events(page, front);
    }
}

/// Making `notifiers` slot notifiers and `handles` page handles from a fresh
/// page and giving all of them up, with the creator's own handle, leaves the
/// count at zero and has the page deallocated exactly once.
pub proof fn lemma_all_handles_given_up(page: PageView, notifiers: nat, handles: nat)
    requires
        page.refcount == 1,
    ensures
        page.admits(make_then_give_up(notifiers + handles)),
        page.after(make_then_give_up(notifiers + handles)).refcount == 0,
        page.deallocations(make_then_give_up(notifiers + handles)) == 1,
{
    let total = notifiers + handles;
    lemma_then_given_up(page, total, total + 1);
    lemma_refcount_conservation(page, make_then_give_up(total));
}

/// The address of a slot names its page and its slot: decoding the address of
/// slot `slot` of the page at `base` gives back `base` and `slot`.
pub proof fn lemma_slot_address_round_trip(base: int, slot: int)
    requires
        base % 64 == 0,
        0 <= slot < 64,
    ensures
        page_base(slot_address(base, slot)) == base,
        page_slot(slot_address(base, slot)) == slot,
{
}

} // verus!
