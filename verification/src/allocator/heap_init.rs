//! Start-up of the heap: which pages cover the heap window, and the order in
//! which frames are asked for, pages are mapped and the region is bound.
//!
//! Mapping a page changes the machine's page tables, which only the caller
//! can do. The decisions are taken here: the caller performs the action that
//! [`HeapInit::advance`] hands out and reports what came of it.

use vstd::prelude::*;
use x86_64::structures::paging::{Page, Size4KiB};
use x86_64::VirtAddr;

verus! {

/// Size of a page in bytes.
pub const PAGE_SIZE: u64 = 4096;

/// First address above the lower half of the virtual address space.
pub const LOWER_HALF_END: u64 = 0x8000_0000_0000;

/// First address of the upper half of the virtual address space.
pub const UPPER_HALF_START: u64 = 0xffff_8000_0000_0000;

/// `addr` is a canonical virtual address: bits 48 to 63 repeat bit 47.
pub open spec fn is_canonical(addr: u64) -> bool {
    addr < LOWER_HALF_END || addr >= UPPER_HALF_START
}

/// Start address of the page that holds `addr`.
pub open spec fn page_start_spec(addr: u64) -> u64 {
    (addr - addr % PAGE_SIZE) as u64
}

/// The window `[heap_start, heap_start + heap_size)` is not empty and lies
/// within one half of the canonical address space.
pub open spec fn window_ok(heap_start: u64, heap_size: u64) -> bool {
    &&& heap_size > 0
    &&& heap_start + heap_size <= LOWER_HALF_END || (heap_start >= UPPER_HALF_START && heap_start
        + heap_size - 1 <= u64::MAX)
}

/// Number of pages that cover the window.
pub open spec fn window_pages(heap_start: u64, heap_size: u64) -> int {
    (page_start_spec((heap_start + heap_size - 1) as u64) - page_start_spec(heap_start))
        / (PAGE_SIZE as int) + 1
}

/// `Page::containing_address` on `VirtAddr::new(addr)`, and the start address
/// of the page that comes back: `addr` rounded down to a multiple of the page
/// size. `VirtAddr::new` accepts canonical addresses only.
#[verifier::external_body]
fn page_containing(addr: u64) -> (start: u64)
    requires
        is_canonical(addr),
    ensures
        start == page_start_spec(addr),
{
    Page::<Size4KiB>::containing_address(VirtAddr::new(addr)).start_address().as_u64()
}

/// The pages that cover a window, by the start addresses of the first and
/// the last of them.
#[derive(Clone, Copy, Debug, PartialEq, Eq, Structural)]
pub struct PageRange {
    pub first: u64,
    pub last: u64,
}

impl PageRange {
    /// Number of pages in the range.
    pub open spec fn count(&self) -> int {
        (self.last - self.first) / (PAGE_SIZE as int) + 1
    }
}

/// The inclusive range of pages that covers the heap window.
pub fn heap_page_range(heap_start: u64, heap_size: u64) -> (range: PageRange)
    requires
        window_ok(heap_start, heap_size),
    ensures
        range.first == page_start_spec(heap_start),
        range.last == page_start_spec((heap_start + heap_size - 1) as u64),
        range.first <= heap_start,
        heap_start + heap_size - 1 < range.last + PAGE_SIZE,
        range.first <= range.last,
        range.first % PAGE_SIZE == 0,
        range.last % PAGE_SIZE == 0,
        range.count() == window_pages(heap_start, heap_size),
        range.first + (range.count() - 1) * PAGE_SIZE == range.last,
{
    let heap_end: u64 = heap_start + (heap_size - 1);
    let first = page_containing(heap_start);
    let last = page_containing(heap_end);
    proof {
        let d = last - first;
        assert(d % 4096 == 0);
        assert(d == 4096 * (d / 4096));
    }
    PageRange { first, last }
}

/// Why a page could not be mapped.
#[derive(Clone, Copy, Debug, PartialEq, Eq, Structural)]
pub enum MapToError {
    /// No physical frame was left.
    FrameAllocationFailed,
    /// A huge page already covers the address.
    ParentEntryHugePage,
    /// The page is already mapped to a frame.
    PageAlreadyMapped,
}

/// What the caller is to do next.
#[derive(Clone, Copy, Debug, PartialEq, Eq, Structural)]
pub enum InitAction {
    /// Ask the frame source for one frame, meant for the page at `page`.
    AllocateFrame { page: u64 },
    /// Map the page at `page` to `frame`, present and writable, and flush.
    MapPage { page: u64, frame: u64 },
    /// Every page is mapped: bind the allocator's region to the window.
    BindRegion { heap_start: u64, heap_size: u64 },
    /// The heap is ready.
    Done,
    /// Start-up has failed. Pages mapped so far stay mapped.
    Fail(MapToError),
}

/// What came of the last action.
#[derive(Clone, Copy, Debug, PartialEq, Eq, Structural)]
pub enum InitEvent {
    /// The frame source handed out the frame at this physical address.
    FrameAllocated(u64),
    /// The frame source has no frame left.
    FrameExhausted,
    /// The page was mapped and the mapping flushed.
    PageMapped,
    /// The page mapper refused.
    MapFailed(MapToError),
    /// The allocator's region was bound to the window.
    RegionBound,
}

/// Where start-up stands.
#[derive(Clone, Copy, Debug, PartialEq, Eq, Structural)]
pub enum Phase {
    /// A frame for the current page has been asked for.
    AwaitFrame,
    /// The current page is being mapped to the frame in hand.
    AwaitMap,
    /// All pages are mapped; the region is being bound.
    AwaitBind,
    /// The heap is ready.
    Ready,
    /// Start-up has failed for the given reason.
    Failed(MapToError),
}

/// Progress of the start-up of the heap over one window.
#[derive(Clone, Copy, Debug, PartialEq, Eq, Structural)]
pub struct HeapInit {
    pub heap_start: u64,
    pub heap_size: u64,
    /// Start address of the first page of the window.
    pub first_page: u64,
    /// Number of pages that cover the window.
    pub page_count: u64,
    /// Number of pages mapped so far, the first ones of the window.
    pub mapped: u64,
    /// The frame in hand while a page is being mapped.
    pub frame: u64,
    pub phase: Phase,
}

impl HeapInit {
    /// The counters agree with the phase, and every page address fits.
    pub open spec fn wf(&self) -> bool {
        &&& self.page_count >= 1
        &&& self.mapped <= self.page_count
        &&& self.first_page + (self.page_count - 1) * PAGE_SIZE <= u64::MAX
        &&& match self.phase {
            Phase::AwaitFrame | Phase::AwaitMap => self.mapped < self.page_count,
            Phase::AwaitBind | Phase::Ready => self.mapped == self.page_count,
            Phase::Failed(_) => self.mapped < self.page_count,
        }
    }

    /// Start address of the page that is next to be mapped.
    pub open spec fn current_page(&self) -> u64 {
        (self.first_page + self.mapped * PAGE_SIZE) as u64
    }

    /// The region has been bound, or the order to bind it has gone out.
    pub open spec fn region_released(&self) -> bool {
        self.phase == Phase::AwaitBind || self.phase == Phase::Ready
    }

    /// The action that the current phase waits for.
    pub open spec fn pending_spec(&self) -> InitAction {
        match self.phase {
            Phase::AwaitFrame => InitAction::AllocateFrame { page: self.current_page() },
            Phase::AwaitMap => InitAction::MapPage { page: self.current_page(), frame: self.frame },
            Phase::AwaitBind => InitAction::BindRegion {
                heap_start: self.heap_start,
                heap_size: self.heap_size,
            },
            Phase::Ready => InitAction::Done,
            Phase::Failed(err) => InitAction::Fail(err),
        }
    }

    /// The state after `event`. A frame moves start-up on to mapping the
    /// current page, a mapped page to the next page or, after the last, to
    /// binding the region. A frame source that has run dry, or a refusal of
    /// the mapper, ends start-up for good. An event that the current phase
    /// does not wait for changes nothing.
    pub open spec fn advance_spec(&self, event: InitEvent) -> HeapInit {
        match (self.phase, event) {
            (Phase::AwaitFrame, InitEvent::FrameAllocated(frame)) => HeapInit {
                frame,
                phase: Phase::AwaitMap,
                ..*self
            },
            (Phase::AwaitFrame, InitEvent::FrameExhausted) => HeapInit {
                phase: Phase::Failed(MapToError::FrameAllocationFailed),
                ..*self
            },
            (Phase::AwaitMap, InitEvent::PageMapped) => HeapInit {
                mapped: (self.mapped + 1) as u64,
                phase: if self.mapped + 1 == self.page_count {
                    Phase::AwaitBind
                } else {
                    Phase::AwaitFrame
                },
                ..*self
            },
            (Phase::AwaitMap, InitEvent::MapFailed(err)) => HeapInit {
                phase: Phase::Failed(err),
                ..*self
            },
            (Phase::AwaitBind, InitEvent::RegionBound) => HeapInit { phase: Phase::Ready, ..*self },
            _ => *self,
        }
    }

    /// Begins the start-up of the heap over the given window: nothing is
    /// mapped yet, and a frame for the first page is waited for.
    pub fn new(heap_start: u64, heap_size: u64) -> (init: Self)
        requires
            window_ok(heap_start, heap_size),
        ensures
            init.wf(),
            init.heap_start == heap_start,
            init.heap_size == heap_size,
            init.first_page == page_start_spec(heap_start),
            init.page_count == window_pages(heap_start, heap_size),
            init.mapped == 0,
            init.frame == 0,
            init.phase == Phase::AwaitFrame,
    {
        let range = heap_page_range(heap_start, heap_size);
        let page_count: u64 = (range.last - range.first) / PAGE_SIZE + 1;
        HeapInit {
            heap_start,
            heap_size,
            first_page: range.first,
            page_count,
            mapped: 0,
            frame: 0,
            phase: Phase::AwaitFrame,
        }
    }

    /// The action that start-up waits for at present.
    pub fn pending(&self) -> (action: InitAction)
        requires
            self.wf(),
        ensures
            action == self.pending_spec(),
    {
        match self.phase {
            Phase::AwaitFrame => InitAction::AllocateFrame { page: self.page_at(self.mapped) },
            Phase::AwaitMap => InitAction::MapPage {
                page: self.page_at(self.mapped),
                frame: self.frame,
            },
            Phase::AwaitBind => InitAction::BindRegion {
                heap_start: self.heap_start,
                heap_size: self.heap_size,
            },
            Phase::Ready => InitAction::Done,
            Phase::Failed(err) => InitAction::Fail(err),
        }
    }

    /// Start address of the page with the given number within the window.
    fn page_at(&self, number: u64) -> (page: u64)
        requires
            self.wf(),
            number < self.page_count,
        ensures
            page == self.first_page + number * PAGE_SIZE,
    {
        assert(number * PAGE_SIZE <= (self.page_count - 1) * PAGE_SIZE) by (nonlinear_arith)
            requires
                number <= self.page_count - 1,
                PAGE_SIZE == 4096,
        ;
        self.first_page + number * PAGE_SIZE
    }

    /// Takes in what came of the last action and hands out the next one.
    pub fn advance(&mut self, event: InitEvent) -> (action: InitAction)
        requires
            old(self).wf(),
        ensures
            final(self).wf(),
            *final(self) == old(self).advance_spec(event),
            action == final(self).pending_spec(),
            old(self).phase == Phase::AwaitFrame && event == InitEvent::FrameExhausted ==> action
                == InitAction::Fail(MapToError::FrameAllocationFailed),
    {
        match (self.phase, event) {
            (Phase::AwaitFrame, InitEvent::FrameAllocated(frame)) => {
                self.frame = frame;
                self.phase = Phase::AwaitMap;
            },
            (Phase::AwaitFrame, InitEvent::FrameExhausted) => {
                self.phase = Phase::Failed(MapToError::FrameAllocationFailed);
            },
            (Phase::AwaitMap, InitEvent::PageMapped) => {
                self.mapped = self.mapped + 1;
                if self.mapped == self.page_count {
                    self.phase = Phase::AwaitBind;
                } else {
                    self.phase = Phase::AwaitFrame;
                }
            },
            (Phase::AwaitMap, InitEvent::MapFailed(err)) => {
                self.phase = Phase::Failed(err);
            },
            (Phase::AwaitBind, InitEvent::RegionBound) => {
                self.phase = Phase::Ready;
            },
            _ => {},
        }
        self.pending()
    }
}

/// The state that a sequence of events leads to.
pub open spec fn run(init: HeapInit, events: Seq<InitEvent>) -> HeapInit
    decreases events.len(),
{
    if events.len() == 0 {
        init
    } else {
        run(init.advance_spec(events[0]), events.drop_first())
    }
}

/// Number of frames that the frame source handed out within `events`.
pub open spec fn frames_granted(events: Seq<InitEvent>) -> nat
    decreases events.len(),
{
    if events.len() == 0 {
        0
    } else {
        let rest = frames_granted(events.drop_first());
        match events[0] {
            InitEvent::FrameAllocated(_) => rest + 1,
            _ => rest,
        }
    }
}

/// Pages mapped, and the one that a frame is in hand for.
pub open spec fn frames_used(init: HeapInit) -> int {
    init.mapped + if init.phase == Phase::AwaitMap {
        1int
    } else {
        0int
    }
}

/// Every page that start-up maps or is about to map has cost one frame.
pub proof fn lemma_frames_pay_for_pages(init: HeapInit, events: Seq<InitEvent>)
    requires
        init.wf(),
    ensures
        run(init, events).wf(),
        run(init, events).page_count == init.page_count,
        frames_used(run(init, events)) <= frames_used(init) + frames_granted(events),
        init.phase is Failed ==> run(init, events) == init,
    decreases events.len(),
{
    if events.len() > 0 {
        lemma_frames_pay_for_pages(init.advance_spec(events[0]), events.drop_first());
    }
}

/// With fewer frames than the window has pages, start-up never gets as far
/// as binding the region, whatever the order of events; and once the frame
/// source has said that it is empty while a frame was waited for, the
/// outcome is the frame-allocation failure and stays so.
pub proof fn lemma_too_few_frames_never_bind(
    begin: HeapInit,
    events: Seq<InitEvent>,
    more: Seq<InitEvent>,
)
    requires
        begin.wf(),
        begin.mapped == 0,
        begin.phase == Phase::AwaitFrame,
    ensures
        frames_granted(events) < begin.page_count ==> !run(begin, events).region_released(),
        run(begin, events).phase == Phase::AwaitFrame ==> {
            let failed = run(begin, events).advance_spec(InitEvent::FrameExhausted);
            &&& failed.pending_spec() == InitAction::Fail(MapToError::FrameAllocationFailed)
            &&& run(failed, more) == failed
            &&& !failed.region_released()
        },
{
    lemma_frames_pay_for_pages(begin, events);
    if run(begin, events).phase == Phase::AwaitFrame {
        let failed = run(begin, events).advance_spec(InitEvent::FrameExhausted);
        lemma_frames_pay_for_pages(failed, more);
    }
}

/// The state in which start-up comes to rest when the frame source hands
/// out the given frames, one per request, and then has none left, and the
/// mapper accepts every page: each frame maps the next page, a request that
/// finds the source empty ends start-up, and after the last page the region
/// is bound.
pub open spec fn settle(init: HeapInit, frames: Seq<u64>) -> HeapInit
    decreases init.page_count - init.mapped,
{
    if init.phase == Phase::AwaitFrame && init.mapped < init.page_count {
        if frames.len() == 0 {
            init.advance_spec(InitEvent::FrameExhausted)
        } else {
            settle(
                init.advance_spec(InitEvent::FrameAllocated(frames[0])).advance_spec(
                    InitEvent::PageMapped,
                ),
                frames.drop_first(),
            )
        }
    } else if init.phase == Phase::AwaitBind {
        init.advance_spec(InitEvent::RegionBound)
    } else {
        init
    }
}

/// Whether start-up succeeds is decided by the number of frames alone. With
/// a mapper that accepts every page, start-up that waits for a frame ends
/// in the frame-allocation failure exactly when the frame source has fewer
/// frames than pages are still to be mapped, and the region is then never
/// bound; otherwise every page gets mapped and the heap is ready.
pub proof fn lemma_frames_decide_outcome(init: HeapInit, frames: Seq<u64>)
    requires
        init.wf(),
        init.phase == Phase::AwaitFrame,
    ensures
        settle(init, frames).wf(),
        frames.len() < init.page_count - init.mapped <==> settle(init, frames).pending_spec()
            == InitAction::Fail(MapToError::FrameAllocationFailed),
        frames.len() >= init.page_count - init.mapped <==> settle(init, frames).pending_spec()
            == InitAction::Done,
        frames.len() < init.page_count - init.mapped ==> {
            &&& settle(init, frames).mapped == init.mapped + frames.len()
            &&& !settle(init, frames).region_released()
        },
        frames.len() >= init.page_count - init.mapped ==> {
            &&& settle(init, frames).mapped == init.page_count
            &&& settle(init, frames).phase == Phase::Ready
        },
    decreases init.page_count - init.mapped,
{
    if frames.len() > 0 {
        let next = init.advance_spec(InitEvent::FrameAllocated(frames[0])).advance_spec(
            InitEvent::PageMapped,
        );
        if next.phase == Phase::AwaitFrame {
            lemma_frames_decide_outcome(next, frames.drop_first());
        }
    }
}

} // verus!
