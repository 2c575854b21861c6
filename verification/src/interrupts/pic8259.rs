//! Which of two chained interrupt controllers an interrupt belongs to, and
//! which of them must be told that it has been handled.

use vstd::prelude::*;

verus! {

/// Number of interrupt lines of one controller.
pub const LINES_PER_PIC: u8 = 8;

/// One interrupt controller, known by the first vector it raises.
#[derive(Debug, Clone, Copy, PartialEq, Eq, Structural)]
pub struct Pic {
    pub offset: u8,
}

impl Pic {
    /// The controller raises the eight vectors from its offset on.
    pub open spec fn handles(&self, interrupt_id: u8) -> bool {
        self.offset <= interrupt_id < self.offset + LINES_PER_PIC
    }

    /// Whether this controller raises `interrupt_id`.
    pub fn handles_interrupt(&self, interrupt_id: u8) -> (handled: bool)
        ensures
            handled == self.handles(interrupt_id),
    {
        self.offset <= interrupt_id && interrupt_id - self.offset < LINES_PER_PIC
    }
}

/// Who is to receive the end-of-interrupt command.
#[derive(Debug, Clone, Copy, PartialEq, Eq, Structural)]
pub struct EndOfInterrupt {
    pub primary: bool,
    pub secondary: bool,
}

/// A primary controller and a secondary one that is chained to it.
#[derive(Debug, Clone, Copy, PartialEq, Eq, Structural)]
pub struct ChainedPics {
    pub primary: Pic,
    pub secondary: Pic,
}

impl ChainedPics {
    /// The pair raises what either controller raises.
    pub open spec fn handles(&self, interrupt_id: u8) -> bool {
        self.primary.handles(interrupt_id) || self.secondary.handles(interrupt_id)
    }

    /// A pair of controllers with the given offsets.
    pub fn new(offset1: u8, offset2: u8) -> (pics: ChainedPics)
        ensures
            pics.primary.offset == offset1,
            pics.secondary.offset == offset2,
    {
        ChainedPics { primary: Pic { offset: offset1 }, secondary: Pic { offset: offset2 } }
    }

    /// Whether either controller raises `interrupt_id`.
    pub fn handles_interrupt(&self, interrupt_id: u8) -> (handled: bool)
        ensures
            handled == self.handles(interrupt_id),
    {
        self.primary.handles_interrupt(interrupt_id) || self.secondary.handles_interrupt(
            interrupt_id,
        )
    }

    /// The controllers that must be told that `interrupt_id` has been
    /// handled: none for a vector that the pair does not raise; otherwise
    /// the primary one, and the secondary one too where the interrupt came
    /// through it.
    pub fn notify_end_of_interrupt(&self, interrupt_id: u8) -> (targets: EndOfInterrupt)
        ensures
            targets.primary == self.handles(interrupt_id),
            targets.secondary == self.secondary.handles(interrupt_id),
    {
        if self.handles_interrupt(interrupt_id) {
            EndOfInterrupt {
                primary: true,
                secondary: self.secondary.handles_interrupt(interrupt_id),
            }
        } else {
            EndOfInterrupt { primary: false, secondary: false }
        }
    }
}

} // verus!
