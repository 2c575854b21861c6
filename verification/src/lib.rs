//! The dynamic-memory subsystem of a small freestanding kernel, together with
//! the few pure rules of its device drivers.
//!
//! The heart is [`allocator::fixed_size_block::FixedSizeBlockAllocator`]: one
//! free list per power-of-two size class over a first-fit fallback region.

use vstd::prelude::*;

pub mod allocator;
pub mod interrupts;
pub mod task;
pub mod vga_buffer;

verus! {

/// How a run under the emulator ended.
#[derive(Debug, Clone, Copy, PartialEq, Eq, Structural)]
pub enum QemuExitCode {
    Success,
    Failed,
}

impl QemuExitCode {
    /// The value that is written to the emulator's exit port.
    pub open spec fn port_value_spec(self) -> u32 {
        match self {
            QemuExitCode::Success => 0x10,
            QemuExitCode::Failed => 0x11,
        }
    }

    /// The value that is written to the emulator's exit port.
    pub fn port_value(self) -> (value: u32)
        ensures
            value == self.port_value_spec(),
    {
        match self {
            QemuExitCode::Success => 0x10,
            QemuExitCode::Failed => 0x11,
        }
    }
}

/// Something that can be run as one case of a run under the emulator.
pub trait Testable {
    fn run(&self);
}

/// Runs every case in order and says how the run ended. A case that fails
/// does not return, so a run that comes to its end has succeeded.
pub fn test_runner(tests: &[&dyn Testable]) -> (code: QemuExitCode)
    ensures
        code == QemuExitCode::Success,
{
    let mut i: usize = 0;
    while i < tests.len()
        invariant
            i <= tests.len(),
        decreases tests.len() - i,
    {
        tests[i].run();
        i = i + 1;
    }
    QemuExitCode::Success
}

} // verus!
