use blog_os::interrupts::pic8259::{ChainedPics, EndOfInterrupt, Pic};
use blog_os::interrupts::{InterruptIndex, PIC_1_OFFSET, PIC_2_OFFSET};
use blog_os::vga_buffer::{Color, ColorCode};
use blog_os::QemuExitCode;

#[test]
fn interrupt_vectors() {
    assert_eq!(PIC_1_OFFSET, 32);
    assert_eq!(PIC_2_OFFSET, 40);
    assert_eq!(InterruptIndex::Timer.as_u8(), 32);
    assert_eq!(InterruptIndex::Keyboard.as_u8(), 33);
    assert_eq!(InterruptIndex::Timer.as_usize(), 32usize);
    assert_eq!(InterruptIndex::Keyboard.as_usize(), 33usize);
}

#[test]
fn pic_handles_its_eight_lines() {
    let pic = Pic { offset: 32 };
    assert!(!pic.handles_interrupt(31));
    assert!(pic.handles_interrupt(32));
    assert!(pic.handles_interrupt(39));
    assert!(!pic.handles_interrupt(40));
    let high = Pic { offset: 250 };
    assert!(high.handles_interrupt(255));
    assert!(!high.handles_interrupt(249));
}

#[test]
fn chained_pics_notify_the_right_controllers() {
    let pics = ChainedPics::new(PIC_1_OFFSET, PIC_2_OFFSET);
    assert!(pics.handles_interrupt(32));
    assert!(pics.handles_interrupt(47));
    assert!(!pics.handles_interrupt(48));
    assert!(!pics.handles_interrupt(3));
    assert_eq!(
        pics.notify_end_of_interrupt(33),
        EndOfInterrupt { primary: true, secondary: false }
    );
    assert_eq!(
        pics.notify_end_of_interrupt(41),
        EndOfInterrupt { primary: true, secondary: true }
    );
    assert_eq!(
        pics.notify_end_of_interrupt(50),
        EndOfInterrupt { primary: false, secondary: false }
    );
}

#[test]
fn color_codes() {
    assert_eq!(Color::Black.code(), 0);
    assert_eq!(Color::Green.code(), 2);
    assert_eq!(Color::White.code(), 15);
    assert_eq!(ColorCode::new(Color::Green, Color::Black), ColorCode(2));
    assert_eq!(ColorCode::new(Color::Yellow, Color::Blue), ColorCode(0x1e));
    assert_eq!(ColorCode::new(Color::White, Color::White), ColorCode(0xff));
}

#[test]
fn qemu_exit_codes() {
    assert_eq!(QemuExitCode::Success.port_value(), 0x10);
    assert_eq!(QemuExitCode::Failed.port_value(), 0x11);
}
