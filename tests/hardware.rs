use blog_os::interrupts::cpu_flags::{CpuFlags, INTERRUPT_ENABLE_FLAG, ZERO_FLAG};
use blog_os::interrupts::hardware::{irq_vector, PIC_1_OFFSET, PIC_2_OFFSET};
use blog_os::interrupts::ExceptionStackFrame;
use blog_os::{test_runner, QemuExitCode, Testable};

#[test]
fn remap_offsets() {
    assert_eq!(PIC_1_OFFSET, 32);
    assert_eq!(PIC_2_OFFSET, 40);
    assert_eq!(irq_vector(0), 32);
    assert_eq!(irq_vector(1), 33);
    assert_eq!(irq_vector(7), 39);
    assert_eq!(irq_vector(8), 40);
    assert_eq!(irq_vector(15), 47);
}

#[test]
fn cpu_flags_decode() {
    let f = CpuFlags::from_bits(0x0000_3242).unwrap();
    assert!(f.contains(INTERRUPT_ENABLE_FLAG));
    assert!(f.contains(ZERO_FLAG));
    assert_eq!(f.io_privilege_level(), 3);
    assert_eq!(f.bits(), 0x3242);
    assert!(CpuFlags::from_bits(0x20).is_none());
    assert!(CpuFlags::from_bits(0x1_0000).is_none());
}

#[test]
fn stack_frame_flags() {
    let frame = ExceptionStackFrame {
        instruction_pointer: 0x20_1234,
        code_segment: 8,
        cpu_flags: 0x202,
        stack_pointer: 0x44_4444_0000,
        stack_segment: 0,
    };
    assert_eq!(frame.flags().unwrap().bits(), 0x202);
    let bad = ExceptionStackFrame { cpu_flags: 0x1_0202, ..frame };
    assert!(bad.flags().is_none());
}

struct Case;

impl Testable for Case {
    fn run(&self) {}
}

#[test]
fn runner_reports_success() {
    assert_eq!(test_runner(&[Case, Case]), QemuExitCode::Success);
    assert_eq!(QemuExitCode::Success.code(), 0x10);
    assert_eq!(QemuExitCode::Failed.code(), 0x11);
}
