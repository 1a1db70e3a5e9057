use blog_os::interrupts::hardware::InterruptIndex;
use blog_os::interrupts::idt::{CpuExceptionIndex, Entry, EntryOptions, Idt, IdtIndex};
use blog_os::interrupts::trampoline::trampoline_layout;
use blog_os::interrupts::{init_idt, KernelHandlers};

#[test]
fn test_idt_index_value() {
    assert_eq!(IdtIndex::CpuException(CpuExceptionIndex::DivisionError).as_u8(), 0x0);
    assert_eq!(IdtIndex::CpuException(CpuExceptionIndex::Debug).as_u8(), 0x1);
    assert_eq!(IdtIndex::CpuException(CpuExceptionIndex::NonMaskableInterrupt).as_u8(), 0x2);
    assert_eq!(IdtIndex::CpuException(CpuExceptionIndex::Breakpoint).as_u8(), 0x3);
    assert_eq!(IdtIndex::CpuException(CpuExceptionIndex::Overflow).as_u8(), 0x4);
    assert_eq!(IdtIndex::CpuException(CpuExceptionIndex::BoundRangeExceeded).as_u8(), 0x5);
    assert_eq!(IdtIndex::CpuException(CpuExceptionIndex::InvalidOpcode).as_u8(), 0x6);
    assert_eq!(IdtIndex::CpuException(CpuExceptionIndex::DeviceNotAvailable).as_u8(), 0x7);
    assert_eq!(IdtIndex::CpuException(CpuExceptionIndex::DoubleFault).as_u8(), 0x8);
    assert_eq!(IdtIndex::CpuException(CpuExceptionIndex::CoprocessorSegOverrun).as_u8(), 0x9);
    assert_eq!(IdtIndex::CpuException(CpuExceptionIndex::InvalidTSS).as_u8(), 0xa);
    assert_eq!(IdtIndex::CpuException(CpuExceptionIndex::SegmentNotPresent).as_u8(), 0xb);
    assert_eq!(IdtIndex::CpuException(CpuExceptionIndex::StackSegmentFault).as_u8(), 0xc);
    assert_eq!(IdtIndex::CpuException(CpuExceptionIndex::GeneralProtectionFault).as_u8(), 0xd);
    assert_eq!(IdtIndex::CpuException(CpuExceptionIndex::PageFault).as_u8(), 0xe);
    assert_eq!(IdtIndex::CpuException(CpuExceptionIndex::Reserved).as_u8(), 0xf);

    // interrupts
    assert_eq!(IdtIndex::Interrupt(InterruptIndex::Timer).as_u8(), 32);
}

#[test]
fn interrupt_index_values() {
    assert_eq!(InterruptIndex::Timer.as_u8(), 32);
    assert_eq!(InterruptIndex::Keyboard.as_u8(), 33);
    assert_eq!(InterruptIndex::Keyboard.as_usize(), 33);
    assert_eq!(IdtIndex::Interrupt(InterruptIndex::Keyboard).as_usize(), 33);
    assert_eq!(CpuExceptionIndex::PageFault.as_u8(), 14);
}

#[test]
fn entry_options_defaults() {
    assert_eq!(EntryOptions::minimal().bits(), 0x0e00);
    assert_eq!(EntryOptions::new().bits(), 0x8e00);
}

#[test]
fn entry_options_setters() {
    let mut o = EntryOptions::minimal();
    o.set_present(true);
    assert_eq!(o.bits(), 0x8e00);
    o.disable_interrupts(false);
    assert_eq!(o.bits(), 0x8f00);
    o.disable_interrupts(true).set_present(false);
    assert_eq!(o.bits(), 0x0e00);
    o.set_privilege_level(3);
    assert_eq!(o.bits(), 0x6e00);
    o.set_privilege_level(6);
    assert_eq!(o.bits(), 0x4e00);
    o.set_stack_index(0);
    assert_eq!(o.bits(), 0x4e01);
    o.set_stack_index(6);
    assert_eq!(o.bits(), 0x4e07);
}

#[test]
fn entry_round_trip() {
    let addrs: [u64; 5] = [0, 1, 0xffff_8000_0012_3456, 0x1234_5678_9abc_def0, u64::MAX];
    let selectors: [u16; 3] = [0, 8, 0xffff];
    for a in addrs {
        for s in selectors {
            let e = Entry::new(s, a);
            assert_eq!(e.handler_address(), a);
            assert_eq!(e.gdt_selector(), s);
            assert_eq!(e.options().bits(), 0x8e00);
        }
    }
}

#[test]
fn entry_byte_layout() {
    let e = Entry::new(0x0008, 0x1122_3344_5566_7788);
    assert_eq!(
        e.to_bytes(),
        [0x88, 0x77, 0x08, 0x00, 0x00, 0x8e, 0x66, 0x55, 0x44, 0x33, 0x22, 0x11, 0, 0, 0, 0]
    );
    let m = Entry::missing();
    assert_eq!(m.to_bytes(), [0, 0, 0, 0, 0x00, 0x0e, 0, 0, 0, 0, 0, 0, 0, 0, 0, 0]);
    assert_eq!(m.handler_address(), 0);
}

#[test]
fn entry_options_mut_keeps_address() {
    let mut e = Entry::new(8, 0xdead_beef);
    e.options_mut().set_privilege_level(3).set_stack_index(1);
    assert_eq!(e.options().bits(), 0xee02);
    assert_eq!(e.handler_address(), 0xdead_beef);
    assert_eq!(e.gdt_selector(), 8);
}

#[test]
fn new_table_has_nothing_present() {
    let idt = Idt::new();
    for i in 0..64usize {
        assert_eq!(idt.entry_at(i).options().bits(), 0x0e00);
    }
    assert!(!idt.is_present(IdtIndex::CpuException(CpuExceptionIndex::Breakpoint)));
    assert_eq!(idt.limit(), 1023);
}

#[test]
fn set_handler_installs_one_slot() {
    let mut idt = Idt::new();
    let bp = IdtIndex::CpuException(CpuExceptionIndex::Breakpoint);
    idt.set_handler(bp, 8, 0x4000);
    assert!(idt.is_present(bp));
    assert_eq!(idt.entry_at(3).handler_address(), 0x4000);
    assert!(!idt.is_present(IdtIndex::CpuException(CpuExceptionIndex::Debug)));
    assert!(!idt.is_present(IdtIndex::Interrupt(InterruptIndex::Timer)));
    // a second install replaces the first
    idt.set_handler(bp, 8, 0x5000);
    assert_eq!(idt.entry_at(3).handler_address(), 0x5000);
}

fn handlers() -> KernelHandlers {
    KernelHandlers {
        divide_by_zero: 0x1000,
        breakpoint: 0x2000,
        invalid_opcode: 0x3000,
        page_fault: 0x4000,
        double_fault: 0x5000,
        timer: 0x6000,
        keyboard: 0x7000,
    }
}

#[test]
fn kernel_table_breakpoint_slot() {
    let idt = init_idt(8, 0, &handlers());
    let bp = IdtIndex::CpuException(CpuExceptionIndex::Breakpoint);
    assert!(idt.is_present(bp));
    assert_eq!(idt.entry_at(bp.as_usize()).handler_address(), 0x2000);
    assert_eq!(idt.entry_at(bp.as_usize()).gdt_selector(), 8);
    let used = [0usize, 3, 6, 8, 14, 32, 33];
    for i in 0..64usize {
        let present = idt.entry_at(i).options().bits() & 0x8000 != 0;
        assert_eq!(present, used.contains(&i));
    }
    assert_eq!(idt.entry_at(33).handler_address(), 0x7000);
    assert_eq!(idt.entry_at(14).handler_address(), 0x4000);
}

#[test]
fn kernel_table_double_fault_switches_stack() {
    let idt = init_idt(8, 0, &handlers());
    let df = idt.entry_at(8);
    assert_eq!(df.handler_address(), 0x5000);
    assert_eq!(df.options().bits(), 0x8e01);
    let idt2 = init_idt(8, 6, &handlers());
    assert_eq!(idt2.entry_at(8).options().bits() & 7, 7);
}

#[test]
fn trampoline_layouts() {
    let plain = trampoline_layout(false);
    assert_eq!(plain.frame_offset, 72);
    assert_eq!(plain.error_code_offset, None);
    assert_eq!(plain.call_padding, 0);
    assert_eq!(plain.discard_before_return, 0);
    let with_code = trampoline_layout(true);
    assert_eq!(with_code.frame_offset, 80);
    assert_eq!(with_code.error_code_offset, Some(72));
    assert_eq!(with_code.call_padding, 8);
    assert_eq!(with_code.discard_before_return, 8);
}
