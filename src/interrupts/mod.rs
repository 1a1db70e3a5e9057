pub mod cpu_flags;
pub mod hardware;
pub mod idt;
pub mod trampoline;

use vstd::prelude::*;
use crate::interrupts::cpu_flags::{CpuFlags, KNOWN_FLAGS};
use crate::interrupts::hardware::InterruptIndex;
use crate::interrupts::idt::{CpuExceptionIndex, Entry, Idt, IdtIndex, IDT_ENTRY_COUNT};

verus! {

/// The machine state that the CPU pushes when it takes a trap.
#[derive(Clone, Copy, Debug)]
pub struct ExceptionStackFrame {
    pub instruction_pointer: u64,
    pub code_segment: u64,
    pub cpu_flags: u64,
    pub stack_pointer: u64,
    pub stack_segment: u64,
}

impl ExceptionStackFrame {
    /// The flags word read as named CPU flags: none when its low 32 bits
    /// hold a bit that no flag names.
    pub fn flags(&self) -> (r: Option<CpuFlags>)
        ensures
            r is Some <==> (self.cpu_flags as u32) & !KNOWN_FLAGS == 0,
            r matches Some(f) ==> f@ == self.cpu_flags as u32,
    {
        CpuFlags::from_bits(self.cpu_flags as u32)
    }
}

/// Addresses of the trap-entry stubs that the kernel installs.
#[derive(Clone, Copy, Debug)]
pub struct KernelHandlers {
    pub divide_by_zero: u64,
    pub breakpoint: u64,
    pub invalid_opcode: u64,
    pub page_fault: u64,
    pub double_fault: u64,
    pub timer: u64,
    pub keyboard: u64,
}

/// `e` is a freshly installed entry for the handler at `addr`.
pub open spec fn installed_entry(e: Entry, addr: u64, selector: u16, options: u16) -> bool {
    &&& e.address() == addr
    &&& e.selector() == selector
    &&& e.option_word()@ == options
    &&& e.reserved_word() == 0
}

/// The vectors that the kernel's table serves.
pub open spec fn kernel_vectors() -> Set<int> {
    set![0int, 3, 6, 8, 14, 32, 33]
}

/// Builds the kernel's descriptor table: divide error, breakpoint, invalid
/// opcode, page fault, double fault, timer and keyboard, all reached through
/// `code_selector`. The double fault switches to interrupt-stack-table slot
/// `double_fault_stack` (counted from 0), so that it runs even when the
/// faulting stack is exhausted. Every other slot is missing.
pub fn init_idt(code_selector: u16, double_fault_stack: u16, handlers: &KernelHandlers) -> (r: Idt)
    requires
        double_fault_stack < 7,
    ensures
        r.wf(),
        r@.len() == IDT_ENTRY_COUNT,
        r.installed() == kernel_vectors(),
        installed_entry(r@[0], handlers.divide_by_zero, code_selector, 0x8e00),
        installed_entry(r@[3], handlers.breakpoint, code_selector, 0x8e00),
        installed_entry(r@[6], handlers.invalid_opcode, code_selector, 0x8e00),
        installed_entry(r@[8], handlers.double_fault, code_selector, 0x8e00u16 | (double_fault_stack + 1) as u16),
        installed_entry(r@[14], handlers.page_fault, code_selector, 0x8e00),
        installed_entry(r@[32], handlers.timer, code_selector, 0x8e00),
        installed_entry(r@[33], handlers.keyboard, code_selector, 0x8e00),
        forall|i: int| 0 <= i < IDT_ENTRY_COUNT && !kernel_vectors().contains(i) ==> (#[trigger] r@[i]).is_missing(),
{
    let mut idt = Idt::new();
    let ghost ist = (double_fault_stack + 1) as u16;
    idt.set_handler(IdtIndex::CpuException(CpuExceptionIndex::DoubleFault), code_selector, handlers.double_fault)
        .set_stack_index(double_fault_stack);
    assert(ist < 8 ==> (0x8e00u16 & 0xfff8u16) | ist == 0x8e00u16 | ist) by (bit_vector);
    idt.set_handler(IdtIndex::CpuException(CpuExceptionIndex::DivisionError), code_selector, handlers.divide_by_zero);
    idt.set_handler(IdtIndex::CpuException(CpuExceptionIndex::Breakpoint), code_selector, handlers.breakpoint);
    idt.set_handler(IdtIndex::CpuException(CpuExceptionIndex::InvalidOpcode), code_selector, handlers.invalid_opcode);
    idt.set_handler(IdtIndex::CpuException(CpuExceptionIndex::PageFault), code_selector, handlers.page_fault);
    idt.set_handler(IdtIndex::Interrupt(InterruptIndex::Timer), code_selector, handlers.timer);
    idt.set_handler(IdtIndex::Interrupt(InterruptIndex::Keyboard), code_selector, handlers.keyboard);
    assert(idt.installed() =~= kernel_vectors());
    idt
}

} // verus!
