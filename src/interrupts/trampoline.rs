use vstd::prelude::*;

verus! {

/// Bytes in one stack word.
pub const WORD_BYTES: u64 = 8;

/// Scratch registers that a trap-entry stub saves before calling the
/// handler: rax, rcx, rdx, rsi, rdi, r8, r9, r10 and r11.
pub const SCRATCH_REGISTERS: u64 = 9;

/// Bytes that saving the scratch registers pushes.
pub const SAVED_BYTES: u64 = SCRATCH_REGISTERS * WORD_BYTES;

/// Bytes of machine state that the CPU pushes on a trap: instruction
/// pointer, code segment, flags, stack pointer, stack segment.
pub const HARDWARE_FRAME_BYTES: u64 = 5 * WORD_BYTES;

/// Alignment of the stack pointer at a call, which is also the alignment
/// the CPU gives the stack before it pushes the machine state.
pub const STACK_ALIGN: u64 = 16;

/// Bytes of error code that the CPU pushes for a vector.
pub open spec fn error_code_bytes(has_error_code: bool) -> u64 {
    if has_error_code {
        WORD_BYTES
    } else {
        0
    }
}

/// Where a trap-entry stub finds its arguments and how it keeps the stack
/// aligned, all counted from the stack pointer once the scratch registers
/// are saved.
#[derive(Clone, Copy, Debug)]
pub struct TrampolineLayout {
    /// Offset of the machine state that the CPU pushed.
    pub frame_offset: u64,
    /// Offset of the error code, for a vector that has one.
    pub error_code_offset: Option<u64>,
    /// Bytes to reserve below the saved registers before the call.
    pub call_padding: u64,
    /// Bytes to drop once the registers are restored, before the trap
    /// return.
    pub discard_before_return: u64,
}

/// The stack layout of the entry stub for a vector with or without an
/// error code.
pub fn trampoline_layout(has_error_code: bool) -> (r: TrampolineLayout)
    ensures
        r.frame_offset == SAVED_BYTES + error_code_bytes(has_error_code),
        r.error_code_offset == if has_error_code {
            Some(SAVED_BYTES)
        } else {
            None::<u64>
        },
        (HARDWARE_FRAME_BYTES + error_code_bytes(has_error_code) + SAVED_BYTES + r.call_padding)
            as int % STACK_ALIGN as int == 0,
        r.call_padding < STACK_ALIGN,
        r.discard_before_return == error_code_bytes(has_error_code),
{
    let error_bytes: u64 = if has_error_code {
        WORD_BYTES
    } else {
        0
    };
    let pushed: u64 = HARDWARE_FRAME_BYTES + error_bytes + SAVED_BYTES;
    let call_padding: u64 = (STACK_ALIGN - pushed % STACK_ALIGN) % STACK_ALIGN;
    TrampolineLayout {
        frame_offset: SAVED_BYTES + error_bytes,
        error_code_offset: if has_error_code {
            Some(SAVED_BYTES)
        } else {
            None
        },
        call_padding,
        discard_before_return: error_bytes,
    }
}

} // verus!
