use vstd::prelude::*;

verus! {

/// Vector at which the first interrupt controller delivers its line 0.
pub const PIC_1_OFFSET: u8 = 32;

/// Vector at which the second interrupt controller delivers its line 0.
pub const PIC_2_OFFSET: u8 = PIC_1_OFFSET + 8;

/// Hardware interrupts, numbered from the first controller's offset.
#[derive(Clone, Copy, Debug)]
pub enum InterruptIndex {
    Timer,
    Keyboard,
}

impl InterruptIndex {
    pub open spec fn vector(self) -> u8 {
        match self {
            InterruptIndex::Timer => PIC_1_OFFSET,
            InterruptIndex::Keyboard => (PIC_1_OFFSET + 1) as u8,
        }
    }

    pub fn as_u8(self) -> (r: u8)
        ensures
            r == self.vector(),
    {
        match self {
            InterruptIndex::Timer => PIC_1_OFFSET,
            InterruptIndex::Keyboard => PIC_1_OFFSET + 1,
        }
    }

    pub fn as_usize(self) -> (r: usize)
        ensures
            r == self.vector(),
    {
        self.as_u8() as usize
    }
}

/// The vector at which interrupt line `line` (0..16) arrives once the two
/// controllers are remapped to `PIC_1_OFFSET` and `PIC_2_OFFSET`: lines 0..8
/// come from the first controller, lines 8..16 from the second.
pub open spec fn remapped_vector(line: u8) -> u8 {
    if line < 8 {
        (PIC_1_OFFSET + line) as u8
    } else {
        (PIC_2_OFFSET + (line - 8)) as u8
    }
}

pub fn irq_vector(line: u8) -> (r: u8)
    requires
        line < 16,
    ensures
        r == remapped_vector(line),
{
    if line < 8 {
        PIC_1_OFFSET + line
    } else {
        PIC_2_OFFSET + (line - 8)
    }
}

/// After the remap every hardware line arrives above the 32 CPU-exception
/// vectors and inside the 64-slot table, and no two lines share a vector.
pub proof fn lemma_remap_clear_of_exceptions(line: u8, other: u8)
    requires
        line < 16,
        other < 16,
    ensures
        32 <= remapped_vector(line) < 64,
        line != other ==> remapped_vector(line) != remapped_vector(other),
{
}

/// The timer and the keyboard are lines 0 and 1 of the first controller.
pub proof fn lemma_interrupt_lines(i: InterruptIndex)
    ensures
        i.vector() == remapped_vector(
            match i {
                InterruptIndex::Timer => 0u8,
                InterruptIndex::Keyboard => 1u8,
            },
        ),
{
}

} // verus!
