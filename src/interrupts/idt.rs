use vstd::prelude::*;
use crate::bits::{mask16, set_bit_u16, set_bits_u16};
use crate::interrupts::hardware::InterruptIndex;
use x86_64::structures::gdt::SegmentSelector;
use x86_64::PrivilegeLevel;

verus! {

/// The 16-bit option word of a descriptor entry.
///
/// Bits 0..3 hold the interrupt-stack-table slot (1-based, 0 for "no
/// switch"), bits 9..12 must be one, bit 8 enables interrupts on entry,
/// bits 13..15 hold the privilege level and bit 15 is the present bit.
#[derive(Clone, Copy, Debug)]
pub struct EntryOptions(u16);

impl View for EntryOptions {
    type V = u16;

    closed spec fn view(&self) -> u16 {
        self.0
    }
}

/// Whether the option word `w` marks its entry present.
pub open spec fn opt_present(w: u16) -> bool {
    w & 0x8000 != 0
}

/// Whether the option word `w` clears the interrupt flag on entry.
pub open spec fn opt_interrupts_disabled(w: u16) -> bool {
    w & 0x0100 == 0
}

/// The descriptor privilege level in the option word `w`.
pub open spec fn opt_privilege_level(w: u16) -> u16 {
    (w >> 13u16) & 3
}

/// The interrupt-stack-table slot in the option word `w`, counted from 1.
pub open spec fn opt_stack_slot(w: u16) -> u16 {
    w & 7
}

impl EntryOptions {
    /// The option word with only the must-be-one bits set: not present,
    /// interrupts enabled on entry, privilege level 0, no stack switch.
    pub fn minimal() -> (r: Self)
        ensures
            r@ == 0x0e00,
    {
        let mut option: u16 = 0;
        assert(7u16 >> 3u16 == 0) by (bit_vector);
        set_bits_u16(&mut option, 9, 12, 0b111);
        assert(mask16(9, 12) == 0x0e00) by {
            assert((0xffffu16 >> 13u16) << 9u16 == 0x0e00u16) by (bit_vector);
        }
        assert(((0u16 & !0x0e00u16) | (7u16 << 9u16)) == 0x0e00u16) by (bit_vector);
        EntryOptions(option)
    }

    /// The options of a freshly installed handler: present, with interrupts
    /// disabled on entry.
    pub fn new() -> (r: Self)
        ensures
            r@ == 0x8e00,
    {
        let mut options = Self::minimal();
        options.set_present(true).disable_interrupts(true);
        assert(((0x0e00u16 | 0x8000u16) & 0xfeffu16) == 0x8e00u16) by (bit_vector);
        options
    }

    pub fn set_present(&mut self, present: bool) -> (r: &mut Self)
        ensures
            r@ == if present { old(self)@ | 0x8000 } else { old(self)@ & 0x7fff },
            opt_present(r@) == present,
            *final(self) == *final(r),
    {
        let ghost w = self.0;
        set_bit_u16(&mut self.0, 15, present);
        assert((w | (1u16 << 15u16)) == (w | 0x8000u16) && (w & !(1u16 << 15u16)) == (w
            & 0x7fffu16) && ((w | 0x8000u16) & 0x8000u16) != 0u16 && ((w & 0x7fffu16) & 0x8000u16)
            == 0u16) by (bit_vector);
        self
    }

    pub fn disable_interrupts(&mut self, disabled: bool) -> (r: &mut Self)
        ensures
            r@ == if disabled { old(self)@ & 0xfeff } else { old(self)@ | 0x0100 },
            opt_interrupts_disabled(r@) == disabled,
            *final(self) == *final(r),
    {
        let ghost w = self.0;
        set_bit_u16(&mut self.0, 8, !disabled);
        assert((w | (1u16 << 8u16)) == (w | 0x0100u16) && (w & !(1u16 << 8u16)) == (w
            & 0xfeffu16) && ((w | 0x0100u16) & 0x0100u16) != 0u16 && ((w & 0xfeffu16) & 0x0100u16)
            == 0u16) by (bit_vector);
        self
    }

    /// Sets the descriptor privilege level to the low two bits of `dpl`.
    pub fn set_privilege_level(&mut self, dpl: u16) -> (r: &mut Self)
        ensures
            r@ == (old(self)@ & 0x9fff) | ((dpl & 3) << 13u16),
            opt_privilege_level(r@) == dpl & 3,
            *final(self) == *final(r),
    {
        let ghost w = self.0;
        assert((dpl & 3u16) >> 2u16 == 0) by (bit_vector);
        set_bits_u16(&mut self.0, 13, 15, dpl & 0b11);
        assert(mask16(13, 15) == 0x6000) by {
            assert((0xffffu16 >> 14u16) << 13u16 == 0x6000u16) by (bit_vector);
        }
        assert(((((w & 0x9fffu16) | ((dpl & 3u16) << 13u16)) >> 13u16) & 3u16) == (dpl & 3u16)
            && !0x6000u16 == 0x9fffu16) by (bit_vector);
        self
    }

    /// Requests a switch to interrupt-stack-table slot `index` (counted
    /// from 0) on entry. The word stores the slot counted from 1, since 0
    /// there means "no switch"; the slot must therefore be below 7.
    pub fn set_stack_index(&mut self, index: u16) -> (r: &mut Self)
        requires
            index < 7,
        ensures
            r@ == (old(self)@ & 0xfff8) | (index + 1) as u16,
            opt_stack_slot(r@) == index + 1,
            *final(self) == *final(r),
    {
        let ghost w = self.0;
        let slot: u16 = index + 1;
        assert(slot < 8);
        assert(slot < 8 ==> slot >> 3u16 == 0) by (bit_vector);
        set_bits_u16(&mut self.0, 0, 3, slot);
        assert(mask16(0, 3) == 7) by {
            assert((0xffffu16 >> 13u16) << 0u16 == 7u16) by (bit_vector);
        }
        assert(slot < 8 ==> (((w & 0xfff8u16) | slot) & 7u16) == slot && !7u16 == 0xfff8u16
            && slot << 0u16 == slot) by (bit_vector);
        self
    }

    /// The raw option word.
    pub fn bits(&self) -> (r: u16)
        ensures
            r == self@,
    {
        self.0
    }
}

/// Relies on x86_64's `SegmentSelector::new`, which places the table index
/// above the two privilege bits and the (zero) table-indicator bit, and on
/// `PrivilegeLevel::from_u16`, which panics above 3.
#[verifier::external_body]
fn segment_selector(index: u16, rpl: u16) -> (r: u16)
    requires
        index < 8192,
        rpl < 4,
    ensures
        r == index * 8 + rpl,
{
    SegmentSelector::new(index, PrivilegeLevel::from_u16(rpl)).0
}

/// The sixteen architecturally defined CPU-exception vectors.
#[derive(Clone, Copy, Debug)]
pub enum CpuExceptionIndex {
    DivisionError,
    Debug,
    NonMaskableInterrupt,
    Breakpoint,
    Overflow,
    BoundRangeExceeded,
    InvalidOpcode,
    DeviceNotAvailable,
    DoubleFault,
    CoprocessorSegOverrun,
    InvalidTSS,
    SegmentNotPresent,
    StackSegmentFault,
    GeneralProtectionFault,
    PageFault,
    Reserved,
}

impl CpuExceptionIndex {
    pub open spec fn vector(self) -> u8 {
        match self {
            CpuExceptionIndex::DivisionError => 0x0,
            CpuExceptionIndex::Debug => 0x1,
            CpuExceptionIndex::NonMaskableInterrupt => 0x2,
            CpuExceptionIndex::Breakpoint => 0x3,
            CpuExceptionIndex::Overflow => 0x4,
            CpuExceptionIndex::BoundRangeExceeded => 0x5,
            CpuExceptionIndex::InvalidOpcode => 0x6,
            CpuExceptionIndex::DeviceNotAvailable => 0x7,
            CpuExceptionIndex::DoubleFault => 0x8,
            CpuExceptionIndex::CoprocessorSegOverrun => 0x9,
            CpuExceptionIndex::InvalidTSS => 0xa,
            CpuExceptionIndex::SegmentNotPresent => 0xb,
            CpuExceptionIndex::StackSegmentFault => 0xc,
            CpuExceptionIndex::GeneralProtectionFault => 0xd,
            CpuExceptionIndex::PageFault => 0xe,
            CpuExceptionIndex::Reserved => 0xf,
        }
    }

    pub fn as_u8(self) -> (r: u8)
        ensures
            r == self.vector(),
    {
        match self {
            CpuExceptionIndex::DivisionError => 0x0,
            CpuExceptionIndex::Debug => 0x1,
            CpuExceptionIndex::NonMaskableInterrupt => 0x2,
            CpuExceptionIndex::Breakpoint => 0x3,
            CpuExceptionIndex::Overflow => 0x4,
            CpuExceptionIndex::BoundRangeExceeded => 0x5,
            CpuExceptionIndex::InvalidOpcode => 0x6,
            CpuExceptionIndex::DeviceNotAvailable => 0x7,
            CpuExceptionIndex::DoubleFault => 0x8,
            CpuExceptionIndex::CoprocessorSegOverrun => 0x9,
            CpuExceptionIndex::InvalidTSS => 0xa,
            CpuExceptionIndex::SegmentNotPresent => 0xb,
            CpuExceptionIndex::StackSegmentFault => 0xc,
            CpuExceptionIndex::GeneralProtectionFault => 0xd,
            CpuExceptionIndex::PageFault => 0xe,
            CpuExceptionIndex::Reserved => 0xf,
        }
    }
}

/// A slot of the descriptor table: a CPU exception or a hardware interrupt.
#[derive(Clone, Copy, Debug)]
pub enum IdtIndex {
    CpuException(CpuExceptionIndex),
    Interrupt(InterruptIndex),
}

impl IdtIndex {
    pub open spec fn vector(self) -> u8 {
        match self {
            IdtIndex::CpuException(e) => e.vector(),
            IdtIndex::Interrupt(i) => i.vector(),
        }
    }

    pub fn as_u8(self) -> (r: u8)
        ensures
            r == self.vector(),
    {
        match self {
            IdtIndex::CpuException(cpu_exception_index) => cpu_exception_index.as_u8(),
            IdtIndex::Interrupt(interrupt_index) => interrupt_index.as_u8(),
        }
    }

    pub fn as_usize(self) -> (r: usize)
        ensures
            r == self.vector(),
            r < IDT_ENTRY_COUNT,
    {
        let v = self.as_u8();
        proof { lemma_vectors_fit_table(self); }
        v as usize
    }
}

/// Number of slots in the descriptor table.
pub const IDT_ENTRY_COUNT: usize = 64;

/// Every vector, exception or interrupt, names a slot of the table.
pub proof fn lemma_vectors_fit_table(index: IdtIndex)
    ensures
        (index.vector() as usize) < IDT_ENTRY_COUNT,
{
}

/// Exception vectors and interrupt vectors never collide: every exception
/// lies below 32, every interrupt at or above it.
pub proof fn lemma_exceptions_and_interrupts_disjoint(e: CpuExceptionIndex, i: InterruptIndex)
    ensures
        e.vector() < 32,
        i.vector() >= 32,
        IdtIndex::CpuException(e).vector() != IdtIndex::Interrupt(i).vector(),
{
}

/// One 16-byte descriptor: the handler address split in three parts, the
/// code-segment selector, the option word and a reserved word.
#[derive(Clone, Copy, Debug)]
pub struct Entry {
    pointer_low: u16,
    gdt_selector: u16,
    options: EntryOptions,
    pointer_middle: u16,
    pointer_high: u32,
    reserved: u32,
}

/// The handler address that the three pointer fields encode.
pub open spec fn join_address(low: u16, middle: u16, high: u32) -> u64 {
    (low as u64) | ((middle as u64) << 16u64) | ((high as u64) << 32u64)
}

impl Entry {
    pub closed spec fn address(self) -> u64 {
        join_address(self.pointer_low, self.pointer_middle, self.pointer_high)
    }

    pub closed spec fn selector(self) -> u16 {
        self.gdt_selector
    }

    pub closed spec fn option_word(self) -> EntryOptions {
        self.options
    }

    pub closed spec fn reserved_word(self) -> u32 {
        self.reserved
    }

    /// An entry that no handler has been installed in: not present, null
    /// address, null selector.
    pub open spec fn is_missing(self) -> bool {
        &&& self.address() == 0
        &&& self.selector() == 0
        &&& self.option_word()@ == 0x0e00
        &&& self.reserved_word() == 0
    }

    pub open spec fn is_present(self) -> bool {
        opt_present(self.option_word()@)
    }

    pub fn missing() -> (r: Self)
        ensures
            r.is_missing(),
            !r.is_present(),
    {
        let r = Entry {
            gdt_selector: segment_selector(0, 0),
            pointer_low: 0,
            pointer_middle: 0,
            pointer_high: 0,
            options: EntryOptions::minimal(),
            reserved: 0,
        };
        assert(join_address(0, 0, 0) == 0) by (bit_vector);
        assert(0x0e00u16 & 0x8000u16 == 0) by (bit_vector);
        r
    }

    /// Encodes a present entry for the handler at `handler`, reached through
    /// the code segment `gdt_selector`, with interrupts disabled on entry.
    pub fn new(gdt_selector: u16, handler: u64) -> (r: Self)
        ensures
            r.address() == handler,
            r.selector() == gdt_selector,
            r.option_word()@ == 0x8e00,
            r.reserved_word() == 0,
            r.is_present(),
    {
        let pointer = handler;
        let r = Entry {
            gdt_selector,
            pointer_low: (pointer & 0xffff) as u16,
            pointer_middle: ((pointer >> 16) & 0xffff) as u16,
            pointer_high: ((pointer >> 32) & 0xffffffff) as u32,
            options: EntryOptions::new(),
            reserved: 0,
        };
        assert(join_address(
            (pointer & 0xffff) as u16,
            ((pointer >> 16u64) & 0xffff) as u16,
            ((pointer >> 32u64) & 0xffffffff) as u32,
        ) == pointer) by (bit_vector);
        assert(0x8e00u16 & 0x8000u16 != 0) by (bit_vector);
        r
    }

    /// The handler address, reassembled from its three parts.
    pub fn handler_address(&self) -> (r: u64)
        ensures
            r == self.address(),
    {
        (self.pointer_low as u64) | ((self.pointer_middle as u64) << 16) | (
        (self.pointer_high as u64) << 32)
    }

    pub fn gdt_selector(&self) -> (r: u16)
        ensures
            r == self.selector(),
    {
        self.gdt_selector
    }

    pub fn options(&self) -> (r: EntryOptions)
        ensures
            r == self.option_word(),
    {
        self.options
    }

    /// The option word, for changes that leave the address and the selector
    /// as they are.
    pub fn options_mut(&mut self) -> (r: &mut EntryOptions)
        ensures
            *r == old(self).option_word(),
            final(self).option_word() == *final(r),
            final(self).address() == old(self).address(),
            final(self).selector() == old(self).selector(),
            final(self).reserved_word() == old(self).reserved_word(),
    {
        &mut self.options
    }
}

/// Size in bytes of one encoded descriptor.
pub const ENTRY_BYTES: usize = 16;

/// The little-endian bytes of a 16-bit word.
pub open spec fn bytes_of_u16(w: u16) -> Seq<u8> {
    seq![(w & 0xff) as u8, (w >> 8u16) as u8]
}

/// The little-endian bytes of a 32-bit word.
pub open spec fn bytes_of_u32(w: u32) -> Seq<u8> {
    seq![(w & 0xff) as u8, ((w >> 8u32) & 0xff) as u8, ((w >> 16u32) & 0xff) as u8, (w >> 24u32) as u8]
}

/// The 16 bytes of a descriptor for handler address `addr`: address bits
/// 0..16, selector, option word, address bits 16..32, address bits 32..64,
/// reserved word.
pub open spec fn entry_layout(addr: u64, selector: u16, options: u16, reserved: u32) -> Seq<u8> {
    bytes_of_u16((addr & 0xffff) as u16) + bytes_of_u16(selector) + bytes_of_u16(options)
        + bytes_of_u16(((addr >> 16u64) & 0xffff) as u16) + bytes_of_u32((addr >> 32u64) as u32)
        + bytes_of_u32(reserved)
}

/// The handler address that a 16-byte descriptor names.
pub open spec fn decoded_address(b: Seq<u8>) -> u64 {
    (b[0] as u64) | ((b[1] as u64) << 8u64) | ((b[6] as u64) << 16u64) | ((b[7] as u64) << 24u64)
        | ((b[8] as u64) << 32u64) | ((b[9] as u64) << 40u64) | ((b[10] as u64) << 48u64) | ((
    b[11] as u64) << 56u64)
}

/// The code-segment selector that a 16-byte descriptor names.
pub open spec fn decoded_selector(b: Seq<u8>) -> u16 {
    (b[2] as u16) | ((b[3] as u16) << 8u16)
}

/// Decoding an encoded descriptor gives back its handler address and its
/// selector, for every 64-bit address.
pub proof fn lemma_entry_round_trip(addr: u64, selector: u16, options: u16, reserved: u32)
    ensures
        entry_layout(addr, selector, options, reserved).len() == ENTRY_BYTES,
        decoded_address(entry_layout(addr, selector, options, reserved)) == addr,
        decoded_selector(entry_layout(addr, selector, options, reserved)) == selector,
{
    let b = entry_layout(addr, selector, options, reserved);
    let a = addr;
    assert(b[0] == ((a & 0xffff) as u16 & 0xff) as u8);
    assert(b[1] == ((a & 0xffff) as u16 >> 8u16) as u8);
    assert(b[6] == ((((a >> 16u64) & 0xffff) as u16) & 0xff) as u8);
    assert(b[7] == ((((a >> 16u64) & 0xffff) as u16) >> 8u16) as u8);
    assert(b[8] == (((a >> 32u64) as u32) & 0xff) as u8);
    assert(b[9] == ((((a >> 32u64) as u32) >> 8u32) & 0xff) as u8);
    assert(b[10] == ((((a >> 32u64) as u32) >> 16u32) & 0xff) as u8);
    assert(b[11] == (((a >> 32u64) as u32) >> 24u32) as u8);
    assert(b[2] == (selector & 0xff) as u8);
    assert(b[3] == (selector >> 8u16) as u8);
    assert(((((a & 0xffff) as u16 & 0xff) as u8) as u64) | (((((a & 0xffff) as u16 >> 8u16) as u8)
        as u64) << 8u64) | (((((((a >> 16u64) & 0xffff) as u16) & 0xff) as u8) as u64) << 16u64)
        | (((((((a >> 16u64) & 0xffff) as u16) >> 8u16) as u8) as u64) << 24u64) | (((((
    (a >> 32u64) as u32) & 0xff) as u8) as u64) << 32u64) | (((((((a >> 32u64) as u32) >> 8u32)
        & 0xff) as u8) as u64) << 40u64) | (((((((a >> 32u64) as u32) >> 16u32) & 0xff) as u8)
        as u64) << 48u64) | ((((((a >> 32u64) as u32) >> 24u32) as u8) as u64) << 56u64) == a)
        by (bit_vector);
    let s = selector;
    assert((((s & 0xff) as u8) as u16) | ((((s >> 8u16) as u8) as u16) << 8u16) == s)
        by (bit_vector);
}

impl Entry {
    /// The descriptor as the CPU reads it.
    pub open spec fn layout(self) -> Seq<u8> {
        entry_layout(self.address(), self.selector(), self.option_word()@, self.reserved_word())
    }

    /// Encodes the descriptor in the layout that the CPU reads.
    pub fn to_bytes(&self) -> (r: [u8; 16])
        ensures
            r@ == self.layout(),
    {
        let lo = self.pointer_low;
        let sel = self.gdt_selector;
        let opt = self.options.0;
        let mid = self.pointer_middle;
        let hi = self.pointer_high;
        let res = self.reserved;
        let r = [
            (lo & 0xff) as u8, (lo >> 8) as u8,
            (sel & 0xff) as u8, (sel >> 8) as u8,
            (opt & 0xff) as u8, (opt >> 8) as u8,
            (mid & 0xff) as u8, (mid >> 8) as u8,
            (hi & 0xff) as u8, ((hi >> 8) & 0xff) as u8, ((hi >> 16) & 0xff) as u8, (hi >> 24) as u8,
            (res & 0xff) as u8, ((res >> 8) & 0xff) as u8, ((res >> 16) & 0xff) as u8, (res >> 24) as u8,
        ];
        assert((join_address(lo, mid, hi) & 0xffff) as u16 == lo && ((join_address(lo, mid, hi)
            >> 16u64) & 0xffff) as u16 == mid && (join_address(lo, mid, hi) >> 32u64) as u32 == hi)
            by (bit_vector);
        assert(r@ =~= entry_layout(join_address(lo, mid, hi), sel, opt, res));
        r
    }
}

/// The interrupt descriptor table: one entry per vector, 64 in all.
///
/// Besides the entries it records, as ghost state, which slots a handler
/// has been installed in; every other slot holds a missing entry.
pub struct Idt {
    entries: Vec<Entry>,
    installed: Ghost<Set<int>>,
}

impl View for Idt {
    type V = Seq<Entry>;

    closed spec fn view(&self) -> Seq<Entry> {
        self.entries@
    }
}

impl Idt {
    /// The slots that a handler has been installed in.
    pub closed spec fn installed(self) -> Set<int> {
        self.installed@
    }

    pub closed spec fn wf(self) -> bool {
        &&& self.entries@.len() == IDT_ENTRY_COUNT
        &&& forall|i: int|
            0 <= i < IDT_ENTRY_COUNT && !self.installed@.contains(i) ==> (
            #[trigger] self.entries@[i]).is_missing()
    }

    /// A table in which every slot is missing.
    pub fn new() -> (r: Self)
        ensures
            r.wf(),
            r@.len() == IDT_ENTRY_COUNT,
            r.installed() == Set::<int>::empty(),
            forall|i: int| 0 <= i < IDT_ENTRY_COUNT ==> (#[trigger] r@[i]).is_missing(),
    {
        let missing = Entry::missing();
        let r = Idt { entries: vec![missing; 64], installed: Ghost(Set::empty()) };
        assert forall|i: int| 0 <= i < IDT_ENTRY_COUNT implies (#[trigger] r@[i]).is_missing() by {
            assert(cloned(missing, r@[i]));
        }
        r
    }

    /// Installs the handler at address `handler`, reached through the code
    /// segment `gdt_selector`, in the slot of `entry`; a handler installed
    /// there before is replaced. Returns the new entry's option word for
    /// further changes.
    pub fn set_handler(&mut self, entry: IdtIndex, gdt_selector: u16, handler: u64) -> (r:
        &mut EntryOptions)
        requires
            old(self).wf(),
        ensures
            r@ == 0x8e00,
            final(self).wf(),
            final(self).installed() == old(self).installed().insert(entry.vector() as int),
            final(self)@.len() == IDT_ENTRY_COUNT,
            final(self)@[entry.vector() as int].address() == handler,
            final(self)@[entry.vector() as int].selector() == gdt_selector,
            final(self)@[entry.vector() as int].option_word() == *final(r),
            final(self)@[entry.vector() as int].reserved_word() == 0,
            forall|i: int|
                0 <= i < IDT_ENTRY_COUNT && i != entry.vector() ==> #[trigger] final(self)@[i]
                    == old(self)@[i],
    {
        let i = entry.as_usize();
        self.entries.set(i, Entry::new(gdt_selector, handler));
        self.installed = Ghost(self.installed@.insert(i as int));
        assert(self.wf());
        self.entries[i].options_mut()
    }

    /// Whether the slot of `index` holds a present entry.
    pub fn is_present(&self, index: IdtIndex) -> (r: bool)
        requires
            self.wf(),
        ensures
            r == self@[index.vector() as int].is_present(),
    {
        let w = self.entries[index.as_usize()].options.0;
        w & 0x8000 != 0
    }

    /// The entry in slot `i`.
    pub fn entry_at(&self, i: usize) -> (r: Entry)
        requires
            self.wf(),
            i < IDT_ENTRY_COUNT,
        ensures
            r == self@[i as int],
    {
        self.entries[i]
    }

    /// The limit that the CPU's table register takes: the table's size in
    /// bytes, minus one.
    pub fn limit(&self) -> (r: u16)
        ensures
            r == IDT_ENTRY_COUNT * ENTRY_BYTES - 1,
    {
        (IDT_ENTRY_COUNT * ENTRY_BYTES - 1) as u16
    }
}

/// A slot that no handler has been installed in reads as not present.
pub proof fn lemma_uninstalled_not_present(idt: Idt, index: IdtIndex)
    requires
        idt.wf(),
        !idt.installed().contains(index.vector() as int),
    ensures
        idt@[index.vector() as int].is_missing(),
        !idt@[index.vector() as int].is_present(),
{
    lemma_vectors_fit_table(index);
    assert(idt@[index.vector() as int] == idt.entries@[index.vector() as int]);
    assert(0x0e00u16 & 0x8000u16 == 0) by (bit_vector);
}

} // verus!
