use vstd::prelude::*;
use crate::bits::{mask64, set_bits_u64};
use crate::virtual_memory::frame::Frame;

verus! {

/// Number of entries in one page table.
pub const ENTRY_COUNT: usize = 512;

/// Bits 12..52 of an entry: the physical frame address.
pub const ADDR_MASK: u64 = 0x000f_ffff_ffff_f000;

/// Every bit of an entry outside the address: the flag bits 0..12 and
/// 52..64.
pub const FLAGS_MASK: u64 = 0xfff0_0000_0000_0fff;

/// The largest page-aligned address that an entry can hold.
pub const MAX_FRAME_ADDR: u64 = 0x000f_ffff_ffff_f000;

/// Whether `addr` lies within the 52-bit physical-address width.
pub open spec fn within_physical_width(addr: u64) -> bool {
    addr < 0x0010_0000_0000_0000
}

/// The entry word `entry` with its flag bits replaced by `flags`.
pub open spec fn with_flags(entry: u64, flags: u64) -> u64 {
    (entry & ADDR_MASK) | flags
}

/// The entry word `entry` with its address bits replaced by those of `addr`.
pub open spec fn with_addr(entry: u64, addr: u64) -> u64 {
    (entry & FLAGS_MASK) | (addr & ADDR_MASK)
}

/// A set of page-table-entry flags. It never holds an address bit.
#[derive(Clone, Copy, Debug)]
pub struct PageEntryFlags(u64);

impl View for PageEntryFlags {
    type V = u64;

    closed spec fn view(&self) -> u64 {
        self.0
    }
}

impl PageEntryFlags {
    #[verifier::type_invariant]
    closed spec fn inv(self) -> bool {
        self.0 & ADDR_MASK == 0
    }

    /// The flags among `bits`; address bits are dropped.
    pub fn from_bits_truncate(bits: u64) -> (r: Self)
        ensures
            r@ == bits & FLAGS_MASK,
    {
        proof {
            assert((bits & FLAGS_MASK) & ADDR_MASK == 0) by (bit_vector)
                requires FLAGS_MASK == 0xfff0_0000_0000_0fffu64, ADDR_MASK == 0x000f_ffff_ffff_f000u64;
        }
        PageEntryFlags(bits & FLAGS_MASK)
    }

    pub fn empty() -> (r: Self)
        ensures
            r@ == 0,
    {
        proof {
            assert(0u64 & 0x000f_ffff_ffff_f000u64 == 0) by (bit_vector);
        }
        PageEntryFlags(0)
    }

    pub fn bits(&self) -> (r: u64)
        ensures
            r == self@,
            r & ADDR_MASK == 0,
    {
        proof {
            use_type_invariant(self);
        }
        self.0
    }

    /// Whether every flag of `other` is set in `self`.
    pub fn contains(&self, other: PageEntryFlags) -> (r: bool)
        ensures
            r == (self@ & other@ == other@),
    {
        self.0 & other.0 == other.0
    }

    pub fn union(self, other: PageEntryFlags) -> (r: Self)
        ensures
            r@ == self@ | other@,
    {
        proof {
            use_type_invariant(self);
            use_type_invariant(other);
            let a = self.0;
            let b = other.0;
            assert(a & ADDR_MASK == 0 && b & ADDR_MASK == 0 ==> (a | b) & ADDR_MASK == 0)
                by (bit_vector);
        }
        PageEntryFlags(self.0 | other.0)
    }
}

/// The entry maps a page.
pub const PRESENT: u64 = 1 << 0;
pub const WRITABLE: u64 = 1 << 1;
pub const USER_ACCESSIBLE: u64 = 1 << 2;
pub const WRITE_THRU: u64 = 1 << 3;
pub const NO_CACHE: u64 = 1 << 4;
pub const ACCESSED: u64 = 1 << 5;
pub const DIRTY: u64 = 1 << 6;
/// The entry maps a large page directly instead of naming a table.
pub const HUGE_PAGE: u64 = 1 << 7;
pub const GLOBAL: u64 = 1 << 8;
/// Bits 9..12, left to the operating system.
pub const RESERVED_9_3: u64 = 0b111 << 9;
/// Bits 52..63, left to the operating system.
pub const RESERVED_52_11: u64 = 0x7ff << 52;
pub const NO_EXECUTE: u64 = 1 << 63;

/// Why an entry names no frame.
#[derive(Debug, Clone, Copy, PartialEq, Eq, Structural)]
pub enum FrameError {
    FrameNotPresent,
    HugeFrame,
}

/// One 8-byte page-table slot: a frame address in bits 12..52 and flags
/// in the other bits.
#[derive(Clone, Copy, Debug)]
pub struct PageTableEntry(u64);

impl View for PageTableEntry {
    type V = u64;

    closed spec fn view(&self) -> u64 {
        self.0
    }
}

impl PageTableEntry {
    /// An all-zero entry: not present, no address.
    pub fn new() -> (r: Self)
        ensures
            r@ == 0,
    {
        PageTableEntry(0)
    }

    pub fn addr(&self) -> (r: u64)
        ensures
            r == self@ & ADDR_MASK,
    {
        self.0 & 0x000f_ffff_ffff_f000
    }

    /// Stores the frame address `addr`, keeping the flags. Bits of `addr`
    /// below 12 are not stored; an address beyond the physical-address
    /// width is refused.
    pub fn set_addr(&mut self, addr: u64) -> (r: &mut Self)
        requires
            within_physical_width(addr),
        ensures
            r@ == with_addr(old(self)@, addr),
            r@ & FLAGS_MASK == old(self)@ & FLAGS_MASK,
            addr % 4096 == 0 ==> r@ & ADDR_MASK == addr,
            *final(self) == *final(r),
    {
        let ghost w = self.0;
        proof {
            lemma_with_addr_parts(w, addr);
        }
        assert(addr < 0x0010_0000_0000_0000u64 ==> (addr >> 12u64) >> 40u64 == 0) by (bit_vector);
        set_bits_u64(&mut self.0, 12, 52, addr >> 12);
        assert(mask64(12, 52) == ADDR_MASK) by {
            assert((0xffff_ffff_ffff_ffffu64 >> 24u64) << 12u64 == 0x000f_ffff_ffff_f000u64)
                by (bit_vector);
        }
        assert(((w & !0x000f_ffff_ffff_f000u64) | ((addr >> 12u64) << 12u64)) == (w
            & 0xfff0_0000_0000_0fffu64) | (addr & 0x000f_ffff_ffff_f000u64)) by (bit_vector)
            requires addr < 0x0010_0000_0000_0000u64;
        self
    }

    /// The flags of the entry.
    pub fn flags(&self) -> (r: PageEntryFlags)
        ensures
            r@ == self@ & FLAGS_MASK,
    {
        PageEntryFlags::from_bits_truncate(self.0)
    }

    /// Replaces the flags by `flags`, keeping the address.
    pub fn set_flags(&mut self, flags: PageEntryFlags) -> (r: &mut Self)
        ensures
            r@ == with_flags(old(self)@, flags@),
            *final(self) == *final(r),
    {
        self.0 = self.addr() | flags.bits();
        self
    }

    /// The frame that the entry maps, when it is present and not a huge page.
    pub fn frame(&self) -> (r: Result<Frame, FrameError>)
        ensures
            self@ & PRESENT == 0 ==> r == Err::<Frame, FrameError>(FrameError::FrameNotPresent),
            self@ & PRESENT != 0 && self@ & HUGE_PAGE != 0 ==> r == Err::<Frame, FrameError>(
                FrameError::HugeFrame),
            self@ & PRESENT != 0 && self@ & HUGE_PAGE == 0 ==> (r matches Ok(f) && f@ == self@
                & ADDR_MASK),
    {
        let flags = self.flags();
        let present = PageEntryFlags::from_bits_truncate(PRESENT);
        let huge = PageEntryFlags::from_bits_truncate(HUGE_PAGE);
        let ghost w = self.0;
        assert(PRESENT == 1 && HUGE_PAGE == 0x80) by (bit_vector)
            requires PRESENT == 1u64 << 0u64, HUGE_PAGE == 1u64 << 7u64;
        assert(1u64 & 0xfff0_0000_0000_0fffu64 == 1u64 && 0x80u64 & 0xfff0_0000_0000_0fffu64
            == 0x80u64 && ((w & 0xfff0_0000_0000_0fffu64) & 1u64 == 1u64) == (w & 1u64 != 0u64)
            && ((w & 0xfff0_0000_0000_0fffu64) & 0x80u64 == 0x80u64) == (w & 0x80u64 != 0u64))
            by (bit_vector);
        if !flags.contains(present) {
            Err(FrameError::FrameNotPresent)
        } else if flags.contains(huge) {
            Err(FrameError::HugeFrame)
        } else {
            Ok(Frame::from_addr(self.addr()))
        }
    }

    /// Maps `frame` with `flags`. A huge-page mapping is not made here.
    pub fn set_frame(&mut self, frame: Frame, flags: PageEntryFlags)
        requires
            within_physical_width(frame@),
            flags@ & HUGE_PAGE == 0,
        ensures
            final(self)@ == with_flags(with_addr(old(self)@, frame@), flags@),
    {
        self.set_addr(frame.addr()).set_flags(flags);
    }
}

/// A page table: 512 entries, all zero when made.
#[derive(Debug)]
pub struct PageTable {
    entries: Vec<PageTableEntry>,
}

impl View for PageTable {
    type V = Seq<PageTableEntry>;

    closed spec fn view(&self) -> Seq<PageTableEntry> {
        self.entries@
    }
}

impl PageTable {
    pub fn new() -> (r: Self)
        ensures
            r@.len() == ENTRY_COUNT,
            forall|i: int| 0 <= i < ENTRY_COUNT ==> (#[trigger] r@[i])@ == 0,
    {
        let zero = PageTableEntry::new();
        let r = PageTable { entries: vec![zero; 512] };
        assert forall|i: int| 0 <= i < ENTRY_COUNT implies (#[trigger] r@[i])@ == 0 by {
            assert(cloned(zero, r@[i]));
        }
        r
    }
}

/// Storing an address keeps the flags, and hands back a page-aligned
/// address within the physical width unchanged.
pub proof fn lemma_with_addr_parts(entry: u64, addr: u64)
    requires
        within_physical_width(addr),
    ensures
        with_addr(entry, addr) & FLAGS_MASK == entry & FLAGS_MASK,
        with_addr(entry, addr) & ADDR_MASK == addr & ADDR_MASK,
        addr % 4096 == 0 ==> with_addr(entry, addr) & ADDR_MASK == addr,
{
    let a = addr;
    let e = entry;
    assert(((e & 0xfff0_0000_0000_0fffu64) | (a & 0x000f_ffff_ffff_f000u64))
        & 0xfff0_0000_0000_0fffu64 == e & 0xfff0_0000_0000_0fffu64) by (bit_vector);
    assert(((e & 0xfff0_0000_0000_0fffu64) | (a & 0x000f_ffff_ffff_f000u64))
        & 0x000f_ffff_ffff_f000u64 == a & 0x000f_ffff_ffff_f000u64) by (bit_vector);
    assert(a < 0x0010_0000_0000_0000u64 && a % 4096 == 0 ==> a & 0x000f_ffff_ffff_f000u64 == a)
        by (bit_vector);
}

/// Setting the same flags twice leaves the entry as the first setting left
/// it: the flags read back as set, and the address is untouched.
pub proof fn lemma_set_flags_idempotent(entry: u64, flags: u64)
    requires
        flags & ADDR_MASK == 0,
    ensures
        with_flags(with_flags(entry, flags), flags) == with_flags(entry, flags),
        with_flags(entry, flags) & FLAGS_MASK == flags,
        with_flags(entry, flags) & ADDR_MASK == entry & ADDR_MASK,
{
    let e = entry;
    let f = flags;
    assert(f & 0x000f_ffff_ffff_f000u64 == 0 ==> ((((e & 0x000f_ffff_ffff_f000u64) | f)
        & 0x000f_ffff_ffff_f000u64) | f) == (e & 0x000f_ffff_ffff_f000u64) | f) by (bit_vector);
    assert(f & 0x000f_ffff_ffff_f000u64 == 0 ==> ((e & 0x000f_ffff_ffff_f000u64) | f)
        & 0xfff0_0000_0000_0fffu64 == f) by (bit_vector);
    assert(f & 0x000f_ffff_ffff_f000u64 == 0 ==> ((e & 0x000f_ffff_ffff_f000u64) | f)
        & 0x000f_ffff_ffff_f000u64 == e & 0x000f_ffff_ffff_f000u64) by (bit_vector);
}

/// An address with any bit at or above bit 52 set lies beyond the physical
/// width, which `set_addr` refuses.
pub proof fn lemma_beyond_width_refused(addr: u64, bit: u64)
    requires
        52 <= bit < 64,
        addr & (1u64 << bit) != 0,
    ensures
        !within_physical_width(addr),
{
    assert(52 <= bit < 64 && addr & (1u64 << bit) != 0 ==> addr >= 0x0010_0000_0000_0000u64)
        by (bit_vector);
}

/// The largest page-aligned address within the physical width is accepted
/// and stored unchanged, whatever the entry held before.
pub proof fn lemma_max_frame_addr_kept(entry: u64)
    ensures
        within_physical_width(MAX_FRAME_ADDR),
        MAX_FRAME_ADDR % 4096 == 0,
        with_addr(entry, MAX_FRAME_ADDR) & ADDR_MASK == MAX_FRAME_ADDR,
        !within_physical_width((MAX_FRAME_ADDR + 4096) as u64),
{
    lemma_with_addr_parts(entry, MAX_FRAME_ADDR);
}

} // verus!
