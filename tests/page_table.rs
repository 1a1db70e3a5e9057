use blog_os::virtual_memory::frame::Frame;
use blog_os::virtual_memory::page_table::{
    FrameError, PageEntryFlags, PageTable, PageTableEntry, HUGE_PAGE, MAX_FRAME_ADDR, NO_EXECUTE,
    PRESENT, WRITABLE,
};

fn entry_with(addr: u64, flags: u64) -> PageTableEntry {
    let mut e = PageTableEntry::new();
    e.set_addr(addr).set_flags(PageEntryFlags::from_bits_truncate(flags));
    e
}

#[test]
fn frame_of_present_entry() {
    let e = entry_with(0x1000, PRESENT | WRITABLE);
    match e.frame() {
        Ok(f) => assert_eq!(f.addr(), 0x1000),
        Err(_) => panic!("expected a frame"),
    }
}

#[test]
fn frame_of_huge_entry() {
    let e = entry_with(0x1000, PRESENT | WRITABLE | HUGE_PAGE);
    assert!(matches!(e.frame(), Err(FrameError::HugeFrame)));
}

#[test]
fn frame_of_zero_entry() {
    let e = PageTableEntry::new();
    assert!(matches!(e.frame(), Err(FrameError::FrameNotPresent)));
    let e = entry_with(0x1000, WRITABLE);
    assert!(matches!(e.frame(), Err(FrameError::FrameNotPresent)));
}

#[test]
fn set_flags_twice_is_idempotent() {
    let mut e = entry_with(0x0000_1234_5678_9000, PRESENT);
    let f = PageEntryFlags::from_bits_truncate(PRESENT | WRITABLE | NO_EXECUTE);
    e.set_flags(f);
    let once = e.flags().bits();
    e.set_flags(f);
    assert_eq!(e.flags().bits(), once);
    assert_eq!(once, PRESENT | WRITABLE | NO_EXECUTE);
    assert_eq!(e.addr(), 0x0000_1234_5678_9000);
}

#[test]
fn max_address_kept() {
    let mut e = PageTableEntry::new();
    e.set_flags(PageEntryFlags::from_bits_truncate(PRESENT));
    e.set_addr(MAX_FRAME_ADDR);
    assert_eq!(e.addr(), 0x000f_ffff_ffff_f000);
    assert_eq!(e.flags().bits(), PRESENT);
}

#[test]
fn set_addr_drops_offset_bits() {
    let mut e = PageTableEntry::new();
    e.set_addr(0x1234);
    assert_eq!(e.addr(), 0x1000);
}

#[test]
fn flags_drop_address_bits() {
    let f = PageEntryFlags::from_bits_truncate(0xffff_ffff_ffff_ffff);
    assert_eq!(f.bits(), 0xfff0_0000_0000_0fff);
    assert!(f.contains(PageEntryFlags::from_bits_truncate(HUGE_PAGE)));
    assert!(!PageEntryFlags::empty().contains(PageEntryFlags::from_bits_truncate(PRESENT)));
    let u = PageEntryFlags::from_bits_truncate(PRESENT)
        .union(PageEntryFlags::from_bits_truncate(WRITABLE));
    assert_eq!(u.bits(), 3);
}

#[test]
fn set_frame_maps_frame() {
    let mut e = PageTableEntry::new();
    e.set_frame(Frame::from_addr(0x20_0000), PageEntryFlags::from_bits_truncate(PRESENT | WRITABLE));
    assert_eq!(e.addr(), 0x20_0000);
    assert_eq!(e.flags().bits(), 3);
    match e.frame() {
        Ok(f) => assert_eq!(f.addr(), 0x20_0000),
        Err(_) => panic!("expected a frame"),
    }
}

#[test]
fn page_table_starts_empty() {
    let _t = PageTable::new();
    assert_eq!(Frame::from_addr(0x5000).addr(), 0x5000);
}
