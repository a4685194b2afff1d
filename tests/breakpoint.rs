use vm_memory::{Bytes, GuestAddress};
use vmm_balloon::breakpoint::{insert_sw_breakpoint, BreakpointError, SwBreakpoints, TRAP_OPCODE};
use vmm_balloon::memory::{classify_failure, read_byte, write_byte, MappedMemory, MemoryError};

fn memory() -> MappedMemory {
    MappedMemory::from_ranges(&[(GuestAddress(0x1000), 0x1000), (GuestAddress(0x4000), 0x1000)]).unwrap()
}

#[test]
fn install_then_remove_restores_byte() {
    let mem = memory();
    mem.guest_memory().write_obj(0x90u8, GuestAddress(0x1000)).unwrap();
    let mut bps = SwBreakpoints::new();
    assert_eq!(bps.install(&mem, GuestAddress(0x1000)), Ok(()));
    assert_eq!(mem.guest_memory().read_obj::<u8>(GuestAddress(0x1000)).unwrap(), TRAP_OPCODE);
    assert_eq!(TRAP_OPCODE, 0xcc);
    assert_eq!(bps.original_byte(GuestAddress(0x1000)), Some(0x90));
    assert_eq!(bps.remove(&mem, GuestAddress(0x1000)), Ok(()));
    assert_eq!(mem.guest_memory().read_obj::<u8>(GuestAddress(0x1000)).unwrap(), 0x90);
    assert!(!bps.is_trapped(GuestAddress(0x1000)));
}

#[test]
fn round_trip_for_every_byte() {
    let mem = memory();
    let mut bps = SwBreakpoints::new();
    for b in 0u8..=255 {
        mem.guest_memory().write_obj(b, GuestAddress(0x1800)).unwrap();
        bps.install(&mem, GuestAddress(0x1800)).unwrap();
        bps.remove(&mem, GuestAddress(0x1800)).unwrap();
        assert_eq!(mem.guest_memory().read_obj::<u8>(GuestAddress(0x1800)).unwrap(), b);
    }
}

#[test]
fn install_twice_keeps_true_original() {
    let mem = memory();
    mem.guest_memory().write_obj(0x55u8, GuestAddress(0x1010)).unwrap();
    let mut bps = SwBreakpoints::new();
    assert_eq!(insert_sw_breakpoint(&mut bps, &mem, GuestAddress(0x1010)), Ok(()));
    assert_eq!(
        insert_sw_breakpoint(&mut bps, &mem, GuestAddress(0x1010)),
        Err(BreakpointError::AlreadyTrapped)
    );
    assert_eq!(bps.original_byte(GuestAddress(0x1010)), Some(0x55));
    assert_eq!(mem.guest_memory().read_obj::<u8>(GuestAddress(0x1010)).unwrap(), 0xcc);
    bps.remove(&mem, GuestAddress(0x1010)).unwrap();
    assert_eq!(mem.guest_memory().read_obj::<u8>(GuestAddress(0x1010)).unwrap(), 0x55);
}

#[test]
fn remove_without_install_fails() {
    let mem = memory();
    let mut bps = SwBreakpoints::new();
    assert_eq!(bps.remove(&mem, GuestAddress(0x1000)), Err(BreakpointError::NotTrapped));
    bps.install(&mem, GuestAddress(0x1000)).unwrap();
    bps.remove(&mem, GuestAddress(0x1000)).unwrap();
    assert_eq!(bps.remove(&mem, GuestAddress(0x1000)), Err(BreakpointError::NotTrapped));
}

#[test]
fn install_in_gap_is_unmapped() {
    let mem = memory();
    let mut bps = SwBreakpoints::new();
    assert_eq!(
        bps.install(&mem, GuestAddress(0x2800)),
        Err(BreakpointError::AddressUnmapped(MemoryError::UnmappedGap))
    );
    assert!(!bps.is_trapped(GuestAddress(0x2800)));
}

#[test]
fn install_past_end_is_out_of_bounds() {
    let mem = memory();
    let mut bps = SwBreakpoints::new();
    assert_eq!(
        bps.install(&mem, GuestAddress(0x9000)),
        Err(BreakpointError::AddressUnmapped(MemoryError::OutOfBounds))
    );
    assert_eq!(
        bps.install(&mem, GuestAddress(0x0)),
        Err(BreakpointError::AddressUnmapped(MemoryError::UnmappedGap))
    );
}

#[test]
fn record_keeps_first_saved_byte() {
    let mut bps = SwBreakpoints::new();
    assert_eq!(bps.record(GuestAddress(8), Ok(0x12)), Ok(TRAP_OPCODE));
    assert_eq!(bps.record(GuestAddress(8), Ok(0xcc)), Err(BreakpointError::AlreadyTrapped));
    assert_eq!(bps.original_byte(GuestAddress(8)), Some(0x12));
    assert_eq!(
        bps.record(GuestAddress(9), Err(MemoryError::OutOfBounds)),
        Err(BreakpointError::AddressUnmapped(MemoryError::OutOfBounds))
    );
    assert_eq!(bps.original_byte(GuestAddress(9)), None);
    assert_eq!(
        bps.record(GuestAddress(8), Err(MemoryError::UnmappedGap)),
        Err(BreakpointError::AddressUnmapped(MemoryError::UnmappedGap))
    );
    assert_eq!(bps.original_byte(GuestAddress(8)), Some(0x12));
}

#[test]
fn install_at_edges_of_memory() {
    let mem = MappedMemory::from_ranges(&[(GuestAddress(0), 0x2000)]).unwrap();
    let mut bps = SwBreakpoints::new();
    assert_eq!(
        insert_sw_breakpoint(&mut bps, &mem, GuestAddress(0x2000)),
        Err(BreakpointError::AddressUnmapped(MemoryError::OutOfBounds))
    );
    assert_eq!(
        insert_sw_breakpoint(&mut bps, &mem, GuestAddress(u64::MAX)),
        Err(BreakpointError::AddressUnmapped(MemoryError::OutOfBounds))
    );
    assert!(!bps.is_trapped(GuestAddress(0x2000)));
    assert_eq!(insert_sw_breakpoint(&mut bps, &mem, GuestAddress(0x1fff)), Ok(()));
    assert_eq!(mem.guest_memory().read_obj::<u8>(GuestAddress(0x1fff)).unwrap(), 0xcc);
    assert_eq!(mem.guest_memory().read_obj::<u8>(GuestAddress(0x1ffe)).unwrap(), 0);
}

#[test]
fn installs_at_two_addresses_commute() {
    let a = MappedMemory::from_ranges(&[(GuestAddress(0), 0x2000)]).unwrap();
    let b = MappedMemory::from_ranges(&[(GuestAddress(0), 0x2000)]).unwrap();
    for m in [&a, &b] {
        m.guest_memory().write_obj(0x11u8, GuestAddress(0x10)).unwrap();
        m.guest_memory().write_obj(0x22u8, GuestAddress(0x20)).unwrap();
    }
    let mut ta = SwBreakpoints::new();
    let mut tb = SwBreakpoints::new();
    ta.install(&a, GuestAddress(0x10)).unwrap();
    ta.install(&a, GuestAddress(0x20)).unwrap();
    tb.install(&b, GuestAddress(0x20)).unwrap();
    tb.install(&b, GuestAddress(0x10)).unwrap();
    for addr in [0x10u64, 0x20] {
        assert_eq!(a.guest_memory().read_obj::<u8>(GuestAddress(addr)).unwrap(), 0xcc);
        assert_eq!(b.guest_memory().read_obj::<u8>(GuestAddress(addr)).unwrap(), 0xcc);
        assert_eq!(ta.original_byte(GuestAddress(addr)), tb.original_byte(GuestAddress(addr)));
    }
    assert_eq!(ta.original_byte(GuestAddress(0x10)), Some(0x11));
    assert_eq!(ta.original_byte(GuestAddress(0x20)), Some(0x22));
}

#[test]
fn byte_access_reads_and_writes() {
    let mem = memory();
    assert_eq!(write_byte(&mem, GuestAddress(0x4fff), 0xab), Ok(()));
    assert_eq!(read_byte(&mem, GuestAddress(0x4fff)), Ok(0xab));
    assert_eq!(read_byte(&mem, GuestAddress(0x5000)), Err(MemoryError::OutOfBounds));
    assert_eq!(write_byte(&mem, GuestAddress(0x3000), 1), Err(MemoryError::UnmappedGap));
}

#[test]
fn classify_failure_by_top_address() {
    assert_eq!(classify_failure(GuestAddress(11), GuestAddress(10)), MemoryError::OutOfBounds);
    assert_eq!(classify_failure(GuestAddress(10), GuestAddress(10)), MemoryError::UnmappedGap);
    assert_eq!(classify_failure(GuestAddress(0), GuestAddress(10)), MemoryError::UnmappedGap);
}

#[test]
fn mapped_memory_rejects_bad_layouts() {
    assert!(MappedMemory::from_ranges(&[]).is_none());
    assert!(MappedMemory::from_ranges(&[(GuestAddress(0), 0x2000), (GuestAddress(0x1000), 0x1000)]).is_none());
    let mem = MappedMemory::from_ranges(&[(GuestAddress(0x1000), 0x10)]).unwrap();
    assert_eq!(read_byte(&mem, GuestAddress(0)), Err(MemoryError::UnmappedGap));
    assert_eq!(read_byte(&mem, GuestAddress(0x1010)), Err(MemoryError::OutOfBounds));
}
