//! Software breakpoints: a trap opcode written over a guest byte, with the
//! original byte saved so that it can be put back.

use crate::memory::{failure_kind, mapped_at, read_byte, top_address, write_byte, MappedMemory, MemoryError};
use std::collections::HashMap;
use vm_memory::GuestAddress;
use vstd::prelude::*;

verus! {

broadcast use vstd::std_specs::hash::group_hash_axioms;

/// The x86 `INT3` instruction, which hands control to the debugger.
pub const TRAP_OPCODE: u8 = 0xcc;

/// Why a breakpoint could not be installed or removed.
#[derive(Clone, Copy, Debug, PartialEq, Eq, Structural)]
pub enum BreakpointError {
    /// A breakpoint is already installed at the address.
    AlreadyTrapped,
    /// No breakpoint is installed at the address.
    NotTrapped,
    /// The byte at the address could not be read or written.
    AddressUnmapped(MemoryError),
}

/// The table of installed software breakpoints: for each trapped guest
/// address, the byte that the trap opcode replaced. It also keeps, as a
/// ghost record, every byte written to guest memory through it, in order.
pub struct SwBreakpoints {
    saved: HashMap<u64, u8>,
    writes: Ghost<Seq<(u64, u8)>>,
}

/// Guest memory, modelled as a map from address to byte, after the writes
/// `w` are applied to `mem` in order.
pub open spec fn apply_writes(mem: Map<u64, u8>, w: Seq<(u64, u8)>) -> Map<u64, u8>
    decreases w.len(),
{
    if w.len() == 0 {
        mem
    } else {
        apply_writes(mem, w.drop_last()).insert(w.last().0, w.last().1)
    }
}

/// The table after an install at `addr` that read `current` there, or the
/// error that the install reports. The read comes first: an address that
/// cannot be read is reported as such, trapped or not.
pub open spec fn record_install(
    saved: Map<u64, u8>,
    addr: u64,
    current: Result<u8, MemoryError>,
) -> Result<Map<u64, u8>, BreakpointError> {
    match current {
        Err(e) => Err(BreakpointError::AddressUnmapped(e)),
        Ok(b) => if saved.contains_key(addr) {
            Err(BreakpointError::AlreadyTrapped)
        } else {
            Ok(saved.insert(addr, b))
        },
    }
}

/// The byte to write back at `addr` and the table once the record is gone,
/// or the error that a removal reports.
pub open spec fn record_remove(saved: Map<u64, u8>, addr: u64) -> Result<(u8, Map<u64, u8>), BreakpointError> {
    if saved.contains_key(addr) {
        Ok((saved[addr], saved.remove(addr)))
    } else {
        Err(BreakpointError::NotTrapped)
    }
}

/// Installing a breakpoint and then removing it restores memory and the
/// table. Say memory, after the writes `before` already made, holds `b` at
/// `addr`, and no breakpoint is there. An install that reads `b` saves it and
/// logs the write of the trap opcode; a removal then logs the write of the
/// saved byte and drops the record. After both writes memory is as it was,
/// and so is the table.
pub proof fn lemma_install_remove_round_trip(
    table: Map<u64, u8>,
    before: Seq<(u64, u8)>,
    mem: Map<u64, u8>,
    addr: u64,
    b: u8,
)
    requires
        !table.contains_key(addr),
        apply_writes(mem, before).contains_key(addr),
        apply_writes(mem, before)[addr] == b,
    ensures
        record_install(table, addr, Ok(b)) == Ok::<Map<u64, u8>, BreakpointError>(table.insert(addr, b)),
        record_remove(table.insert(addr, b), addr) == Ok::<(u8, Map<u64, u8>), BreakpointError>((b, table)),
        apply_writes(mem, before.push((addr, TRAP_OPCODE)))[addr] == TRAP_OPCODE,
        apply_writes(mem, before.push((addr, TRAP_OPCODE)).push((addr, table.insert(addr, b)[addr])))
            == apply_writes(mem, before),
{
    let w1 = before.push((addr, TRAP_OPCODE));
    let w2 = w1.push((addr, b));
    assert(w1.drop_last() =~= before);
    assert(w2.drop_last() =~= w1);
    assert(table.insert(addr, b).remove(addr) =~= table);
    let m = apply_writes(mem, before);
    assert(w1.last() == (addr, TRAP_OPCODE));
    assert(w2.last() == (addr, b));
    assert(apply_writes(mem, w1) == m.insert(addr, TRAP_OPCODE));
    assert(apply_writes(mem, w2) == apply_writes(mem, w1).insert(addr, b));
    assert(m.insert(addr, TRAP_OPCODE).insert(addr, b) =~= m);
}

/// A second install at a trapped address, whatever it reads there (the trap
/// opcode, in practice), is refused and leaves the table alone, so the saved
/// byte stays the true original and one removal gives it back.
pub proof fn lemma_install_twice_keeps_original(saved: Map<u64, u8>, addr: u64, first: u8, second: u8)
    requires
        !saved.contains_key(addr),
    ensures
        ({
            let trapped = record_install(saved, addr, Ok(first))->Ok_0;
            &&& record_install(trapped, addr, Ok(second)) == Err::<Map<u64, u8>, BreakpointError>(BreakpointError::AlreadyTrapped)
            &&& record_remove(trapped, addr) == Ok::<(u8, Map<u64, u8>), BreakpointError>((first, saved))
        }),
{
    assert(saved.insert(addr, first).remove(addr) =~= saved);
}

/// Installs at two different addresses give the same table, and the same
/// memory in the map model, in either order.
pub proof fn lemma_installs_commute(saved: Map<u64, u8>, mem: Map<u64, u8>, a1: u64, a2: u64, b1: u8, b2: u8)
    requires
        a1 != a2,
        !saved.contains_key(a1),
        !saved.contains_key(a2),
    ensures
        record_install(record_install(saved, a1, Ok(b1))->Ok_0, a2, Ok(b2))
            == record_install(record_install(saved, a2, Ok(b2))->Ok_0, a1, Ok(b1)),
        record_install(record_install(saved, a1, Ok(b1))->Ok_0, a2, Ok(b2)) is Ok,
        mem.insert(a1, TRAP_OPCODE).insert(a2, TRAP_OPCODE) == mem.insert(a2, TRAP_OPCODE).insert(a1, TRAP_OPCODE),
{
    assert(saved.insert(a1, b1).insert(a2, b2) =~= saved.insert(a2, b2).insert(a1, b1));
    assert(mem.insert(a1, TRAP_OPCODE).insert(a2, TRAP_OPCODE) =~= mem.insert(a2, TRAP_OPCODE).insert(a1, TRAP_OPCODE));
}

/// In the map model, if every trapped address holds the trap opcode, it
/// still does after an install that writes the trap opcode at `addr`.
pub proof fn lemma_trapped_bytes_hold_trap(saved: Map<u64, u8>, mem: Map<u64, u8>, addr: u64, b: u8)
    requires
        forall|a: u64| #[trigger] saved.contains_key(a) ==> mem.contains_key(a) && mem[a] == TRAP_OPCODE,
        record_install(saved, addr, Ok(b)) is Ok,
    ensures
        forall|a: u64| #[trigger] record_install(saved, addr, Ok(b))->Ok_0.contains_key(a)
            ==> mem.insert(addr, TRAP_OPCODE).contains_key(a) && mem.insert(addr, TRAP_OPCODE)[a] == TRAP_OPCODE,
{
    let after = saved.insert(addr, b);
    assert forall|a: u64| #[trigger] after.contains_key(a) implies mem.insert(addr, TRAP_OPCODE).contains_key(a)
        && mem.insert(addr, TRAP_OPCODE)[a] == TRAP_OPCODE by {
        if a != addr {
            assert(saved.contains_key(a));
        }
    }
}

impl View for SwBreakpoints {
    type V = Map<u64, u8>;

    closed spec fn view(&self) -> Map<u64, u8> {
        self.saved@
    }
}

impl SwBreakpoints {
    /// Every byte written to guest memory through this table, in order, as
    /// `(address, byte)`.
    pub closed spec fn writes(&self) -> Seq<(u64, u8)> {
        self.writes@
    }

    /// Writes `value` at `addr` and logs the write.
    fn write_logged(&mut self, mem: &MappedMemory, addr: GuestAddress, value: u8) -> (r: Result<(), MemoryError>)
        ensures
            final(self)@ == old(self)@,
            r is Ok <==> mapped_at(mem.backing(), addr.0),
            r is Ok ==> final(self).writes() == old(self).writes().push((addr.0, value)),
            r is Err ==> final(self).writes() == old(self).writes() && r->Err_0 == failure_kind(
                addr.0,
                top_address(mem.backing()),
            ),
    {
        let r = write_byte(mem, addr, value);
        if r.is_ok() {
            self.writes = Ghost(self.writes@.push((addr.0, value)));
        }
        r
    }

    /// An empty table.
    pub fn new() -> (r: SwBreakpoints)
        ensures
            r@ == Map::<u64, u8>::empty(),
            r.writes() == Seq::<(u64, u8)>::empty(),
    {
        SwBreakpoints { saved: HashMap::new(), writes: Ghost(Seq::empty()) }
    }

    /// Whether a breakpoint is installed at `addr`.
    pub fn is_trapped(&self, addr: GuestAddress) -> (r: bool)
        ensures
            r == self@.contains_key(addr.0),
    {
        self.saved.contains_key(&addr.0)
    }

    /// The byte that the breakpoint at `addr` replaced, if one is installed.
    pub fn original_byte(&self, addr: GuestAddress) -> (r: Option<u8>)
        ensures
            r == (if self@.contains_key(addr.0) { Some(self@[addr.0]) } else { None::<u8> }),
    {
        match self.saved.get(&addr.0) {
            Some(b) => Some(*b),
            None => None,
        }
    }

    /// Records a breakpoint at `addr`, given what reading the byte there gave,
    /// and returns the byte to write there. An address already trapped keeps
    /// its first saved byte.
    pub fn record(&mut self, addr: GuestAddress, current: Result<u8, MemoryError>) -> (r: Result<u8, BreakpointError>)
        ensures
            match record_install(old(self)@, addr.0, current) {
                Ok(s) => r == Ok::<u8, BreakpointError>(TRAP_OPCODE) && final(self)@ == s,
                Err(e) => r == Err::<u8, BreakpointError>(e) && final(self)@ == old(self)@,
            },
            final(self).writes() == old(self).writes(),
    {
        let b = match current {
            Ok(b) => b,
            Err(e) => return Err(BreakpointError::AddressUnmapped(e)),
        };
        if self.saved.contains_key(&addr.0) {
            return Err(BreakpointError::AlreadyTrapped);
        }
        self.saved.insert(addr.0, b);
        Ok(TRAP_OPCODE)
    }

    /// Installs a breakpoint at `addr`: reads the byte there, saves it, and
    /// writes the trap opcode over it. An unmapped address is reported as
    /// such; installing over an existing breakpoint changes nothing and
    /// reports `AlreadyTrapped`.
    pub fn install(&mut self, mem: &MappedMemory, addr: GuestAddress) -> (r: Result<(), BreakpointError>)
        ensures
            !mapped_at(mem.backing(), addr.0) ==> r == Err::<(), BreakpointError>(
                BreakpointError::AddressUnmapped(failure_kind(addr.0, top_address(mem.backing()))),
            ) && final(self)@ == old(self)@,
            mapped_at(mem.backing(), addr.0) && old(self)@.contains_key(addr.0) ==> r == Err::<(), BreakpointError>(
                BreakpointError::AlreadyTrapped,
            ) && final(self)@ == old(self)@,
            mapped_at(mem.backing(), addr.0) && !old(self)@.contains_key(addr.0) ==> r is Ok && exists|b: u8|
                final(self)@ == old(self)@.insert(addr.0, b),
            r is Ok ==> final(self).writes() == old(self).writes().push((addr.0, TRAP_OPCODE)),
            r is Err ==> final(self).writes() == old(self).writes(),
    {
        let current = read_byte(mem, addr);
        let trap = self.record(addr, current)?;
        match self.write_logged(mem, addr, trap) {
            Ok(()) => Ok(()),
            Err(e) => {
                self.saved.remove(&addr.0);
                assert(self@ =~= old(self)@);
                Err(BreakpointError::AddressUnmapped(e))
            },
        }
    }

    /// Removes the breakpoint at `addr`: writes the saved byte back and drops
    /// the record. If the write fails the record stays, as the trap does.
    pub fn remove(&mut self, mem: &MappedMemory, addr: GuestAddress) -> (r: Result<(), BreakpointError>)
        ensures
            !old(self)@.contains_key(addr.0) ==> r == Err::<(), BreakpointError>(BreakpointError::NotTrapped)
                && final(self)@ == old(self)@,
            old(self)@.contains_key(addr.0) && mapped_at(mem.backing(), addr.0) ==> r is Ok && final(self)@ == old(
                self,
            )@.remove(addr.0),
            old(self)@.contains_key(addr.0) && !mapped_at(mem.backing(), addr.0) ==> r == Err::<(), BreakpointError>(
                BreakpointError::AddressUnmapped(failure_kind(addr.0, top_address(mem.backing()))),
            ) && final(self)@ == old(self)@,
            r is Ok ==> final(self).writes() == old(self).writes().push((addr.0, old(self)@[addr.0])),
            r is Err ==> final(self).writes() == old(self).writes(),
    {
        let original = match self.original_byte(addr) {
            Some(b) => b,
            None => return Err(BreakpointError::NotTrapped),
        };
        match self.write_logged(mem, addr, original) {
            Ok(()) => {
                self.saved.remove(&addr.0);
                Ok(())
            },
            Err(e) => Err(BreakpointError::AddressUnmapped(e)),
        }
    }
}

/// Installs a software breakpoint at `addr` in `mem`, recording it in `bps`.
pub fn insert_sw_breakpoint(bps: &mut SwBreakpoints, mem: &MappedMemory, addr: GuestAddress) -> (r: Result<(), BreakpointError>)
    ensures
        !mapped_at(mem.backing(), addr.0) ==> r == Err::<(), BreakpointError>(
            BreakpointError::AddressUnmapped(failure_kind(addr.0, top_address(mem.backing()))),
        ) && final(bps)@ == old(bps)@,
        mapped_at(mem.backing(), addr.0) && old(bps)@.contains_key(addr.0) ==> r == Err::<(), BreakpointError>(
            BreakpointError::AlreadyTrapped,
        ) && final(bps)@ == old(bps)@,
        mapped_at(mem.backing(), addr.0) && !old(bps)@.contains_key(addr.0) ==> r is Ok && exists|b: u8|
            final(bps)@ == old(bps)@.insert(addr.0, b),
        r is Ok ==> final(bps).writes() == old(bps).writes().push((addr.0, TRAP_OPCODE)),
        r is Err ==> final(bps).writes() == old(bps).writes(),
{
    bps.install(mem, addr)
}

} // verus!
