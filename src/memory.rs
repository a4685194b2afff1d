//! Byte access to guest-physical memory backed by `vm_memory` regions.

use vm_memory::mmap::FromRangesError;
use vm_memory::{Bytes, GuestAddress, GuestMemoryBackend, GuestMemoryError, GuestMemoryMmap};
use vstd::prelude::*;

verus! {

#[verifier::external_type_specification]
pub struct ExGuestAddress(vm_memory::GuestAddress);

#[verifier::external_type_specification]
#[verifier::external_body]
#[verifier::reject_recursive_types(R)]
pub struct ExGuestRegionCollection<R>(vm_memory::GuestRegionCollection<R>);

#[verifier::external_type_specification]
#[verifier::external_body]
#[verifier::reject_recursive_types(B)]
pub struct ExGuestRegionMmap<B>(vm_memory::GuestRegionMmap<B>);

#[verifier::external_type_specification]
#[verifier::external_body]
pub struct ExGuestMemoryError(vm_memory::GuestMemoryError);

#[verifier::external_type_specification]
#[verifier::external_body]
pub struct ExFromRangesError(vm_memory::mmap::FromRangesError);

/// Whether every region of `mem` is mapped with read and write permission,
/// so that a byte access inside a region returns rather than faults.
pub uninterp spec fn accessible(mem: GuestMemoryMmap) -> bool;

/// Relies on `GuestMemoryMmap::from_ranges` of `vm_memory`: each region is an
/// anonymous mapping made by `MmapRegion::new`, with read and write permission.
#[verifier::external_body]
fn mmap_from_ranges(ranges: &[(GuestAddress, usize)]) -> (r: Result<GuestMemoryMmap, FromRangesError>)
    ensures
        r is Ok ==> accessible(r->Ok_0),
{
    GuestMemoryMmap::<()>::from_ranges(ranges)
}

/// Guest memory whose every region can be read and written.
pub struct MappedMemory {
    mem: GuestMemoryMmap,
}

impl MappedMemory {
    #[verifier::type_invariant]
    spec fn inv(&self) -> bool {
        accessible(self.mem)
    }

    /// The underlying region collection.
    pub closed spec fn backing(&self) -> GuestMemoryMmap {
        self.mem
    }

    /// Allocates anonymous guest memory for the given `(start, size)` ranges,
    /// sorted by start address. `None` when the ranges are empty, overlap or
    /// overflow, or the host refuses the mapping.
    pub fn from_ranges(ranges: &[(GuestAddress, usize)]) -> (r: Option<MappedMemory>) {
        match mmap_from_ranges(ranges) {
            Ok(mem) => Some(MappedMemory { mem }),
            Err(_) => None,
        }
    }

    /// The underlying region collection, for access by other means.
    pub fn guest_memory(&self) -> (r: &GuestMemoryMmap)
        ensures
            *r == self.backing(),
    {
        &self.mem
    }
}

/// Why an access to guest memory failed.
#[derive(Clone, Copy, Debug, PartialEq, Eq, Structural)]
pub enum MemoryError {
    /// The address lies above every mapped region.
    OutOfBounds,
    /// The address lies below the top of guest memory, in a hole between regions.
    UnmappedGap,
}

/// How a failed access at `addr` is classified, given the highest mapped address.
pub open spec fn failure_kind(addr: u64, last: u64) -> MemoryError {
    if addr > last {
        MemoryError::OutOfBounds
    } else {
        MemoryError::UnmappedGap
    }
}

/// Whether some region of `mem` maps the byte at `addr`. The regions of a
/// guest memory value are fixed when it is built.
pub uninterp spec fn mapped_at(mem: GuestMemoryMmap, addr: u64) -> bool;

/// Relies on `Bytes::read_obj::<u8>` of `vm_memory`: reads one byte at `addr`,
/// which succeeds exactly when a region maps `addr` (`find_region`). Guest
/// memory is shared with the running guest, so nothing is promised of the
/// value read.
#[verifier::external_body]
fn read_obj_u8(mem: &GuestMemoryMmap, addr: GuestAddress) -> (r: Result<u8, GuestMemoryError>)
    requires
        accessible(*mem),
    ensures
        r is Ok <==> mapped_at(*mem, addr.0),
{
    mem.read_obj::<u8>(addr)
}

/// Relies on `Bytes::write_obj::<u8>` of `vm_memory`: writes one byte at
/// `addr`, which succeeds exactly when a region maps `addr` (`find_region`).
#[verifier::external_body]
fn write_obj_u8(mem: &GuestMemoryMmap, value: u8, addr: GuestAddress) -> (r: Result<(), GuestMemoryError>)
    requires
        accessible(*mem),
    ensures
        r is Ok <==> mapped_at(*mem, addr.0),
{
    mem.write_obj::<u8>(value, addr)
}

/// The highest address that any region of `mem` maps. The regions of a
/// guest memory value are fixed when it is built.
pub uninterp spec fn top_address(mem: GuestMemoryMmap) -> u64;

/// Relies on `GuestMemoryBackend::last_addr` of `vm_memory`: the highest
/// address of any mapped region, which depends on the region layout alone.
#[verifier::external_body]
fn mapped_last_addr(mem: &GuestMemoryMmap) -> (r: GuestAddress)
    ensures
        r.0 == top_address(*mem),
{
    mem.last_addr()
}

/// Classifies a failed access at `addr` against the highest mapped address `last`.
pub fn classify_failure(addr: GuestAddress, last: GuestAddress) -> (r: MemoryError)
    ensures
        r == failure_kind(addr.0, last.0),
{
    if addr.0 > last.0 {
        MemoryError::OutOfBounds
    } else {
        MemoryError::UnmappedGap
    }
}

/// Reads the byte at `addr`. A failure is classified by where `addr` lies
/// relative to the mapped regions.
pub fn read_byte(mem: &MappedMemory, addr: GuestAddress) -> (r: Result<u8, MemoryError>)
    ensures
        r is Ok <==> mapped_at(mem.backing(), addr.0),
        r is Err ==> r->Err_0 == failure_kind(addr.0, top_address(mem.backing())),
{
    proof {
        use_type_invariant(mem);
    }
    match read_obj_u8(&mem.mem, addr) {
        Ok(b) => Ok(b),
        Err(_) => {
            let last = mapped_last_addr(&mem.mem);
            Err(classify_failure(addr, last))
        },
    }
}

/// Writes `value` at `addr`; the guest sees the new byte at once.
pub fn write_byte(mem: &MappedMemory, addr: GuestAddress, value: u8) -> (r: Result<(), MemoryError>)
    ensures
        r is Ok <==> mapped_at(mem.backing(), addr.0),
        r is Err ==> r->Err_0 == failure_kind(addr.0, top_address(mem.backing())),
{
    proof {
        use_type_invariant(mem);
    }
    match write_obj_u8(&mem.mem, value, addr) {
        Ok(()) => Ok(()),
        Err(_) => {
            let last = mapped_last_addr(&mem.mem);
            Err(classify_failure(addr, last))
        },
    }
}

} // verus!
