//! The variable-length descriptor table.
//!
//! `VhostMemory` owns one contiguous byte buffer laid out as a kernel-style
//! variable-length record: a fixed-size header whose first field is the region
//! count, followed immediately by `count` fixed-size region descriptors. The
//! buffer is sized at construction, in whole header-sized cells, and its shape
//! never changes afterwards; descriptor slots are read and written through
//! bounds-checked accessors only.

use vstd::prelude::*;
use crate::codec::{u32_le_at, u64_le_at, lemma_u32_le_at_zero, lemma_u64_le_at_zero, read_u32_le,
    read_u64_le, write_u32_le, write_u64_le};
use vstd::arithmetic::div_mod::lemma_fundamental_div_mod_converse;
use core::marker::PhantomData;

verus! {

/// Byte size of the table header: a 32-bit region count and 32 bits of padding.
pub const HEADER_SIZE: usize = 8;

/// Byte size of one region descriptor: four 64-bit fields.
pub const REGION_SIZE: usize = 32;

/// Largest admissible region count; keeps the count representable in 16 bits
/// and the size arithmetic comfortably inside `usize`.
pub const MAX_REGIONS: u16 = 65535;

/// Zero-length tag marking the spot where a trailing variable-length array
/// follows a fixed-size record, as C bindings describe such records.
#[allow(non_camel_case_types)]
#[derive(Debug)]
pub struct __IncompleteArrayField<T>(PhantomData<T>);

impl<T> __IncompleteArrayField<T> {
    /// The tag carries no data of its own.
    pub fn new() -> (r: __IncompleteArrayField<T>) {
        __IncompleteArrayField(PhantomData)
    }
}

impl<T> Clone for __IncompleteArrayField<T> {
    fn clone(&self) -> (r: __IncompleteArrayField<T>) {
        __IncompleteArrayField(PhantomData)
    }
}

impl<T> Copy for __IncompleteArrayField<T> {

}

/// Header of the table record: the number of trailing region descriptors,
/// padding that is always zero, and the tag of the trailing array.
#[allow(non_camel_case_types)]
#[derive(Clone, Copy, Debug)]
pub struct vhost_memory {
    pub nregions: u32,
    pub padding: u32,
    pub regions: __IncompleteArrayField<vhost_memory_region>,
}

/// One guest-memory region descriptor: guest physical base address, byte
/// size, host mapping address, and a flags/padding word.
#[allow(non_camel_case_types)]
#[derive(Clone, Copy, Debug, PartialEq, Eq, Structural)]
pub struct vhost_memory_region {
    pub guest_phys_addr: u64,
    pub memory_size: u64,
    pub userspace_addr: u64,
    pub flags_padding: u64,
}

/// The one error this table raises: a read or write aimed at a descriptor
/// slot that does not exist (index at or past the declared capacity, or a
/// table of capacity zero).
#[derive(Clone, Copy, Debug, PartialEq, Eq, Structural)]
pub enum Error {
    InvalidMemoryTableIndex,
}

/// The all-zero descriptor every slot starts as.
pub open spec fn zero_region() -> vhost_memory_region {
    vhost_memory_region { guest_phys_addr: 0, memory_size: 0, userspace_addr: 0, flags_padding: 0 }
}

/// The descriptor stored in buffer `b` at slot `i`: four 64-bit fields,
/// little-endian, starting right after the header.
pub open spec fn region_at(b: Seq<u8>, i: int) -> vhost_memory_region {
    let base = HEADER_SIZE as int + i * (REGION_SIZE as int);
    vhost_memory_region {
        guest_phys_addr: u64_le_at(b, base),
        memory_size: u64_le_at(b, base + 8),
        userspace_addr: u64_le_at(b, base + 16),
        flags_padding: u64_le_at(b, base + 24),
    }
}

/// Owner of one contiguous buffer holding a header plus a trailing array of
/// region descriptors, exactly as a kernel acceleration interface expects to
/// receive them in a single allocation.
pub struct VhostMemory {
    buf: Vec<u8>,
}

impl View for VhostMemory {
    type V = Seq<vhost_memory_region>;

    /// The table abstractly: the sequence of its descriptor slots.
    closed spec fn view(&self) -> Seq<vhost_memory_region> {
        Seq::new(self.spec_capacity(), |i: int| region_at(self.buf@, i))
    }
}

impl VhostMemory {
    /// The backing buffer's bytes, for contracts about the exported block.
    pub closed spec fn spec_bytes(&self) -> Seq<u8> {
        self.buf@
    }

    /// The declared capacity: the count stored in the header, or zero for the
    /// empty table, which holds no header at all.
    pub closed spec fn spec_capacity(&self) -> nat {
        if self.buf@.len() == 0 {
            0
        } else {
            u32_le_at(self.buf@, 0) as nat
        }
    }

    /// Shape invariant, established at construction and kept for life: either
    /// the table is empty, or the buffer is exactly one header followed by
    /// `capacity` descriptor slots, the count field holds that capacity, and
    /// the header padding is zero.
    pub closed spec fn well_formed(&self) -> bool {
        let b = self.buf@;
        b.len() != 0 ==> {
            &&& 0 < u32_le_at(b, 0) <= MAX_REGIONS
            &&& b.len() == HEADER_SIZE as int + (u32_le_at(b, 0) as int) * (REGION_SIZE as int)
            &&& forall|j: int| 4 <= j < 8 ==> b[j] == 0
        }
    }

    /// Builds a table with room for `entries` descriptors: allocates whole
    /// header-sized cells until the header and the trailing array fit, zeroes
    /// everything, and stores the count in the header. With `entries == 0`
    /// no cell is allocated and every accessor reports an empty table.
    pub fn new(entries: u16) -> (r: VhostMemory)
        ensures
            r.well_formed(),
            r.spec_capacity() == entries as nat,
            r@.len() == entries as nat,
            forall|i: int| 0 <= i < entries as int ==> r@[i] == zero_region(),
            r.spec_bytes().len() == if entries == 0 {
                0int
            } else {
                HEADER_SIZE as int + (entries as int) * (REGION_SIZE as int)
            },
    {
        if entries == 0 {
            return VhostMemory { buf: Vec::new() };
        }
        let region_space: usize = REGION_SIZE * (entries as usize);
        let total: usize = HEADER_SIZE + region_space;
        // Whole header-sized cells, rounded up so the allocation is never short.
        let cells: usize = (total + HEADER_SIZE - 1) / HEADER_SIZE;
        proof {
            let m: int = 1 + 4 * (entries as int);
            assert(total == HEADER_SIZE * m);
            lemma_fundamental_div_mod_converse(total as int + 7, 8, m, 7);
        }
        let len: usize = cells * HEADER_SIZE;
        assert(len == total);
        let mut buf: Vec<u8> = Vec::new();
        let mut i: usize = 0;
        while i < len
            invariant
                i <= len,
                buf@.len() == i,
                forall|j: int| 0 <= j < i ==> buf@[j] == 0,
            decreases len - i,
        {
            buf.push(0u8);
            i = i + 1;
        }
        write_u32_le(&mut buf, 0, entries as u32);
        let r = VhostMemory { buf };
        proof {
            let b = r.buf@;
            assert forall|k: int| 0 <= k < entries as int implies r@[k] == zero_region() by {
                let base = HEADER_SIZE as int + k * (REGION_SIZE as int);
                lemma_u64_le_at_zero(b, base);
                lemma_u64_le_at_zero(b, base + 8);
                lemma_u64_le_at_zero(b, base + 16);
                lemma_u64_le_at_zero(b, base + 24);
            }
        }
        r
    }

    /// The header, present iff the table has any capacity; its count field
    /// reports the capacity and its padding is zero.
    pub fn get_header(&self) -> (r: Option<vhost_memory>)
        requires
            self.well_formed(),
        ensures
            (r is Some) <==> self.spec_capacity() > 0,
            r is Some ==> r->Some_0.nregions as nat == self.spec_capacity(),
            r is Some ==> r->Some_0.padding == 0,
    {
        if self.buf.len() == 0 {
            return None;
        }
        let nregions = read_u32_le(&self.buf, 0);
        let padding = read_u32_le(&self.buf, 4);
        proof {
            lemma_u32_le_at_zero(self.buf@, 4);
        }
        Some(vhost_memory { nregions, padding, regions: __IncompleteArrayField::new() })
    }

    /// Bounds-checked read of one descriptor slot: absent iff `index` names
    /// no slot, otherwise exactly the descriptor stored there.
    pub fn get_region(&self, index: u32) -> (r: Option<vhost_memory_region>)
        requires
            self.well_formed(),
        ensures
            (r is Some) <==> (index as nat) < self.spec_capacity(),
            r is Some ==> r->Some_0 == self@[index as int],
    {
        if self.buf.len() == 0 {
            return None;
        }
        let nregions = read_u32_le(&self.buf, 0);
        if index >= nregions {
            return None;
        }
        let base: usize = HEADER_SIZE + REGION_SIZE * (index as usize);
        let guest_phys_addr = read_u64_le(&self.buf, base);
        let memory_size = read_u64_le(&self.buf, base + 8);
        let userspace_addr = read_u64_le(&self.buf, base + 16);
        let flags_padding = read_u64_le(&self.buf, base + 24);
        Some(vhost_memory_region { guest_phys_addr, memory_size, userspace_addr, flags_padding })
    }

    /// Bounds-checked overwrite of one descriptor slot. Succeeds iff `index`
    /// names a slot; then that slot holds a field-for-field copy of `region`
    /// and nothing else about the table changes. On a bad index the table is
    /// left untouched.
    pub fn set_region(&mut self, index: u32, region: &vhost_memory_region) -> (r: Result<
        (),
        Error,
    >)
        requires
            old(self).well_formed(),
        ensures
            final(self).well_formed(),
            final(self).spec_capacity() == old(self).spec_capacity(),
            (r is Ok) <==> (index as nat) < old(self).spec_capacity(),
            r is Ok ==> final(self)@ == old(self)@.update(index as int, *region),
            r is Err ==> final(self)@ == old(self)@ && final(self).spec_bytes() == old(
                self,
            ).spec_bytes(),
            r is Err ==> r->Err_0 == Error::InvalidMemoryTableIndex,
    {
        if self.buf.len() == 0 {
            return Err(Error::InvalidMemoryTableIndex);
        }
        let nregions = read_u32_le(&self.buf, 0);
        if index >= nregions {
            return Err(Error::InvalidMemoryTableIndex);
        }
        let base: usize = HEADER_SIZE + REGION_SIZE * (index as usize);
        write_u64_le(&mut self.buf, base, region.guest_phys_addr);
        write_u64_le(&mut self.buf, base + 8, region.memory_size);
        write_u64_le(&mut self.buf, base + 16, region.userspace_addr);
        write_u64_le(&mut self.buf, base + 24, region.flags_padding);
        proof {
            let bo = old(self).buf@;
            let bn = self.buf@;
            assert forall|j: int| 0 <= j < bn.len() && !(base <= j < base + REGION_SIZE as int)
                implies bn[j] == bo[j] by {}
            assert(u32_le_at(bn, 0) == u32_le_at(bo, 0));
            assert(self.well_formed());
            assert forall|k: int| 0 <= k < old(self)@.len() && k != index as int implies self@[k]
                == old(self)@[k] by {
                let rbase = HEADER_SIZE as int + k * (REGION_SIZE as int);
                assert(forall|j: int| rbase <= j < rbase + REGION_SIZE as int ==> bn[j] == bo[j]);
            }
            assert(self@[index as int] == *region);
            assert(self@ =~= old(self)@.update(index as int, *region));
        }
        Ok(())
    }

    /// Read-only view of the whole backing allocation, or absent for the
    /// empty table — the safe stand-in for a start-of-storage pointer that is
    /// null when no storage exists. The borrow ends with the table.
    pub fn as_ptr(&self) -> (r: Option<&[u8]>)
        requires
            self.well_formed(),
        ensures
            (r is Some) <==> self.spec_capacity() > 0,
            r is Some ==> r->Some_0@ == self.spec_bytes(),
            r is Some ==> r->Some_0@.len() == HEADER_SIZE as int + (self.spec_capacity() as int)
                * (REGION_SIZE as int),
    {
        if self.buf.len() == 0 {
            None
        } else {
            Some(self.buf.as_slice())
        }
    }

    /// Read-only export of the record for the privileged transport layer, or
    /// absent for the empty table. The exported block is exactly one header —
    /// count field first, then zero padding — followed by the descriptor
    /// slots in order, so a pointer to its first byte is a valid instance of
    /// the kernel-defined record for its whole length.
    pub fn raw_header_ptr(&self) -> (r: Option<&[u8]>)
        requires
            self.well_formed(),
        ensures
            (r is Some) <==> self.spec_capacity() > 0,
            r is Some ==> {
                let b = r->Some_0@;
                &&& b == self.spec_bytes()
                &&& b.len() == HEADER_SIZE as int + (self.spec_capacity() as int) * (REGION_SIZE
                    as int)
                &&& u32_le_at(b, 0) as nat == self.spec_capacity()
                &&& u32_le_at(b, 4) == 0
                &&& forall|i: int| 0 <= i < self.spec_capacity() ==> region_at(b, i) == self@[i]
            },
    {
        if self.buf.len() == 0 {
            None
        } else {
            proof {
                lemma_u32_le_at_zero(self.buf@, 4);
            }
            Some(self.buf.as_slice())
        }
    }

    /// Writable export of the record for the privileged transport layer. The
    /// empty table hands out the empty slice — the safe stand-in for a null
    /// pointer. A caller that leaves the bytes as they are leaves the table
    /// as it was.
    pub fn raw_header_mut_ptr(&mut self) -> (r: &mut [u8])
        requires
            old(self).well_formed(),
        ensures
            r@ == old(self).spec_bytes(),
            final(self).spec_bytes() == final(r)@,
            (r@.len() == 0) <==> (old(self).spec_capacity() == 0),
            old(self).spec_capacity() > 0 ==> u32_le_at(r@, 0) as nat == old(self).spec_capacity(),
            final(r)@ == r@ ==> final(self).well_formed() && final(self).spec_capacity() == old(
                self,
            ).spec_capacity() && final(self)@ == old(self)@,
    {
        self.buf.as_mut_slice()
    }
}

/// Writing the same descriptor to the same slot twice yields the same
/// observable table state as writing it once.
pub proof fn lemma_set_region_idempotent(
    regions: Seq<vhost_memory_region>,
    index: int,
    value: vhost_memory_region,
)
    requires
        0 <= index < regions.len(),
    ensures
        regions.update(index, value).update(index, value) == regions.update(index, value),
{
    assert(regions.update(index, value).update(index, value) =~= regions.update(index, value));
}

/// After a successful write of `value` at `index`, a read of `index` yields
/// exactly `value`, and every other slot still holds what it held before.
pub proof fn lemma_write_read_round_trip(
    regions: Seq<vhost_memory_region>,
    index: int,
    value: vhost_memory_region,
)
    requires
        0 <= index < regions.len(),
    ensures
        regions.update(index, value)[index] == value,
        regions.update(index, value).len() == regions.len(),
        forall|j: int|
            0 <= j < regions.len() && j != index ==> regions.update(index, value)[j] == regions[j],
{
}

} // verus!
