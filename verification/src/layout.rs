//! The memory layout contract: the boundary addresses that the linked image
//! supplies to the reset sequence.

use vstd::prelude::*;

verus! {

/// Boundary addresses of the statically allocated memory of a program.
///
/// Every region is half open: it holds the addresses from its start up to,
/// but not including, its end. A region whose end does not lie above its
/// start is empty.
#[derive(Clone, Copy, Debug, PartialEq, Eq, Structural)]
pub struct MemoryLayout {
    /// First address of the region that must read as zero.
    pub zero_start: u16,
    /// End of the region that must read as zero.
    pub zero_end: u16,
    /// First address of the region that is seeded with initial values.
    pub data_start: u16,
    /// End of the region that is seeded with initial values.
    pub data_end: u16,
    /// Address in read-only storage of the initial values.
    pub data_source: u16,
    /// Address loaded into the stack pointer on reset.
    pub stack_top: u16,
}

/// A way in which a layout breaks the contract.
#[derive(Clone, Copy, Debug, PartialEq, Eq, Structural)]
pub enum LayoutError {
    /// A boundary address is not aligned to a 16-bit word.
    Misaligned,
    /// A region ends below its start.
    Inverted,
    /// A region, or the storage its initial values are read from, reaches
    /// beyond the end of memory.
    OutOfBounds,
    /// Two of the zeroed region, the seeded region and the storage of the
    /// initial values share an address.
    Overlap,
}

/// Whether the ranges `[a_start, a_end)` and `[b_start, b_end)` have no
/// address in common.
pub open spec fn ranges_disjoint(a_start: int, a_end: int, b_start: int, b_end: int) -> bool {
    a_end <= a_start || b_end <= b_start || a_end <= b_start || b_end <= a_start
}

impl MemoryLayout {
    /// Number of bytes in the seeded region.
    pub open spec fn data_len(&self) -> int {
        if self.data_start <= self.data_end {
            self.data_end - self.data_start
        } else {
            0
        }
    }

    /// End of the storage that the initial values are read from.
    pub open spec fn source_end(&self) -> int {
        self.data_source + self.data_len()
    }

    /// Every address that initialization reads or writes lies in a memory of
    /// `len` bytes.
    pub open spec fn in_bounds(&self, len: int) -> bool {
        &&& self.zero_start < self.zero_end ==> self.zero_end <= len
        &&& self.data_start < self.data_end ==> self.data_end <= len && self.source_end() <= len
    }

    /// Every boundary address is a multiple of two.
    pub open spec fn aligned(&self) -> bool {
        &&& self.zero_start % 2 == 0
        &&& self.zero_end % 2 == 0
        &&& self.data_start % 2 == 0
        &&& self.data_end % 2 == 0
        &&& self.data_source % 2 == 0
        &&& self.stack_top % 2 == 0
    }

    /// No region ends below its start.
    pub open spec fn ordered(&self) -> bool {
        self.zero_start <= self.zero_end && self.data_start <= self.data_end
    }

    /// The zeroed region, the seeded region and the storage of the initial
    /// values are pairwise disjoint.
    pub open spec fn disjoint(&self) -> bool {
        &&& ranges_disjoint(
            self.zero_start as int,
            self.zero_end as int,
            self.data_start as int,
            self.data_end as int,
        )
        &&& ranges_disjoint(
            self.zero_start as int,
            self.zero_end as int,
            self.data_source as int,
            self.source_end(),
        )
        &&& ranges_disjoint(
            self.data_start as int,
            self.data_end as int,
            self.data_source as int,
            self.source_end(),
        )
    }

    /// The layout keeps the whole contract for a memory of `len` bytes.
    pub open spec fn valid(&self, len: int) -> bool {
        self.aligned() && self.ordered() && self.in_bounds(len) && self.disjoint()
    }

    /// The verdict on the layout for a memory of `len` bytes: the first
    /// broken rule, in the order alignment, ordering, bounds, disjointness.
    pub open spec fn verdict(&self, len: int) -> Result<(), LayoutError> {
        if !self.aligned() {
            Err(LayoutError::Misaligned)
        } else if !self.ordered() {
            Err(LayoutError::Inverted)
        } else if !self.in_bounds(len) {
            Err(LayoutError::OutOfBounds)
        } else if !self.disjoint() {
            Err(LayoutError::Overlap)
        } else {
            Ok(())
        }
    }

    /// Tells whether initialization stays inside a memory of `len` bytes.
    pub fn is_in_bounds(&self, len: usize) -> (fits: bool)
        ensures
            fits == self.in_bounds(len as int),
    {
        let zero_fits: bool = self.zero_start >= self.zero_end || self.zero_end as usize <= len;
        let data_fits: bool = self.data_start >= self.data_end || (self.data_end as usize <= len
            && self.data_source as usize + (self.data_end - self.data_start) as usize <= len);
        zero_fits && data_fits
    }

    /// Checks the layout against the contract for a memory of `len` bytes.
    pub fn validate(&self, len: usize) -> (checked: Result<(), LayoutError>)
        ensures
            checked == self.verdict(len as int),
            checked is Ok <==> self.valid(len as int),
    {
        if self.zero_start % 2 != 0 || self.zero_end % 2 != 0 || self.data_start % 2 != 0
            || self.data_end % 2 != 0 || self.data_source % 2 != 0 || self.stack_top % 2 != 0 {
            return Err(LayoutError::Misaligned);
        }
        if self.zero_end < self.zero_start || self.data_end < self.data_start {
            return Err(LayoutError::Inverted);
        }
        if !self.is_in_bounds(len) {
            return Err(LayoutError::OutOfBounds);
        }
        let source_end: usize = self.data_source as usize + (self.data_end - self.data_start) as usize;
        let zero_data: bool = overlaps(
            self.zero_start as usize,
            self.zero_end as usize,
            self.data_start as usize,
            self.data_end as usize,
        );
        let zero_source: bool = overlaps(
            self.zero_start as usize,
            self.zero_end as usize,
            self.data_source as usize,
            source_end,
        );
        let data_source: bool = overlaps(
            self.data_start as usize,
            self.data_end as usize,
            self.data_source as usize,
            source_end,
        );
        if zero_data || zero_source || data_source {
            return Err(LayoutError::Overlap);
        }
        Ok(())
    }
}

/// Tells whether the ranges `[a_start, a_end)` and `[b_start, b_end)` share
/// an address.
fn overlaps(a_start: usize, a_end: usize, b_start: usize, b_end: usize) -> (shared: bool)
    ensures
        shared == !ranges_disjoint(a_start as int, a_end as int, b_start as int, b_end as int),
{
    a_start < a_end && b_start < b_end && a_start < b_end && b_start < a_end
}

} // verus!
