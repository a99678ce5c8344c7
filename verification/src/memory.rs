//! The memory initializer: zeroing and seeding of static memory before the
//! program's entry point runs.
//!
//! Memory is a sequence of bytes indexed by address. Both passes are stated
//! as functions on such sequences, and the executable passes are proved to
//! compute them.

use vstd::prelude::*;
use crate::layout::MemoryLayout;

verus! {

/// `mem` with every address in `[start, end)` set to zero.
pub open spec fn zeroed(mem: Seq<u8>, start: int, end: int) -> Seq<u8> {
    Seq::new(
        mem.len(),
        |a: int|
            if start <= a < end {
                0u8
            } else {
                mem[a]
            },
    )
}

/// `mem` with every address in `[start, end)` set to the value that `mem`
/// holds at the same offset from `source`.
pub open spec fn copied(mem: Seq<u8>, start: int, end: int, source: int) -> Seq<u8> {
    Seq::new(
        mem.len(),
        |a: int|
            if start <= a < end {
                mem[source + (a - start)]
            } else {
                mem[a]
            },
    )
}

/// `mem` after initialization under `layout`: the zero pass first, then the
/// copy pass on its result.
pub open spec fn initialized(mem: Seq<u8>, layout: MemoryLayout) -> Seq<u8> {
    copied(
        zeroed(mem, layout.zero_start as int, layout.zero_end as int),
        layout.data_start as int,
        layout.data_end as int,
        layout.data_source as int,
    )
}

/// Writes zero to every address in `[start, end)`.
pub fn zero_bss(mem: &mut Vec<u8>, start: u16, end: u16)
    requires
        start < end ==> end <= old(mem)@.len(),
    ensures
        final(mem)@ == zeroed(old(mem)@, start as int, end as int),
{
    let ghost before = mem@;
    if start < end {
        let stop: usize = end as usize;
        let mut a: usize = start as usize;
        while a < stop
            invariant
                start <= a <= stop,
                stop == end,
                stop <= mem@.len(),
                mem@.len() == before.len(),
                forall|j: int|
                    0 <= j < mem@.len() ==> mem@[j] == if start <= j < a {
                        0u8
                    } else {
                        before[j]
                    },
            decreases stop - a,
        {
            mem.set(a, 0);
            a += 1;
        }
    }
    assert(mem@ =~= zeroed(before, start as int, end as int));
}

/// Copies `end - start` bytes from `source` into `[start, end)`.
///
/// Each byte written is the one that stood at its place in the source
/// before the call, also where the source and the destination share
/// addresses.
pub fn init_data(mem: &mut Vec<u8>, start: u16, end: u16, source: u16)
    requires
        start < end ==> end <= old(mem)@.len() && source + (end - start) <= old(mem)@.len(),
    ensures
        final(mem)@ == copied(old(mem)@, start as int, end as int, source as int),
{
    let ghost before = mem@;
    if start < end {
        let count: usize = (end - start) as usize;
        let dst: usize = start as usize;
        let src: usize = source as usize;
        if src >= dst {
            let mut i: usize = 0;
            while i < count
                invariant
                    i <= count,
                    dst + count == end,
                    dst == start,
                    src == source,
                    src >= dst,
                    dst + count <= mem@.len(),
                    src + count <= mem@.len(),
                    mem@.len() == before.len(),
                    forall|j: int|
                        0 <= j < mem@.len() ==> mem@[j] == if dst <= j < dst + i {
                            before[src + (j - dst)]
                        } else {
                            before[j]
                        },
                decreases count - i,
            {
                let byte: u8 = mem[src + i];
                mem.set(dst + i, byte);
                i += 1;
            }
        } else {
            let mut i: usize = count;
            while i > 0
                invariant
                    i <= count,
                    dst + count == end,
                    dst == start,
                    src == source,
                    src < dst,
                    dst + count <= mem@.len(),
                    mem@.len() == before.len(),
                    forall|j: int|
                        0 <= j < mem@.len() ==> mem@[j] == if dst + i <= j < dst + count {
                            before[src + (j - dst)]
                        } else {
                            before[j]
                        },
                decreases i,
            {
                i -= 1;
                let byte: u8 = mem[src + i];
                mem.set(dst + i, byte);
            }
        }
    }
    assert(mem@ =~= copied(before, start as int, end as int, source as int));
}

/// Brings static memory into its initial state: zeroes the zero region,
/// then seeds the data region from its source.
pub fn init_memory(mem: &mut Vec<u8>, layout: &MemoryLayout)
    requires
        layout.in_bounds(old(mem)@.len() as int),
    ensures
        final(mem)@ == initialized(old(mem)@, *layout),
{
    zero_bss(mem, layout.zero_start, layout.zero_end);
    init_data(mem, layout.data_start, layout.data_end, layout.data_source);
}

/// After initialization an address of the zero region reads as zero,
/// provided that it lies outside the data region or that the value copied
/// to it is itself zero.
pub proof fn lemma_zero_region_reads_zero(mem: Seq<u8>, layout: MemoryLayout, a: int)
    requires
        layout.in_bounds(mem.len() as int),
        layout.zero_start <= a < layout.zero_end,
        layout.data_start <= a < layout.data_end ==> zeroed(
            mem,
            layout.zero_start as int,
            layout.zero_end as int,
        )[layout.data_source + (a - layout.data_start)] == 0,
    ensures
        initialized(mem, layout)[a] == 0,
{
}

/// After initialization every byte of the data region equals the byte that
/// stood at the same offset from the source when the copy pass began, that
/// is, after the zero pass.
pub proof fn lemma_data_region_holds_source(mem: Seq<u8>, layout: MemoryLayout, i: int)
    requires
        layout.in_bounds(mem.len() as int),
        0 <= i < layout.data_end - layout.data_start,
    ensures
        initialized(mem, layout)[layout.data_start + i] == zeroed(
            mem,
            layout.zero_start as int,
            layout.zero_end as int,
        )[layout.data_source + i],
        !(layout.zero_start <= layout.data_source + i < layout.zero_end) ==> initialized(
            mem,
            layout,
        )[layout.data_start + i] == mem[layout.data_source + i],
{
}

/// The two passes do not commute: at an address that lies in both regions
/// the copied value stands after initialization, whereas zero would stand
/// there had the passes run in the other order.
pub proof fn lemma_copy_overrides_zero(mem: Seq<u8>, layout: MemoryLayout, a: int)
    requires
        layout.in_bounds(mem.len() as int),
        layout.zero_start <= a < layout.zero_end,
        layout.data_start <= a < layout.data_end,
    ensures
        initialized(mem, layout)[a] == zeroed(
            mem,
            layout.zero_start as int,
            layout.zero_end as int,
        )[layout.data_source + (a - layout.data_start)],
        zeroed(
            copied(
                mem,
                layout.data_start as int,
                layout.data_end as int,
                layout.data_source as int,
            ),
            layout.zero_start as int,
            layout.zero_end as int,
        )[a] == 0,
{
}

/// Initialization changes no address outside the two regions, and keeps the
/// size of memory.
pub proof fn lemma_rest_of_memory_kept(mem: Seq<u8>, layout: MemoryLayout, a: int)
    requires
        0 <= a < mem.len(),
        !(layout.zero_start <= a < layout.zero_end),
        !(layout.data_start <= a < layout.data_end),
    ensures
        initialized(mem, layout).len() == mem.len(),
        initialized(mem, layout)[a] == mem[a],
{
}

/// Under a layout that keeps the whole contract, initialization leaves
/// the zero region all zero and the data region equal to the initial values
/// as they stood in read-only storage before the reset.
pub proof fn lemma_valid_layout_initialization(mem: Seq<u8>, layout: MemoryLayout)
    requires
        layout.valid(mem.len() as int),
    ensures
        forall|a: int|
            layout.zero_start <= a < layout.zero_end ==> #[trigger] initialized(mem, layout)[a]
                == 0,
        forall|i: int|
            0 <= i < layout.data_len() ==> #[trigger] initialized(mem, layout)[layout.data_start
                + i] == mem[layout.data_source + i],
        forall|i: int|
            0 <= i < layout.data_len() ==> #[trigger] initialized(mem, layout)[layout.data_source
                + i] == mem[layout.data_source + i],
{
    assert forall|a: int| layout.zero_start <= a < layout.zero_end implies #[trigger] initialized(
        mem,
        layout,
    )[a] == 0 by {
        lemma_zero_region_reads_zero(mem, layout, a);
    }
    assert forall|i: int| 0 <= i < layout.data_len() implies #[trigger] initialized(
        mem,
        layout,
    )[layout.data_start + i] == mem[layout.data_source + i] by {
        lemma_data_region_holds_source(mem, layout, i);
    }
    assert forall|i: int| 0 <= i < layout.data_len() implies #[trigger] initialized(
        mem,
        layout,
    )[layout.data_source + i] == mem[layout.data_source + i] by {
        lemma_rest_of_memory_kept(mem, layout, layout.data_source + i);
    }
}

} // verus!
