//! The vector table: the array of handler addresses that the hardware
//! consults on reset and on every interrupt.

use vstd::prelude::*;
use crate::handlers::resolved;

verus! {

/// Size in bytes of one slot of the table.
pub const POINTER_WIDTH: usize = 2;

/// The table could not be built.
#[derive(Clone, Copy, Debug, PartialEq, Eq, Structural)]
pub enum VectorError {
    /// The table does not fill the reserved region exactly.
    SizeMismatch,
}

/// The handler addresses of a device, slot by slot. Slot 0 is the reset
/// vector.
#[derive(Debug)]
pub struct VectorTable {
    pub slots: Vec<u16>,
}

impl View for VectorTable {
    type V = Seq<u16>;

    open spec fn view(&self) -> Seq<u16> {
        self.slots@
    }
}

/// The slots of the table with the reset vector `reset`, the interrupt
/// handlers `handlers` and `default_handler` in place of every handler that
/// was not supplied.
pub open spec fn table(reset: u16, handlers: Seq<Option<u16>>, default_handler: u16) -> Seq<u16> {
    Seq::new(
        handlers.len() + 1,
        |slot: int|
            if slot == 0 {
                reset
            } else {
                match handlers[slot - 1] {
                    Some(handler) => handler,
                    None => default_handler,
                }
            },
    )
}

/// The bytes of a table as they lie in memory: slot after slot, the low
/// byte of each address first.
pub open spec fn image_of(slots: Seq<u16>) -> Seq<u8> {
    Seq::new(
        2 * slots.len(),
        |k: int|
            if k % 2 == 0 {
                (slots[k / 2] % 256) as u8
            } else {
                (slots[k / 2] / 256) as u8
            },
    )
}

/// The address held by slot `slot` of a table that lies in `bytes`.
pub open spec fn vector_in(bytes: Seq<u8>, slot: int) -> int {
    bytes[2 * slot] + 256 * bytes[2 * slot + 1]
}

impl VectorTable {
    /// The table has a reset vector, and its size in bytes is a `usize`.
    pub open spec fn wf(&self) -> bool {
        1 <= self.slots@.len() && self.slots@.len() * POINTER_WIDTH <= usize::MAX
    }

    /// Builds the table for a vector region of `region_len` bytes. Fails
    /// unless the reset vector and the interrupt vectors fill the region
    /// exactly.
    pub fn build(
        reset: u16,
        handlers: &Vec<Option<u16>>,
        default_handler: u16,
        region_len: usize,
    ) -> (built: Result<VectorTable, VectorError>)
        ensures
            built is Ok <==> (handlers@.len() + 1) * POINTER_WIDTH == region_len,
            built matches Ok(t) ==> t.wf() && t@ == table(reset, handlers@, default_handler),
    {
        if region_len % 2 != 0 || region_len / 2 == 0 || handlers.len() != region_len / 2 - 1 {
            return Err(VectorError::SizeMismatch);
        }
        let mut slots: Vec<u16> = Vec::new();
        slots.push(reset);
        let mut i: usize = 0;
        while i < handlers.len()
            invariant
                i <= handlers@.len(),
                slots@.len() == i + 1,
                forall|s: int|
                    0 <= s <= i ==> slots@[s] == table(reset, handlers@, default_handler)[s],
            decreases handlers@.len() - i,
        {
            let address: u16 = match handlers[i] {
                Some(handler) => handler,
                None => default_handler,
            };
            slots.push(address);
            i += 1;
        }
        assert(slots@ =~= table(reset, handlers@, default_handler));
        Ok(VectorTable { slots })
    }

    /// Number of slots, the reset vector included.
    pub fn slot_count(&self) -> (count: usize)
        ensures
            count == self@.len(),
    {
        self.slots.len()
    }

    /// Size of the table in bytes.
    pub fn byte_len(&self) -> (len: usize)
        requires
            self.wf(),
        ensures
            len == self@.len() * POINTER_WIDTH,
            len == image_of(self@).len(),
    {
        self.slots.len() * POINTER_WIDTH
    }

    /// The address in slot `slot`, if the table has such a slot.
    pub fn vector(&self, slot: usize) -> (address: Option<u16>)
        ensures
            address == if slot < self@.len() {
                Some(self@[slot as int])
            } else {
                None
            },
    {
        if slot < self.slots.len() {
            Some(self.slots[slot])
        } else {
            None
        }
    }

    /// The bytes of the table as they have to lie in the vector region.
    pub fn image(&self) -> (bytes: Vec<u8>)
        ensures
            bytes@ == image_of(self@),
    {
        let mut bytes: Vec<u8> = Vec::new();
        let mut i: usize = 0;
        while i < self.slots.len()
            invariant
                i <= self.slots@.len(),
                bytes@.len() == 2 * i,
                forall|k: int| 0 <= k < 2 * i ==> bytes@[k] == image_of(self.slots@)[k],
            decreases self.slots@.len() - i,
        {
            let address: u16 = self.slots[i];
            bytes.push((address % 256) as u8);
            bytes.push((address / 256) as u8);
            i += 1;
        }
        assert(bytes@ =~= image_of(self@));
        bytes
    }
}

/// Reads the address in slot `slot` from the bytes of a table, as the
/// hardware does when it takes a reset or an interrupt.
pub fn fetch_vector(bytes: &Vec<u8>, slot: usize) -> (address: Option<u16>)
    ensures
        address is Some <==> 2 * slot + 1 < bytes@.len(),
        address matches Some(a) ==> a == vector_in(bytes@, slot as int),
{
    if slot < bytes.len() / 2 {
        let low: u16 = bytes[2 * slot] as u16;
        let high: u16 = bytes[2 * slot + 1] as u16;
        Some(low + 256 * high)
    } else {
        None
    }
}

/// Slot 0 holds the reset vector, and the table takes as many bytes as it
/// has slots times the width of a pointer.
pub proof fn lemma_reset_vector_first(reset: u16, handlers: Seq<Option<u16>>, default_handler: u16)
    ensures
        table(reset, handlers, default_handler)[0] == reset,
        table(reset, handlers, default_handler).len() == handlers.len() + 1,
        image_of(table(reset, handlers, default_handler)).len() == (handlers.len() + 1)
            * POINTER_WIDTH,
{
}

/// Every interrupt slot holds the handler supplied for it, or the default
/// handler where none was supplied.
pub proof fn lemma_interrupt_vectors(
    reset: u16,
    handlers: Seq<Option<u16>>,
    default_handler: u16,
    slot: int,
)
    requires
        1 <= slot <= handlers.len(),
    ensures
        handlers[slot - 1] matches Some(h) ==> table(reset, handlers, default_handler)[slot] == h,
        handlers[slot - 1] is None ==> table(reset, handlers, default_handler)[slot]
            == default_handler,
{
}

/// What the hardware reads from the bytes of a table is what the table
/// holds.
pub proof fn lemma_image_round_trip(slots: Seq<u16>, slot: int)
    requires
        0 <= slot < slots.len(),
    ensures
        vector_in(image_of(slots), slot) == slots[slot],
{
    let bytes = image_of(slots);
    assert(bytes[2 * slot] == (slots[slot] % 256) as u8);
    assert(bytes[2 * slot + 1] == (slots[slot] / 256) as u8);
}

/// Where the embedding program does not define the default handler, the
/// name is bound to the built-in handler, and every unpopulated interrupt
/// vector of the table built with that binding leads there.
pub proof fn lemma_fallback_serves_unpopulated_vectors(
    builtin: u16,
    strong: Seq<u16>,
    reset: u16,
    handlers: Seq<Option<u16>>,
    slot: int,
)
    requires
        strong.len() == 0,
        1 <= slot <= handlers.len(),
        handlers[slot - 1] is None,
    ensures
        resolved(Some(builtin), strong) matches Ok(bound) && bound == builtin && table(
            reset,
            handlers,
            bound,
        )[slot] == builtin,
{
}

/// Where the embedding program defines the default handler, the name is
/// bound to that definition, and every unpopulated interrupt vector of the
/// table built with that binding leads there, whatever the built-in handler
/// is.
pub proof fn lemma_override_serves_unpopulated_vectors(
    builtin: u16,
    strong: Seq<u16>,
    reset: u16,
    handlers: Seq<Option<u16>>,
    slot: int,
)
    requires
        strong.len() == 1,
        1 <= slot <= handlers.len(),
        handlers[slot - 1] is None,
    ensures
        resolved(Some(builtin), strong) matches Ok(bound) && bound == strong[0] && table(
            reset,
            handlers,
            bound,
        )[slot] == strong[0],
{
}

} // verus!
