//! The fault table: 256 interrupt gate descriptors, every one routing to the
//! same fatal handler, and the table descriptor handed to the CPU's
//! trap-dispatch register. Building the table is pure computation and is
//! verified here; taking the table's address and issuing the load
//! instruction are left to the surrounding program.

use vstd::prelude::*;

verus! {

/// Number of exception vectors, and so of table slots.
pub const IDT_ENTRIES: usize = 256;

/// Byte size of one gate descriptor in the hardware table format.
pub const IDT_ENTRY_BYTES: usize = 8;

/// The limit loaded into the trap-dispatch register: the byte size of the
/// full table minus one.
pub const IDT_LIMIT: u16 = 2047;

/// The kernel code segment selector established by boot.
pub const KERNEL_CODE_SELECTOR: u16 = 0x08;

/// Gate type and flags: a present, ring-0, 32-bit interrupt gate.
pub const GATE_TYPE_ATTR: u8 = 0x8E;

/// One gate descriptor: the handler address split into low and high
/// halves, the code segment selector, a gate-type-and-flags byte, and a
/// reserved zero byte. The field layout is fixed by the dispatch hardware.
#[derive(Clone, Copy, Debug, PartialEq, Eq, Structural)]
pub struct IdtEntry {
    pub offset_low: u16,
    pub selector: u16,
    pub zero: u8,
    pub type_attr: u8,
    pub offset_high: u16,
}

/// The handler address a gate descriptor points to, recombined from its
/// two halves.
pub open spec fn spec_gate_target(e: IdtEntry) -> int {
    e.offset_low as int + 0x10000 * (e.offset_high as int)
}

/// A fully populated, valid gate: it targets the given handler and carries
/// the fixed selector, type and flags, and reserved byte.
pub open spec fn is_gate_for(e: IdtEntry, handler: u32) -> bool {
    &&& spec_gate_target(e) == handler
    &&& e.selector == KERNEL_CODE_SELECTOR
    &&& e.type_attr == GATE_TYPE_ATTR
    &&& e.zero == 0
}

impl IdtEntry {
    /// An empty slot: fixed selector and flags already in place, handler
    /// address still zero. Not yet a slot that may be exposed to the CPU.
    pub fn new() -> (e: IdtEntry)
        ensures
            e.offset_low == 0,
            e.offset_high == 0,
            e.selector == KERNEL_CODE_SELECTOR,
            e.type_attr == GATE_TYPE_ATTR,
            e.zero == 0,
            is_gate_for(e, 0),
    {
        IdtEntry {
            offset_low: 0,
            selector: KERNEL_CODE_SELECTOR,
            zero: 0,
            type_attr: GATE_TYPE_ATTR,
            offset_high: 0,
        }
    }

    /// Bind this slot to a handler: the address is split into its 16-bit
    /// halves and the fixed fields are (re)established, leaving a valid
    /// gate for exactly that handler.
    pub fn set_handler(&mut self, handler: u32)
        ensures
            final(self).offset_low == handler & 0xFFFF,
            final(self).offset_high == (handler >> 16) & 0xFFFF,
            final(self).selector == KERNEL_CODE_SELECTOR,
            final(self).type_attr == GATE_TYPE_ATTR,
            final(self).zero == 0,
            is_gate_for(*final(self), handler),
    {
        proof {
            assert((handler & 0xFFFF) < 0x10000) by (bit_vector);
            assert(((handler >> 16) & 0xFFFF) < 0x10000) by (bit_vector);
            assert((handler & 0xFFFF) + 0x10000 * ((handler >> 16) & 0xFFFF) == handler)
                by (bit_vector);
        }
        self.offset_low = (handler & 0xFFFF) as u16;
        self.offset_high = ((handler >> 16) & 0xFFFF) as u16;
        self.selector = KERNEL_CODE_SELECTOR;
        self.type_attr = GATE_TYPE_ATTR;
        self.zero = 0;
    }
}

/// The CPU-facing handle on the table: its byte size minus one and the
/// address of its first entry. The CPU copies both on load, so the handle
/// itself is transient.
#[derive(Clone, Copy, Debug, PartialEq, Eq, Structural)]
pub struct IdtDescriptor {
    pub limit: u16,
    pub base: u32,
}

impl IdtDescriptor {
    /// The handle for a full table placed at the given base address.
    pub fn new(base: u32) -> (d: IdtDescriptor)
        ensures
            d.base == base,
            d.limit == IDT_LIMIT,
            d.limit as int == IDT_ENTRIES as int * IDT_ENTRY_BYTES as int - 1,
    {
        IdtDescriptor { limit: IDT_LIMIT, base }
    }
}

/// Build the complete fault table for a handler placed at the given
/// address: all 256 slots hold a valid gate for that one handler, together
/// with the descriptor for a table at the given base. The caller must load
/// the descriptor before any code that can fault runs.
pub fn init_idt(handler: u32, base: u32) -> (r: (Vec<IdtEntry>, IdtDescriptor))
    ensures
        r.0@.len() == IDT_ENTRIES,
        forall|i: int| 0 <= i < IDT_ENTRIES ==> is_gate_for(r.0@[i], handler),
        r.1.base == base,
        r.1.limit as int == IDT_ENTRIES as int * IDT_ENTRY_BYTES as int - 1,
{
    let mut table: Vec<IdtEntry> = Vec::new();
    let mut i: usize = 0;
    while i < IDT_ENTRIES
        invariant
            i <= IDT_ENTRIES,
            table@.len() == i,
            forall|j: int| 0 <= j < i ==> is_gate_for(table@[j], handler),
        decreases IDT_ENTRIES - i,
    {
        let mut entry = IdtEntry::new();
        entry.set_handler(handler);
        table.push(entry);
        i = i + 1;
    }
    let descriptor = IdtDescriptor::new(base);
    (table, descriptor)
}

} // verus!
