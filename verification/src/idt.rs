//! The layout of an entry of the 64-bit interrupt table: the address of
//! the interrupt routine split over three fields, beside the fixed selector
//! and type.

use vstd::prelude::*;

verus! {

/// The code segment selector of every entry.
pub const IDT_SELECTOR: u16 = 0x08;

/// The type of every entry: present, privilege level 0, interrupts off
/// while the routine runs.
pub const IDT_TYPE_ATTR: u8 = 0x8E;

/// The number of entries of the table.
pub const IDT_ENTRIES: usize = 256;

/// The size of one entry in bytes.
pub const IDT_ENTRY_BYTES: usize = 16;

/// One entry of the interrupt table, field by field.
#[derive(Clone, Copy, PartialEq, Eq, Structural, Debug)]
pub struct IdtEntry {
    pub offset_low: u16,
    pub selector: u16,
    pub ist: u8,
    pub type_attr: u8,
    pub offset_mid: u16,
    pub offset_high: u32,
    pub zero: u32,
}

/// The address that an entry points to.
pub open spec fn entry_target(e: IdtEntry) -> int {
    e.offset_low + e.offset_mid * 0x1_0000 + e.offset_high * 0x1_0000_0000
}

/// The entry that leads to the routine at `addr`. The lowest sixteen bits
/// of the address go to `offset_low`, the next sixteen to `offset_mid` and
/// the highest thirty-two to `offset_high`. The entry names no interrupt
/// stack and has the fixed selector and type.
pub fn idt_entry(addr: u64) -> (e: IdtEntry)
    ensures
        e.offset_low == addr % 0x1_0000,
        e.offset_mid == (addr / 0x1_0000) % 0x1_0000,
        e.offset_high == addr / 0x1_0000_0000,
        e.selector == IDT_SELECTOR,
        e.type_attr == IDT_TYPE_ATTR,
        e.ist == 0,
        e.zero == 0,
        entry_target(e) == addr,
{
    IdtEntry {
        offset_low: (addr % 0x1_0000) as u16,
        selector: IDT_SELECTOR,
        ist: 0,
        type_attr: IDT_TYPE_ATTR,
        offset_mid: ((addr / 0x1_0000) % 0x1_0000) as u16,
        offset_high: (addr / 0x1_0000_0000) as u32,
        zero: 0,
    }
}

/// The limit field of the table register: the size of the table in bytes,
/// less one.
pub fn idt_limit() -> (limit: u16)
    ensures
        limit == IDT_ENTRIES * IDT_ENTRY_BYTES - 1,
{
    (IDT_ENTRIES * IDT_ENTRY_BYTES - 1) as u16
}

} // verus!
