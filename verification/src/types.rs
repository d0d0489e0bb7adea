//! Plain data types shared by the layout, scheduler and gateway components.

use vstd::prelude::*;

verus! {

/// A process-data register on a device, addressed by object index and subindex.
#[derive(Clone, Copy, PartialEq, Eq, Structural, Debug)]
pub struct PdoEntryIndex {
    pub index: u16,
    pub subindex: u8,
}

/// A position inside the process image: byte offset plus bit offset.
#[derive(Clone, Copy, PartialEq, Eq, Structural, Debug)]
pub struct Offset {
    pub byte: usize,
    pub bit: u32,
}

/// A device identification: vendor id and product code.
#[derive(Clone, Copy, PartialEq, Eq, Structural, Debug)]
pub struct SlaveId {
    pub vendor_id: u32,
    pub product_code: u32,
}

impl SlaveId {
    /// Identification of a bus coupler of the EK series.
    pub fn ek(nr: u32) -> (r: SlaveId)
        requires
            nr < 0x10000,
        ensures
            r.vendor_id == 2,
            r.product_code == nr * 0x10000 + 0x2c52,
    {
        SlaveId { vendor_id: 2, product_code: nr * 0x10000 + 0x2c52 }
    }

    /// Identification of a terminal of the EL series.
    pub fn el(nr: u32) -> (r: SlaveId)
        requires
            nr < 0x10000,
        ensures
            r.vendor_id == 2,
            r.product_code == nr * 0x10000 + 0x3052,
    {
        SlaveId { vendor_id: 2, product_code: nr * 0x10000 + 0x3052 }
    }
}

/// A device on the bus, addressed by ring position or by alias and offset.
#[derive(Clone, Copy, PartialEq, Eq, Structural, Debug)]
pub enum SlaveAddr {
    ByPos(u16),
    ByAlias(u16, u16),
}

impl SlaveAddr {
    /// The (alias, position) pair in the form the bus configuration takes.
    pub fn as_pair(self) -> (r: (u16, u16))
        ensures
            r == match self {
                SlaveAddr::ByPos(x) => (0u16, x),
                SlaveAddr::ByAlias(x, y) => (x, y),
            },
    {
        match self {
            SlaveAddr::ByPos(x) => (0, x),
            SlaveAddr::ByAlias(x, y) => (x, y),
        }
    }
}

/// How the bus master device is opened.
#[derive(Clone, Copy, PartialEq, Eq, Structural, Debug)]
pub enum MasterAccess {
    ReadOnly,
    ReadWrite,
}

/// One entry of a process-data object mapping: which register, and how wide.
#[derive(Clone, Copy, PartialEq, Eq, Structural, Debug)]
pub struct PdoEntryInfo {
    pub index: PdoEntryIndex,
    pub bit_length: u8,
}

/// Direction of a sync-manager channel.
#[derive(Clone, Copy, PartialEq, Eq, Structural, Debug)]
pub enum SyncDirection {
    Input,
    Output,
}

/// Watchdog behaviour of a sync-manager channel.
#[derive(Clone, Copy, PartialEq, Eq, Structural, Debug)]
pub enum WatchdogMode {
    Default,
    Enable,
    Disable,
}

/// A process-data object with the entries mapped into it.
#[derive(Debug)]
pub struct PdoInfo {
    pub index: u16,
    pub entries: Vec<PdoEntryInfo>,
}

/// A sync-manager channel assignment: which PDOs it carries, in which direction.
#[derive(Debug)]
pub struct SyncInfo {
    pub index: u8,
    pub direction: SyncDirection,
    pub watchdog_mode: WatchdogMode,
    pub pdos: Vec<PdoInfo>,
}

/// A configuration register on a device, set once before cyclic operation.
#[derive(Clone, Copy, PartialEq, Eq, Structural, Debug)]
pub struct SdoIndex {
    pub index: u16,
    pub subindex: u8,
}

/// An initial configuration value, with its width on the bus.
#[derive(Clone, Copy, PartialEq, Eq, Structural, Debug)]
pub enum SdoValue {
    U8(u8),
    U16(u16),
    U32(u32),
}

/// A configuration error: all of these are fatal and must be raised before
/// cyclic operation begins.
#[derive(Clone, Copy, PartialEq, Eq, Structural, Debug)]
pub enum Error {
    /// The first register of a device's group was not byte-aligned.
    MisalignedSlave { slave: usize },
    /// A register position the bus reported differs from the computed layout.
    RegisterMismatch { slave: usize, reg: usize, expected: Offset, reported: Offset },
    /// The bus-reported domain size differs from the computed image size.
    SizeMismatch { domain: usize, image: usize },
    /// A configured device is not present on the bus.
    MissingSlave { slave: usize },
}

} // verus!
