//! The catalog of supported terminal models: for each model, its typed
//! overlay struct and the declared schema the layout is computed from.
//!
//! The field lists mirror the terminals' register maps, in declaration
//! order; each schema's register table therefore follows from `slave_regs`
//! on its field list.

use vstd::prelude::*;

use crate::layout::{FieldDef, FieldType, SlaveSchema};
use crate::types::{
    PdoEntryIndex, PdoEntryInfo, PdoInfo, SlaveId, SyncDirection, SyncInfo, WatchdogMode,
};

verus! {

/// A field bound to the register `(ix, sub)`.
pub open spec fn spec_fd(t: FieldType, ix: u16, sub: u8) -> FieldDef {
    FieldDef { ty: t, entry: Some(PdoEntryIndex { index: ix, subindex: sub }) }
}

fn fd(t: FieldType, ix: u16, sub: u8) -> (r: FieldDef)
    ensures
        r == spec_fd(t, ix, sub),
{
    FieldDef { ty: t, entry: Some(PdoEntryIndex { index: ix, subindex: sub }) }
}

fn pe(ix: u16, sub: u8, bit_length: u8) -> (r: PdoEntryInfo)
    ensures
        r == (PdoEntryInfo { index: PdoEntryIndex { index: ix, subindex: sub }, bit_length }),
{
    PdoEntryInfo { index: PdoEntryIndex { index: ix, subindex: sub }, bit_length }
}

fn pdo(index: u16, entries: Vec<PdoEntryInfo>) -> (r: PdoInfo)
    ensures
        r.index == index,
        r.entries == entries,
{
    PdoInfo { index, entries }
}

fn sm(index: u8, direction: SyncDirection, pdos: Vec<PdoInfo>) -> (r: SyncInfo)
    ensures
        r.index == index,
        r.direction == direction,
        r.watchdog_mode is Default,
        r.pdos == pdos,
{
    SyncInfo { index, direction, watchdog_mode: WatchdogMode::Default, pdos }
}

/// Whether a schema's sync-manager assignment is the usual pair: channel 3
/// carries the inputs, channel 2 the outputs.
pub open spec fn has_in_out_sms(s: SlaveSchema) -> bool {
    match s.pdos {
        Option::Some(sms) => {
            &&& sms@.len() == 2
            &&& sms@[0].index == 3
            &&& sms@[0].direction is Input
            &&& sms@[1].index == 2
            &&& sms@[1].direction is Output
        },
        Option::None => false,
    }
}

/// The process-data object indexes assigned to sync channel `which` of a
/// schema, in order.
pub open spec fn sm_pdo_indexes(s: SlaveSchema, which: int) -> Seq<u16> {
    match s.pdos {
        Option::Some(sms) => sms@[which].pdos@.map_values(|p: PdoInfo| p.index),
        Option::None => Seq::empty(),
    }
}

/// The EK1100 bus coupler: no process data of its own.
#[derive(Clone, Copy, PartialEq, Eq, Structural, Debug)]
pub struct EK1100 {}

impl EK1100 {
    /// The coupler's schema: its identity and an empty field list.
    pub fn schema() -> (r: SlaveSchema)
        ensures
            r.id == (SlaveId { vendor_id: 2, product_code: (1100 * 0x10000 + 0x2c52) as u32 }),
            r.fields@.len() == 0,
            r.pdos is None,
            r.sdos@.len() == 0,
    {
        SlaveSchema { id: SlaveId::ek(1100), fields: Vec::new(), pdos: None, sdos: Vec::new() }
    }
}

/// Eight digital inputs, read as one byte.
#[derive(Clone, Copy, PartialEq, Eq, Structural, Debug)]
pub struct EL1008 {
    pub input: u8,
}

/// The EL1008 field list.
pub open spec fn el1008_fields() -> Seq<FieldDef> {
    seq![spec_fd(FieldType::U8, 0x6000, 1)]
}

impl EL1008 {
    /// The terminal's schema.
    pub fn schema() -> (r: SlaveSchema)
        ensures
            r.id == (SlaveId { vendor_id: 2, product_code: (1008 * 0x10000 + 0x3052) as u32 }),
            r.fields@ == el1008_fields(),
            r.pdos is None,
            r.sdos@.len() == 0,
    {
        let mut fields: Vec<FieldDef> = Vec::new();
        fields.push(fd(FieldType::U8, 0x6000, 1));
        proof {
            assert(fields@ =~= el1008_fields());
        }
        SlaveSchema { id: SlaveId::el(1008), fields, pdos: None, sdos: Vec::new() }
    }
}

/// Two-channel counter terminal.
#[derive(Clone, Copy, PartialEq, Eq, Structural, Debug)]
pub struct EL1502 {
    pub status_ch1: u16,
    pub value_ch1: u32,
    pub status_ch2: u16,
    pub value_ch2: u32,
    pub control_ch1: u16,
    pub setvalue_ch1: u32,
    pub control_ch2: u16,
    pub setvalue_ch2: u32,
}

/// The EL1502 field list.
pub open spec fn el1502_fields() -> Seq<FieldDef> {
    seq![
        spec_fd(FieldType::U16, 0x6000, 1),
        spec_fd(FieldType::U32, 0x6000, 17),
        spec_fd(FieldType::U16, 0x6010, 1),
        spec_fd(FieldType::U32, 0x6010, 17),
        spec_fd(FieldType::U16, 0x7000, 1),
        spec_fd(FieldType::U32, 0x7000, 17),
        spec_fd(FieldType::U16, 0x7010, 1),
        spec_fd(FieldType::U32, 0x7010, 17),
    ]
}

impl EL1502 {
    /// The terminal's schema, with inputs on sync channel 3 and outputs on
    /// channel 2.
    pub fn schema() -> (r: SlaveSchema)
        ensures
            r.id == (SlaveId { vendor_id: 2, product_code: (1502 * 0x10000 + 0x3052) as u32 }),
            r.fields@ == el1502_fields(),
            has_in_out_sms(r),
            sm_pdo_indexes(r, 0) == seq![0x1A00u16, 0x1A01u16],
            sm_pdo_indexes(r, 1) == seq![0x1600u16, 0x1601u16],
            r.sdos@.len() == 0,
    {
        let mut fields: Vec<FieldDef> = Vec::new();
        fields.push(fd(FieldType::U16, 0x6000, 1));
        fields.push(fd(FieldType::U32, 0x6000, 17));
        fields.push(fd(FieldType::U16, 0x6010, 1));
        fields.push(fd(FieldType::U32, 0x6010, 17));
        fields.push(fd(FieldType::U16, 0x7000, 1));
        fields.push(fd(FieldType::U32, 0x7000, 17));
        fields.push(fd(FieldType::U16, 0x7010, 1));
        fields.push(fd(FieldType::U32, 0x7010, 17));
        proof {
            assert(fields@ =~= el1502_fields());
        }
        let mut pa: Vec<PdoEntryInfo> = Vec::new();
        pa.push(pe(0x6000, 1, 16));
        pa.push(pe(0x6000, 17, 32));
        let mut pb: Vec<PdoEntryInfo> = Vec::new();
        pb.push(pe(0x6010, 1, 16));
        pb.push(pe(0x6010, 17, 32));
        let mut pc: Vec<PdoEntryInfo> = Vec::new();
        pc.push(pe(0x7000, 1, 16));
        pc.push(pe(0x7000, 17, 32));
        let mut pd: Vec<PdoEntryInfo> = Vec::new();
        pd.push(pe(0x7010, 1, 16));
        pd.push(pe(0x7010, 17, 32));
        let mut inp: Vec<PdoInfo> = Vec::new();
        inp.push(pdo(0x1A00, pa));
        inp.push(pdo(0x1A01, pb));
        let mut outp: Vec<PdoInfo> = Vec::new();
        outp.push(pdo(0x1600, pc));
        outp.push(pdo(0x1601, pd));
        let mut sms: Vec<SyncInfo> = Vec::new();
        sms.push(sm(3, SyncDirection::Input, inp));
        sms.push(sm(2, SyncDirection::Output, outp));
        let r = SlaveSchema { id: SlaveId::el(1502), fields, pdos: Some(sms), sdos: Vec::new() };
        proof {
            assert(sm_pdo_indexes(r, 0) =~= seq![0x1A00u16, 0x1A01u16]);
            assert(sm_pdo_indexes(r, 1) =~= seq![0x1600u16, 0x1601u16]);
        }
        r
    }
}

/// The EL1502 in up/down counter mode.
#[derive(Clone, Copy, PartialEq, Eq, Structural, Debug)]
#[allow(non_camel_case_types)]
pub struct EL1502_UpDown {
    pub status: u16,
    pub value: u32,
    pub control: u16,
    pub setvalue: u32,
}

/// The EL1502 up/down-mode field list.
pub open spec fn el1502_updown_fields() -> Seq<FieldDef> {
    seq![
        spec_fd(FieldType::U16, 0x6020, 1),
        spec_fd(FieldType::U32, 0x6020, 17),
        spec_fd(FieldType::U16, 0x7020, 1),
        spec_fd(FieldType::U32, 0x7020, 17),
    ]
}

impl EL1502_UpDown {
    /// The terminal's schema, with inputs on sync channel 3 and outputs on
    /// channel 2.
    pub fn schema() -> (r: SlaveSchema)
        ensures
            r.id == (SlaveId { vendor_id: 2, product_code: (1502 * 0x10000 + 0x3052) as u32 }),
            r.fields@ == el1502_updown_fields(),
            has_in_out_sms(r),
            sm_pdo_indexes(r, 0) == seq![0x1A02u16],
            sm_pdo_indexes(r, 1) == seq![0x1602u16],
            r.sdos@.len() == 0,
    {
        let mut fields: Vec<FieldDef> = Vec::new();
        fields.push(fd(FieldType::U16, 0x6020, 1));
        fields.push(fd(FieldType::U32, 0x6020, 17));
        fields.push(fd(FieldType::U16, 0x7020, 1));
        fields.push(fd(FieldType::U32, 0x7020, 17));
        proof {
            assert(fields@ =~= el1502_updown_fields());
        }
        let mut pa: Vec<PdoEntryInfo> = Vec::new();
        pa.push(pe(0x6020, 1, 16));
        pa.push(pe(0x6020, 17, 32));
        let mut pc: Vec<PdoEntryInfo> = Vec::new();
        pc.push(pe(0x7020, 1, 16));
        pc.push(pe(0x7020, 17, 32));
        let mut inp: Vec<PdoInfo> = Vec::new();
        inp.push(pdo(0x1A02, pa));
        let mut outp: Vec<PdoInfo> = Vec::new();
        outp.push(pdo(0x1602, pc));
        let mut sms: Vec<SyncInfo> = Vec::new();
        sms.push(sm(3, SyncDirection::Input, inp));
        sms.push(sm(2, SyncDirection::Output, outp));
        let r = SlaveSchema { id: SlaveId::el(1502), fields, pdos: Some(sms), sdos: Vec::new() };
        proof {
            assert(sm_pdo_indexes(r, 0) =~= seq![0x1A02u16]);
            assert(sm_pdo_indexes(r, 1) =~= seq![0x1602u16]);
        }
        r
    }
}

/// Eight digital inputs and eight digital outputs.
#[derive(Clone, Copy, PartialEq, Eq, Structural, Debug)]
pub struct EL1859 {
    pub input: u8,
    pub output: u8,
}

/// The EL1859 field list.
pub open spec fn el1859_fields() -> Seq<FieldDef> {
    seq![spec_fd(FieldType::U8, 0x6000, 1), spec_fd(FieldType::U8, 0x7080, 1)]
}

impl EL1859 {
    /// The terminal's schema.
    pub fn schema() -> (r: SlaveSchema)
        ensures
            r.id == (SlaveId { vendor_id: 2, product_code: (1859 * 0x10000 + 0x3052) as u32 }),
            r.fields@ == el1859_fields(),
            r.pdos is None,
            r.sdos@.len() == 0,
    {
        let mut fields: Vec<FieldDef> = Vec::new();
        fields.push(fd(FieldType::U8, 0x6000, 1));
        fields.push(fd(FieldType::U8, 0x7080, 1));
        proof {
            assert(fields@ =~= el1859_fields());
        }
        SlaveSchema { id: SlaveId::el(1859), fields, pdos: None, sdos: Vec::new() }
    }
}

/// Eight digital outputs, written as one byte.
#[derive(Clone, Copy, PartialEq, Eq, Structural, Debug)]
pub struct EL2008 {
    pub output: u8,
}

/// The EL2008 field list.
pub open spec fn el2008_fields() -> Seq<FieldDef> {
    seq![spec_fd(FieldType::U8, 0x7000, 1)]
}

impl EL2008 {
    /// The terminal's schema.
    pub fn schema() -> (r: SlaveSchema)
        ensures
            r.id == (SlaveId { vendor_id: 2, product_code: (2008 * 0x10000 + 0x3052) as u32 }),
            r.fields@ == el2008_fields(),
            r.pdos is None,
            r.sdos@.len() == 0,
    {
        let mut fields: Vec<FieldDef> = Vec::new();
        fields.push(fd(FieldType::U8, 0x7000, 1));
        proof {
            assert(fields@ =~= el2008_fields());
        }
        SlaveSchema { id: SlaveId::el(2008), fields, pdos: None, sdos: Vec::new() }
    }
}

/// Four analog inputs with per-channel status.
#[derive(Clone, Copy, PartialEq, Eq, Structural, Debug)]
pub struct EL3104 {
    pub ch1_status: u16,
    pub ch1: i16,
    pub ch2_status: u16,
    pub ch2: i16,
    pub ch3_status: u16,
    pub ch3: i16,
    pub ch4_status: u16,
    pub ch4: i16,
}

/// The EL3104 field list.
pub open spec fn el3104_fields() -> Seq<FieldDef> {
    seq![
        spec_fd(FieldType::U16, 0x6000, 1),
        spec_fd(FieldType::I16, 0x6000, 17),
        spec_fd(FieldType::U16, 0x6010, 1),
        spec_fd(FieldType::I16, 0x6010, 17),
        spec_fd(FieldType::U16, 0x6020, 1),
        spec_fd(FieldType::I16, 0x6020, 17),
        spec_fd(FieldType::U16, 0x6030, 1),
        spec_fd(FieldType::I16, 0x6030, 17),
    ]
}

impl EL3104 {
    /// The terminal's schema.
    pub fn schema() -> (r: SlaveSchema)
        ensures
            r.id == (SlaveId { vendor_id: 2, product_code: (3104 * 0x10000 + 0x3052) as u32 }),
            r.fields@ == el3104_fields(),
            r.pdos is None,
            r.sdos@.len() == 0,
    {
        let mut fields: Vec<FieldDef> = Vec::new();
        fields.push(fd(FieldType::U16, 0x6000, 1));
        fields.push(fd(FieldType::I16, 0x6000, 17));
        fields.push(fd(FieldType::U16, 0x6010, 1));
        fields.push(fd(FieldType::I16, 0x6010, 17));
        fields.push(fd(FieldType::U16, 0x6020, 1));
        fields.push(fd(FieldType::I16, 0x6020, 17));
        fields.push(fd(FieldType::U16, 0x6030, 1));
        fields.push(fd(FieldType::I16, 0x6030, 17));
        proof {
            assert(fields@ =~= el3104_fields());
        }
        SlaveSchema { id: SlaveId::el(3104), fields, pdos: None, sdos: Vec::new() }
    }
}

/// Two analog outputs.
#[derive(Clone, Copy, PartialEq, Eq, Structural, Debug)]
pub struct EL4132 {
    pub ch1: i16,
    pub ch2: i16,
}

/// The EL4132 field list.
pub open spec fn el4132_fields() -> Seq<FieldDef> {
    seq![spec_fd(FieldType::I16, 0x3001, 1), spec_fd(FieldType::I16, 0x3002, 1)]
}

impl EL4132 {
    /// The terminal's schema.
    pub fn schema() -> (r: SlaveSchema)
        ensures
            r.id == (SlaveId { vendor_id: 2, product_code: (4132 * 0x10000 + 0x3052) as u32 }),
            r.fields@ == el4132_fields(),
            r.pdos is None,
            r.sdos@.len() == 0,
    {
        let mut fields: Vec<FieldDef> = Vec::new();
        fields.push(fd(FieldType::I16, 0x3001, 1));
        fields.push(fd(FieldType::I16, 0x3002, 1));
        proof {
            assert(fields@ =~= el4132_fields());
        }
        SlaveSchema { id: SlaveId::el(4132), fields, pdos: None, sdos: Vec::new() }
    }
}

/// Stepper terminal in velocity mode.
#[derive(Clone, Copy, PartialEq, Eq, Structural, Debug)]
#[allow(non_camel_case_types)]
pub struct EL7047_Velocity {
    pub enc_status: u16,
    pub enc_counter: u32,
    pub enc_latch: u32,
    pub mot_status: u16,
    pub info_data1: u16,
    pub info_data2: u16,
    pub mot_position: i32,
    pub enc_control: u16,
    pub enc_set_counter: u32,
    pub mot_control: u16,
    pub mot_velocity: i16,
}

/// The EL7047 velocity-mode field list.
pub open spec fn el7047_velocity_fields() -> Seq<FieldDef> {
    seq![
        spec_fd(FieldType::U16, 0x6000, 1),
        spec_fd(FieldType::U32, 0x6000, 11),
        spec_fd(FieldType::U32, 0x6000, 12),
        spec_fd(FieldType::U16, 0x6010, 1),
        spec_fd(FieldType::U16, 0x6010, 11),
        spec_fd(FieldType::U16, 0x6010, 12),
        spec_fd(FieldType::I32, 0x6010, 14),
        spec_fd(FieldType::U16, 0x7000, 1),
        spec_fd(FieldType::U32, 0x7000, 11),
        spec_fd(FieldType::U16, 0x7010, 1),
        spec_fd(FieldType::I16, 0x7010, 21),
    ]
}

impl EL7047_Velocity {
    /// The terminal's schema, with inputs on sync channel 3 and outputs on
    /// channel 2.
    pub fn schema() -> (r: SlaveSchema)
        ensures
            r.id == (SlaveId { vendor_id: 2, product_code: (7047 * 0x10000 + 0x3052) as u32 }),
            r.fields@ == el7047_velocity_fields(),
            has_in_out_sms(r),
            sm_pdo_indexes(r, 0) == seq![0x1A01u16, 0x1A03u16, 0x1A04u16, 0x1A08u16],
            sm_pdo_indexes(r, 1) == seq![0x1601u16, 0x1602u16, 0x1604u16],
            r.sdos@.len() == 0,
    {
        let mut fields: Vec<FieldDef> = Vec::new();
        fields.push(fd(FieldType::U16, 0x6000, 1));
        fields.push(fd(FieldType::U32, 0x6000, 11));
        fields.push(fd(FieldType::U32, 0x6000, 12));
        fields.push(fd(FieldType::U16, 0x6010, 1));
        fields.push(fd(FieldType::U16, 0x6010, 11));
        fields.push(fd(FieldType::U16, 0x6010, 12));
        fields.push(fd(FieldType::I32, 0x6010, 14));
        fields.push(fd(FieldType::U16, 0x7000, 1));
        fields.push(fd(FieldType::U32, 0x7000, 11));
        fields.push(fd(FieldType::U16, 0x7010, 1));
        fields.push(fd(FieldType::I16, 0x7010, 21));
        proof {
            assert(fields@ =~= el7047_velocity_fields());
        }
        let mut pa: Vec<PdoEntryInfo> = Vec::new();
        pa.push(pe(0x6000, 1, 16));
        pa.push(pe(0x6000, 11, 32));
        pa.push(pe(0x6000, 12, 32));
        let mut pb: Vec<PdoEntryInfo> = Vec::new();
        pb.push(pe(0x6010, 1, 16));
        let mut pc: Vec<PdoEntryInfo> = Vec::new();
        pc.push(pe(0x6010, 11, 16));
        pc.push(pe(0x6010, 12, 16));
        let mut pd: Vec<PdoEntryInfo> = Vec::new();
        pd.push(pe(0x6010, 14, 32));
        let mut inp: Vec<PdoInfo> = Vec::new();
        inp.push(pdo(0x1A01, pa));
        inp.push(pdo(0x1A03, pb));
        inp.push(pdo(0x1A04, pc));
        inp.push(pdo(0x1A08, pd));
        let mut pe1: Vec<PdoEntryInfo> = Vec::new();
        pe1.push(pe(0x7000, 1, 16));
        pe1.push(pe(0x7000, 11, 32));
        let mut pf: Vec<PdoEntryInfo> = Vec::new();
        pf.push(pe(0x7010, 1, 16));
        let mut pg: Vec<PdoEntryInfo> = Vec::new();
        pg.push(pe(0x7010, 21, 16));
        let mut outp: Vec<PdoInfo> = Vec::new();
        outp.push(pdo(0x1601, pe1));
        outp.push(pdo(0x1602, pf));
        outp.push(pdo(0x1604, pg));
        let mut sms: Vec<SyncInfo> = Vec::new();
        sms.push(sm(3, SyncDirection::Input, inp));
        sms.push(sm(2, SyncDirection::Output, outp));
        let r = SlaveSchema { id: SlaveId::el(7047), fields, pdos: Some(sms), sdos: Vec::new() };
        proof {
            assert(sm_pdo_indexes(r, 0) =~= seq![0x1A01u16, 0x1A03u16, 0x1A04u16, 0x1A08u16]);
            assert(sm_pdo_indexes(r, 1) =~= seq![0x1601u16, 0x1602u16, 0x1604u16]);
        }
        r
    }
}

/// Stepper terminal in position mode.
#[derive(Clone, Copy, PartialEq, Eq, Structural, Debug)]
#[allow(non_camel_case_types)]
pub struct EL7047_Position {
    pub enc_status: u16,
    pub enc_counter: u32,
    pub enc_latch: u32,
    pub mot_status: u16,
    pub info_data1: u16,
    pub info_data2: u16,
    pub mot_position: i32,
    pub enc_control: u16,
    pub enc_set_counter: u32,
    pub mot_control: u16,
    pub mot_target: i32,
}

/// The EL7047 position-mode field list.
pub open spec fn el7047_position_fields() -> Seq<FieldDef> {
    seq![
        spec_fd(FieldType::U16, 0x6000, 1),
        spec_fd(FieldType::U32, 0x6000, 11),
        spec_fd(FieldType::U32, 0x6000, 12),
        spec_fd(FieldType::U16, 0x6010, 1),
        spec_fd(FieldType::U16, 0x6010, 11),
        spec_fd(FieldType::U16, 0x6010, 12),
        spec_fd(FieldType::I32, 0x6010, 14),
        spec_fd(FieldType::U16, 0x7000, 1),
        spec_fd(FieldType::U32, 0x7000, 11),
        spec_fd(FieldType::U16, 0x7010, 1),
        spec_fd(FieldType::I32, 0x7010, 11),
    ]
}

impl EL7047_Position {
    /// The terminal's schema, with inputs on sync channel 3 and outputs on
    /// channel 2.
    pub fn schema() -> (r: SlaveSchema)
        ensures
            r.id == (SlaveId { vendor_id: 2, product_code: (7047 * 0x10000 + 0x3052) as u32 }),
            r.fields@ == el7047_position_fields(),
            has_in_out_sms(r),
            sm_pdo_indexes(r, 0) == seq![0x1A01u16, 0x1A03u16, 0x1A04u16, 0x1A08u16],
            sm_pdo_indexes(r, 1) == seq![0x1601u16, 0x1602u16, 0x1603u16],
            r.sdos@.len() == 0,
    {
        let mut fields: Vec<FieldDef> = Vec::new();
        fields.push(fd(FieldType::U16, 0x6000, 1));
        fields.push(fd(FieldType::U32, 0x6000, 11));
        fields.push(fd(FieldType::U32, 0x6000, 12));
        fields.push(fd(FieldType::U16, 0x6010, 1));
        fields.push(fd(FieldType::U16, 0x6010, 11));
        fields.push(fd(FieldType::U16, 0x6010, 12));
        fields.push(fd(FieldType::I32, 0x6010, 14));
        fields.push(fd(FieldType::U16, 0x7000, 1));
        fields.push(fd(FieldType::U32, 0x7000, 11));
        fields.push(fd(FieldType::U16, 0x7010, 1));
        fields.push(fd(FieldType::I32, 0x7010, 11));
        proof {
            assert(fields@ =~= el7047_position_fields());
        }
        let mut pa: Vec<PdoEntryInfo> = Vec::new();
        pa.push(pe(0x6000, 1, 16));
        pa.push(pe(0x6000, 11, 32));
        pa.push(pe(0x6000, 12, 32));
        let mut pb: Vec<PdoEntryInfo> = Vec::new();
        pb.push(pe(0x6010, 1, 16));
        let mut pc: Vec<PdoEntryInfo> = Vec::new();
        pc.push(pe(0x6010, 11, 16));
        pc.push(pe(0x6010, 12, 16));
        let mut pd: Vec<PdoEntryInfo> = Vec::new();
        pd.push(pe(0x6010, 14, 32));
        let mut inp: Vec<PdoInfo> = Vec::new();
        inp.push(pdo(0x1A01, pa));
        inp.push(pdo(0x1A03, pb));
        inp.push(pdo(0x1A04, pc));
        inp.push(pdo(0x1A08, pd));
        let mut pe1: Vec<PdoEntryInfo> = Vec::new();
        pe1.push(pe(0x7000, 1, 16));
        pe1.push(pe(0x7000, 11, 32));
        let mut pf: Vec<PdoEntryInfo> = Vec::new();
        pf.push(pe(0x7010, 1, 16));
        let mut pg: Vec<PdoEntryInfo> = Vec::new();
        pg.push(pe(0x7010, 11, 32));
        let mut outp: Vec<PdoInfo> = Vec::new();
        outp.push(pdo(0x1601, pe1));
        outp.push(pdo(0x1602, pf));
        outp.push(pdo(0x1603, pg));
        let mut sms: Vec<SyncInfo> = Vec::new();
        sms.push(sm(3, SyncDirection::Input, inp));
        sms.push(sm(2, SyncDirection::Output, outp));
        let r = SlaveSchema { id: SlaveId::el(7047), fields, pdos: Some(sms), sdos: Vec::new() };
        proof {
            assert(sm_pdo_indexes(r, 0) =~= seq![0x1A01u16, 0x1A03u16, 0x1A04u16, 0x1A08u16]);
            assert(sm_pdo_indexes(r, 1) =~= seq![0x1601u16, 0x1602u16, 0x1603u16]);
        }
        r
    }
}

/// Stepper terminal with the drive's own positioning interface.
#[derive(Clone, Copy, PartialEq, Eq, Structural, Debug)]
#[allow(non_camel_case_types)]
pub struct EL7047_Positioning {
    pub enc_status: u16,
    pub enc_counter: u32,
    pub enc_latch: u32,
    pub mot_status: u16,
    pub pos_status: u16,
    pub act_pos: i32,
    pub act_velo: u16,
    pub drv_time: u32,
    pub enc_control: u16,
    pub enc_set_counter: u32,
    pub mot_control: u16,
    pub pos_control: u16,
    pub target_pos: u32,
    pub target_velo: u16,
    pub start_type: u16,
    pub accel: u16,
    pub decel: u16,
}

/// The EL7047 positioning-mode field list.
pub open spec fn el7047_positioning_fields() -> Seq<FieldDef> {
    seq![
        spec_fd(FieldType::U16, 0x6000, 1),
        spec_fd(FieldType::U32, 0x6000, 11),
        spec_fd(FieldType::U32, 0x6000, 12),
        spec_fd(FieldType::U16, 0x6010, 1),
        spec_fd(FieldType::U16, 0x6020, 1),
        spec_fd(FieldType::I32, 0x6020, 11),
        spec_fd(FieldType::U16, 0x6020, 21),
        spec_fd(FieldType::U32, 0x6020, 22),
        spec_fd(FieldType::U16, 0x7000, 1),
        spec_fd(FieldType::U32, 0x7000, 11),
        spec_fd(FieldType::U16, 0x7010, 1),
        spec_fd(FieldType::U16, 0x7020, 1),
        spec_fd(FieldType::U32, 0x7020, 11),
        spec_fd(FieldType::U16, 0x7020, 21),
        spec_fd(FieldType::U16, 0x7020, 22),
        spec_fd(FieldType::U16, 0x7020, 23),
        spec_fd(FieldType::U16, 0x7020, 24),
    ]
}

impl EL7047_Positioning {
    /// The terminal's schema, with inputs on sync channel 3 and outputs on
    /// channel 2.
    pub fn schema() -> (r: SlaveSchema)
        ensures
            r.id == (SlaveId { vendor_id: 2, product_code: (7047 * 0x10000 + 0x3052) as u32 }),
            r.fields@ == el7047_positioning_fields(),
            has_in_out_sms(r),
            sm_pdo_indexes(r, 0) == seq![0x1A01u16, 0x1A03u16, 0x1A07u16],
            sm_pdo_indexes(r, 1) == seq![0x1601u16, 0x1602u16, 0x1606u16],
            r.sdos@.len() == 0,
    {
        let mut fields: Vec<FieldDef> = Vec::new();
        fields.push(fd(FieldType::U16, 0x6000, 1));
        fields.push(fd(FieldType::U32, 0x6000, 11));
        fields.push(fd(FieldType::U32, 0x6000, 12));
        fields.push(fd(FieldType::U16, 0x6010, 1));
        fields.push(fd(FieldType::U16, 0x6020, 1));
        fields.push(fd(FieldType::I32, 0x6020, 11));
        fields.push(fd(FieldType::U16, 0x6020, 21));
        fields.push(fd(FieldType::U32, 0x6020, 22));
        fields.push(fd(FieldType::U16, 0x7000, 1));
        fields.push(fd(FieldType::U32, 0x7000, 11));
        fields.push(fd(FieldType::U16, 0x7010, 1));
        fields.push(fd(FieldType::U16, 0x7020, 1));
        fields.push(fd(FieldType::U32, 0x7020, 11));
        fields.push(fd(FieldType::U16, 0x7020, 21));
        fields.push(fd(FieldType::U16, 0x7020, 22));
        fields.push(fd(FieldType::U16, 0x7020, 23));
        fields.push(fd(FieldType::U16, 0x7020, 24));
        proof {
            assert(fields@ =~= el7047_positioning_fields());
        }
        let mut pa: Vec<PdoEntryInfo> = Vec::new();
        pa.push(pe(0x6000, 1, 16));
        pa.push(pe(0x6000, 11, 32));
        pa.push(pe(0x6000, 12, 32));
        let mut pb: Vec<PdoEntryInfo> = Vec::new();
        pb.push(pe(0x6010, 1, 16));
        let mut pc: Vec<PdoEntryInfo> = Vec::new();
        pc.push(pe(0x6020, 1, 16));
        pc.push(pe(0x6020, 11, 32));
        pc.push(pe(0x6020, 21, 16));
        pc.push(pe(0x6020, 22, 32));
        let mut inp: Vec<PdoInfo> = Vec::new();
        inp.push(pdo(0x1A01, pa));
        inp.push(pdo(0x1A03, pb));
        inp.push(pdo(0x1A07, pc));
        let mut pe1: Vec<PdoEntryInfo> = Vec::new();
        pe1.push(pe(0x7000, 1, 16));
        pe1.push(pe(0x7000, 11, 32));
        let mut pf: Vec<PdoEntryInfo> = Vec::new();
        pf.push(pe(0x7010, 1, 16));
        let mut pg: Vec<PdoEntryInfo> = Vec::new();
        pg.push(pe(0x7020, 1, 16));
        pg.push(pe(0x7020, 11, 32));
        pg.push(pe(0x7020, 21, 16));
        pg.push(pe(0x7020, 22, 16));
        pg.push(pe(0x7020, 23, 16));
        pg.push(pe(0x7020, 24, 16));
        let mut outp: Vec<PdoInfo> = Vec::new();
        outp.push(pdo(0x1601, pe1));
        outp.push(pdo(0x1602, pf));
        outp.push(pdo(0x1606, pg));
        let mut sms: Vec<SyncInfo> = Vec::new();
        sms.push(sm(3, SyncDirection::Input, inp));
        sms.push(sm(2, SyncDirection::Output, outp));
        let r = SlaveSchema { id: SlaveId::el(7047), fields, pdos: Some(sms), sdos: Vec::new() };
        proof {
            assert(sm_pdo_indexes(r, 0) =~= seq![0x1A01u16, 0x1A03u16, 0x1A07u16]);
            assert(sm_pdo_indexes(r, 1) =~= seq![0x1601u16, 0x1602u16, 0x1606u16]);
        }
        r
    }
}

} // verus!
