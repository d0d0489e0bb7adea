//! Deterministic process-image layout.
//!
//! Given an ordered list of devices, each with an ordered list of typed
//! fields, this module computes the byte/bit offset of every mapped register
//! inside the flat process image.  The algorithm keeps a running byte cursor,
//! processed in declaration order: every field advances the cursor by its
//! width, and a field bound to a register is placed at the cursor with bit
//! offset zero.  The same computation also yields the total image size, which
//! is later held against the size the bus reports for the domain.

use vstd::prelude::*;

use crate::types::{Error, Offset, PdoEntryIndex, SdoIndex, SdoValue, SlaveId, SyncInfo};

verus! {

/// The primitive type of one field of a device's process data.
#[derive(Clone, Copy, PartialEq, Eq, Structural, Debug)]
pub enum FieldType {
    U8,
    I8,
    U16,
    I16,
    U32,
    I32,
    U64,
    I64,
}

/// The width in bytes of a field of the given type.
pub open spec fn width_bytes(t: FieldType) -> nat {
    match t {
        FieldType::U8 | FieldType::I8 => 1,
        FieldType::U16 | FieldType::I16 => 2,
        FieldType::U32 | FieldType::I32 => 4,
        FieldType::U64 | FieldType::I64 => 8,
    }
}

impl FieldType {
    /// The width of a field of this type, in bytes.
    pub fn byte_len(self) -> (r: usize)
        ensures
            r == width_bytes(self),
    {
        match self {
            FieldType::U8 | FieldType::I8 => 1,
            FieldType::U16 | FieldType::I16 => 2,
            FieldType::U32 | FieldType::I32 => 4,
            FieldType::U64 | FieldType::I64 => 8,
        }
    }

    /// The width of a field of this type, in bits.
    pub fn bit_len(self) -> (r: u32)
        ensures
            r == 8 * width_bytes(self),
    {
        match self {
            FieldType::U8 | FieldType::I8 => 8,
            FieldType::U16 | FieldType::I16 => 16,
            FieldType::U32 | FieldType::I32 => 32,
            FieldType::U64 | FieldType::I64 => 64,
        }
    }
}

/// One declared field of a device: its primitive type, and the register it is
/// bound to, if any.  An unbound field still occupies its width in the image.
#[derive(Clone, Copy, PartialEq, Eq, Structural, Debug)]
pub struct FieldDef {
    pub ty: FieldType,
    pub entry: Option<PdoEntryIndex>,
}

/// The declared schema of one device: its identity, its ordered fields, its
/// optional sync-manager/PDO assignment, and its initial configuration values.
#[derive(Debug)]
pub struct SlaveSchema {
    pub id: SlaveId,
    pub fields: Vec<FieldDef>,
    pub pdos: Option<Vec<SyncInfo>>,
    pub sdos: Vec<(SdoIndex, SdoValue)>,
}

/// The total size in bytes of a device's fields.
pub open spec fn spec_slave_size(fields: Seq<FieldDef>) -> nat
    decreases fields.len(),
{
    if fields.len() == 0 {
        0
    } else {
        width_bytes(fields[0].ty) + spec_slave_size(fields.skip(1))
    }
}

/// The register table of a device's fields, with the byte cursor starting at
/// `cursor`: each bound field contributes its register at the cursor's
/// position, and every field advances the cursor by its width.
pub open spec fn spec_slave_regs(fields: Seq<FieldDef>, cursor: nat) -> Seq<(PdoEntryIndex, nat)>
    decreases fields.len(),
{
    if fields.len() == 0 {
        Seq::empty()
    } else {
        let rest = spec_slave_regs(fields.skip(1), cursor + width_bytes(fields[0].ty));
        match fields[0].entry {
            Option::Some(e) => seq![(e, cursor)] + rest,
            Option::None => rest,
        }
    }
}

/// The size in bytes a device's fields occupy in the process image.
pub fn slave_size(fields: &Vec<FieldDef>) -> (r: usize)
    requires
        spec_slave_size(fields@) <= usize::MAX,
    ensures
        r == spec_slave_size(fields@),
{
    proof {
        assert(fields@.skip(0) =~= fields@);
    }
    let mut size: usize = 0;
    let mut i: usize = 0;
    while i < fields.len()
        invariant
            i <= fields@.len(),
            spec_slave_size(fields@) <= usize::MAX,
            size + spec_slave_size(fields@.skip(i as int)) == spec_slave_size(fields@),
        decreases fields@.len() - i,
    {
        proof {
            assert(fields@.skip(i as int)[0] == fields@[i as int]);
            assert(fields@.skip(i as int).skip(1) =~= fields@.skip(i + 1));
        }
        size = size + fields[i].ty.byte_len();
        i = i + 1;
    }
    size
}

/// What it means for a built register table to realize the computed layout of
/// a field list: entry for entry the same register, the same byte offset, and
/// bit offset zero throughout.
pub open spec fn regs_match(fields: Seq<FieldDef>, r: Seq<(PdoEntryIndex, Offset)>) -> bool {
    &&& r.len() == spec_slave_regs(fields, 0).len()
    &&& forall|k: int|
        0 <= k < r.len() ==> {
            &&& (#[trigger] r[k]).0 == spec_slave_regs(fields, 0)[k].0
            &&& r[k].1.byte == spec_slave_regs(fields, 0)[k].1
            &&& r[k].1.bit == 0
        }
}

/// Compute the register table of one device: for each field bound to a
/// register, in declaration order, the byte offset where it lives, with bit
/// offset zero.  The result is a pure function of the field list, so repeated
/// runs over the same list give the identical table.
pub fn slave_regs(fields: &Vec<FieldDef>) -> (r: Vec<(PdoEntryIndex, Offset)>)
    requires
        spec_slave_size(fields@) <= usize::MAX,
    ensures
        regs_match(fields@, r@),
{
    proof {
        assert(fields@.skip(0) =~= fields@);
    }
    let ghost all = spec_slave_regs(fields@, 0);
    let mut r: Vec<(PdoEntryIndex, Offset)> = Vec::new();
    proof {
        assert(spec_regs_prefix(r@) + spec_slave_regs(fields@, 0) =~= spec_slave_regs(fields@, 0));
    }
    let mut cursor: usize = 0;
    let mut i: usize = 0;
    while i < fields.len()
        invariant
            i <= fields@.len(),
            spec_slave_size(fields@) <= usize::MAX,
            all == spec_slave_regs(fields@, 0),
            cursor + spec_slave_size(fields@.skip(i as int)) == spec_slave_size(fields@),
            all == spec_regs_prefix(r@) + spec_slave_regs(fields@.skip(i as int), cursor as nat),
            forall|k: int|
                0 <= k < r@.len() ==> (#[trigger] r@[k]).1.bit == 0,
        decreases fields@.len() - i,
    {
        proof {
            assert(fields@.skip(i as int)[0] == fields@[i as int]);
            assert(fields@.skip(i as int).skip(1) =~= fields@.skip(i + 1));
        }
        let fld = fields[i];
        match fld.entry {
            Option::Some(e) => {
                let ghost before = r@;
                r.push((e, Offset { byte: cursor, bit: 0 }));
                proof {
                    assert(spec_regs_prefix(r@) =~= spec_regs_prefix(before) + seq![
                        (e, cursor as nat),
                    ]);
                    assert(spec_regs_prefix(before) + (seq![(e, cursor as nat)] + spec_slave_regs(
                        fields@.skip(i + 1),
                        (cursor + width_bytes(fld.ty)) as nat,
                    )) =~= spec_regs_prefix(r@) + spec_slave_regs(
                        fields@.skip(i + 1),
                        (cursor + width_bytes(fld.ty)) as nat,
                    ));
                }
            },
            Option::None => {},
        }
        cursor = cursor + fld.ty.byte_len();
        i = i + 1;
    }
    proof {
        assert(spec_slave_regs(fields@.skip(fields@.len() as int), cursor as nat)
            =~= Seq::<(PdoEntryIndex, nat)>::empty());
        assert(all =~= spec_regs_prefix(r@));
        assert forall|k: int| 0 <= k < r@.len() implies {
            &&& (#[trigger] r@[k]).0 == all[k].0
            &&& r@[k].1.byte == all[k].1
        } by {
            assert(spec_regs_prefix(r@)[k] == (r@[k].0, r@[k].1.byte as nat));
        }
    }
    r
}

/// The abstraction of a built register table: the register of each entry and
/// its byte offset.
pub open spec fn spec_regs_prefix(r: Seq<(PdoEntryIndex, Offset)>) -> Seq<(PdoEntryIndex, nat)> {
    r.map_values(|p: (PdoEntryIndex, Offset)| (p.0, p.1.byte as nat))
}

/// The layout is deterministic: the register table is a function of the field
/// list alone, so any two tables computed from the same list are identical.
pub proof fn lemma_layout_deterministic(
    fields: Seq<FieldDef>,
    r1: Seq<(PdoEntryIndex, Offset)>,
    r2: Seq<(PdoEntryIndex, Offset)>,
)
    requires
        regs_match(fields, r1),
        regs_match(fields, r2),
    ensures
        r1 == r2,
{
    assert(r1 =~= r2);
}

/// What it means for the register positions the bus reported to satisfy the
/// computed layout: the device's first register must be byte-aligned, and
/// every later register must lie at its computed offset, shifted by the byte
/// position the bus chose for the first one.
pub open spec fn spec_positions_ok(expected: Seq<(PdoEntryIndex, Offset)>, reported: Seq<Offset>) -> bool {
    reported.len() == 0 || {
        &&& reported[0].bit == 0
        &&& forall|j: int|
            1 <= j < reported.len() ==> {
                &&& (#[trigger] reported[j]).byte == expected[j].1.byte + reported[0].byte
                &&& reported[j].bit == expected[j].1.bit
            }
    }
}

/// Hold the register positions the bus reported for one device against the
/// computed layout.  A device whose first register is not byte-aligned, or
/// whose later registers do not sit at their computed offsets relative to the
/// first, is a composition the bus cannot satisfy: that is a fatal
/// configuration error, raised here before the image is ever activated.
/// On success the byte position of the device's first register is returned.
pub fn validate_registration(
    slave: usize,
    expected: &Vec<(PdoEntryIndex, Offset)>,
    reported: &Vec<Offset>,
) -> (r: Result<usize, Error>)
    requires
        expected@.len() == reported@.len(),
    ensures
        r is Ok <==> spec_positions_ok(expected@, reported@),
        match r {
            Ok(base) => base == if reported@.len() == 0 {
                0usize
            } else {
                reported@[0].byte
            },
            Err(e) => match e {
                Error::MisalignedSlave { slave: s } => {
                    &&& s == slave
                    &&& reported@.len() > 0
                    &&& reported@[0].bit != 0
                },
                Error::RegisterMismatch { slave: s, reg, expected: ex, reported: rp } => {
                    &&& s == slave
                    &&& 1 <= reg < reported@.len()
                    &&& reported@[0].bit == 0
                    &&& ex == expected@[reg as int].1
                    &&& rp == reported@[reg as int]
                    &&& !(rp.byte == ex.byte + reported@[0].byte && rp.bit == ex.bit)
                },
                _ => false,
            },
        },
{
    if reported.len() == 0 {
        return Ok(0);
    }
    if reported[0].bit != 0 {
        return Err(Error::MisalignedSlave { slave });
    }
    let base = reported[0].byte;
    let mut j: usize = 1;
    while j < reported.len()
        invariant
            1 <= j <= reported@.len(),
            expected@.len() == reported@.len(),
            base == reported@[0].byte,
            reported@[0].bit == 0,
            forall|k: int|
                1 <= k < j ==> {
                    &&& (#[trigger] reported@[k]).byte == expected@[k].1.byte + reported@[0].byte
                    &&& reported@[k].bit == expected@[k].1.bit
                },
        decreases reported@.len() - j,
    {
        let rep = reported[j];
        let exp = expected[j].1;
        let byte_ok = rep.byte >= base && rep.byte - base == exp.byte;
        if !(byte_ok && rep.bit == exp.bit) {
            return Err(Error::RegisterMismatch { slave, reg: j, expected: exp, reported: rep });
        }
        j = j + 1;
    }
    Ok(base)
}

/// Hold the computed image size against the size the bus reports for the
/// domain.  A mismatch means the typed overlay would not line up with the
/// exchanged data; it is fatal and must be raised before cyclic operation.
pub fn check_domain_size(domain: usize, image: usize) -> (r: Result<(), Error>)
    ensures
        r is Ok <==> domain == image,
        r is Err ==> r->Err_0 == (Error::SizeMismatch { domain, image }),
{
    if domain == image {
        Ok(())
    } else {
        Err(Error::SizeMismatch { domain, image })
    }
}

/// Hold a configured device against what the bus found: a device that is
/// not present on the bus is a fatal configuration error.
pub fn check_slave_present(slave: usize, present: bool) -> (r: Result<(), Error>)
    ensures
        r is Ok <==> present,
        r is Err ==> r->Err_0 == (Error::MissingSlave { slave }),
{
    if present {
        Ok(())
    } else {
        Err(Error::MissingSlave { slave })
    }
}

/// The total size of an ordered device list's fields, in bytes.
pub open spec fn spec_image_size(slaves: Seq<SlaveSchema>) -> nat
    decreases slaves.len(),
{
    if slaves.len() == 0 {
        0
    } else {
        spec_slave_size(slaves[0].fields@) + spec_image_size(slaves.skip(1))
    }
}

/// The size of the whole process image: the devices' sizes, summed in
/// declaration order.
pub fn image_size(slaves: &Vec<SlaveSchema>) -> (r: usize)
    requires
        spec_image_size(slaves@) <= usize::MAX,
    ensures
        r == spec_image_size(slaves@),
{
    proof {
        assert(slaves@.skip(0) =~= slaves@);
    }
    let mut size: usize = 0;
    let mut i: usize = 0;
    while i < slaves.len()
        invariant
            i <= slaves@.len(),
            spec_image_size(slaves@) <= usize::MAX,
            size + spec_image_size(slaves@.skip(i as int)) == spec_image_size(slaves@),
        decreases slaves@.len() - i,
    {
        proof {
            assert(slaves@.skip(i as int)[0] == slaves@[i as int]);
            assert(slaves@.skip(i as int).skip(1) =~= slaves@.skip(i + 1));
        }
        size = size + slave_size(&slaves[i].fields);
        i = i + 1;
    }
    size
}

/// The identities of an ordered device list, in declaration order.
pub fn image_slave_ids(slaves: &Vec<SlaveSchema>) -> (r: Vec<SlaveId>)
    ensures
        r@ == slaves@.map_values(|s: SlaveSchema| s.id),
{
    let mut r: Vec<SlaveId> = Vec::new();
    let mut i: usize = 0;
    while i < slaves.len()
        invariant
            i <= slaves@.len(),
            r@ == slaves@.take(i as int).map_values(|s: SlaveSchema| s.id),
        decreases slaves@.len() - i,
    {
        r.push(slaves[i].id);
        proof {
            assert(r@ =~= slaves@.take(i + 1).map_values(|s: SlaveSchema| s.id));
        }
        i = i + 1;
    }
    proof {
        assert(slaves@.take(slaves@.len() as int) =~= slaves@);
    }
    r
}

/// The register tables of an ordered device list, one table per device, each
/// computed by `slave_regs`.
pub fn image_regs(slaves: &Vec<SlaveSchema>) -> (r: Vec<Vec<(PdoEntryIndex, Offset)>>)
    requires
        forall|i: int|
            0 <= i < slaves@.len() ==> spec_slave_size((#[trigger] slaves@[i]).fields@)
                <= usize::MAX,
    ensures
        r@.len() == slaves@.len(),
        forall|i: int|
            0 <= i < slaves@.len() ==> regs_match(slaves@[i].fields@, (#[trigger] r@[i])@),
{
    let mut r: Vec<Vec<(PdoEntryIndex, Offset)>> = Vec::new();
    let mut i: usize = 0;
    while i < slaves.len()
        invariant
            i <= slaves@.len(),
            r@.len() == i,
            forall|j: int|
                0 <= j < slaves@.len() ==> spec_slave_size((#[trigger] slaves@[j]).fields@)
                    <= usize::MAX,
            forall|j: int|
                0 <= j < i ==> regs_match(slaves@[j].fields@, (#[trigger] r@[j])@),
        decreases slaves@.len() - i,
    {
        r.push(slave_regs(&slaves[i].fields));
        i = i + 1;
    }
    r
}

/// Concatenate the device lists of several child images into one composite
/// image, in declaration order.  This mirrors how a composite image is built
/// from its parts: device identities, register tables and configuration
/// values all follow this one order.
pub fn compose(children: Vec<Vec<SlaveSchema>>) -> (r: Vec<SlaveSchema>)
    ensures
        r@ == children@.map_values(|v: Vec<SlaveSchema>| v@).flatten(),
{
    let ghost views = children@.map_values(|v: Vec<SlaveSchema>| v@);
    let mut r: Vec<SlaveSchema> = Vec::new();
    let mut rest = children;
    proof {
        assert(r@ + rest@.map_values(|v: Vec<SlaveSchema>| v@).flatten() =~= views.flatten());
    }
    while rest.len() > 0
        invariant
            views == children@.map_values(|v: Vec<SlaveSchema>| v@),
            r@ + rest@.map_values(|v: Vec<SlaveSchema>| v@).flatten() == views.flatten(),
        decreases rest@.len(),
    {
        let ghost rest_views = rest@.map_values(|v: Vec<SlaveSchema>| v@);
        let mut part = rest.remove(0);
        let ghost part_view = part@;
        proof {
            assert(rest_views.len() > 0);
            assert(rest_views[0] == part_view);
            assert(rest_views.drop_first() =~= rest@.map_values(|v: Vec<SlaveSchema>| v@));
            assert(rest_views.flatten() == rest_views.first() + rest_views.drop_first().flatten());
        }
        r.append(&mut part);
        proof {
            assert(r@ + rest@.map_values(|v: Vec<SlaveSchema>| v@).flatten() =~= views.flatten());
        }
    }
    proof {
        assert(rest@.map_values(|v: Vec<SlaveSchema>| v@) =~= Seq::<Seq<SlaveSchema>>::empty());
        assert(r@ + rest@.map_values(|v: Vec<SlaveSchema>| v@).flatten() =~= r@);
    }
    r
}

} // verus!
