use ethercat_plc::beckhoff::{EK1100, EL1008, EL1502, EL1859, EL3104, EL4132, EL7047_Position};
use ethercat_plc::layout::{
    check_domain_size, check_slave_present, compose, image_size, image_slave_ids, slave_regs,
    slave_size, validate_registration, FieldDef, FieldType,
};
use ethercat_plc::types::{Error, Offset, PdoEntryIndex};

fn offsets(regs: &[(PdoEntryIndex, Offset)]) -> Vec<(u16, u8, usize, u32)> {
    regs.iter().map(|(e, o)| (e.index, e.subindex, o.byte, o.bit)).collect()
}

#[test]
fn layout_is_deterministic() {
    let schema = EL7047_Position::schema();
    let first = slave_regs(&schema.fields);
    let second = slave_regs(&schema.fields);
    assert_eq!(first, second);
}

#[test]
fn el3104_offsets_follow_declaration_order() {
    let schema = EL3104::schema();
    let regs = slave_regs(&schema.fields);
    assert_eq!(
        offsets(&regs),
        vec![
            (0x6000, 1, 0, 0),
            (0x6000, 17, 2, 0),
            (0x6010, 1, 4, 0),
            (0x6010, 17, 6, 0),
            (0x6020, 1, 8, 0),
            (0x6020, 17, 10, 0),
            (0x6030, 1, 12, 0),
            (0x6030, 17, 14, 0),
        ]
    );
    assert_eq!(slave_size(&schema.fields), 16);
}

#[test]
fn el1859_and_el4132_offsets() {
    let regs = slave_regs(&EL1859::schema().fields);
    assert_eq!(offsets(&regs), vec![(0x6000, 1, 0, 0), (0x7080, 1, 1, 0)]);
    let regs = slave_regs(&EL4132::schema().fields);
    assert_eq!(offsets(&regs), vec![(0x3001, 1, 0, 0), (0x3002, 1, 2, 0)]);
}

#[test]
fn el7047_position_offsets_and_size() {
    let schema = EL7047_Position::schema();
    let regs = slave_regs(&schema.fields);
    assert_eq!(
        offsets(&regs),
        vec![
            (0x6000, 1, 0, 0),
            (0x6000, 11, 2, 0),
            (0x6000, 12, 6, 0),
            (0x6010, 1, 10, 0),
            (0x6010, 11, 12, 0),
            (0x6010, 12, 14, 0),
            (0x6010, 14, 16, 0),
            (0x7000, 1, 20, 0),
            (0x7000, 11, 22, 0),
            (0x7010, 1, 26, 0),
            (0x7010, 11, 28, 0),
        ]
    );
    assert_eq!(slave_size(&schema.fields), 32);
}

#[test]
fn unbound_field_advances_cursor() {
    let fields = vec![
        FieldDef { ty: FieldType::U16, entry: Some(PdoEntryIndex { index: 0x6000, subindex: 1 }) },
        FieldDef { ty: FieldType::U32, entry: None },
        FieldDef { ty: FieldType::U8, entry: Some(PdoEntryIndex { index: 0x6000, subindex: 2 }) },
    ];
    let regs = slave_regs(&fields);
    assert_eq!(offsets(&regs), vec![(0x6000, 1, 0, 0), (0x6000, 2, 6, 0)]);
    assert_eq!(slave_size(&fields), 7);
}

#[test]
fn registration_accepts_shifted_base() {
    let schema = EL3104::schema();
    let expected = slave_regs(&schema.fields);
    let reported: Vec<Offset> =
        expected.iter().map(|(_, o)| Offset { byte: o.byte + 10, bit: 0 }).collect();
    assert_eq!(validate_registration(0, &expected, &reported), Ok(10));
}

#[test]
fn registration_rejects_unaligned_group_head() {
    let schema = EL1859::schema();
    let expected = slave_regs(&schema.fields);
    let reported = vec![Offset { byte: 4, bit: 3 }, Offset { byte: 5, bit: 0 }];
    assert_eq!(
        validate_registration(2, &expected, &reported),
        Err(Error::MisalignedSlave { slave: 2 })
    );
}

#[test]
fn registration_reports_first_mismatch() {
    let schema = EL3104::schema();
    let expected = slave_regs(&schema.fields);
    let mut reported: Vec<Offset> =
        expected.iter().map(|(_, o)| Offset { byte: o.byte + 8, bit: 0 }).collect();
    reported[3].byte = 99;
    match validate_registration(1, &expected, &reported) {
        Err(Error::RegisterMismatch { slave, reg, expected: ex, reported: rp }) => {
            assert_eq!(slave, 1);
            assert_eq!(reg, 3);
            assert_eq!(ex, Offset { byte: 6, bit: 0 });
            assert_eq!(rp, Offset { byte: 99, bit: 0 });
        }
        other => panic!("expected a register mismatch, got {:?}", other),
    }
}

#[test]
fn registration_of_empty_device_is_trivial() {
    let expected: Vec<(PdoEntryIndex, Offset)> = Vec::new();
    let reported: Vec<Offset> = Vec::new();
    assert_eq!(validate_registration(0, &expected, &reported), Ok(0));
}

#[test]
fn domain_size_must_match_image_size() {
    assert_eq!(check_domain_size(16, 16), Ok(()));
    assert_eq!(
        check_domain_size(18, 16),
        Err(Error::SizeMismatch { domain: 18, image: 16 })
    );
}

#[test]
fn missing_slave_is_fatal() {
    assert_eq!(check_slave_present(4, true), Ok(()));
    assert_eq!(check_slave_present(4, false), Err(Error::MissingSlave { slave: 4 }));
}

#[test]
fn composite_concatenates_children_in_order() {
    let left = vec![EK1100::schema(), EL7047_Position::schema()];
    let right = vec![EL1008::schema(), EL3104::schema(), EL4132::schema()];
    let all = compose(vec![left, right]);
    let ids = image_slave_ids(&all);
    let codes: Vec<u32> = ids.iter().map(|id| id.product_code).collect();
    assert_eq!(
        codes,
        vec![
            (1100 << 16) | 0x2c52,
            (7047 << 16) | 0x3052,
            (1008 << 16) | 0x3052,
            (3104 << 16) | 0x3052,
            (4132 << 16) | 0x3052,
        ]
    );
    assert_eq!(image_size(&all), 0 + 32 + 1 + 16 + 4);
}

#[test]
fn el1502_schema_shape() {
    let schema = EL1502::schema();
    assert_eq!(slave_size(&schema.fields), 24);
    let sms = schema.pdos.expect("the counter terminal assigns sync managers");
    assert_eq!(sms.len(), 2);
    assert_eq!(sms[0].index, 3);
    assert_eq!(sms[1].index, 2);
    assert_eq!(sms[0].pdos.len(), 2);
    assert_eq!(sms[0].pdos[0].index, 0x1A00);
    assert_eq!(sms[0].pdos[0].entries.len(), 2);
    assert_eq!(sms[0].pdos[0].entries[1].bit_length, 32);
}
