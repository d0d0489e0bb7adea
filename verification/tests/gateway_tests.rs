use byteorder::{ByteOrder, BE};
use ethercat_plc::server::{
    body_len, decode_frame, encode_exception, encode_response, push_u16_be, u16_from_be,
    ConnectionTable, Decoded, Request, Response,
};

fn head(tid: u16, proto: u16, dlen: u16, unit: u8, fc: u8) -> Vec<u8> {
    let mut h: Vec<u8> = Vec::new();
    push_u16_be(&mut h, tid);
    push_u16_be(&mut h, proto);
    push_u16_be(&mut h, dlen);
    h.push(unit);
    h.push(fc);
    h
}

#[test]
fn be_helpers_agree_with_byteorder() {
    let mut buf: Vec<u8> = Vec::new();
    push_u16_be(&mut buf, 0xBEEF);
    assert_eq!(BE::read_u16(&buf), 0xBEEF);
    let mut refbuf = [0u8; 2];
    BE::write_u16(&mut refbuf, 0x1234);
    assert_eq!(u16_from_be(refbuf[0], refbuf[1]), 0x1234);
    assert_eq!(u16_from_be(0xAB, 0xCD), 0xABCD);
}

#[test]
fn body_len_follows_length_field() {
    assert_eq!(body_len(&head(0, 0, 6, 0, 3)), Some(4));
    assert_eq!(body_len(&head(0, 0, 2, 0, 3)), Some(0));
    assert_eq!(body_len(&head(0, 0, 1, 0, 3)), None);
    assert_eq!(body_len(&head(0, 0, 0, 0, 3)), None);
}

#[test]
fn decode_read_request() {
    let h = head(0x0102, 0, 6, 0, 3);
    let body = vec![0x30, 0x05, 0x00, 0x02];
    match decode_frame(9, &h, &body) {
        Decoded::Frame(req) => {
            assert_eq!(req.hid, 9);
            assert_eq!(req.tid, 0x0102);
            assert_eq!(req.fc, 3);
            assert_eq!(req.addr, 0x3005);
            assert_eq!(req.count, 2);
            assert!(req.write.is_none());
        }
        other => panic!("expected a request, got {:?}", other),
    }
}

#[test]
fn decode_single_write_request() {
    let h = head(7, 0, 6, 0, 6);
    let body = vec![0x30, 0x01, 0xAB, 0xCD];
    match decode_frame(1, &h, &body) {
        Decoded::Frame(req) => {
            assert_eq!(req.fc, 6);
            assert_eq!(req.addr, 0x3001);
            assert_eq!(req.count, 1);
            assert_eq!(req.write, Some(vec![0xABCD]));
        }
        other => panic!("expected a request, got {:?}", other),
    }
}

#[test]
fn decode_multi_write_request() {
    let h = head(3, 0, 11, 0, 16);
    let body = vec![0x30, 0x05, 0x00, 0x02, 4, 0x12, 0x34, 0x56, 0x78];
    match decode_frame(2, &h, &body) {
        Decoded::Frame(req) => {
            assert_eq!(req.fc, 16);
            assert_eq!(req.addr, 0x3005);
            assert_eq!(req.count, 2);
            assert_eq!(req.write, Some(vec![0x1234, 0x5678]));
        }
        other => panic!("expected a request, got {:?}", other),
    }
}

#[test]
fn nonzero_protocol_id_closes_connection() {
    let h = head(1, 5, 6, 0, 3);
    let body = vec![0, 0, 0, 1];
    assert!(matches!(decode_frame(0, &h, &body), Decoded::Close));
}

#[test]
fn nonzero_unit_id_skips_frame() {
    let h = head(1, 0, 6, 9, 3);
    let body = vec![0, 0, 0, 1];
    assert!(matches!(decode_frame(0, &h, &body), Decoded::Skip));
}

#[test]
fn wrong_length_closes_connection() {
    let h = head(1, 0, 8, 0, 3);
    let body = vec![0, 0, 0, 1, 0, 0];
    assert!(matches!(decode_frame(0, &h, &body), Decoded::Close));
    let h = head(1, 0, 10, 0, 16);
    let body = vec![0x30, 0x00, 0x00, 0x02, 4, 0x12, 0x34, 0x56];
    assert!(matches!(decode_frame(0, &h, &body), Decoded::Close));
}

#[test]
fn unknown_function_code_gets_exception() {
    let h = head(0x0708, 0, 6, 0, 0x2B);
    let body = vec![0, 0, 0, 0];
    match decode_frame(0, &h, &body) {
        Decoded::CloseWithException { tid, fc } => {
            assert_eq!(tid, 0x0708);
            assert_eq!(fc, 0x2B);
            let frame = encode_exception(tid, fc);
            assert_eq!(frame, vec![0x07, 0x08, 0, 0, 0, 9, 0, 0x2B | 0x80, 1]);
        }
        other => panic!("expected an exception, got {:?}", other),
    }
}

#[test]
fn encode_read_response_bytes() {
    let req = Request { hid: 0, tid: 0x0102, fc: 3, addr: 0x3005, count: 2, write: None };
    let frame = encode_response(&Response::Done(req, vec![0x1234, 0x5678]));
    assert_eq!(frame, vec![0x01, 0x02, 0, 0, 0, 7, 0, 3, 4, 0x12, 0x34, 0x56, 0x78]);
    assert_eq!(BE::read_u16(&frame[4..6]) as usize, frame.len() - 6);
}

#[test]
fn encode_single_write_response_bytes() {
    let req = Request { hid: 0, tid: 0x0A0B, fc: 6, addr: 0x3001, count: 1, write: None };
    let frame = encode_response(&Response::Done(req, vec![0xABCD]));
    assert_eq!(frame, vec![0x0A, 0x0B, 0, 0, 0, 6, 0, 6, 0x30, 0x01, 0xAB, 0xCD]);
}

#[test]
fn encode_multi_write_response_bytes() {
    let req = Request { hid: 0, tid: 0x0C0D, fc: 16, addr: 0x3005, count: 2, write: None };
    let frame = encode_response(&Response::Done(req, vec![0x1234, 0x5678]));
    assert_eq!(frame, vec![0x0C, 0x0D, 0, 0, 0, 6, 0, 16, 0x30, 0x05, 0x00, 0x02]);
}

#[test]
fn encode_error_response_bytes() {
    let req = Request { hid: 0, tid: 0x0E0F, fc: 3, addr: 0, count: 1, write: None };
    let frame = encode_response(&Response::Error(req, 2));
    assert_eq!(frame, vec![0x0E, 0x0F, 0, 0, 0, 3, 0, 0x83, 2]);
}

#[test]
fn oversized_read_count_is_malformed() {
    let h = head(1, 0, 6, 0, 3);
    let body = vec![0x30, 0x00, 0x00, 0x7E];
    assert!(matches!(decode_frame(0, &h, &body), Decoded::Close));
    let body = vec![0x30, 0x00, 0x00, 0x7D];
    assert!(matches!(decode_frame(0, &h, &body), Decoded::Frame(_)));
}

#[test]
fn connection_table_routes_only_live_connections() {
    let mut table = ConnectionTable::new();
    table.register(1);
    table.register(2);
    assert!(table.contains(1));
    assert!(table.contains(2));
    assert!(!table.contains(3));
    let resp1 = Response::Done(
        Request { hid: 1, tid: 0, fc: 3, addr: 0x3000, count: 0, write: None },
        vec![],
    );
    let resp2 = Response::Done(
        Request { hid: 2, tid: 0, fc: 3, addr: 0x3000, count: 0, write: None },
        vec![],
    );
    assert_eq!(table.route(&resp1), Some(1));
    table.deregister(1);
    assert_eq!(table.route(&resp1), None);
    assert_eq!(table.route(&resp2), Some(2));
    table.deregister(7);
    assert!(table.contains(2));
}

#[test]
fn fault_isolation_between_connections() {
    // A malformed frame closes only its own connection; a well-formed
    // request from another connection is still decoded, answered, and
    // routed correctly afterwards.
    let mut table = ConnectionTable::new();
    table.register(1);
    table.register(2);

    let bad_head = head(1, 0xEE, 6, 0, 3);
    let bad_body = vec![0, 0, 0, 1];
    assert!(matches!(decode_frame(1, &bad_head, &bad_body), Decoded::Close));
    table.deregister(1);

    let good_head = head(0x0042, 0, 6, 0, 4);
    let good_body = vec![0x30, 0x00, 0x00, 0x01];
    let req = match decode_frame(2, &good_head, &good_body) {
        Decoded::Frame(req) => req,
        other => panic!("expected a request, got {:?}", other),
    };
    assert_eq!(req.hid, 2);
    let resp = Response::Done(req, vec![7]);
    assert_eq!(table.route(&resp), Some(2));
}
