use ethercat_plc::beckhoff::{EL1008, EL2008};
use ethercat_plc::demo::fb_blink;
use ethercat_plc::image::{ExternImage, ProcessImage};
use ethercat_plc::mlz_spec::{copy_string, DiscreteOutput, ERROR, IDLE, START, WARN};
use ethercat_plc::plc::{
    apply_request, drain_requests, CycleStep, CycleTimer, PlcBuilder, PlcState,
};
use ethercat_plc::server::{decode_frame, encode_response, push_u16_be, Decoded, Request, Response};
use ethercat_plc::types::Error;

fn frame(tid: u16, fc: u8, payload: &[u8]) -> (Vec<u8>, Vec<u8>) {
    let mut h: Vec<u8> = Vec::new();
    push_u16_be(&mut h, tid);
    push_u16_be(&mut h, 0);
    push_u16_be(&mut h, (payload.len() + 2) as u16);
    h.push(0);
    h.push(fc);
    (h, payload.to_vec())
}

fn decode_one(hid: usize, head: &Vec<u8>, body: &Vec<u8>) -> Request {
    match decode_frame(hid, head, body) {
        Decoded::Frame(req) => req,
        other => panic!("expected a request, got {:?}", other),
    }
}

#[test]
fn gateway_round_trip_write_then_read() {
    let mut ext = ExternImage::new(64);
    let (wh, wb) = frame(0x0102, 16, &[0x30, 0x05, 0x00, 0x02, 4, 0x12, 0x34, 0x56, 0x78]);
    let wreq = decode_one(1, &wh, &wb);
    let wresp = drain_requests(&mut ext, vec![wreq]);
    assert_eq!(wresp.len(), 1);
    let wframe = encode_response(&wresp[0]);
    assert_eq!(wframe, vec![0x01, 0x02, 0, 0, 0, 6, 0, 16, 0x30, 0x05, 0x00, 0x02]);

    let (rh, rb) = frame(0x0203, 3, &[0x30, 0x05, 0x00, 0x02]);
    let rreq = decode_one(1, &rh, &rb);
    let rresp = drain_requests(&mut ext, vec![rreq]);
    let rframe = encode_response(&rresp[0]);
    assert_eq!(rframe, vec![0x02, 0x03, 0, 0, 0, 7, 0, 3, 4, 0x12, 0x34, 0x56, 0x78]);
}

#[test]
fn out_of_window_request_is_rejected_and_harmless() {
    let mut ext = ExternImage::new(16);
    let before: Vec<u16> = ext.read_words(0, 16);
    let req = Request { hid: 0, tid: 0x0405, fc: 3, addr: 0x300C, count: 5, write: None };
    match apply_request(&mut ext, req) {
        Response::Error(rq, ec) => {
            assert_eq!(ec, 2);
            assert_eq!(rq.tid, 0x0405);
            let frame = encode_response(&Response::Error(rq, ec));
            assert_eq!(frame, vec![0x04, 0x05, 0, 0, 0, 3, 0, 0x83, 2]);
        }
        other => panic!("expected a rejection, got {:?}", other),
    }
    assert_eq!(ext.read_words(0, 16), before);

    let req = Request { hid: 0, tid: 1, fc: 6, addr: 0x2FFF, count: 1, write: Some(vec![9]) };
    assert!(matches!(apply_request(&mut ext, req), Response::Error(_, 2)));
    assert_eq!(ext.read_words(0, 16), before);
}

#[test]
fn boundary_is_inclusive_at_the_window_end() {
    let mut ext = ExternImage::new(16);
    let req = Request { hid: 0, tid: 1, fc: 3, addr: 0x300C, count: 4, write: None };
    assert!(matches!(apply_request(&mut ext, req), Response::Done(_, _)));
    let req = Request { hid: 0, tid: 2, fc: 3, addr: 0x3010, count: 0, write: None };
    assert!(matches!(apply_request(&mut ext, req), Response::Done(_, _)));
    let req = Request { hid: 0, tid: 3, fc: 3, addr: 0x3010, count: 1, write: None };
    assert!(matches!(apply_request(&mut ext, req), Response::Error(_, 2)));
}

#[test]
fn serialized_clients_never_see_a_torn_write() {
    let mut ext = ExternImage::new(64);
    let wa = Request {
        hid: 1,
        tid: 10,
        fc: 16,
        addr: 0x3010,
        count: 4,
        write: Some(vec![0xAAAA; 4]),
    };
    let r1 = Request { hid: 2, tid: 11, fc: 3, addr: 0x3010, count: 4, write: None };
    let wb = Request {
        hid: 2,
        tid: 12,
        fc: 16,
        addr: 0x3012,
        count: 4,
        write: Some(vec![0xBBBB; 4]),
    };
    let r2 = Request { hid: 1, tid: 13, fc: 3, addr: 0x3010, count: 6, write: None };
    let responses = drain_requests(&mut ext, vec![wa, r1, wb, r2]);
    assert_eq!(responses.len(), 4);
    match &responses[1] {
        Response::Done(rq, values) => {
            assert_eq!(rq.tid, 11);
            assert_eq!(values, &vec![0xAAAA; 4]);
        }
        other => panic!("expected read data, got {:?}", other),
    }
    match &responses[3] {
        Response::Done(rq, values) => {
            assert_eq!(rq.tid, 13);
            assert_eq!(values, &vec![0xAAAA, 0xAAAA, 0xBBBB, 0xBBBB, 0xBBBB, 0xBBBB]);
        }
        other => panic!("expected read data, got {:?}", other),
    }
}

#[test]
fn deadlines_stay_on_the_grid_under_simulated_overruns() {
    let start: u64 = 1_000;
    let period: u64 = 100;
    let mut timer = CycleTimer::new(start, period);
    let cycle_durations: [u64; 5] = [30, 170, 40, 90, 250];
    let mut now: u64 = start;
    let mut deadlines: Vec<u64> = Vec::new();
    for d in cycle_durations {
        now += d;
        timer.advance();
        deadlines.push(timer.deadline);
        now += timer.sleep_ns(now);
    }
    assert_eq!(deadlines, vec![1_100, 1_200, 1_300, 1_400, 1_500]);
    assert_eq!(timer.sleep_ns(1_450), 50);
    assert_eq!(timer.sleep_ns(1_500), 0);
    assert_eq!(timer.sleep_ns(1_700), 0);
}

#[test]
fn cycle_period_from_frequency() {
    let plain = PlcBuilder::new(String::from("plc"));
    assert_eq!(plain.cycle_period_ns(), 1_000_000);
    let fast = PlcBuilder::new(String::from("plc")).cycle_freq(100);
    assert_eq!(fast.cycle_period_ns(), 10_000_000);
    let odd = PlcBuilder::new(String::from("plc")).cycle_freq(3);
    assert_eq!(odd.cycle_period_ns(), 333_333_333);
}

#[test]
fn builder_collects_configuration() {
    let b = PlcBuilder::new(String::from("testplc"))
        .master_id(0)
        .cycle_freq(100)
        .with_server(String::from("0.0.0.0:5020"))
        .logging_cfg(None, false);
    assert_eq!(b.name, "testplc");
    assert_eq!(b.master_id, Some(0));
    assert_eq!(b.cycle_freq, Some(100));
    assert_eq!(b.server_addr.as_deref(), Some("0.0.0.0:5020"));
    assert_eq!(b.logfile_base, None);
    assert!(!b.debug_logging);
    let b = PlcBuilder::new(String::from("p")).server(String::from("127.0.0.1:5020"));
    assert_eq!(b.server_addr.as_deref(), Some("127.0.0.1:5020"));
}

#[test]
fn cycle_steps_run_in_strict_order() {
    let mut step = CycleStep::Receive;
    let mut order: Vec<CycleStep> = vec![step];
    for _ in 0..5 {
        step = step.next();
        order.push(step);
    }
    assert_eq!(
        order,
        vec![
            CycleStep::Receive,
            CycleStep::Process,
            CycleStep::Logic,
            CycleStep::Drain,
            CycleStep::Queue,
            CycleStep::Send,
        ]
    );
    assert_eq!(step.next(), CycleStep::Receive);
    assert!(PlcState::Idle.can_configure());
    assert!(!PlcState::Stopped.can_configure());
    assert!(PlcState::Activated.is_running());
    assert!(!PlcState::Configuring.is_running());
}

#[test]
fn fb_blink_state_machine() {
    let mut input = EL1008 { input: 5 };
    let mut output = EL2008 { output: 7 };
    let mut iface = DiscreteOutput { value: 0, target: 0x0103, status: START };
    fb_blink(&mut input, &mut output, &mut iface);
    assert_eq!(output.output, 3);
    assert_eq!(iface.status, IDLE);
    assert_eq!(iface.value, 5);

    let mut iface = DiscreteOutput { value: 1, target: 2, status: IDLE };
    fb_blink(&mut input, &mut output, &mut iface);
    assert_eq!(iface.status, WARN);

    let mut iface = DiscreteOutput { value: 2, target: 2, status: WARN };
    fb_blink(&mut input, &mut output, &mut iface);
    assert_eq!(iface.status, IDLE);

    let mut iface = DiscreteOutput { value: 0, target: 9, status: 0x6000 };
    fb_blink(&mut input, &mut output, &mut iface);
    assert_eq!(iface.status, ERROR);

    let mut iface = DiscreteOutput { value: 0, target: 9, status: 0 };
    fb_blink(&mut input, &mut output, &mut iface);
    assert_eq!(output.output, 0);
    assert_eq!(iface.target, 0);
    assert_eq!(iface.status, IDLE);
}

#[test]
fn copy_string_packs_bytes_into_registers() {
    let mut dst = vec![0u16; 4];
    copy_string(&mut dst, &b"AB".to_vec());
    assert_eq!(dst, vec![0x4241, 0, 0, 0]);

    let mut dst = vec![0xFFFFu16; 4];
    copy_string(&mut dst, &b"ABC".to_vec());
    assert_eq!(dst, vec![0x4241, 0x0043, 0xFFFF, 0xFFFF]);

    let mut dst = vec![0u16; 2];
    copy_string(&mut dst, &b"ABCDEFGH".to_vec());
    assert_eq!(dst, vec![0x4241, 0x4443]);
}

#[test]
fn process_image_accessors_are_little_endian() {
    let mut im = ProcessImage::new(8);
    im.set_u16(0, 0x1234);
    assert_eq!(im.get_u8(0), 0x34);
    assert_eq!(im.get_u8(1), 0x12);
    assert_eq!(im.get_u16(0), 0x1234);
    im.set_u32(2, 0xDEADBEEF);
    assert_eq!(im.get_u32(2), 0xDEADBEEF);
    assert_eq!(im.get_u8(2), 0xEF);
    assert_eq!(im.get_u8(5), 0xDE);
    assert_eq!(im.get_u16(0), 0x1234);
}

#[test]
fn process_image_attach_checks_length() {
    let im = ProcessImage::attach(vec![0u8; 8], 8).expect("exact size must attach");
    assert_eq!(im.len(), 8);
    match ProcessImage::attach(vec![0u8; 8], 9) {
        Err(Error::SizeMismatch { domain, image }) => {
            assert_eq!(domain, 8);
            assert_eq!(image, 9);
        }
        other => panic!("expected a size mismatch, got {:?}", other),
    }
}

#[test]
fn extern_image_word_access() {
    let mut ext = ExternImage::new(4);
    assert_eq!(ext.size(), 8);
    assert_eq!(ext.word_count(), 4);
    ext.set_word(3, 0xCAFE);
    assert_eq!(ext.get_word(3), 0xCAFE);
    assert_eq!(ext.get_word(1), 0);
    ext.write_words(1, &vec![1, 2]);
    assert_eq!(ext.read_words(0, 4), vec![0, 1, 2, 0xCAFE]);
}

fn demo_globals() -> ethercat_plc::demo::Globals {
    let mut magnet_params = vec![0u16; 16];
    magnet_params[0] = 0x3c;
    ethercat_plc::demo::Globals {
        cycle: 0,
        indexer_is_init: false,
        devices: vec![
            ethercat_plc::demo::DeviceInfo {
                typcode: 0x1E03,
                name: b"Blink".to_vec(),
                offset: 42,
                ..Default::default()
            },
            ethercat_plc::demo::DeviceInfo {
                typcode: 0x3008,
                name: b"Magnet".to_vec(),
                unit: 0x0007,
                params: magnet_params,
                aux: vec![b"output disabled".to_vec(), b"emergency shutdown".to_vec()],
                absmin_bits: (-15.0f32).to_bits(),
                absmax_bits: 15.0f32.to_bits(),
                ..Default::default()
            },
        ],
        plc_name: b"testplc".to_vec(),
        plc_version: b"v0.0.5beta".to_vec(),
        plc_author1: b"some very long strings that I think".to_vec(),
        plc_author2: b"won't really fit into the indexer".to_vec(),
    }
}

#[test]
fn magic_number_bit_pattern() {
    assert_eq!(ethercat_plc::demo::MAGIC_BITS, 2015.02f32.to_bits());
    let mut ext = ExternImage::new(64);
    let mut globals = demo_globals();
    ethercat_plc::demo::indexer(&mut ext, &mut globals);
    let bits = 2015.02f32.to_bits();
    assert_eq!(ext.get_word(0), bits as u16);
    assert_eq!(ext.get_word(1), (bits >> 16) as u16);
    assert_eq!(ext.get_word(2), 6);
}

#[test]
fn indexer_initializes_device_table() {
    let mut ext = ExternImage::new(64);
    let mut globals = demo_globals();
    ethercat_plc::demo::indexer(&mut ext, &mut globals);
    assert!(globals.indexer_is_init);
    assert_eq!(globals.cycle, 1);
    let blink = &globals.devices[0];
    assert_eq!(blink.offset, 42);
    assert_eq!(blink.size, 6);
    assert_eq!(blink.all_flags, 0);
    let magnet = &globals.devices[1];
    assert_eq!(magnet.offset, 48);
    assert_eq!(magnet.size, 16);
    assert_eq!(magnet.all_flags, 3);
    // request 0 asks for the identity block: the table header, then the
    // station name packed two bytes per register.
    assert_eq!(
        ext.read_words(4, 17),
        vec![
            0, 36, 6, 0, 0, 0x8000, 0, 0, 0, 0, 0x6574, 0x7473, 0x6c70, 0x0063, 0, 0, 0
        ]
    );
    assert_eq!(ext.get_word(3), 0x8000);
}

#[test]
fn indexer_answers_device_queries() {
    let mut ext = ExternImage::new(64);
    let mut globals = demo_globals();
    ethercat_plc::demo::indexer(&mut ext, &mut globals);

    ext.set_word(3, 0x0102);
    ethercat_plc::demo::indexer(&mut ext, &mut globals);
    assert_eq!(ext.get_word(4), 16);
    assert_eq!(ext.get_word(3), 0x8102);

    ext.set_word(3, 0x0202);
    ethercat_plc::demo::indexer(&mut ext, &mut globals);
    assert_eq!(ext.get_word(4), 48);

    ext.set_word(3, 0x0002);
    ethercat_plc::demo::indexer(&mut ext, &mut globals);
    let words = ext.read_words(4, 17);
    assert_eq!(words[0], 0x3008);
    assert_eq!(words[1], 16);
    assert_eq!(words[2], 48);
    assert_eq!(words[3], 7);
    assert_eq!(words[4], 3);
    assert_eq!(words[5], 0);
    assert_eq!(words[6], 0);
    assert_eq!(words[7] as u32, (-15.0f32).to_bits() >> 16);
    assert_eq!(words[8], 0);
    assert_eq!(words[9] as u32, 15.0f32.to_bits() >> 16);
    assert_eq!(&words[10..14], &[0x614D, 0x6E67, 0x7465, 0]);

    ext.set_word(3, 0x0F02);
    ethercat_plc::demo::indexer(&mut ext, &mut globals);
    let words = ext.read_words(4, 17);
    assert_eq!(words[0], 0x3c);
    assert_eq!(&words[1..], &[0u16; 16]);

    ext.set_word(3, 0x1002);
    ethercat_plc::demo::indexer(&mut ext, &mut globals);
    assert_eq!(ext.get_word(4), 0x756F);

    let cycle_before = globals.cycle;
    ext.set_word(3, 0x7F00);
    ethercat_plc::demo::indexer(&mut ext, &mut globals);
    assert_eq!(ext.get_word(4), cycle_before);
}

#[test]
fn indexer_cycle_counter_wraps() {
    let mut ext = ExternImage::new(64);
    let mut globals = demo_globals();
    globals.cycle = 0xffff;
    ethercat_plc::demo::indexer(&mut ext, &mut globals);
    assert_eq!(globals.cycle, 0);
}
