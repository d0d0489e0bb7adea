//! The protocol gateway: Modbus-TCP framing and the dispatcher's connection
//! table.
//!
//! A frame is `[2B transaction id][2B protocol id = 0][2B length][1B unit id
//! = 0][1B function code][payload]`, with all integers big-endian on the
//! wire.  Function codes 3 and 4 read registers, 6 writes a single register,
//! 16 writes many.  This module turns frames into typed `Request` values and
//! `Response` values back into frames; what a request does to the image is
//! the scheduler's business (`plc`).
//!
//! A malformed frame — non-zero protocol id, a length that does not fit its
//! function code, or an unknown function code — closes only the connection
//! it arrived on; an unknown function code is answered with a protocol
//! exception frame first.  A frame with a non-zero unit id is skipped.

use vstd::prelude::*;

verus! {

/// One gateway operation: read or write `count` 16-bit registers at `addr`,
/// correlated by the transaction id `tid` and the originating connection
/// `hid`.  A write carries its values; a read carries none.
#[derive(Debug)]
pub struct Request {
    pub hid: usize,
    pub tid: u16,
    pub fc: u8,
    pub addr: usize,
    pub count: usize,
    pub write: Option<Vec<u16>>,
}

/// The answer to one request: the echoed request with the read or written
/// values, or the request with a protocol exception code.
#[derive(Debug)]
pub enum Response {
    Done(Request, Vec<u16>),
    Error(Request, u8),
}

/// The 16-bit big-endian integer at position `i` of a byte sequence.
pub open spec fn be16(b: Seq<u8>, i: int) -> int {
    256 * b[i] + b[i + 1]
}

/// Combine two bytes into their big-endian 16-bit value.
pub fn u16_from_be(hi: u8, lo: u8) -> (r: u16)
    ensures
        r == 256 * hi + lo,
{
    256 * (hi as u16) + (lo as u16)
}

/// Append a 16-bit value to a buffer, high byte first.
pub fn push_u16_be(buf: &mut Vec<u8>, v: u16)
    ensures
        final(buf)@ == old(buf)@ + seq![(v / 256) as u8, (v % 256) as u8],
{
    buf.push((v / 256) as u8);
    buf.push((v % 256) as u8);
}

/// What the reader loop does with one decoded frame.
#[derive(Debug)]
pub enum Decoded {
    /// A well-formed request, to be forwarded to the dispatcher.
    Frame(Request),
    /// A frame addressed to another unit: dropped, the connection stays.
    Skip,
    /// A malformed frame: the connection is closed.
    Close,
    /// An unknown function code: the exception frame
    /// `encode_exception(tid, fc)` is sent, then the connection is closed.
    CloseWithException { tid: u16, fc: u8 },
}

/// The payload length the frame head announces, without the unit-id and
/// function-code bytes that are read together with the head.  A head whose
/// length field cannot even cover those two bytes is malformed: `None`, and
/// the connection is closed.
pub fn body_len(head: &Vec<u8>) -> (r: Option<usize>)
    requires
        head@.len() == 8,
    ensures
        r == if be16(head@, 4) >= 2 {
            Some((be16(head@, 4) - 2) as usize)
        } else {
            Option::<usize>::None
        },
{
    let dlen = u16_from_be(head[4], head[5]);
    if dlen >= 2 {
        Some((dlen - 2) as usize)
    } else {
        None
    }
}

/// The 16-bit words encoded big-endian in a byte sequence, in order.
pub open spec fn spec_words_from_be(b: Seq<u8>) -> Seq<u16> {
    Seq::new(b.len() / 2, |k: int| (256 * b[2 * k] + b[2 * k + 1]) as u16)
}

/// Decode one frame into the action the reader loop takes, as a pure
/// function of the bytes.  `head` is the eight fixed bytes, `body` the
/// announced remainder.  Reads whose count exceeds 125 registers could not
/// be answered within one frame and are treated as malformed.
pub fn decode_frame(hid: usize, head: &Vec<u8>, body: &Vec<u8>) -> (r: Decoded)
    requires
        head@.len() == 8,
        2 + body@.len() == be16(head@, 4),
    ensures
        ({
            let tid = be16(head@, 0);
            let proto = be16(head@, 2);
            let dlen = be16(head@, 4);
            let unit = head@[6];
            let fc = head@[7];
            &&& (proto != 0 ==> r is Close)
            &&& (proto == 0 && unit != 0 ==> r is Skip)
            &&& (proto == 0 && unit == 0 && (fc == 3 || fc == 4) ==> if dlen == 6 && be16(
                body@,
                2,
            ) <= 125 {
                match r {
                    Decoded::Frame(req) => {
                        &&& req.hid == hid
                        &&& req.tid == tid
                        &&& req.fc == fc
                        &&& req.addr == be16(body@, 0)
                        &&& req.count == be16(body@, 2)
                        &&& req.write is None
                    },
                    _ => false,
                }
            } else {
                r is Close
            })
            &&& (proto == 0 && unit == 0 && fc == 6 ==> if dlen == 6 {
                match r {
                    Decoded::Frame(req) => {
                        &&& req.hid == hid
                        &&& req.tid == tid
                        &&& req.fc == 6
                        &&& req.addr == be16(body@, 0)
                        &&& req.count == 1
                        &&& match req.write {
                            Option::Some(v) => v@ =~= seq![(be16(body@, 2)) as u16],
                            Option::None => false,
                        }
                    },
                    _ => false,
                }
            } else {
                r is Close
            })
            &&& (proto == 0 && unit == 0 && fc == 16 ==> if dlen >= 7 && dlen == 7 + body@[4]
                && body@[4] % 2 == 0 {
                match r {
                    Decoded::Frame(req) => {
                        &&& req.hid == hid
                        &&& req.tid == tid
                        &&& req.fc == 16
                        &&& req.addr == be16(body@, 0)
                        &&& match req.write {
                            Option::Some(v) => {
                                &&& req.count == v@.len()
                                &&& v@ == spec_words_from_be(
                                    body@.subrange(5, 5 + body@[4]),
                                )
                            },
                            Option::None => false,
                        }
                    },
                    _ => false,
                }
            } else {
                r is Close
            })
            &&& (proto == 0 && unit == 0 && fc != 3 && fc != 4 && fc != 6 && fc != 16 ==> r
                == (Decoded::CloseWithException { tid: tid as u16, fc: fc }))
        }),
{
    let proto = u16_from_be(head[2], head[3]);
    if proto != 0 {
        return Decoded::Close;
    }
    if head[6] != 0 {
        return Decoded::Skip;
    }
    let tid = u16_from_be(head[0], head[1]);
    let dlen = u16_from_be(head[4], head[5]);
    let fc = head[7];
    if fc == 3 || fc == 4 {
        if dlen != 6 {
            return Decoded::Close;
        }
        let addr = u16_from_be(body[0], body[1]) as usize;
        let count = u16_from_be(body[2], body[3]) as usize;
        if count > 125 {
            return Decoded::Close;
        }
        Decoded::Frame(Request { hid, tid, fc, addr, count, write: None })
    } else if fc == 6 {
        if dlen != 6 {
            return Decoded::Close;
        }
        let addr = u16_from_be(body[0], body[1]) as usize;
        let value = u16_from_be(body[2], body[3]);
        let mut values: Vec<u16> = Vec::new();
        values.push(value);
        Decoded::Frame(Request { hid, tid, fc, addr, count: 1, write: Some(values) })
    } else if fc == 16 {
        if dlen < 7 {
            return Decoded::Close;
        }
        let bc = body[2 + 2] as usize;
        if dlen as usize != 7 + bc || bc % 2 != 0 {
            return Decoded::Close;
        }
        let addr = u16_from_be(body[0], body[1]) as usize;
        let nw = bc / 2;
        let mut values: Vec<u16> = Vec::new();
        let mut k: usize = 0;
        while k < nw
            invariant
                k <= nw,
                nw == bc / 2,
                bc <= 255,
                bc % 2 == 0,
                body@.len() == 5 + bc,
                values@.len() == k,
                forall|j: int|
                    0 <= j < k ==> (#[trigger] values@[j]) == 256 * body@[5 + 2 * j] + body@[5 + 2
                        * j + 1],
            decreases nw - k,
        {
            values.push(u16_from_be(body[5 + 2 * k], body[5 + 2 * k + 1]));
            k = k + 1;
        }
        proof {
            assert(values@ =~= spec_words_from_be(body@.subrange(5, 5 + body@[4])));
        }
        Decoded::Frame(Request { hid, tid, fc, addr, count: nw, write: Some(values) })
    } else {
        Decoded::CloseWithException { tid, fc }
    }
}

/// Whether a response can be framed at all: its function code is one the
/// gateway produces, and the value list fits the frame format.
pub open spec fn encodable(resp: Response) -> bool {
    match resp {
        Response::Done(req, values) => {
            &&& (req.fc == 3 || req.fc == 4 || req.fc == 6 || req.fc == 16)
            &&& ((req.fc == 3 || req.fc == 4) ==> values@.len() <= 125)
            &&& (req.fc == 6 ==> values@.len() >= 1 && req.addr <= 0xffff)
            &&& (req.fc == 16 ==> values@.len() <= 0xffff && req.addr <= 0xffff)
        },
        Response::Error(_, _) => true,
    }
}

/// Frame one response for the wire, byte for byte.
pub fn encode_response(resp: &Response) -> (r: Vec<u8>)
    requires
        encodable(*resp),
    ensures
        match *resp {
            Response::Done(req, values) => {
                &&& ((req.fc == 3 || req.fc == 4) ==> {
                    &&& r@.len() == 9 + 2 * values@.len()
                    &&& r@[0] == req.tid / 256
                    &&& r@[1] == req.tid % 256
                    &&& r@[2] == 0
                    &&& r@[3] == 0
                    &&& r@[4] == 0
                    &&& r@[5] == 3 + 2 * values@.len()
                    &&& r@[6] == 0
                    &&& r@[7] == req.fc
                    &&& r@[8] == 2 * values@.len()
                    &&& forall|k: int|
                        0 <= k < values@.len() ==> r@[9 + 2 * k] == (#[trigger] values@[k]) / 256
                            && r@[10 + 2 * k] == values@[k] % 256
                })
                &&& (req.fc == 6 ==> r@ =~= seq![
                    (req.tid / 256) as u8,
                    (req.tid % 256) as u8,
                    0u8,
                    0u8,
                    0u8,
                    6u8,
                    0u8,
                    6u8,
                    (req.addr / 256) as u8,
                    (req.addr % 256) as u8,
                    (values@[0] / 256) as u8,
                    (values@[0] % 256) as u8,
                ])
                &&& (req.fc == 16 ==> r@ =~= seq![
                    (req.tid / 256) as u8,
                    (req.tid % 256) as u8,
                    0u8,
                    0u8,
                    0u8,
                    6u8,
                    0u8,
                    16u8,
                    (req.addr / 256) as u8,
                    (req.addr % 256) as u8,
                    (values@.len() / 256) as u8,
                    (values@.len() % 256) as u8,
                ])
            },
            Response::Error(req, ec) => r@ =~= seq![
                (req.tid / 256) as u8,
                (req.tid % 256) as u8,
                0u8,
                0u8,
                0u8,
                3u8,
                0u8,
                req.fc | 0x80,
                ec,
            ],
        },
{
    let mut r: Vec<u8> = Vec::new();
    match resp {
        Response::Done(req, values) => {
            push_u16_be(&mut r, req.tid);
            r.push(0);
            r.push(0);
            if req.fc == 3 || req.fc == 4 {
                let nbytes = 2 * values.len();
                push_u16_be(&mut r, (3 + nbytes) as u16);
                r.push(0);
                r.push(req.fc);
                r.push(nbytes as u8);
                let mut k: usize = 0;
                while k < values.len()
                    invariant
                        k <= values@.len(),
                        values@.len() <= 125,
                        r@.len() == 9 + 2 * k,
                        forall|j: int|
                            0 <= j < k ==> r@[9 + 2 * j] == (#[trigger] values@[j]) / 256 && r@[10
                                + 2 * j] == values@[j] % 256,
                        r@[0] == (resp->Done_0.tid / 256) as u8,
                        r@[1] == (resp->Done_0.tid % 256) as u8,
                        r@[2] == 0,
                        r@[3] == 0,
                        r@[4] == 0,
                        r@[5] == 3 + 2 * values@.len(),
                        r@[6] == 0,
                        r@[7] == resp->Done_0.fc,
                        r@[8] == 2 * values@.len(),
                    decreases values@.len() - k,
                {
                    push_u16_be(&mut r, values[k]);
                    k = k + 1;
                }
                r
            } else if req.fc == 6 {
                push_u16_be(&mut r, 6);
                r.push(0);
                r.push(6);
                push_u16_be(&mut r, req.addr as u16);
                push_u16_be(&mut r, values[0]);
                r
            } else {
                push_u16_be(&mut r, 6);
                r.push(0);
                r.push(16);
                push_u16_be(&mut r, req.addr as u16);
                push_u16_be(&mut r, values.len() as u16);
                r
            }
        },
        Response::Error(req, ec) => {
            push_u16_be(&mut r, req.tid);
            r.push(0);
            r.push(0);
            push_u16_be(&mut r, 3);
            r.push(0);
            r.push(req.fc | 0x80);
            r.push(*ec);
            r
        },
    }
}

/// Frame the protocol exception sent for an unknown function code, byte for
/// byte as the reader loop sends it.
pub fn encode_exception(tid: u16, fc: u8) -> (r: Vec<u8>)
    ensures
        r@ =~= seq![
            (tid / 256) as u8,
            (tid % 256) as u8,
            0u8,
            0u8,
            0u8,
            9u8,
            0u8,
            fc | 0x80,
            1u8,
        ],
{
    let mut r: Vec<u8> = Vec::new();
    push_u16_be(&mut r, tid);
    r.push(0);
    r.push(0);
    r.push(0);
    r.push(9);
    r.push(0);
    r.push(fc | 0x80);
    r.push(1);
    r
}

/// The connection id a response belongs to.
pub open spec fn resp_hid(resp: Response) -> usize {
    match resp {
        Response::Done(req, _) => req.hid,
        Response::Error(req, _) => req.hid,
    }
}

/// The dispatcher's table of live connections.  A response is delivered only
/// to the connection its request came from; once a connection is
/// deregistered, nothing is ever routed to it again.
pub struct ConnectionTable {
    ids: Vec<usize>,
}

impl View for ConnectionTable {
    type V = Seq<usize>;

    closed spec fn view(&self) -> Seq<usize> {
        self.ids@
    }
}

impl ConnectionTable {
    /// The table never lists a connection twice.
    pub open spec fn wf(&self) -> bool {
        forall|i: int, j: int|
            0 <= i < j < self@.len() ==> self@[i] != self@[j]
    }

    /// An empty table.
    pub fn new() -> (r: ConnectionTable)
        ensures
            r.wf(),
            r@.len() == 0,
    {
        ConnectionTable { ids: Vec::new() }
    }

    /// Whether `id` is a live connection.
    pub fn contains(&self, id: usize) -> (r: bool)
        ensures
            r == self@.contains(id),
    {
        let mut i: usize = 0;
        while i < self.ids.len()
            invariant
                i <= self@.len(),
                forall|j: int| 0 <= j < i ==> self@[j] != id,
            decreases self@.len() - i,
        {
            if self.ids[i] == id {
                return true;
            }
            i = i + 1;
        }
        false
    }

    /// Record a newly accepted connection.
    pub fn register(&mut self, id: usize)
        requires
            old(self).wf(),
            !old(self)@.contains(id),
        ensures
            final(self).wf(),
            final(self)@ == old(self)@.push(id),
    {
        self.ids.push(id);
    }

    /// Remove a finished connection, so no response is ever routed to it
    /// again.  Every other connection stays registered.
    pub fn deregister(&mut self, id: usize)
        requires
            old(self).wf(),
        ensures
            final(self).wf(),
            !final(self)@.contains(id),
            forall|x: usize| x != id ==> final(self)@.contains(x) == old(self)@.contains(x),
    {
        let n = self.ids.len();
        let mut i: usize = 0;
        while i < n
            invariant
                n == self@.len(),
                i <= n,
                self.wf(),
                self@ == old(self)@,
                forall|j: int| 0 <= j < i ==> self@[j] != id,
            decreases n - i,
        {
            if self.ids[i] == id {
                let ghost pre = self@;
                self.ids.remove(i);
                proof {
                    pre.remove_ensures(i as int);
                    assert forall|j: int, l: int| 0 <= j < l < self@.len() implies self@[j]
                        != self@[l] by {
                        let pj: int = if j < i { j } else { j + 1 };
                        let pl: int = if l < i { l } else { l + 1 };
                        assert(self@[j] == pre[pj]);
                        assert(self@[l] == pre[pl]);
                    }
                    assert forall|w: int| 0 <= w < self@.len() implies #[trigger] self@[w]
                        != id by {
                        let pw: int = if w < i { w } else { w + 1 };
                        assert(self@[w] == pre[pw]);
                        assert(pre[i as int] == id);
                    }
                    assert(!self@.contains(id));
                    assert forall|x: usize| x != id implies self@.contains(x) == pre.contains(
                        x,
                    ) by {
                        if self@.contains(x) {
                            let w = choose|w: int|
                                0 <= w < self@.len() && #[trigger] self@[w] == x;
                            let pw: int = if w < i { w } else { w + 1 };
                            assert(pre[pw] == x);
                        }
                        if pre.contains(x) {
                            let w = choose|w: int| 0 <= w < pre.len() && #[trigger] pre[w] == x;
                            if w < i {
                                assert(self@[w] == x);
                            } else {
                                assert(w != i);
                                assert(self@[w - 1] == x);
                            }
                        }
                    }
                }
                return;
            }
            i = i + 1;
        }
        proof {
            if self@.contains(id) {
                let w = choose|w: int| 0 <= w < self@.len() && #[trigger] self@[w] == id;
            }
        }
    }

    /// Where to deliver a response: to its connection if that connection is
    /// still live, nowhere otherwise.
    pub fn route(&self, resp: &Response) -> (r: Option<usize>)
        ensures
            r == if self@.contains(resp_hid(*resp)) {
                Some(resp_hid(*resp))
            } else {
                Option::<usize>::None
            },
    {
        let hid = match resp {
            Response::Done(req, _) => req.hid,
            Response::Error(req, _) => req.hid,
        };
        if self.contains(hid) {
            Some(hid)
        } else {
            None
        }
    }
}

} // verus!
