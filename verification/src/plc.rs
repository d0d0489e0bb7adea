//! The cyclic scheduler: the fixed-period timing discipline, the strict
//! per-cycle step order, and the drain of queued gateway requests against the
//! extern image.
//!
//! Timing: each cycle's wake deadline is the previous deadline plus the
//! period, never remeasured from the clock, so one overrunning cycle is
//! absorbed without permanent drift.  If the deadline has already passed the
//! scheduler does not sleep.
//!
//! Gateway drain: once per cycle every queued request is answered, in arrival
//! order, against the single extern image the scheduler owns.  That makes the
//! scheduler the only mutator of the image: every client observes a state
//! that is exactly a fold of whole requests, never a mix of two writes.

use vstd::prelude::*;

use crate::image::{spec_write_words, ExternImage};
use crate::server::{Request, Response};

verus! {

/// The first gateway-addressable register: gateway addresses are offset from
/// this base.
pub const BASE: usize = 0x3000;

/// A request is well-formed when a write carries exactly as many values as
/// its declared count.
pub open spec fn wf_request(req: Request) -> bool {
    match req.write {
        Option::Some(v) => v@.len() == req.count,
        Option::None => true,
    }
}

/// Whether a request's register range lies inside the gateway window
/// `[BASE, BASE + image words)`.
pub open spec fn req_range_ok(mem: Seq<u16>, req: Request) -> bool {
    &&& BASE <= req.addr
    &&& req.addr + req.count <= BASE + mem.len()
}

/// The image after one request: a write inside the window overwrites exactly
/// its range; a read, or any request outside the window, leaves the image
/// unchanged.
pub open spec fn spec_apply(mem: Seq<u16>, req: Request) -> Seq<u16> {
    if req_range_ok(mem, req) {
        match req.write {
            Option::Some(v) => spec_write_words(mem, req.addr - BASE, v@),
            Option::None => mem,
        }
    } else {
        mem
    }
}

/// The response owed to one request against the image state `mem`: inside
/// the window, the echoed request with the written values or the read range;
/// outside it, the "illegal data address" error, code 2.
pub open spec fn resp_matches(mem: Seq<u16>, req: Request, resp: Response) -> bool {
    match resp {
        Response::Done(rq, values) => {
            &&& req_range_ok(mem, req)
            &&& rq.hid == req.hid
            &&& rq.tid == req.tid
            &&& rq.fc == req.fc
            &&& rq.addr == req.addr
            &&& rq.count == req.count
            &&& rq.write is None
            &&& match req.write {
                Option::Some(w) => values@ == w@,
                Option::None => values@ == mem.subrange(
                    req.addr - BASE,
                    req.addr - BASE + req.count,
                ),
            }
        },
        Response::Error(rq, ec) => {
            &&& !req_range_ok(mem, req)
            &&& rq.hid == req.hid
            &&& rq.tid == req.tid
            &&& rq.fc == req.fc
            &&& rq.addr == req.addr
            &&& rq.count == req.count
            &&& ec == 2
            &&& match (rq.write, req.write) {
                (Option::Some(a), Option::Some(b)) => a@ == b@,
                (Option::None, Option::None) => true,
                _ => false,
            }
        },
    }
}

/// Answer one gateway request against the extern image.  A request whose
/// range falls outside the gateway window is rejected with protocol error 2
/// and leaves the image untouched; a write overwrites exactly its range and
/// echoes its values; a read returns the requested range.
pub fn apply_request(ext: &mut ExternImage, req: Request) -> (r: Response)
    requires
        old(ext).wf(),
        wf_request(req),
    ensures
        final(ext).wf(),
        final(ext)@ == spec_apply(old(ext)@, req),
        resp_matches(old(ext)@, req, r),
{
    let words = ext.word_count();
    let Request { hid, tid, fc, addr, count, write } = req;
    if addr < BASE {
        return Response::Error(Request { hid, tid, fc, addr, count, write }, 2);
    }
    let off = addr - BASE;
    if off > words || count > words - off {
        return Response::Error(Request { hid, tid, fc, addr, count, write }, 2);
    }
    match write {
        Option::Some(values) => {
            ext.write_words(off, &values);
            Response::Done(Request { hid, tid, fc, addr, count, write: None }, values)
        },
        Option::None => {
            let values = ext.read_words(off, count);
            Response::Done(Request { hid, tid, fc, addr, count, write: None }, values)
        },
    }
}

/// The image after a whole queue of requests, applied in arrival order.
pub open spec fn spec_fold(mem: Seq<u16>, reqs: Seq<Request>) -> Seq<u16>
    decreases reqs.len(),
{
    if reqs.len() == 0 {
        mem
    } else {
        spec_fold(spec_apply(mem, reqs[0]), reqs.skip(1))
    }
}

/// Folding one more request applies it to the folded image.
pub proof fn lemma_fold_push(mem: Seq<u16>, reqs: Seq<Request>, req: Request)
    ensures
        spec_fold(mem, reqs.push(req)) == spec_apply(spec_fold(mem, reqs), req),
    decreases reqs.len(),
{
    if reqs.len() == 0 {
        assert(reqs.push(req)[0] == req);
        assert(reqs.push(req).skip(1) =~= Seq::<Request>::empty());
        assert(spec_fold(mem, reqs.push(req)) == spec_fold(
            spec_apply(mem, req),
            Seq::<Request>::empty(),
        ));
        assert(spec_fold(spec_apply(mem, req), Seq::<Request>::empty()) == spec_apply(mem, req));
        assert(spec_fold(mem, reqs) == mem);
    } else {
        assert(reqs.push(req)[0] == reqs[0]);
        assert(reqs.push(req).skip(1) =~= reqs.skip(1).push(req));
        assert(spec_fold(mem, reqs.push(req)) == spec_fold(
            spec_apply(mem, reqs[0]),
            reqs.skip(1).push(req),
        ));
        assert(spec_fold(mem, reqs) == spec_fold(spec_apply(mem, reqs[0]), reqs.skip(1)));
        lemma_fold_push(spec_apply(mem, reqs[0]), reqs.skip(1), req);
    }
}

/// Drain the queued gateway requests: answer each one, in arrival order,
/// against the extern image.  The final image is the fold of all requests
/// over the starting image, and the `k`-th response is owed to the `k`-th
/// request against the image as left by the requests before it — the
/// serialization that makes the scheduler the image's only mutator.
pub fn drain_requests(ext: &mut ExternImage, reqs: Vec<Request>) -> (r: Vec<Response>)
    requires
        old(ext).wf(),
        forall|i: int| 0 <= i < reqs@.len() ==> wf_request(#[trigger] reqs@[i]),
    ensures
        final(ext).wf(),
        final(ext)@ == spec_fold(old(ext)@, reqs@),
        r@.len() == reqs@.len(),
        forall|k: int|
            0 <= k < reqs@.len() ==> resp_matches(
                spec_fold(old(ext)@, reqs@.take(k)),
                reqs@[k],
                #[trigger] r@[k],
            ),
{
    let ghost all = reqs@;
    let ghost m0 = ext@;
    let mut rest = reqs;
    let mut responses: Vec<Response> = Vec::new();
    let ghost mut i: int = 0;
    proof {
        assert(all.take(0) =~= Seq::<Request>::empty());
        assert(rest@ =~= all.skip(0));
    }
    while rest.len() > 0
        invariant
            ext.wf(),
            0 <= i,
            i + rest@.len() == all.len(),
            rest@ == all.skip(i),
            forall|j: int| 0 <= j < all.len() ==> wf_request(#[trigger] all[j]),
            ext@ == spec_fold(m0, all.take(i)),
            responses@.len() == i,
            forall|k: int|
                0 <= k < i ==> resp_matches(
                    spec_fold(m0, all.take(k)),
                    all[k],
                    #[trigger] responses@[k],
                ),
        decreases rest@.len(),
    {
        proof {
            assert(all.skip(i)[0] == all[i]);
            assert(all.skip(i).skip(1) =~= all.skip(i + 1));
            assert(all.take(i + 1) =~= all.take(i).push(all[i]));
            lemma_fold_push(m0, all.take(i), all[i]);
        }
        let req = rest.remove(0);
        let resp = apply_request(ext, req);
        responses.push(resp);
        proof {
            i = i + 1;
        }
    }
    proof {
        assert(all.take(all.len() as int) =~= all);
    }
    responses
}

/// Folding any queue of requests never changes the image's size.
pub proof fn lemma_fold_len(mem: Seq<u16>, reqs: Seq<Request>)
    ensures
        spec_fold(mem, reqs).len() == mem.len(),
    decreases reqs.len(),
{
    if reqs.len() > 0 {
        lemma_fold_len(spec_apply(mem, reqs[0]), reqs.skip(1));
    }
}

/// Folding a concatenation folds the first part, then the second.
pub proof fn lemma_fold_concat(mem: Seq<u16>, a: Seq<Request>, b: Seq<Request>)
    ensures
        spec_fold(mem, a + b) == spec_fold(spec_fold(mem, a), b),
    decreases a.len(),
{
    if a.len() == 0 {
        assert(a + b =~= b);
        assert(spec_fold(mem, a) == mem);
    } else {
        assert((a + b)[0] == a[0]);
        assert((a + b).skip(1) =~= a.skip(1) + b);
        assert(spec_fold(mem, a + b) == spec_fold(spec_apply(mem, (a + b)[0]), (a + b).skip(1)));
        assert(spec_fold(mem, a) == spec_fold(spec_apply(mem, a[0]), a.skip(1)));
        lemma_fold_concat(spec_apply(mem, a[0]), a.skip(1), b);
    }
}

/// Whether one request leaves the word range `[lo, hi)` of an image of
/// `mem_len` words untouched: every read does, and so does every write that
/// is out of the window or whose range misses `[lo, hi)`.
pub open spec fn preserves_range(req: Request, mem_len: int, lo: int, hi: int) -> bool {
    match req.write {
        Option::Some(_) => {
            ||| !(BASE <= req.addr && req.addr + req.count <= BASE + mem_len)
            ||| req.addr - BASE + req.count <= lo
            ||| hi <= req.addr - BASE
        },
        Option::None => true,
    }
}

/// A request that preserves a range really does leave it unchanged.
pub proof fn lemma_apply_preserves(mem: Seq<u16>, req: Request, lo: int, hi: int)
    requires
        wf_request(req),
        preserves_range(req, mem.len() as int, lo, hi),
        0 <= lo <= hi <= mem.len(),
    ensures
        spec_apply(mem, req).len() == mem.len(),
        forall|w: int| lo <= w < hi ==> spec_apply(mem, req)[w] == mem[w],
{
}

/// A whole queue of requests that each preserve a range leaves it unchanged.
pub proof fn lemma_fold_preserves(mem: Seq<u16>, reqs: Seq<Request>, lo: int, hi: int)
    requires
        forall|i: int| 0 <= i < reqs.len() ==> wf_request(#[trigger] reqs[i]),
        forall|i: int|
            0 <= i < reqs.len() ==> preserves_range(#[trigger] reqs[i], mem.len() as int, lo, hi),
        0 <= lo <= hi <= mem.len(),
    ensures
        spec_fold(mem, reqs).len() == mem.len(),
        forall|w: int| lo <= w < hi ==> spec_fold(mem, reqs)[w] == mem[w],
    decreases reqs.len(),
{
    lemma_fold_len(mem, reqs);
    if reqs.len() > 0 {
        lemma_apply_preserves(mem, reqs[0], lo, hi);
        let mem1 = spec_apply(mem, reqs[0]);
        assert forall|i: int| 0 <= i < reqs.skip(1).len() implies wf_request(
            #[trigger] reqs.skip(1)[i],
        ) && preserves_range(reqs.skip(1)[i], mem1.len() as int, lo, hi) by {
            assert(reqs.skip(1)[i] == reqs[i + 1]);
        }
        lemma_fold_preserves(mem1, reqs.skip(1), lo, hi);
    }
}

/// Single-mutator safety: because all requests are applied serially, whole
/// request by whole request, a read observes only complete writes.  If
/// request `j` is an in-window write, the read range `[lo, hi)` lies inside
/// its range, and no later request before position `k` writes into
/// `[lo, hi)`, then the image that answers a read at position `k` holds, on
/// `[lo, hi)`, exactly the matching slice of write `j`'s values — never a
/// mixture of two writes, and never a torn word.
pub proof fn lemma_no_write_mixing(m0: Seq<u16>, reqs: Seq<Request>, j: int, k: int, lo: int, hi: int)
    requires
        forall|i: int| 0 <= i < reqs.len() ==> wf_request(#[trigger] reqs[i]),
        0 <= j < k <= reqs.len(),
        reqs[j].write is Some,
        req_range_ok(m0, reqs[j]),
        reqs[j].addr - BASE <= lo <= hi <= reqs[j].addr - BASE + reqs[j].count,
        forall|l: int| j < l < k ==> preserves_range(#[trigger] reqs[l], m0.len() as int, lo, hi),
    ensures
        spec_fold(m0, reqs.take(k)).subrange(lo, hi) == reqs[j].write->0@.subrange(
            lo - (reqs[j].addr - BASE),
            hi - (reqs[j].addr - BASE),
        ),
{
    let wreq = reqs[j];
    let wa = wreq.addr - BASE;
    let vals = wreq.write->0@;
    let head = reqs.take(j + 1);
    let mid = reqs.subrange(j + 1, k);
    assert(reqs.take(k) =~= head + mid);
    lemma_fold_concat(m0, head, mid);
    assert(head =~= reqs.take(j).push(wreq));
    lemma_fold_push(m0, reqs.take(j), wreq);
    let before = spec_fold(m0, reqs.take(j));
    lemma_fold_len(m0, reqs.take(j));
    let after = spec_apply(before, wreq);
    assert(after == spec_write_words(before, wa, vals));
    assert(after.len() == m0.len());
    assert forall|w: int| lo <= w < hi implies after[w] == vals[w - wa] by {}
    assert forall|i: int| 0 <= i < mid.len() implies wf_request(#[trigger] mid[i])
        && preserves_range(mid[i], after.len() as int, lo, hi) by {
        assert(mid[i] == reqs[j + 1 + i]);
    }
    lemma_fold_preserves(after, mid, lo, hi);
    assert(spec_fold(m0, reqs.take(k)) == spec_fold(after, mid));
    assert forall|w: int| lo <= w < hi implies spec_fold(m0, reqs.take(k))[w] == vals[w - wa] by {
        assert(spec_fold(after, mid)[w] == after[w]);
        assert(after[w] == vals[w - wa]);
    }
    assert(spec_fold(m0, reqs.take(k)).subrange(lo, hi) =~= vals.subrange(lo - wa, hi - wa));
}

/// Gateway round trip: writing values at an address and then reading the
/// same address and count returns exactly the written values.
pub proof fn lemma_gateway_round_trip(mem: Seq<u16>, wreq: Request, rreq: Request)
    requires
        wf_request(wreq),
        wreq.write is Some,
        rreq.write is None,
        req_range_ok(mem, wreq),
        rreq.addr == wreq.addr,
        rreq.count == wreq.count,
    ensures
        req_range_ok(spec_apply(mem, wreq), rreq),
        spec_apply(mem, wreq).subrange(rreq.addr - BASE, rreq.addr - BASE + rreq.count)
            == wreq.write->0@,
    {
    let after = spec_apply(mem, wreq);
    assert(after.subrange(rreq.addr - BASE, rreq.addr - BASE + rreq.count) =~= wreq.write->0@);
}

/// A request in one of the shapes the frame decoder produces: one of the
/// four known function codes, a read of at most 125 registers carrying no
/// values, or a write carrying its values, with a 16-bit address.
pub open spec fn decoded_shape(req: Request) -> bool {
    &&& req.addr <= 0xffff
    &&& ((req.fc == 3 || req.fc == 4) ==> req.count <= 125 && req.write is None)
    &&& (req.fc == 6 ==> req.count == 1 && req.write is Some)
    &&& (req.fc == 16 ==> req.count <= 0xffff && req.write is Some)
    &&& (req.fc == 3 || req.fc == 4 || req.fc == 6 || req.fc == 16)
}

/// The answer to any request the frame decoder produced can itself be
/// framed: the gateway never computes a response it cannot put on the wire.
pub proof fn lemma_decoded_response_encodable(mem: Seq<u16>, req: Request, resp: Response)
    requires
        wf_request(req),
        decoded_shape(req),
        resp_matches(mem, req, resp),
    ensures
        crate::server::encodable(resp),
{
}

/// The scheduler's timing state: the next absolute wake deadline on the
/// monotonic clock, and the fixed cycle period, both in nanoseconds.
pub struct CycleTimer {
    pub deadline: u64,
    pub period: u64,
}

impl CycleTimer {
    /// Start the timing at `start`; each advance then moves the deadline
    /// one period forward from there.
    pub fn new(start: u64, period: u64) -> (r: CycleTimer)
        ensures
            r.deadline == start,
            r.period == period,
    {
        CycleTimer { deadline: start, period }
    }

    /// Move the deadline one period forward, by addition on the previous
    /// deadline — never by remeasuring the clock — so an overrun of one
    /// cycle does not shift later deadlines.
    pub fn advance(&mut self)
        requires
            old(self).deadline + old(self).period <= u64::MAX,
        ensures
            final(self).deadline == old(self).deadline + old(self).period,
            final(self).period == old(self).period,
    {
        self.deadline = self.deadline + self.period;
    }

    /// How long to sleep until the deadline: nothing if it already passed —
    /// the scheduler then proceeds immediately.
    pub fn sleep_ns(&self, now: u64) -> (r: u64)
        ensures
            r == if self.deadline > now {
                (self.deadline - now) as u64
            } else {
                0u64
            },
    {
        if self.deadline > now {
            self.deadline - now
        } else {
            0
        }
    }
}

/// The deadline after `k` advances of a timer started at `start`.
pub open spec fn spec_advanced(start: int, period: int, k: nat) -> int
    decreases k,
{
    if k == 0 {
        start
    } else {
        spec_advanced(start, period, (k - 1) as nat) + period
    }
}

/// Drift-free scheduling: the deadline reached after `k` advances is exactly
/// `start + k * period`.  Deadlines are computed by addition alone, so the
/// `k`-th wake deadline never drifts, however long the cycles before it ran.
pub proof fn lemma_drift_free(start: int, period: int, k: nat)
    ensures
        spec_advanced(start, period, k) == start + k * period,
    decreases k,
{
    if k == 0 {
        assert(k * period == 0) by (nonlinear_arith)
            requires k == 0,
        ;
    } else {
        let km1 = (k - 1) as nat;
        lemma_drift_free(start, period, km1);
        assert(spec_advanced(start, period, k) == spec_advanced(start, period, km1) + period);
        assert(spec_advanced(start, period, km1) == start + km1 * period);
        assert(km1 * period + period == (km1 + 1) * period) by (nonlinear_arith);
        assert(k * period == (km1 + 1) * period);
    }
}

/// The strict order of the steps inside one cycle: receive pending frames,
/// latch the domain, run user logic, drain the gateway, queue the domain,
/// send — then the next cycle begins with receive again.
#[derive(Clone, Copy, PartialEq, Eq, Structural, Debug)]
pub enum CycleStep {
    Receive,
    Process,
    Logic,
    Drain,
    Queue,
    Send,
}

impl CycleStep {
    /// The step that follows this one.
    pub fn next(self) -> (r: CycleStep)
        ensures
            r == match self {
                CycleStep::Receive => CycleStep::Process,
                CycleStep::Process => CycleStep::Logic,
                CycleStep::Logic => CycleStep::Drain,
                CycleStep::Drain => CycleStep::Queue,
                CycleStep::Queue => CycleStep::Send,
                CycleStep::Send => CycleStep::Receive,
            },
    {
        match self {
            CycleStep::Receive => CycleStep::Process,
            CycleStep::Process => CycleStep::Logic,
            CycleStep::Logic => CycleStep::Drain,
            CycleStep::Drain => CycleStep::Queue,
            CycleStep::Queue => CycleStep::Send,
            CycleStep::Send => CycleStep::Receive,
        }
    }
}

/// The lifecycle of the scheduler: configuration happens once, before
/// activation; the cyclic phase is left only for `Stopped`.
#[derive(Clone, Copy, PartialEq, Eq, Structural, Debug)]
pub enum PlcState {
    Idle,
    Configuring,
    Activated,
    Stopped,
}

impl PlcState {
    /// Whether the scheduler may begin configuring the bus in this state.
    pub fn can_configure(self) -> (r: bool)
        ensures
            r == (self is Idle),
    {
        matches!(self, PlcState::Idle)
    }

    /// Whether the scheduler may run cycles in this state.
    pub fn is_running(self) -> (r: bool)
        ensures
            r == (self is Activated),
    {
        matches!(self, PlcState::Activated)
    }
}

/// The configuration surface of the runtime: a name, the bus master to use,
/// the cycle frequency, an optional gateway bind address, and the logging
/// destination.  It is consumed once at startup.
#[derive(Debug)]
pub struct PlcBuilder {
    pub name: String,
    pub master_id: Option<u32>,
    pub cycle_freq: Option<u32>,
    pub server_addr: Option<String>,
    pub logfile_base: Option<String>,
    pub debug_logging: bool,
}

impl PlcBuilder {
    /// A fresh configuration with the given name and all options unset.
    pub fn new(name: String) -> (r: PlcBuilder)
        ensures
            r.name@ == name@,
            r.master_id is None,
            r.cycle_freq is None,
            r.server_addr is None,
            r.logfile_base is None,
            !r.debug_logging,
    {
        PlcBuilder {
            name,
            master_id: None,
            cycle_freq: None,
            server_addr: None,
            logfile_base: None,
            debug_logging: false,
        }
    }

    /// Select which bus master device to open.
    pub fn master_id(self, id: u32) -> (r: PlcBuilder)
        ensures
            r.master_id == Some(id),
            r.name@ == self.name@,
            r.cycle_freq == self.cycle_freq,
            r.server_addr == self.server_addr,
            r.logfile_base == self.logfile_base,
            r.debug_logging == self.debug_logging,
    {
        PlcBuilder { master_id: Some(id), ..self }
    }

    /// Select the cycle frequency in hertz.
    pub fn cycle_freq(self, freq: u32) -> (r: PlcBuilder)
        ensures
            r.cycle_freq == Some(freq),
            r.name@ == self.name@,
            r.master_id == self.master_id,
            r.server_addr == self.server_addr,
            r.logfile_base == self.logfile_base,
            r.debug_logging == self.debug_logging,
    {
        PlcBuilder { cycle_freq: Some(freq), ..self }
    }

    /// Bind the gateway to the given address.
    pub fn with_server(self, addr: String) -> (r: PlcBuilder)
        ensures
            match r.server_addr {
                Option::Some(a) => a@ == addr@,
                Option::None => false,
            },
            r.name@ == self.name@,
            r.master_id == self.master_id,
            r.cycle_freq == self.cycle_freq,
            r.logfile_base == self.logfile_base,
            r.debug_logging == self.debug_logging,
    {
        PlcBuilder { server_addr: Some(addr), ..self }
    }

    /// Bind the gateway to the given address.
    pub fn server(self, addr: String) -> (r: PlcBuilder)
        ensures
            match r.server_addr {
                Option::Some(a) => a@ == addr@,
                Option::None => false,
            },
            r.name@ == self.name@,
            r.master_id == self.master_id,
            r.cycle_freq == self.cycle_freq,
            r.logfile_base == self.logfile_base,
            r.debug_logging == self.debug_logging,
    {
        PlcBuilder { server_addr: Some(addr), ..self }
    }

    /// Select the logging destination and verbosity.
    pub fn logging_cfg(self, logfile_base: Option<String>, debug_logging: bool) -> (r: PlcBuilder)
        ensures
            r.debug_logging == debug_logging,
            match (r.logfile_base, logfile_base) {
                (Option::Some(a), Option::Some(b)) => a@ == b@,
                (Option::None, Option::None) => true,
                _ => false,
            },
            r.name@ == self.name@,
            r.master_id == self.master_id,
            r.cycle_freq == self.cycle_freq,
            r.server_addr == self.server_addr,
    {
        PlcBuilder { logfile_base, debug_logging, ..self }
    }

    /// The cycle period in nanoseconds: one second divided by the configured
    /// frequency, with 1 kHz the default.
    pub fn cycle_period_ns(&self) -> (r: u64)
        requires
            self.cycle_freq != Some(0u32),
        ensures
            r == 1_000_000_000u64 / (match self.cycle_freq {
                Option::Some(f) => f as u64,
                Option::None => 1000u64,
            }),
    {
        let freq: u64 = match self.cycle_freq {
            Option::Some(f) => f as u64,
            Option::None => 1000,
        };
        1_000_000_000 / freq
    }
}

} // verus!
