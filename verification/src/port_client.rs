//! Per-port request/response engine: flow-number allocation, the pending
//! response table, and the decisions the request path takes.
//!
//! One port client owns at most one connection to one `(host, port)` pair
//! and multiplexes concurrent requests over it, correlating each reply to
//! its caller by flow number. The transport itself (socket, reader task,
//! lock, notify channel, timer) lives with the caller; it drives this state
//! machine and performs the I/O between steps:
//!
//! - a request begins with [`ClientState::begin_request`], which says
//!   whether to connect first, to reject the API number, or which bytes to
//!   write under which flow number;
//! - the background reader feeds every received chunk to
//!   [`ClientState::process_incoming`], which decodes frames and files each
//!   body under its flow number, then wakes all waiters;
//! - a woken waiter calls [`ClientState::on_wake`], which resolves the
//!   request or says to keep waiting — waiters re-check rather than trust a
//!   wakeup; a waiter whose timer fired ends with
//!   [`ClientState::on_timeout`]'s result instead.

use vstd::prelude::*;
use vstd::string::StringSliceAdditionalSpecFns;

use std::collections::HashMap;

use crate::frame::{RbkRequestResult, RbkResultKind};
use crate::protocol::{
    encode_request, first_frame, frames_of, leftover, lossy_of, spec_encode, RbkDecoder, SpecFrame,
};

verus! {

broadcast use vstd::std_specs::hash::group_hash_axioms;

/// Flow numbers are reused cyclically from a space of this size. This is a
/// best-effort uniqueness scheme: with more than this many requests truly in
/// flight at once on one port, a wrapped number would alias two of them.
pub const FLOW_NO_MODULUS: u16 = 512;

/// The abstract state of one port client: connection flag, flow-number
/// counter, pending response table, disposed flag.
pub struct ClientStateModel {
    pub has_connection: bool,
    pub flow_no_counter: u16,
    pub responses: Map<u16, Seq<char>>,
    pub disposed: bool,
}

/// The next flow number after `c`: incremented, wrapping inside the modulus.
pub open spec fn spec_next_flow(c: u16) -> u16 {
    (((c + 1) as int) % (FLOW_NO_MODULUS as int)) as u16
}

/// Filing one response body under its flow number.
pub open spec fn spec_deposit(m: ClientStateModel, flow_no: u16, body: Seq<char>) -> ClientStateModel {
    ClientStateModel { responses: m.responses.insert(flow_no, body), ..m }
}

/// Filing a run of decoded frames, in arrival order; a later frame with the
/// same flow number overwrites an earlier one.
pub open spec fn spec_deposit_all(m: ClientStateModel, frames: Seq<SpecFrame>) -> ClientStateModel
    decreases frames.len(),
{
    if frames.len() == 0 {
        m
    } else {
        spec_deposit_all(
            spec_deposit(m, frames[0].flow_no, lossy_of(frames[0].body)),
            frames.drop_first(),
        )
    }
}

/// Tearing the port client down: pending table cleared, disposed set, the
/// connection given up. The next request reconnects from scratch.
pub open spec fn spec_reset(m: ClientStateModel) -> ClientStateModel {
    ClientStateModel {
        has_connection: false,
        flow_no_counter: m.flow_no_counter,
        responses: Map::empty(),
        disposed: true,
    }
}

/// A fresh connection installed: connected, no longer disposed.
pub open spec fn spec_mark_connected(m: ClientStateModel) -> ClientStateModel {
    ClientStateModel { has_connection: true, disposed: false, ..m }
}

/// Whether a request must (re)connect before anything is written.
pub open spec fn spec_needs_connect(m: ClientStateModel) -> bool {
    m.disposed || !m.has_connection
}

/// What one re-check of the pending table decides for a waiter.
pub enum SpecWaitOutcome {
    /// The client was torn down while the request was in flight.
    Disposed,
    /// The reply arrived; here is its body.
    Ready(Seq<char>),
    /// Nothing for this flow number yet; wait for the next wakeup.
    KeepWaiting,
}

/// One re-check of the pending table by the waiter for `flow_no`: disposal
/// wins; otherwise a filed body is taken out and returned; otherwise wait on.
pub open spec fn spec_wait(m: ClientStateModel, flow_no: u16) -> (ClientStateModel, SpecWaitOutcome) {
    if m.disposed {
        (m, SpecWaitOutcome::Disposed)
    } else if m.responses.contains_key(flow_no) {
        (
            ClientStateModel { responses: m.responses.remove(flow_no), ..m },
            SpecWaitOutcome::Ready(m.responses[flow_no]),
        )
    } else {
        (m, SpecWaitOutcome::KeepWaiting)
    }
}

/// What a request does first: connect, reject the API number, or send.
pub enum BeginOutcome {
    /// No live connection (or the client was disposed): connect, mark the
    /// state connected, then begin again.
    NeedConnect,
    /// The API number does not fit the wire format's 16-bit field.
    BadApi,
    /// Write these bytes; the reply will arrive under this flow number.
    Send { flow_no: u16, bytes: Vec<u8> },
}

/// The concrete state of one port client, as guarded by the caller's lock.
pub struct ClientState {
    has_connection: bool,
    flow_no_counter: u16,
    response_map: HashMap<u16, String>,
    disposed: bool,
}

impl View for ClientState {
    type V = ClientStateModel;

    closed spec fn view(&self) -> ClientStateModel {
        ClientStateModel {
            has_connection: self.has_connection,
            flow_no_counter: self.flow_no_counter,
            responses: Map::new(
                |k: u16| self.response_map@.contains_key(k),
                |k: u16| self.response_map@[k]@,
            ),
            disposed: self.disposed,
        }
    }
}

impl ClientState {
    /// A fresh port client: no connection yet (it is opened lazily by the
    /// first request), empty pending table, counter at zero.
    pub fn new() -> (r: Self)
        ensures
            r@ == (ClientStateModel {
                has_connection: false,
                flow_no_counter: 0,
                responses: Map::empty(),
                disposed: false,
            }),
    {
        let r = Self {
            has_connection: false,
            flow_no_counter: 0,
            response_map: HashMap::new(),
            disposed: false,
        };
        proof {
            assert(r@.responses =~= Map::<u16, Seq<char>>::empty());
        }
        r
    }

    /// Allocate the next flow number: increment modulo the flow-number
    /// space, wrapping to stay inside it.
    pub fn next_flow_no(&mut self) -> (r: u16)
        ensures
            r == spec_next_flow(old(self)@.flow_no_counter),
            final(self)@ == (ClientStateModel { flow_no_counter: r, ..old(self)@ }),
    {
        self.flow_no_counter = ((self.flow_no_counter as u32 + 1) % (FLOW_NO_MODULUS as u32)) as u16;
        self.flow_no_counter
    }

    /// Whether the client has been torn down and not reconnected since.
    pub fn is_disposed(&self) -> (r: bool)
        ensures
            r == self@.disposed,
    {
        self.disposed
    }

    /// Whether a connection is currently installed.
    pub fn has_connection(&self) -> (r: bool)
        ensures
            r == self@.has_connection,
    {
        self.has_connection
    }

    /// Record that a fresh connection was opened and its reader started.
    pub fn mark_connected(&mut self)
        ensures
            final(self)@ == spec_mark_connected(old(self)@),
    {
        self.has_connection = true;
        self.disposed = false;
    }

    /// Tear the state down: clear the pending table and mark the client
    /// disposed, so in-flight waiters resolve and the next request
    /// reconnects. Idempotent; the caller also stops the reader and shuts
    /// the socket, then wakes all waiters.
    pub fn reset(&mut self)
        ensures
            final(self)@ == spec_reset(old(self)@),
    {
        self.response_map.clear();
        self.disposed = true;
        self.has_connection = false;
        proof {
            assert(self@.responses =~= Map::<u16, Seq<char>>::empty());
        }
    }

    /// File one decoded reply body under its flow number and signal that
    /// waiters must be woken.
    pub fn deposit_response(&mut self, flow_no: u16, body: String)
        ensures
            final(self)@ == spec_deposit(old(self)@, flow_no, body@),
    {
        self.response_map.insert(flow_no, body);
        proof {
            assert(self@.responses =~= old(self)@.responses.insert(flow_no, body@));
        }
    }

    /// Decide how a request starts. With no live connection (or after a
    /// disposal) the caller must connect first. Otherwise a flow number is
    /// allocated and — for an API number representable on the wire — the
    /// encoded frame is handed back to be written. The flow number is
    /// allocated before the API number is checked, as the counter is a
    /// shared resource the caller already holds the lock for.
    pub fn begin_request(&mut self, api_no: i32, req_str: &str) -> (r: BeginOutcome)
        requires
            req_str.spec_bytes().len() <= u32::MAX,
        ensures
            spec_needs_connect(old(self)@) ==> r is NeedConnect && final(self)@ == old(self)@,
            !spec_needs_connect(old(self)@) ==> {
                let f = spec_next_flow(old(self)@.flow_no_counter);
                &&& final(self)@ == (ClientStateModel { flow_no_counter: f, ..old(self)@ })
                &&& !(0 <= api_no <= u16::MAX) ==> r is BadApi
                &&& (0 <= api_no <= u16::MAX) ==> (r matches BeginOutcome::Send {
                    flow_no,
                    bytes,
                } && flow_no == f && bytes@ == spec_encode(api_no as u16, f, req_str.spec_bytes()))
            },
    {
        if self.disposed || !self.has_connection {
            return BeginOutcome::NeedConnect;
        }
        let flow_no = self.next_flow_no();
        if api_no < 0 || api_no > u16::MAX as i32 {
            return BeginOutcome::BadApi;
        }
        let bytes = encode_request(api_no as u16, req_str, flow_no);
        BeginOutcome::Send { flow_no, bytes }
    }

    /// Resolve or continue one wait for the reply to `flow_no`, after a
    /// wakeup. Wakeups are broadcast to every waiter on the port, so a woken
    /// waiter re-checks: disposal ends the request with a disposed error;
    /// a filed reply is taken out and ends it with success; anything else
    /// means the wakeup was for someone else and the wait goes on.
    pub fn on_wake(&mut self, flow_no: u16, host: &str, api_no: i32, req_str: &str) -> (r: Option<
        RbkRequestResult,
    >)
        ensures
            final(self)@ == spec_wait(old(self)@, flow_no).0,
            match r {
                Some(res) => {
                    &&& !(spec_wait(old(self)@, flow_no).1 is KeepWaiting)
                    &&& res.host@ == host@
                    &&& res.api_no == api_no
                    &&& res.req_str@ == req_str@
                    &&& spec_wait(old(self)@, flow_no).1 is Disposed ==> res.kind
                        == RbkResultKind::Disposed && res.res_str is None
                    &&& spec_wait(old(self)@, flow_no).1 matches SpecWaitOutcome::Ready(body)
                        ==> (res.kind == RbkResultKind::Success && res.err_msg is None && (
                    res.res_str matches Some(b) && b@ == body))
                },
                None => spec_wait(old(self)@, flow_no).1 is KeepWaiting && final(self)@ == old(
                    self,
                )@,
            },
    {
        if self.disposed {
            return Some(
                RbkRequestResult::new(
                    RbkResultKind::Disposed,
                    host.to_owned(),
                    api_no,
                    req_str.to_owned(),
                ),
            );
        }
        match self.response_map.remove(&flow_no) {
            Some(body) => {
                proof {
                    assert(self@.responses =~= old(self)@.responses.remove(flow_no));
                }
                Some(
                    RbkRequestResult::new(
                        RbkResultKind::Success,
                        host.to_owned(),
                        api_no,
                        req_str.to_owned(),
                    ).with_response(body),
                )
            },
            None => {
                proof {
                    assert(old(self)@.responses.remove(flow_no) =~= old(self)@.responses);
                    assert(self@.responses =~= old(self)@.responses);
                }
                None
            },
        }
    }

    /// The result of a request whose timeout elapsed with no matching reply.
    pub fn on_timeout(host: &str, api_no: i32, req_str: &str) -> (r: RbkRequestResult)
        ensures
            r.kind == RbkResultKind::Timeout,
            r.host@ == host@,
            r.api_no == api_no,
            r.req_str@ == req_str@,
            r.res_str is None,
            r.err_msg matches Some(m) && m@ == "Timeout"@,
    {
        RbkRequestResult::new(
            RbkResultKind::Timeout,
            host.to_owned(),
            api_no,
            req_str.to_owned(),
        ).with_error("Timeout".to_owned())
    }

    /// Feed one received chunk through the decoder and file every decoded
    /// frame's body under its flow number, in arrival order. Returns how
    /// many frames were filed; the caller wakes all waiters when any were.
    /// The buffer keeps exactly the tail that no complete frame claimed.
    pub fn process_incoming(
        &mut self,
        decoder: &mut RbkDecoder,
        buf: &mut Vec<u8>,
        chunk: &[u8],
    ) -> (n: usize)
        ensures
            final(buf)@ == leftover(old(buf)@ + chunk@),
            n == frames_of(old(buf)@ + chunk@).len(),
            final(self)@ == spec_deposit_all(old(self)@, frames_of(old(buf)@ + chunk@)),
    {
        append_bytes(buf, chunk);
        let buffered: usize = buf.len();
        let ghost stream = buf@;
        assert(stream.len() == buffered);
        let ghost m0 = self@;
        let ghost mut done: Seq<SpecFrame> = Seq::empty();
        let mut n: usize = 0;
        assert(frames_of(stream) =~= done + frames_of(buf@));
        loop
            invariant
                self@ == spec_deposit_all(m0, done),
                frames_of(stream) == done + frames_of(buf@),
                leftover(stream) == leftover(buf@),
                n == done.len(),
                16 * n + buf@.len() <= stream.len(),
                stream.len() <= usize::MAX,
            ensures
                self@ == spec_deposit_all(m0, frames_of(stream)),
                buf@ == leftover(stream),
                n == frames_of(stream).len(),
            decreases buf@.len(),
        {
            let ghost pre = buf@;
            proof {
                crate::protocol::lemma_first_frame_rest_len(pre);
            }
            match decoder.decode(buf) {
                Some(frame) => {
                    let ghost f = first_frame(pre)->Some_0.0;
                    let ghost rest = first_frame(pre)->Some_0.1;
                    proof {
                        lemma_deposit_all_snoc(m0, done, f);
                        assert(frames_of(pre) == seq![f] + frames_of(rest));
                        assert(done + frames_of(pre) =~= done.push(f) + frames_of(rest));
                    }
                    self.deposit_response(frame.flow_no, frame.body_str);
                    n = n + 1;
                    proof {
                        done = done.push(f);
                    }
                },
                None => {
                    proof {
                        crate::protocol::lemma_resync_props(pre);
                        assert(frames_of(pre) =~= Seq::<SpecFrame>::empty());
                        assert(done + frames_of(pre) =~= done);
                        assert(frames_of(stream) =~= done);
                    }
                    break;
                },
            }
        }
        n
    }
}

/// Filing a run of frames and then one more is filing the run, then the one.
proof fn lemma_deposit_all_snoc(m: ClientStateModel, frames: Seq<SpecFrame>, f: SpecFrame)
    ensures
        spec_deposit_all(m, frames.push(f)) == spec_deposit(
            spec_deposit_all(m, frames),
            f.flow_no,
            lossy_of(f.body),
        ),
    decreases frames.len(),
{
    if frames.len() == 0 {
        let d = spec_deposit(m, f.flow_no, lossy_of(f.body));
        assert(frames.push(f)[0] == f);
        assert(frames.push(f).drop_first() =~= Seq::<SpecFrame>::empty());
        assert(spec_deposit_all(m, frames.push(f)) == spec_deposit_all(d, Seq::empty()));
        assert(spec_deposit_all(d, Seq::<SpecFrame>::empty()) == d);
        assert(spec_deposit_all(m, frames) == m);
    } else {
        let d = spec_deposit(m, frames[0].flow_no, lossy_of(frames[0].body));
        assert(frames.push(f)[0] == frames[0]);
        assert(frames.push(f).drop_first() =~= frames.drop_first().push(f));
        assert(spec_deposit_all(m, frames.push(f)) == spec_deposit_all(
            d,
            frames.drop_first().push(f),
        ));
        lemma_deposit_all_snoc(d, frames.drop_first(), f);
        assert(spec_deposit_all(m, frames) == spec_deposit_all(d, frames.drop_first()));
    }
}

/// Filing frames touches only the pending table: the connection flag, the
/// counter and the disposed flag stay; and a flow number that no filed
/// frame carries keeps whatever entry it had. The background reader can
/// never resurrect a disposed client or steal another waiter's reply.
pub proof fn lemma_deposit_all_frame(m: ClientStateModel, frames: Seq<SpecFrame>, flow_no: u16)
    requires
        forall|j: int| 0 <= j < frames.len() ==> frames[j].flow_no != flow_no,
    ensures
        spec_deposit_all(m, frames).has_connection == m.has_connection,
        spec_deposit_all(m, frames).flow_no_counter == m.flow_no_counter,
        spec_deposit_all(m, frames).disposed == m.disposed,
        spec_deposit_all(m, frames).responses.contains_key(flow_no) == m.responses.contains_key(
            flow_no,
        ),
        m.responses.contains_key(flow_no) ==> spec_deposit_all(m, frames).responses[flow_no]
            == m.responses[flow_no],
    decreases frames.len(),
{
    if frames.len() == 0 {
    } else {
        lemma_deposit_all_frame(
            spec_deposit(m, frames[0].flow_no, lossy_of(frames[0].body)),
            frames.drop_first(),
            flow_no,
        );
    }
}

/// Law: correlation, for any number of requests in flight. After a run of
/// frames is filed, the waiter for any flow number whose last reply in the
/// run stands at position `i` — wherever in the arrival order that is —
/// takes exactly that reply's body.
pub proof fn lemma_correlation_general(m: ClientStateModel, frames: Seq<SpecFrame>, i: int)
    requires
        !m.disposed,
        0 <= i < frames.len(),
        forall|j: int| i < j < frames.len() ==> frames[j].flow_no != frames[i].flow_no,
    ensures
        spec_wait(spec_deposit_all(m, frames), frames[i].flow_no).1
            == SpecWaitOutcome::Ready(lossy_of(frames[i].body)),
    decreases frames.len(),
{
    if i == 0 {
        lemma_deposit_all_frame(
            spec_deposit(m, frames[0].flow_no, lossy_of(frames[0].body)),
            frames.drop_first(),
            frames[0].flow_no,
        );
    } else {
        lemma_correlation_general(
            spec_deposit(m, frames[0].flow_no, lossy_of(frames[0].body)),
            frames.drop_first(),
            i - 1,
        );
        assert(frames.drop_first()[i - 1] == frames[i]);
    }
}

/// Whether a finished request's outcome must tear the connection down so
/// that the next request reconnects. Every transport-level failure does; a
/// bad API number is a caller error, not a connection error, and never
/// touches a healthy connection.
pub fn should_reset(kind: &RbkResultKind) -> (r: bool)
    ensures
        r == (*kind != RbkResultKind::Success && *kind != RbkResultKind::BadApiNo),
{
    *kind != RbkResultKind::Success && *kind != RbkResultKind::BadApiNo
}

/// The timeout actually applied to a request: the caller's, or ten seconds
/// where the caller left it unset (zero).
pub fn effective_timeout_ms(timeout_ms: u64) -> (r: u64)
    ensures
        timeout_ms == 0 ==> r == 10000,
        timeout_ms != 0 ==> r == timeout_ms,
{
    if timeout_ms == 0 {
        10000
    } else {
        timeout_ms
    }
}

/// Append a chunk of received bytes to the decode buffer.
fn append_bytes(buf: &mut Vec<u8>, chunk: &[u8])
    ensures
        final(buf)@ == old(buf)@ + chunk@,
{
    let mut i: usize = 0;
    while i < chunk.len()
        invariant
            i <= chunk@.len(),
            buf@ == old(buf)@ + chunk@.take(i as int),
        decreases chunk@.len() - i,
    {
        buf.push(chunk[i]);
        assert(chunk@.take(i + 1) =~= chunk@.take(i as int) + seq![chunk@[i as int]]);
        assert(buf@ =~= old(buf)@ + chunk@.take(i + 1));
        i = i + 1;
    }
    assert(chunk@.take(chunk@.len() as int) =~= chunk@);
}

/// Law: correlation. With two requests in flight under different flow
/// numbers, the replies land each under its own number — whichever order
/// they arrive in — and each waiter takes exactly its own body, the first
/// taking leaving the other untouched.
pub proof fn lemma_correlation(m: ClientStateModel, f1: SpecFrame, f2: SpecFrame)
    requires
        f1.flow_no != f2.flow_no,
        !m.disposed,
    ensures
        ({
            let arrived = spec_deposit_all(m, seq![f2, f1]);  // out of wire order
            let (after1, out1) = spec_wait(arrived, f1.flow_no);
            let (after2, out2) = spec_wait(after1, f2.flow_no);
            &&& out1 == SpecWaitOutcome::Ready(lossy_of(f1.body))
            &&& out2 == SpecWaitOutcome::Ready(lossy_of(f2.body))
        }),
        ({
            let arrived = spec_deposit_all(m, seq![f1, f2]);  // in wire order
            let (after1, out1) = spec_wait(arrived, f1.flow_no);
            let (after2, out2) = spec_wait(after1, f2.flow_no);
            &&& out1 == SpecWaitOutcome::Ready(lossy_of(f1.body))
            &&& out2 == SpecWaitOutcome::Ready(lossy_of(f2.body))
        }),
{
    let d1 = spec_deposit(m, f1.flow_no, lossy_of(f1.body));
    let d2 = spec_deposit(m, f2.flow_no, lossy_of(f2.body));
    let d21 = spec_deposit(d2, f1.flow_no, lossy_of(f1.body));
    let d12 = spec_deposit(d1, f2.flow_no, lossy_of(f2.body));
    assert(seq![f2, f1].drop_first() =~= seq![f1]);
    assert(seq![f1, f2].drop_first() =~= seq![f2]);
    assert(seq![f1].drop_first() =~= Seq::<SpecFrame>::empty());
    assert(seq![f2].drop_first() =~= Seq::<SpecFrame>::empty());
    assert(spec_deposit_all(m, seq![f2, f1]) == spec_deposit_all(d2, seq![f1]));
    assert(spec_deposit_all(d2, seq![f1]) == spec_deposit_all(d21, Seq::empty()));
    assert(spec_deposit_all(d21, Seq::<SpecFrame>::empty()) == d21);
    assert(spec_deposit_all(m, seq![f1, f2]) == spec_deposit_all(d1, seq![f2]));
    assert(spec_deposit_all(d1, seq![f2]) == spec_deposit_all(d12, Seq::empty()));
    assert(spec_deposit_all(d12, Seq::<SpecFrame>::empty()) == d12);
}

/// Law: timeout and recovery. A reset after a failed or timed-out request
/// forces the next request to reconnect; reconnecting clears the disposed
/// flag, and no stale pending entry survives into the new connection, so a
/// wrapped flow number cannot be fed a reply meant for an older caller.
pub proof fn lemma_timeout_recovery(m: ClientStateModel)
    ensures
        spec_needs_connect(spec_reset(m)),
        !spec_needs_connect(spec_mark_connected(spec_reset(m))),
        spec_mark_connected(spec_reset(m)).responses == Map::<u16, Seq<char>>::empty(),
{
}

/// Law: disposal. A request in flight when the client is reset or disposed
/// resolves with a disposed outcome at its next wakeup — it can never be
/// told to keep waiting, so it cannot hang forever.
pub proof fn lemma_dispose_in_flight(m: ClientStateModel, flow_no: u16)
    ensures
        spec_wait(spec_reset(m), flow_no).1 is Disposed,
{
}

} // verus!
