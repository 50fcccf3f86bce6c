//! RBK wire format: frame encoding and the incremental, resynchronizing
//! decoder.
//!
//! A frame is a 16-byte header followed by the body bytes:
//! start mark (1), version (1), flow number (2, big-endian), body length
//! (4, big-endian), API number (2, big-endian), reserved (6, zero). The
//! decoder scans for the start mark, drops anything before it, and parks
//! partial frames in the buffer until enough bytes arrive.

use vstd::prelude::*;
use vstd::string::StringSliceAdditionalSpecFns;

use crate::frame::RbkFrame;

verus! {

/// Sentinel byte opening every frame; the decoder resynchronizes on it.
pub const START_MARK: u8 = 0x5A;

/// Fixed protocol version byte; written on encode, ignored on decode.
pub const PROTO_VERSION: u8 = 0x01;

/// Byte length of the fixed frame header, start mark included.
pub const HEAD_SIZE: usize = 16;

/// What `String::from_utf8_lossy` returns for the given bytes. The result
/// depends on the bytes alone; for valid UTF-8 it is stated exactly below.
pub uninterp spec fn lossy_of(bytes: Seq<u8>) -> Seq<char>;

/// Relies on `String::from_utf8_lossy`: the result is a function of the bytes
/// alone, and on valid UTF-8 input it is exactly the decoded text (invalid
/// sequences are replaced, never dropped silently into other bytes' text).
#[verifier::external_body]
fn bytes_to_string_lossy(bytes: &Vec<u8>) -> (r: String)
    ensures
        r@ == lossy_of(bytes@),
        vstd::utf8::valid_utf8(bytes@) ==> r@ == vstd::utf8::decode_utf8(bytes@),
{
    String::from_utf8_lossy(bytes).to_string()
}

/// The two big-endian bytes of a 16-bit value.
pub open spec fn u16_be(x: u16) -> Seq<u8> {
    seq![(x / 256) as u8, (x % 256) as u8]
}

/// The 16-bit value read from two big-endian bytes.
pub open spec fn be_to_u16(b1: u8, b0: u8) -> u16 {
    (b1 * 256 + b0) as u16
}

/// The four big-endian bytes of a 32-bit value.
pub open spec fn u32_be(x: u32) -> Seq<u8> {
    u16_be((x / 65536) as u16) + u16_be((x % 65536) as u16)
}

/// The 32-bit value read from four big-endian bytes.
pub open spec fn be_to_u32(b3: u8, b2: u8, b1: u8, b0: u8) -> u32 {
    (be_to_u16(b3, b2) * 65536 + be_to_u16(b1, b0)) as u32
}

/// A decoded frame, as the wire carries it: the body still as raw bytes.
pub struct SpecFrame {
    pub flow_no: u16,
    pub api_no: u16,
    pub body: Seq<u8>,
}

/// The exact bytes that encoding a frame emits.
pub open spec fn spec_encode(api_no: u16, flow_no: u16, body: Seq<u8>) -> Seq<u8> {
    seq![START_MARK, PROTO_VERSION] + u16_be(flow_no) + u32_be(body.len() as u32) + u16_be(api_no)
        + seq![0u8, 0u8, 0u8, 0u8, 0u8, 0u8] + body
}

/// Parse one frame from the bytes that follow a consumed start mark: the
/// 15 remaining header bytes, then `body_len` body bytes. The version and
/// reserved bytes are required to be present but their values are ignored.
/// Returns the frame and the bytes left over, or `None` while incomplete.
pub open spec fn parse_after_mark(t: Seq<u8>) -> Option<(SpecFrame, Seq<u8>)> {
    if t.len() < 15 {
        None
    } else {
        let body_len = be_to_u32(t[3], t[4], t[5], t[6]) as int;
        if t.len() < 15 + body_len {
            None
        } else {
            Some(
                (
                    SpecFrame {
                        flow_no: be_to_u16(t[1], t[2]),
                        api_no: be_to_u16(t[7], t[8]),
                        body: t.subrange(15, 15 + body_len),
                    },
                    t.skip(15 + body_len),
                ),
            )
        }
    }
}

/// The first complete frame in a byte stream, with the bytes after it:
/// everything before the first start mark is garbage and is skipped.
pub open spec fn first_frame(s: Seq<u8>) -> Option<(SpecFrame, Seq<u8>)>
    decreases s.len(),
{
    if s.len() == 0 {
        None
    } else if s[0] != START_MARK {
        first_frame(s.drop_first())
    } else {
        parse_after_mark(s.drop_first())
    }
}

/// The stream with everything before the first start mark dropped; what the
/// decoder keeps of a stream that holds no complete frame yet.
pub open spec fn resync(s: Seq<u8>) -> Seq<u8>
    decreases s.len(),
{
    if s.len() == 0 {
        s
    } else if s[0] == START_MARK {
        s
    } else {
        resync(s.drop_first())
    }
}

/// When a stream holds a complete frame, the leftover is at least the whole
/// header shorter than the stream.
pub proof fn lemma_first_frame_rest_len(s: Seq<u8>)
    ensures
        forall|f: SpecFrame, r: Seq<u8>|
            first_frame(s) == Some::<(SpecFrame, Seq<u8>)>((f, r)) ==> r.len() + 16 <= s.len(),
    decreases s.len(),
{
    if s.len() == 0 {
    } else if s[0] != START_MARK {
        lemma_first_frame_rest_len(s.drop_first());
    } else {
    }
}

/// All complete frames in a byte stream, in order.
pub open spec fn frames_of(s: Seq<u8>) -> Seq<SpecFrame>
    decreases s.len(),
    via frames_of_decreases
{
    match first_frame(s) {
        None => Seq::empty(),
        Some((f, rest)) => seq![f] + frames_of(rest),
    }
}

#[via_fn]
proof fn frames_of_decreases(s: Seq<u8>) {
    lemma_first_frame_rest_len(s);
}

/// What remains buffered after every complete frame has been taken from a
/// byte stream.
pub open spec fn leftover(s: Seq<u8>) -> Seq<u8>
    decreases s.len(),
    via leftover_decreases
{
    match first_frame(s) {
        None => resync(s),
        Some((f, rest)) => leftover(rest),
    }
}

#[via_fn]
proof fn leftover_decreases(s: Seq<u8>) {
    lemma_first_frame_rest_len(s);
}

/// Skipping a mark-free prefix changes neither the first frame nor the
/// resynchronization point.
pub proof fn lemma_skip_garbage(s: Seq<u8>, i: int)
    requires
        0 <= i <= s.len(),
        forall|j: int| 0 <= j < i ==> s[j] != START_MARK,
    ensures
        first_frame(s) == first_frame(s.skip(i)),
        resync(s) == resync(s.skip(i)),
    decreases i,
{
    if i == 0 {
        assert(s.skip(0) =~= s);
    } else {
        assert(s.drop_first() =~= s.skip(1));
        lemma_skip_garbage(s.drop_first(), i - 1);
        assert(s.drop_first().skip(i - 1) =~= s.skip(i));
    }
}

/// A 16-bit value survives the trip through its two big-endian bytes.
proof fn lemma_u16_be_round(x: u16)
    ensures
        be_to_u16(u16_be(x)[0], u16_be(x)[1]) == x,
{
    vstd::arithmetic::div_mod::lemma_fundamental_div_mod(x as int, 256);
}

/// A 32-bit value survives the trip through its four big-endian bytes.
proof fn lemma_u32_be_round(x: u32)
    ensures
        be_to_u32(u32_be(x)[0], u32_be(x)[1], u32_be(x)[2], u32_be(x)[3]) == x,
{
    lemma_u16_be_round((x / 65536) as u16);
    lemma_u16_be_round((x % 65536) as u16);
    vstd::arithmetic::div_mod::lemma_fundamental_div_mod(x as int, 65536);
}

/// Law: round trip. Decoding the encoding of any frame yields exactly that
/// frame — same API number, same flow number, same body bytes — and leaves
/// nothing in the buffer.
pub proof fn lemma_round_trip(api_no: u16, flow_no: u16, body: Seq<u8>)
    requires
        body.len() <= u32::MAX,
    ensures
        first_frame(spec_encode(api_no, flow_no, body)) == Some(
            (SpecFrame { flow_no, api_no, body }, Seq::<u8>::empty()),
        ),
        frames_of(spec_encode(api_no, flow_no, body)) == seq![
            SpecFrame { flow_no, api_no, body },
        ],
{
    let e = spec_encode(api_no, flow_no, body);
    let t = e.drop_first();
    let blen = body.len() as u32;
    assert(e[0] == START_MARK);
    assert(t.len() == 15 + body.len());
    assert(t[1] == u16_be(flow_no)[0] && t[2] == u16_be(flow_no)[1]);
    assert(t[3] == u32_be(blen)[0] && t[4] == u32_be(blen)[1] && t[5] == u32_be(blen)[2] && t[6]
        == u32_be(blen)[3]);
    assert(t[7] == u16_be(api_no)[0] && t[8] == u16_be(api_no)[1]);
    lemma_u16_be_round(flow_no);
    lemma_u16_be_round(api_no);
    lemma_u32_be_round(blen);
    assert(be_to_u32(t[3], t[4], t[5], t[6]) == body.len());
    assert(t.subrange(15, 15 + body.len() as int) =~= body);
    assert(t.skip(15 + body.len() as int) =~= Seq::<u8>::empty());
    assert(frames_of(Seq::<u8>::empty()) =~= Seq::<SpecFrame>::empty());
    assert(frames_of(e) =~= seq![SpecFrame { flow_no, api_no, body }]);
}

/// Law: round trip at the text level. Encoding a body text and decoding the
/// bytes yields a frame whose body bytes are valid UTF-8 and decode to
/// exactly that text; `decode` therefore returns it verbatim in `body_str`.
pub proof fn lemma_round_trip_text(api_no: u16, flow_no: u16, body: Seq<char>)
    requires
        vstd::utf8::encode_utf8(body).len() <= u32::MAX,
    ensures
        ({
            let ff = first_frame(spec_encode(api_no, flow_no, vstd::utf8::encode_utf8(body)));
            &&& ff matches Some((f, rest))
            &&& ff->Some_0.0.flow_no == flow_no
            &&& ff->Some_0.0.api_no == api_no
            &&& vstd::utf8::valid_utf8(ff->Some_0.0.body)
            &&& vstd::utf8::decode_utf8(ff->Some_0.0.body) == body
            &&& ff->Some_0.1.len() == 0
        }),
{
    lemma_round_trip(api_no, flow_no, vstd::utf8::encode_utf8(body));
    vstd::utf8::encode_utf8_valid_utf8(body);
    vstd::utf8::encode_utf8_decode_utf8(body);
}

/// Law: resynchronization. Garbage without a start-mark byte before a stream
/// changes nothing about what is decoded from it. (Garbage that itself holds
/// a stray start mark does derail this decoder: it latches onto the stray
/// mark and reads whatever follows as a header.)
pub proof fn lemma_resync_garbage(garbage: Seq<u8>, s: Seq<u8>)
    requires
        forall|j: int| 0 <= j < garbage.len() ==> garbage[j] != START_MARK,
    ensures
        first_frame(garbage + s) == first_frame(s),
        frames_of(garbage + s) == frames_of(s),
{
    assert(forall|j: int| 0 <= j < garbage.len() ==> (garbage + s)[j] == garbage[j]);
    lemma_skip_garbage(garbage + s, garbage.len() as int);
    assert((garbage + s).skip(garbage.len() as int) =~= s);
}

/// Law: resynchronization onto one frame. Mark-free garbage before one
/// encoded frame still yields exactly that frame.
pub proof fn lemma_resync_to_frame(garbage: Seq<u8>, api_no: u16, flow_no: u16, body: Seq<u8>)
    requires
        forall|j: int| 0 <= j < garbage.len() ==> garbage[j] != START_MARK,
        body.len() <= u32::MAX,
    ensures
        frames_of(garbage + spec_encode(api_no, flow_no, body)) == seq![
            SpecFrame { flow_no, api_no, body },
        ],
{
    lemma_resync_garbage(garbage, spec_encode(api_no, flow_no, body));
    lemma_round_trip(api_no, flow_no, body);
}

/// Appending bytes to a stream whose first frame is complete appends them
/// after that frame's leftover.
pub proof fn lemma_first_frame_append(s: Seq<u8>, t: Seq<u8>)
    requires
        first_frame(s) is Some,
    ensures
        first_frame(s + t) == Some(
            (first_frame(s)->Some_0.0, first_frame(s)->Some_0.1 + t),
        ),
    decreases s.len(),
{
    if s[0] != START_MARK {
        assert((s + t).drop_first() =~= s.drop_first() + t);
        lemma_first_frame_append(s.drop_first(), t);
    } else {
        let u = s.drop_first();
        let v = (s + t).drop_first();
        assert(v =~= u + t);
        let body_len = be_to_u32(u[3], u[4], u[5], u[6]) as int;
        assert(v[1] == u[1] && v[2] == u[2] && v[3] == u[3] && v[4] == u[4] && v[5] == u[5] && v[6]
            == u[6] && v[7] == u[7] && v[8] == u[8]);
        assert(v.subrange(15, 15 + body_len) =~= u.subrange(15, 15 + body_len));
        assert(v.skip(15 + body_len) =~= u.skip(15 + body_len) + t);
    }
}

/// Resynchronizing first, then appending, decodes the same as appending to
/// the raw stream: the garbage the decoder drops could never matter again.
pub proof fn lemma_resync_append(s: Seq<u8>, t: Seq<u8>)
    ensures
        first_frame(resync(s) + t) == first_frame(s + t),
        frames_of(resync(s) + t) == frames_of(s + t),
        leftover(resync(s) + t) == leftover(s + t),
    decreases s.len(),
{
    if s.len() == 0 {
        assert(resync(s) + t =~= s + t);
    } else if s[0] == START_MARK {
    } else {
        assert((s + t).drop_first() =~= s.drop_first() + t);
        lemma_resync_append(s.drop_first(), t);
    }
}

/// Law: incremental decode. Splitting a stream into two chunks, draining the
/// first, keeping its leftover and then appending the second decodes the
/// same frames in the same order as draining the whole stream at once.
pub proof fn lemma_incremental_decode(s: Seq<u8>, t: Seq<u8>)
    ensures
        frames_of(s + t) == frames_of(s) + frames_of(leftover(s) + t),
        leftover(s + t) == leftover(leftover(s) + t),
    decreases s.len(),
{
    lemma_first_frame_rest_len(s);
    match first_frame(s) {
        Some((f, r)) => {
            lemma_first_frame_append(s, t);
            lemma_incremental_decode(r, t);
            assert(frames_of(s + t) =~= frames_of(s) + frames_of(leftover(s) + t));
        },
        None => {
            lemma_resync_append(s, t);
            assert(frames_of(s) + frames_of(leftover(s) + t) =~= frames_of(resync(s) + t));
        },
    }
}

/// The bytes of a chunk sequence, in feeding order.
pub open spec fn concat_chunks(chunks: Seq<Seq<u8>>) -> Seq<u8>
    decreases chunks.len(),
{
    if chunks.len() == 0 {
        Seq::empty()
    } else {
        chunks[0] + concat_chunks(chunks.drop_first())
    }
}

/// The frames decoded by feeding the chunks one at a time into a buffer that
/// starts as `buf`, draining completely after each chunk.
pub open spec fn chunked_frames(buf: Seq<u8>, chunks: Seq<Seq<u8>>) -> Seq<SpecFrame>
    decreases chunks.len(),
{
    if chunks.len() == 0 {
        Seq::empty()
    } else {
        frames_of(buf + chunks[0]) + chunked_frames(
            leftover(buf + chunks[0]),
            chunks.drop_first(),
        )
    }
}

/// Chunk-by-chunk decoding from the leftover state of `s` equals one-shot
/// decoding of everything after `s`.
pub proof fn lemma_chunked_decode_general(s: Seq<u8>, chunks: Seq<Seq<u8>>)
    ensures
        frames_of(s + concat_chunks(chunks)) == frames_of(s) + chunked_frames(leftover(s), chunks),
    decreases chunks.len(),
{
    if chunks.len() == 0 {
        assert(s + concat_chunks(chunks) =~= s);
        assert(frames_of(s) + chunked_frames(leftover(s), chunks) =~= frames_of(s));
    } else {
        let c0 = chunks[0];
        let rest = chunks.drop_first();
        assert(s + concat_chunks(chunks) =~= (s + c0) + concat_chunks(rest));
        lemma_chunked_decode_general(s + c0, rest);
        lemma_incremental_decode(s, c0);
        lemma_incremental_decode(leftover(s), c0);
        assert(leftover(leftover(s) + c0) =~= leftover(leftover(leftover(s)) + c0));
        assert(frames_of(s + concat_chunks(chunks)) =~= frames_of(s) + chunked_frames(
            leftover(s),
            chunks,
        ));
    }
}

/// Law: incremental decode over any chunking. Feeding the bytes of a stream
/// to a fresh decoder in chunks of arbitrary sizes — one byte at a time
/// included — yields the same frames, in the same order, as feeding them all
/// at once.
pub proof fn lemma_chunked_decode(chunks: Seq<Seq<u8>>)
    ensures
        chunked_frames(Seq::empty(), chunks) == frames_of(concat_chunks(chunks)),
{
    lemma_chunked_decode_general(Seq::empty(), chunks);
    assert(Seq::<u8>::empty() + concat_chunks(chunks) =~= concat_chunks(chunks));
    assert(leftover(Seq::<u8>::empty()) =~= Seq::<u8>::empty());
}

/// Law: partial frame. Any strict prefix of one encoded frame decodes to
/// nothing, and appending exactly the missing bytes completes the original
/// stream, so the frame then comes out whole, with no duplication or loss.
pub proof fn lemma_partial_frame(api_no: u16, flow_no: u16, body: Seq<u8>, k: int)
    requires
        body.len() <= u32::MAX,
        0 <= k < spec_encode(api_no, flow_no, body).len(),
    ensures
        first_frame(spec_encode(api_no, flow_no, body).take(k)) is None,
        frames_of(spec_encode(api_no, flow_no, body).take(k)) == Seq::<SpecFrame>::empty(),
        spec_encode(api_no, flow_no, body).take(k) + spec_encode(api_no, flow_no, body).skip(k)
            =~= spec_encode(api_no, flow_no, body),
{
    let e = spec_encode(api_no, flow_no, body);
    let p = e.take(k);
    if k == 0 {
    } else {
        assert(p[0] == START_MARK);
        let t = p.drop_first();
        if k < 16 {
            assert(t.len() < 15);
        } else {
            let u = e.drop_first();
            assert(t[1] == u[1] && t[2] == u[2] && t[3] == u[3] && t[4] == u[4] && t[5] == u[5]
                && t[6] == u[6] && t[7] == u[7] && t[8] == u[8]);
            let blen = body.len() as u32;
            assert(u[3] == u32_be(blen)[0] && u[4] == u32_be(blen)[1] && u[5] == u32_be(blen)[2]
                && u[6] == u32_be(blen)[3]);
            lemma_u32_be_round(blen);
            assert(be_to_u32(t[3], t[4], t[5], t[6]) == body.len());
            assert(t.len() < 15 + body.len());
        }
    }
}

/// Resynchronizing is idempotent and keeps the first frame: dropping the
/// garbage before the first start mark loses nothing.
pub proof fn lemma_resync_props(s: Seq<u8>)
    ensures
        first_frame(resync(s)) == first_frame(s),
        resync(resync(s)) == resync(s),
        frames_of(resync(s)) == frames_of(s),
        leftover(resync(s)) == leftover(s),
        resync(s).len() <= s.len(),
    decreases s.len(),
{
    if s.len() == 0 {
    } else if s[0] == START_MARK {
    } else {
        lemma_resync_props(s.drop_first());
    }
}

/// Append the two big-endian bytes of a 16-bit value.
fn push_u16_be(buf: &mut Vec<u8>, x: u16)
    ensures
        final(buf)@ == old(buf)@ + u16_be(x),
{
    buf.push((x / 256) as u8);
    buf.push((x % 256) as u8);
    assert(buf@ =~= old(buf)@ + u16_be(x));
}

/// Append the four big-endian bytes of a 32-bit value.
fn push_u32_be(buf: &mut Vec<u8>, x: u32)
    ensures
        final(buf)@ == old(buf)@ + u32_be(x),
{
    push_u16_be(buf, (x / 65536) as u16);
    push_u16_be(buf, (x % 65536) as u16);
    assert(buf@ =~= old(buf)@ + u32_be(x));
}

/// Encode one request frame: the fixed header, then the body's UTF-8 bytes.
/// The body length is derived, never supplied; encoding cannot fail. Bodies
/// are bounded by the wire format's 32-bit length field.
#[verifier::loop_isolation(false)]
pub fn encode_request(api_no: u16, body_str: &str, flow_no: u16) -> (r: Vec<u8>)
    requires
        body_str.spec_bytes().len() <= u32::MAX,
    ensures
        r@ == spec_encode(api_no, flow_no, body_str.spec_bytes()),
{
    let body_bytes: &[u8] = body_str.as_bytes();
    let body_len: usize = body_bytes.len();

    let mut buf: Vec<u8> = Vec::new();
    buf.push(START_MARK);
    buf.push(PROTO_VERSION);
    push_u16_be(&mut buf, flow_no);
    push_u32_be(&mut buf, body_len as u32);
    push_u16_be(&mut buf, api_no);
    let mut k: usize = 0;
    while k < 6
        invariant
            k <= 6,
            buf@ == seq![START_MARK, PROTO_VERSION] + u16_be(flow_no) + u32_be(
                body_str.spec_bytes().len() as u32,
            ) + u16_be(api_no) + Seq::new(k as nat, |j: int| 0u8),
        decreases 6 - k,
    {
        buf.push(0);
        assert(Seq::new((k + 1) as nat, |j: int| 0u8) =~= Seq::new(k as nat, |j: int| 0u8)
            + seq![0u8]);
        k = k + 1;
    }
    let mut j: usize = 0;
    while j < body_len
        invariant
            j <= body_len,
            body_len == body_str.spec_bytes().len(),
            body_bytes@ == body_str.spec_bytes(),
            buf@ == seq![START_MARK, PROTO_VERSION] + u16_be(flow_no) + u32_be(
                body_str.spec_bytes().len() as u32,
            ) + u16_be(api_no) + Seq::new(6, |t: int| 0u8) + body_str.spec_bytes().take(j as int),
        decreases body_len - j,
    {
        buf.push(body_bytes[j]);
        assert(body_str.spec_bytes().take(j + 1) =~= body_str.spec_bytes().take(j as int)
            + seq![body_str.spec_bytes()[j as int]]);
        j = j + 1;
    }
    proof {
        assert(Seq::new(6, |t: int| 0u8) =~= seq![0u8, 0u8, 0u8, 0u8, 0u8, 0u8]);
        assert(body_str.spec_bytes().take(body_len as int) =~= body_str.spec_bytes());
        assert(buf@ =~= spec_encode(api_no, flow_no, body_str.spec_bytes()));
    }
    buf
}

/// Remove the first `n` bytes of the buffer.
fn drop_front(buf: &mut Vec<u8>, n: usize)
    requires
        n <= old(buf)@.len(),
    ensures
        final(buf)@ == old(buf)@.skip(n as int),
{
    let tail = buf.split_off(n);
    *buf = tail;
}

/// Copy the bytes at `[start, end)` out of the buffer.
fn copy_range(buf: &Vec<u8>, start: usize, end: usize) -> (r: Vec<u8>)
    requires
        start <= end <= buf@.len(),
    ensures
        r@ == buf@.subrange(start as int, end as int),
{
    let mut out: Vec<u8> = Vec::with_capacity(end - start);
    let mut j: usize = start;
    while j < end
        invariant
            start <= j <= end <= buf@.len(),
            out@ == buf@.subrange(start as int, j as int),
        decreases end - j,
    {
        out.push(buf[j]);
        assert(buf@.subrange(start as int, j + 1) =~= buf@.subrange(start as int, j as int)
            + seq![buf@[j as int]]);
        j = j + 1;
    }
    out
}

/// The incremental decoder. It holds no state of its own: partial frames
/// stay parked in the caller's buffer (only garbage before a start mark is
/// dropped), so each call re-examines the buffer from the front.
pub struct RbkDecoder {}

impl RbkDecoder {
    pub fn new() -> (r: Self) {
        Self {}
    }

    /// Try to take one complete frame off the front of the buffer.
    ///
    /// Returns the first complete frame and removes exactly its bytes (and
    /// any garbage before its start mark); or returns `None`, keeping the
    /// buffer parked at the first start mark so that appending more bytes
    /// and calling again continues the same frame.
    pub fn decode(&mut self, buf: &mut Vec<u8>) -> (r: Option<RbkFrame>)
        ensures
            match r {
                Some(frame) => {
                    &&& first_frame(old(buf)@) matches Some((sf, rest))
                    &&& frame.flow_no == first_frame(old(buf)@)->Some_0.0.flow_no
                    &&& frame.api_no == first_frame(old(buf)@)->Some_0.0.api_no
                    &&& frame.body_str@ == lossy_of(first_frame(old(buf)@)->Some_0.0.body)
                    &&& vstd::utf8::valid_utf8(first_frame(old(buf)@)->Some_0.0.body)
                        ==> frame.body_str@ == vstd::utf8::decode_utf8(
                        first_frame(old(buf)@)->Some_0.0.body,
                    )
                    &&& final(buf)@ == first_frame(old(buf)@)->Some_0.1
                },
                None => first_frame(old(buf)@) is None && final(buf)@ == resync(old(buf)@),
            },
    {
        let ghost s0 = buf@;

        // Scan forward for the start mark; everything before it is garbage.
        let mut i: usize = 0;
        while i < buf.len() && buf[i] != START_MARK
            invariant
                i <= buf@.len(),
                buf@ == s0,
                forall|j: int| 0 <= j < i ==> s0[j] != START_MARK,
            decreases buf@.len() - i,
        {
            i = i + 1;
        }
        proof {
            lemma_skip_garbage(s0, i as int);
        }
        if i == buf.len() {
            buf.clear();
            assert(s0.skip(i as int) =~= buf@);
            return None;
        }
        drop_front(buf, i);
        // The buffer now begins with the start mark.
        let ghost b = buf@;
        assert(b == s0.skip(i as int));
        assert(first_frame(s0) == parse_after_mark(b.drop_first()));

        // The whole header must be buffered before any field is read.
        if buf.len() < HEAD_SIZE {
            return None;
        }
        let flow_no: u16 = (buf[2] as u16) * 256 + (buf[3] as u16);
        let body_len_u32: u32 = ((buf[4] as u32) * 256 + (buf[5] as u32)) * 65536 + ((buf[6]
            as u32) * 256 + (buf[7] as u32));
        let api_no: u16 = (buf[8] as u16) * 256 + (buf[9] as u16);
        proof {
            let t = b.drop_first();
            assert(t[1] == b[2] && t[2] == b[3] && t[3] == b[4] && t[4] == b[5] && t[5] == b[6]
                && t[6] == b[7] && t[7] == b[8] && t[8] == b[9]);
            assert(flow_no == be_to_u16(t[1], t[2]));
            assert(api_no == be_to_u16(t[7], t[8]));
            assert(body_len_u32 == be_to_u32(t[3], t[4], t[5], t[6]));
        }

        // The whole body must be buffered too.
        if (buf.len() as u64) < HEAD_SIZE as u64 + body_len_u32 as u64 {
            return None;
        }
        let body_len: usize = body_len_u32 as usize;
        let body = copy_range(buf, HEAD_SIZE, HEAD_SIZE + body_len);
        drop_front(buf, HEAD_SIZE + body_len);
        proof {
            let t = b.drop_first();
            assert(body@ =~= t.subrange(15, 15 + body_len as int));
            assert(buf@ =~= t.skip(15 + body_len as int));
        }
        let body_str = bytes_to_string_lossy(&body);
        Some(RbkFrame::new(flow_no, api_no, body_str))
    }
}

} // verus!
