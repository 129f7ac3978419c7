//! Length-prefixed framing used by every transport of the service.
//!
//! A frame on the wire is the payload length as four big-endian bytes,
//! followed by the payload itself.
use vstd::prelude::*;

use crate::network::payload::{bytes_content, frame_payload};

verus! {

/// 2^32, the number of values a length header can hold.
pub open spec fn header_modulus() -> nat {
    4294967296
}

/// The four big-endian bytes of `n` (taken modulo 2^32).
pub open spec fn spec_be_bytes(n: nat) -> Seq<u8> {
    let m = n % header_modulus();
    seq![
        (m / 16777216) as u8,
        ((m / 65536) % 256) as u8,
        ((m / 256) % 256) as u8,
        (m % 256) as u8,
    ]
}

/// The number that four big-endian bytes stand for.
pub open spec fn spec_from_be(b: Seq<u8>) -> nat
    recommends
        b.len() == 4,
{
    (b[0] as nat) * 16777216 + (b[1] as nat) * 65536 + (b[2] as nat) * 256 + (b[3] as nat)
}

/// One frame on the wire: header with the payload length, then the payload.
/// The header carries the length modulo 2^32, as the sender truncates it.
pub open spec fn spec_encode_frame(payload: Seq<u8>) -> Seq<u8> {
    spec_be_bytes(payload.len()) + payload
}

/// A sequence of frames written one after the other.
pub open spec fn spec_encode_frames(payloads: Seq<Seq<u8>>) -> Seq<u8>
    decreases payloads.len(),
{
    if payloads.len() == 0 {
        Seq::empty()
    } else {
        spec_encode_frame(payloads[0]) + spec_encode_frames(payloads.drop_first())
    }
}

/// The payloads of the complete frames at the front of a byte stream; an
/// incomplete frame at the end is not delivered.
pub open spec fn spec_decode_frames(s: Seq<u8>) -> Seq<Seq<u8>>
    decreases s.len(),
{
    if s.len() < 4 {
        Seq::empty()
    } else {
        let n = spec_from_be(s.take(4));
        if s.len() < 4 + n {
            Seq::empty()
        } else {
            seq![s.subrange(4, 4 + n as int)] + spec_decode_frames(s.skip(4 + n as int))
        }
    }
}

/// Every payload fits in a length header.
pub open spec fn all_fit_header(payloads: Seq<Seq<u8>>) -> bool {
    forall|i: int| 0 <= i < payloads.len() ==> #[trigger] payloads[i].len() < header_modulus()
}

/// The length header is the big-endian form of the length taken modulo
/// 2^32: the first byte is the most significant, and the bytes weighted by
/// 2^24, 2^16, 2^8 and 1 add up to the length.
pub proof fn law_header_is_big_endian(n: nat)
    ensures
        spec_be_bytes(n).len() == 4,
        (spec_be_bytes(n)[0] as nat) * 16777216 + (spec_be_bytes(n)[1] as nat) * 65536 + (
        spec_be_bytes(n)[2] as nat) * 256 + (spec_be_bytes(n)[3] as nat) == n % 4294967296,
        spec_be_bytes(n)[0] as nat == (n % 4294967296) / 16777216,
        spec_be_bytes(n)[3] as nat == n % 256,
{
    let m = n % 4294967296;
    assert(m < 4294967296);
    assert((m / 16777216) * 16777216 + ((m / 65536) % 256) * 65536 + ((m / 256) % 256) * 256 + m
        % 256 == m) by (nonlinear_arith)
        requires
            m < 4294967296,
    ;
    assert(m % 256 == n % 256) by (nonlinear_arith)
        requires
            m == n % 4294967296,
    ;
    assert(m / 16777216 < 256) by (nonlinear_arith)
        requires
            m < 4294967296,
    ;
}

/// Four header bytes stand for the big-endian number they spell, most
/// significant byte first.
pub proof fn law_decoding_is_big_endian(b: Seq<u8>)
    requires
        b.len() == 4,
    ensures
        spec_from_be(b) == (((b[0] as nat) * 256 + (b[1] as nat)) * 256 + (b[2] as nat)) * 256
            + (b[3] as nat),
{
    assert((((b[0] as nat) * 256 + (b[1] as nat)) * 256 + (b[2] as nat)) * 256 + (b[3] as nat)
        == (b[0] as nat) * 16777216 + (b[1] as nat) * 65536 + (b[2] as nat) * 256 + (
    b[3] as nat)) by (nonlinear_arith);
}

/// Reading back a length header gives the length that was written, for
/// every length below 2^32.
pub proof fn lemma_header_roundtrip(n: nat)
    requires
        n < header_modulus(),
    ensures
        spec_from_be(spec_be_bytes(n)) == n,
        spec_be_bytes(n).len() == 4,
{
    let b = spec_be_bytes(n);
    assert(n % header_modulus() == n);
    assert(b[0] as nat == n / 16777216);
    assert(b[1] as nat == (n / 65536) % 256);
    assert(b[2] as nat == (n / 256) % 256);
    assert(b[3] as nat == n % 256);
    assert((n / 16777216) * 16777216 + ((n / 65536) % 256) * 65536 + ((n / 256) % 256) * 256 + n
        % 256 == n) by (nonlinear_arith)
        requires
            n < 4294967296,
    ;
}


/// The length header of a payload of `len` bytes: `len` taken modulo 2^32,
/// as four big-endian bytes.
pub fn encode_length(len: usize) -> (header: [u8; 4])
    ensures
        header@ == spec_be_bytes(len as nat),
        (header[0] as nat) * 16777216 + (header[1] as nat) * 65536 + (header[2] as nat) * 256
            + (header[3] as nat) == (len as nat) % 4294967296,
{
    proof {
        law_header_is_big_endian(len as nat);
    }
    let m: u64 = (len as u64) % 4294967296;
    let b0: u8 = (m / 16777216) as u8;
    let b1: u8 = ((m / 65536) % 256) as u8;
    let b2: u8 = ((m / 256) % 256) as u8;
    let b3: u8 = (m % 256) as u8;
    let header = [b0, b1, b2, b3];
    assert(header@ =~= spec_be_bytes(len as nat));
    header
}

/// The payload length that a length header announces.
pub fn decode_length(header: [u8; 4]) -> (len: usize)
    ensures
        len as nat == spec_from_be(header@),
        len as nat == (((header[0] as nat) * 256 + (header[1] as nat)) * 256 + (header[2] as nat))
            * 256 + (header[3] as nat),
{
    proof {
        law_decoding_is_big_endian(header@);
    }
    let v: u32 = (header[0] as u32) * 16777216 + (header[1] as u32) * 65536 + (header[2] as u32)
        * 256 + (header[3] as u32);
    v as usize
}

/// The bytes that the sending side writes for one payload: its length
/// header followed by the payload.
pub fn encode_frame(payload: &[u8]) -> (frame: Vec<u8>)
    requires
        payload.len() + 4 <= usize::MAX,
    ensures
        frame@ == spec_encode_frame(payload@),
{
    let header = encode_length(payload.len());
    let mut frame: Vec<u8> = Vec::with_capacity(payload.len() + 4);
    frame.push(header[0]);
    frame.push(header[1]);
    frame.push(header[2]);
    frame.push(header[3]);
    frame.extend_from_slice(payload);
    assert(frame@ =~= spec_encode_frame(payload@));
    frame
}


/// Where a reader of framed bytes stands: waiting for a length header, or
/// for the payload that a header announced.
#[derive(Debug, Clone, Copy, PartialEq, Eq, Structural)]
pub enum FrameReader {
    AwaitingLength,
    AwaitingPayload { len: usize },
}

/// How many bytes the reader asks for next.
pub open spec fn spec_wanted(st: FrameReader) -> nat {
    match st {
        FrameReader::AwaitingLength => 4,
        FrameReader::AwaitingPayload { len } => len as nat,
    }
}

/// One step of the reader on the chunk it asked for: the next state, and the
/// payload it delivers, if any.
pub open spec fn spec_step(st: FrameReader, chunk: Seq<u8>) -> (FrameReader, Option<Seq<u8>>) {
    match st {
        FrameReader::AwaitingLength => (
            FrameReader::AwaitingPayload { len: spec_from_be(chunk) as usize },
            None,
        ),
        FrameReader::AwaitingPayload { .. } => (FrameReader::AwaitingLength, Some(chunk)),
    }
}

/// Rank used to show that driving the reader ends: a pending empty payload
/// is delivered without consuming bytes.
pub open spec fn spec_rank(st: FrameReader) -> nat {
    match st {
        FrameReader::AwaitingLength => 0,
        FrameReader::AwaitingPayload { .. } => 1,
    }
}

/// The payloads that the reader delivers when it is fed, chunk by chunk,
/// the bytes of `s` in the sizes it asks for, until `s` runs short.
pub open spec fn spec_drive(st: FrameReader, s: Seq<u8>) -> Seq<Seq<u8>>
    decreases s.len(), spec_rank(st),
{
    let w = spec_wanted(st);
    if s.len() < w {
        Seq::empty()
    } else {
        let next = spec_step(st, s.take(w as int));
        let out: Seq<Seq<u8>> = match next.1 {
            Some(p) => seq![p],
            None => Seq::empty(),
        };
        out + spec_drive(next.0, s.skip(w as int))
    }
}

/// Four bytes always stand for a number below 2^32.
pub proof fn lemma_from_be_bound(b: Seq<u8>)
    requires
        b.len() == 4,
    ensures
        spec_from_be(b) < header_modulus(),
{
}

/// Decoding a byte stream that holds whole frames gives back their
/// payloads, in order, whatever the payloads (each under 2^32 bytes).
pub proof fn lemma_decode_encode(payloads: Seq<Seq<u8>>)
    requires
        all_fit_header(payloads),
    ensures
        spec_decode_frames(spec_encode_frames(payloads)) == payloads,
    decreases payloads.len(),
{
    if payloads.len() == 0 {
        assert(spec_encode_frames(payloads) =~= Seq::<u8>::empty());
        assert(spec_decode_frames(Seq::<u8>::empty()) =~= payloads);
    } else {
        let p = payloads[0];
        let rest = payloads.drop_first();
        assert(all_fit_header(rest)) by {
            assert forall|i: int| 0 <= i < rest.len() implies #[trigger] rest[i].len()
                < header_modulus() by {
                assert(rest[i] == payloads[i + 1]);
            }
        }
        lemma_decode_encode(rest);
        assert(p.len() < header_modulus());
        lemma_header_roundtrip(p.len());
        let s = spec_encode_frames(payloads);
        let h = spec_be_bytes(p.len());
        assert(s == h + p + spec_encode_frames(rest));
        assert(s.take(4) =~= h);
        assert(s.subrange(4, 4 + p.len() as int) =~= p);
        assert(s.skip(4 + p.len() as int) =~= spec_encode_frames(rest));
        assert(spec_decode_frames(s) =~= seq![p] + rest);
        assert(seq![p] + rest =~= payloads);
    }
}

/// The reader, fed a byte stream in the chunks it asks for, delivers
/// exactly the payloads of the complete frames of the stream.
pub proof fn lemma_drive_decodes(s: Seq<u8>)
    ensures
        spec_drive(FrameReader::AwaitingLength, s) == spec_decode_frames(s),
    decreases s.len(),
{
    if s.len() >= 4 {
        let header = s.take(4);
        lemma_from_be_bound(header);
        let n = spec_from_be(header);
        let st = FrameReader::AwaitingPayload { len: n as usize };
        assert(spec_wanted(st) == n);
        let t = s.skip(4);
        if t.len() >= n {
            assert(t.take(n as int) =~= s.subrange(4, 4 + n as int));
            assert(t.skip(n as int) =~= s.skip(4 + n as int));
            lemma_drive_decodes(s.skip(4 + n as int));
            assert(spec_drive(st, t) =~= seq![s.subrange(4, 4 + n as int)] + spec_drive(
                FrameReader::AwaitingLength,
                s.skip(4 + n as int),
            ));
        } else {
            assert(spec_drive(st, t) =~= Seq::<Seq<u8>>::empty());
        }
        assert(spec_drive(FrameReader::AwaitingLength, s) =~= Seq::<Seq<u8>>::empty() + spec_drive(st, t));
    }
}

/// What a reader reads back of what a writer wrote: a reader started at the
/// beginning of a stream of encoded frames delivers the written payloads,
/// in the order they were written, for payloads under 2^32 bytes each.
pub proof fn law_read_back_written_frames(payloads: Seq<Seq<u8>>)
    requires
        all_fit_header(payloads),
    ensures
        spec_drive(FrameReader::AwaitingLength, spec_encode_frames(payloads)) == payloads,
{
    lemma_drive_decodes(spec_encode_frames(payloads));
    lemma_decode_encode(payloads);
}

impl FrameReader {
    /// A reader at the start of a stream, waiting for a length header.
    pub fn new() -> (r: Self)
        ensures
            r == FrameReader::AwaitingLength,
    {
        FrameReader::AwaitingLength
    }

    /// How many bytes the reader needs next: four for a header, or the
    /// announced payload length.
    pub fn bytes_wanted(&self) -> (n: usize)
        ensures
            n as nat == spec_wanted(*self),
    {
        match self {
            FrameReader::AwaitingLength => 4,
            FrameReader::AwaitingPayload { len } => *len,
        }
    }

    /// Feeds the reader exactly the bytes it asked for. After a header it
    /// waits for the announced payload; after a payload it delivers it and
    /// waits for the next header.
    pub fn on_bytes(&mut self, data: &[u8]) -> (frame: Option<bytes::Bytes>)
        requires
            data@.len() == spec_wanted(*old(self)),
            data@.len() + 4 <= isize::MAX,
        ensures
            *final(self) == spec_step(*old(self), data@).0,
            match spec_step(*old(self), data@).1 {
                Some(p) => frame is Some && bytes_content(frame->0) == p,
                None => frame is None,
            },
    {
        match self {
            FrameReader::AwaitingLength => {
                let header: [u8; 4] = [data[0], data[1], data[2], data[3]];
                assert(header@ =~= data@);
                let len = decode_length(header);
                *self = FrameReader::AwaitingPayload { len };
                None
            },
            FrameReader::AwaitingPayload { .. } => {
                *self = FrameReader::AwaitingLength;
                Some(frame_payload(data))
            },
        }
    }
}

} // verus!
