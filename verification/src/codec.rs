//! Envelope wire format.
//!
//! A stored envelope is framed as a fixed header followed by the payload
//! bytes, so that the signal's metadata can be read without decoding — or
//! even understanding — the payload: one kind-tag byte, then the signal's
//! initial intensity, decay rate and creation instant, then the payload
//! length, each as eight little-endian bytes, then the payload itself. The
//! label is not carried: it is the kind's own label, restored on decode.

use crate::physics::{Pheromone, PheromonePayload, PheromoneType};
use vstd::prelude::*;

verus! {

/// Bytes before the payload: tag, three signal fields, payload length.
pub const HEADER_LEN: usize = 33;

/// Why a byte string is not a well-formed envelope.
#[derive(Clone, Copy, Debug, PartialEq, Eq, Structural)]
pub enum DecodeError {
    /// Shorter than the fixed header.
    TooShort,
    /// The kind tag names no known signal kind.
    UnknownKind,
    /// The payload length field disagrees with the bytes present.
    LengthMismatch,
}

/// The eight little-endian bytes of a 64-bit value.
pub open spec fn le_bytes_of(x: u64) -> Seq<u8> {
    seq![
        (x & 0xff) as u8,
        ((x >> 8) & 0xff) as u8,
        ((x >> 16) & 0xff) as u8,
        ((x >> 24) & 0xff) as u8,
        ((x >> 32) & 0xff) as u8,
        ((x >> 40) & 0xff) as u8,
        ((x >> 48) & 0xff) as u8,
        ((x >> 56) & 0xff) as u8,
    ]
}

/// The 64-bit value eight little-endian bytes spell.
pub open spec fn u64_of_le(b: Seq<u8>) -> u64 {
    (b[0] as u64) | ((b[1] as u64) << 8) | ((b[2] as u64) << 16) | ((b[3] as u64) << 24) | (
    (b[4] as u64) << 32) | ((b[5] as u64) << 40) | ((b[6] as u64) << 48) | ((b[7] as u64) << 56)
}

/// Reading back the bytes of a value yields the value.
pub proof fn lemma_le_roundtrip(x: u64)
    ensures
        u64_of_le(le_bytes_of(x)) == x,
{
    assert((((x & 0xff) as u8) as u64) | (((((x >> 8) & 0xff) as u8) as u64) << 8) | (((((x
        >> 16) & 0xff) as u8) as u64) << 16) | (((((x >> 24) & 0xff) as u8) as u64) << 24) | ((((
    (x >> 32) & 0xff) as u8) as u64) << 32) | (((((x >> 40) & 0xff) as u8) as u64) << 40) | ((((
    (x >> 48) & 0xff) as u8) as u64) << 48) | (((((x >> 56) & 0xff) as u8) as u64) << 56) == x)
        by (bit_vector);
}

/// The wire tag of each signal kind.
pub open spec fn tag_spec(kind: PheromoneType) -> u8 {
    match kind {
        PheromoneType::PriceFreshness => 0,
        PheromoneType::RebalanceOpportunity => 1,
        PheromoneType::ExecutionPermit => 2,
        PheromoneType::TradeExecuted => 3,
    }
}

/// The signal kind a wire tag names, if any.
pub open spec fn kind_of_tag(t: u8) -> Option<PheromoneType> {
    if t == 0 {
        Option::Some(PheromoneType::PriceFreshness)
    } else if t == 1 {
        Option::Some(PheromoneType::RebalanceOpportunity)
    } else if t == 2 {
        Option::Some(PheromoneType::ExecutionPermit)
    } else if t == 3 {
        Option::Some(PheromoneType::TradeExecuted)
    } else {
        Option::None
    }
}

/// The full wire image of an envelope.
pub open spec fn encode_spec(
    kind: PheromoneType,
    initial_intensity: u64,
    decay_rate: u64,
    created_at_ms: u64,
    data: Seq<u8>,
) -> Seq<u8> {
    seq![tag_spec(kind)] + le_bytes_of(initial_intensity) + le_bytes_of(decay_rate) + le_bytes_of(
        created_at_ms,
    ) + le_bytes_of(data.len() as u64) + data
}

/// What a well-formed wire image holds.
#[verifier::ext_equal]
pub ghost struct ParsedEnvelope {
    pub kind: PheromoneType,
    pub initial_intensity: u64,
    pub decay_rate: u64,
    pub created_at_ms: u64,
    pub data: Seq<u8>,
}

/// What any byte string decodes to: exactly which envelope, or exactly which
/// error — too short for the header, an unknown kind tag, or a payload
/// length that disagrees with the bytes present, in that order of checks.
pub open spec fn parse_spec(b: Seq<u8>) -> Result<ParsedEnvelope, DecodeError> {
    if b.len() < HEADER_LEN {
        Result::Err(DecodeError::TooShort)
    } else {
        match kind_of_tag(b[0]) {
            Option::None => Result::Err(DecodeError::UnknownKind),
            Option::Some(kind) => {
                if b.len() - HEADER_LEN != u64_of_le(b.subrange(25, 33)) {
                    Result::Err(DecodeError::LengthMismatch)
                } else {
                    Result::Ok(
                        ParsedEnvelope {
                            kind,
                            initial_intensity: u64_of_le(b.subrange(1, 9)),
                            decay_rate: u64_of_le(b.subrange(9, 17)),
                            created_at_ms: u64_of_le(b.subrange(17, 25)),
                            data: b.subrange(HEADER_LEN as int, b.len() as int),
                        },
                    )
                }
            },
        }
    }
}

/// Append the eight little-endian bytes of a value.
fn push_le(out: &mut Vec<u8>, x: u64)
    ensures
        final(out)@ == old(out)@ + le_bytes_of(x),
{
    proof {
        assert((x & 0xff) <= 0xff && ((x >> 8) & 0xff) <= 0xff && ((x >> 16) & 0xff) <= 0xff && ((
        x >> 24) & 0xff) <= 0xff && ((x >> 32) & 0xff) <= 0xff && ((x >> 40) & 0xff) <= 0xff && ((
        x >> 48) & 0xff) <= 0xff && ((x >> 56) & 0xff) <= 0xff) by (bit_vector);
    }
    out.push((x & 0xff) as u8);
    out.push(((x >> 8) & 0xff) as u8);
    out.push(((x >> 16) & 0xff) as u8);
    out.push(((x >> 24) & 0xff) as u8);
    out.push(((x >> 32) & 0xff) as u8);
    out.push(((x >> 40) & 0xff) as u8);
    out.push(((x >> 48) & 0xff) as u8);
    out.push(((x >> 56) & 0xff) as u8);
    proof {
        assert(out@ =~= old(out)@ + le_bytes_of(x));
    }
}

/// Read the 64-bit value spelled at an offset.
fn read_le(b: &[u8], off: usize) -> (r: u64)
    requires
        off + 8 <= b@.len(),
    ensures
        r == u64_of_le(b@.subrange(off as int, off as int + 8)),
{
    let r: u64 = (b[off] as u64) | ((b[off + 1] as u64) << 8u64) | ((b[off + 2] as u64) << 16u64)
        | ((b[off + 3] as u64) << 24u64) | ((b[off + 4] as u64) << 32u64) | ((b[off + 5] as u64)
        << 40u64) | ((b[off + 6] as u64) << 48u64) | ((b[off + 7] as u64) << 56u64);
    proof {
        let s = b@.subrange(off as int, off as int + 8);
        assert(s[0] == b@[off as int] && s[1] == b@[off as int + 1] && s[2] == b@[off as int + 2]
            && s[3] == b@[off as int + 3] && s[4] == b@[off as int + 4] && s[5] == b@[off as int
            + 5] && s[6] == b@[off as int + 6] && s[7] == b@[off as int + 7]);
    }
    r
}

/// The wire tag of a kind.
fn tag_of(kind: PheromoneType) -> (r: u8)
    ensures
        r == tag_spec(kind),
{
    match kind {
        PheromoneType::PriceFreshness => 0,
        PheromoneType::RebalanceOpportunity => 1,
        PheromoneType::ExecutionPermit => 2,
        PheromoneType::TradeExecuted => 3,
    }
}

/// The kind a wire tag names, if any.
fn kind_from_tag(t: u8) -> (r: Option<PheromoneType>)
    ensures
        r == kind_of_tag(t),
{
    if t == 0 {
        Option::Some(PheromoneType::PriceFreshness)
    } else if t == 1 {
        Option::Some(PheromoneType::RebalanceOpportunity)
    } else if t == 2 {
        Option::Some(PheromoneType::ExecutionPermit)
    } else if t == 3 {
        Option::Some(PheromoneType::TradeExecuted)
    } else {
        Option::None
    }
}

/// Frame an envelope for the store: header first, payload bytes last, the
/// payload left opaque.
pub fn encode_envelope(kind: PheromoneType, envelope: &PheromonePayload<Vec<u8>>) -> (r: Vec<u8>)
    ensures
        r@ == encode_spec(
            kind,
            envelope.pheromone.initial_intensity,
            envelope.pheromone.decay_rate,
            envelope.pheromone.created_at_ms,
            envelope.data@,
        ),
{
    let mut out: Vec<u8> = Vec::new();
    out.push(tag_of(kind));
    push_le(&mut out, envelope.pheromone.initial_intensity);
    push_le(&mut out, envelope.pheromone.decay_rate);
    push_le(&mut out, envelope.pheromone.created_at_ms);
    push_le(&mut out, envelope.data.len() as u64);
    let n: usize = envelope.data.len();
    let ghost head = out@;
    let mut i: usize = 0;
    while i < n
        invariant
            i <= n,
            n == envelope.data@.len(),
            out@ =~= head + envelope.data@.subrange(0, i as int),
        decreases n - i,
    {
        out.push(envelope.data[i]);
        i = i + 1;
    }
    proof {
        assert(out@ =~= encode_spec(
            kind,
            envelope.pheromone.initial_intensity,
            envelope.pheromone.decay_rate,
            envelope.pheromone.created_at_ms,
            envelope.data@,
        ));
    }
    out
}

/// Decode a stored envelope whole: its kind, its signal (relabelled with the
/// kind's own label), and a copy of its payload bytes; or exactly the error
/// `parse_spec` assigns the bytes.
pub fn decode_envelope(bytes: &[u8]) -> (r: Result<
    (PheromoneType, PheromonePayload<Vec<u8>>),
    DecodeError,
>)
    ensures
        r is Ok <==> parse_spec(bytes@) is Ok,
        r matches Ok((kind, envelope)) ==> {
            &&& parse_spec(bytes@) matches Result::Ok(pe)
            &&& pe.kind == kind
            &&& envelope.pheromone.initial_intensity == pe.initial_intensity
            &&& envelope.pheromone.decay_rate == pe.decay_rate
            &&& envelope.pheromone.created_at_ms == pe.created_at_ms
            &&& envelope.pheromone.label@ == kind.label_spec()
            &&& envelope.data@ == pe.data
        },
        r matches Err(e) ==> parse_spec(bytes@) == Result::<ParsedEnvelope, DecodeError>::Err(e),
{
    if bytes.len() < HEADER_LEN {
        return Result::Err(DecodeError::TooShort);
    }
    let kind = match kind_from_tag(bytes[0]) {
        Option::None => {
            return Result::Err(DecodeError::UnknownKind);
        },
        Option::Some(k) => k,
    };
    let stored_len: u64 = read_le(bytes, 25);
    if (bytes.len() - HEADER_LEN) as u64 != stored_len {
        return Result::Err(DecodeError::LengthMismatch);
    }
    let initial_intensity: u64 = read_le(bytes, 1);
    let decay_rate: u64 = read_le(bytes, 9);
    let created_at_ms: u64 = read_le(bytes, 17);
    let n: usize = bytes.len();
    let mut data: Vec<u8> = Vec::new();
    let mut i: usize = HEADER_LEN;
    while i < n
        invariant
            HEADER_LEN <= i <= n,
            n == bytes@.len(),
            data@ =~= bytes@.subrange(HEADER_LEN as int, i as int),
        decreases n - i,
    {
        data.push(bytes[i]);
        i = i + 1;
    }
    proof {
        assert(data@ =~= bytes@.subrange(HEADER_LEN as int, bytes@.len() as int));
    }
    let pheromone = Pheromone {
        initial_intensity,
        decay_rate,
        created_at_ms,
        label: String::from_str(kind.label()),
    };
    Result::Ok((kind, PheromonePayload { data, pheromone }))
}

/// Decode only the signal metadata of a stored envelope — enough for an
/// intensity query — without copying or interpreting the payload. The
/// framing is still checked whole: the same bytes fail with the same error
/// as `decode_envelope`.
pub fn decode_pheromone(bytes: &[u8]) -> (r: Result<(PheromoneType, Pheromone), DecodeError>)
    ensures
        r is Ok <==> parse_spec(bytes@) is Ok,
        r matches Ok((kind, pheromone)) ==> {
            &&& parse_spec(bytes@) matches Result::Ok(pe)
            &&& pe.kind == kind
            &&& pheromone.initial_intensity == pe.initial_intensity
            &&& pheromone.decay_rate == pe.decay_rate
            &&& pheromone.created_at_ms == pe.created_at_ms
            &&& pheromone.label@ == kind.label_spec()
        },
        r matches Err(e) ==> parse_spec(bytes@) == Result::<ParsedEnvelope, DecodeError>::Err(e),
{
    if bytes.len() < HEADER_LEN {
        return Result::Err(DecodeError::TooShort);
    }
    let kind = match kind_from_tag(bytes[0]) {
        Option::None => {
            return Result::Err(DecodeError::UnknownKind);
        },
        Option::Some(k) => k,
    };
    let stored_len: u64 = read_le(bytes, 25);
    if (bytes.len() - HEADER_LEN) as u64 != stored_len {
        return Result::Err(DecodeError::LengthMismatch);
    }
    let pheromone = Pheromone {
        initial_intensity: read_le(bytes, 1),
        decay_rate: read_le(bytes, 9),
        created_at_ms: read_le(bytes, 17),
        label: String::from_str(kind.label()),
    };
    Result::Ok((kind, pheromone))
}

/// Round trip: any envelope framed by `encode_spec` parses back whole — the
/// same kind, the same signal numbers, the same payload bytes.
pub proof fn lemma_codec_roundtrip(
    kind: PheromoneType,
    initial_intensity: u64,
    decay_rate: u64,
    created_at_ms: u64,
    data: Seq<u8>,
)
    requires
        data.len() <= u64::MAX,
    ensures
        parse_spec(encode_spec(kind, initial_intensity, decay_rate, created_at_ms, data))
            == Result::<ParsedEnvelope, DecodeError>::Ok(
            ParsedEnvelope { kind, initial_intensity, decay_rate, created_at_ms, data },
        ),
{
    let b = encode_spec(kind, initial_intensity, decay_rate, created_at_ms, data);
    assert(b.len() == HEADER_LEN + data.len());
    assert(b[0] == tag_spec(kind));
    assert(kind_of_tag(tag_spec(kind)) == Option::Some(kind));
    assert(b.subrange(1, 9) =~= le_bytes_of(initial_intensity));
    assert(b.subrange(9, 17) =~= le_bytes_of(decay_rate));
    assert(b.subrange(17, 25) =~= le_bytes_of(created_at_ms));
    assert(b.subrange(25, 33) =~= le_bytes_of(data.len() as u64));
    lemma_le_roundtrip(initial_intensity);
    lemma_le_roundtrip(decay_rate);
    lemma_le_roundtrip(created_at_ms);
    lemma_le_roundtrip(data.len() as u64);
    assert(b.subrange(HEADER_LEN as int, b.len() as int) =~= data);
    assert(parse_spec(b) matches Result::Ok(pe) && pe =~= (ParsedEnvelope {
        kind,
        initial_intensity,
        decay_rate,
        created_at_ms,
        data,
    }));
}

} // verus!
