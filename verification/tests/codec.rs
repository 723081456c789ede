use driftguard::codec::{decode_envelope, decode_pheromone, encode_envelope, DecodeError, HEADER_LEN};
use driftguard::decay::SCALE;
use driftguard::physics::{Pheromone, PheromonePayload, PheromoneType};

fn sample_envelope(data: Vec<u8>) -> PheromonePayload<Vec<u8>> {
    let pheromone = Pheromone::new_at(
        "Execution Permit".to_string(),
        SCALE,
        500_000_000,
        1_234_567_890,
    );
    PheromonePayload::new(data, pheromone)
}

#[test]
fn encode_decode_round_trip() {
    let env = sample_envelope(vec![1, 2, 3, 4, 5]);
    let bytes = encode_envelope(PheromoneType::ExecutionPermit, &env);
    assert_eq!(bytes.len(), HEADER_LEN + 5);

    let (kind, back) = decode_envelope(&bytes).expect("well-formed");
    assert_eq!(kind, PheromoneType::ExecutionPermit);
    assert_eq!(back.data, vec![1, 2, 3, 4, 5]);
    assert_eq!(back.pheromone.initial_intensity, SCALE);
    assert_eq!(back.pheromone.decay_rate, 500_000_000);
    assert_eq!(back.pheromone.created_at_ms, 1_234_567_890);
    assert_eq!(back.pheromone.label, "Execution Permit");
}

#[test]
fn empty_payload_round_trips() {
    let env = sample_envelope(Vec::new());
    let bytes = encode_envelope(PheromoneType::TradeExecuted, &env);
    assert_eq!(bytes.len(), HEADER_LEN);
    let (kind, back) = decode_envelope(&bytes).expect("well-formed");
    assert_eq!(kind, PheromoneType::TradeExecuted);
    assert!(back.data.is_empty());
}

#[test]
fn metadata_reads_without_decoding_payload() {
    // The payload is arbitrary, opaque bytes; the signal still reads.
    let env = sample_envelope(vec![0xff, 0x00, 0x7f, 0xc3, 0x28]);
    let bytes = encode_envelope(PheromoneType::PriceFreshness, &env);
    let (kind, pheromone) = decode_pheromone(&bytes).expect("well-formed");
    assert_eq!(kind, PheromoneType::PriceFreshness);
    assert_eq!(pheromone.decay_rate, 500_000_000);
    assert_eq!(pheromone.created_at_ms, 1_234_567_890);
    assert_eq!(pheromone.label, "Price Freshness");
}

#[test]
fn too_short_is_rejected() {
    assert!(matches!(decode_envelope(&[]), Err(DecodeError::TooShort)));
    let short = vec![0u8; HEADER_LEN - 1];
    assert!(matches!(decode_envelope(&short), Err(DecodeError::TooShort)));
    assert!(matches!(decode_pheromone(&short), Err(DecodeError::TooShort)));
}

#[test]
fn unknown_kind_tag_is_rejected() {
    let env = sample_envelope(vec![1]);
    let mut bytes = encode_envelope(PheromoneType::PriceFreshness, &env);
    bytes[0] = 9;
    assert!(matches!(decode_envelope(&bytes), Err(DecodeError::UnknownKind)));
    assert!(matches!(decode_pheromone(&bytes), Err(DecodeError::UnknownKind)));
}

#[test]
fn length_mismatch_is_rejected() {
    let env = sample_envelope(vec![1, 2, 3]);
    let mut bytes = encode_envelope(PheromoneType::PriceFreshness, &env);
    bytes.push(0);
    assert!(matches!(decode_envelope(&bytes), Err(DecodeError::LengthMismatch)));
    bytes.pop();
    bytes.pop();
    assert!(matches!(decode_envelope(&bytes), Err(DecodeError::LengthMismatch)));
}
