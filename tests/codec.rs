use fec_codec::rlc::decoder::RLCDecoder;
use fec_codec::rlc::encoder::RLCEncoder;
use fec_codec::vandermonde_lc::decoder::VLCDecoder;
use fec_codec::vandermonde_lc::encoder::VLCEncoder;
use fec_codec::{
    source_symbol_metadata_from_u64, source_symbol_metadata_to_u64, Decoder, DecoderError,
    Encoder, EncoderError, GenerationError, RepairEquation, RepairSymbol, SolverError,
    SourceSymbol,
};

fn md(n: u64) -> [u8; 8] {
    source_symbol_metadata_from_u64(n)
}

fn payload(byte: u8, len: usize) -> Vec<u8> {
    vec![byte; len]
}

fn ids(symbols: &[SourceSymbol]) -> Vec<u64> {
    symbols.iter().map(|s| source_symbol_metadata_to_u64(s.metadata())).collect()
}

fn vlc_repair(pivot: u64, count: u32, seq: u64, data: &[u8]) -> RepairSymbol {
    let mut bytes = Vec::new();
    bytes.extend_from_slice(&pivot.to_be_bytes());
    bytes.extend_from_slice(&count.to_be_bytes());
    bytes.extend_from_slice(&seq.to_be_bytes());
    bytes.extend_from_slice(data);
    RepairSymbol::new(bytes)
}

#[test]
fn metadata_is_big_endian() {
    let m = source_symbol_metadata_from_u64(0x0102030405060708);
    assert_eq!(m, [1, 2, 3, 4, 5, 6, 7, 8]);
    assert_eq!(source_symbol_metadata_to_u64([0, 0, 0, 0, 0, 0, 1, 0]), 256);
    assert_eq!(source_symbol_metadata_to_u64(md(u64::MAX)), u64::MAX);
}

#[test]
fn error_codes() {
    assert_eq!(EncoderError::InternalError("x".to_string()).to_u64(), 0);
    assert_eq!(EncoderError::BufferTooSmall.to_u64(), 1);
    assert_eq!(EncoderError::NoSymbolToGenerate.to_u64(), 2);
    assert_eq!(EncoderError::BadMetadata.to_u64(), 3);
    assert_eq!(EncoderError::UnImplementedEncoder.to_u64(), 4);
    assert_eq!(EncoderError::NoNextMetadata.to_u64(), 4);
    assert_eq!(EncoderError::NoNextMetadata.to_c(), -6);
    assert_eq!(EncoderError::InternalError(String::new()).to_c(), -1);
    assert_eq!(DecoderError::UnusedRepairSymbol.to_u64(), 4);
    assert_eq!(DecoderError::UnusedSourceSymbol.to_u64(), 5);
    assert_eq!(DecoderError::BadMetadata.to_c(), -3);
    assert_eq!(DecoderError::UnusedSourceSymbol.to_c(), -6);
    assert!(matches!(DecoderError::from(SolverError::UnusedEquation), DecoderError::UnusedRepairSymbol));
    match DecoderError::from(SolverError::Other("singular".to_string())) {
        DecoderError::InternalError(s) => assert_eq!(s, "singular"),
        _ => panic!("expected an internal error"),
    }
}

#[test]
fn encoder_assigns_consecutive_ids() {
    let mut enc = VLCEncoder::new(16, 4);
    let mut out = [0u8; 8];
    assert_eq!(enc.next_metadata(), md(0));
    assert!(!enc.can_send_repair_symbols());
    assert_eq!(enc.first_metadata(), None);
    for id in 0..4u64 {
        assert_eq!(enc.protect_data(Ok(id), &mut out).unwrap(), 8);
        assert_eq!(out, md(id));
    }
    assert_eq!(enc.current_window_size(), 4);
    assert_eq!(enc.first_metadata(), Some(md(0)));
    assert_eq!(enc.last_metadata(), Some(md(3)));
    assert_eq!(enc.next_metadata(), md(4));
    assert!(enc.can_send_repair_symbols());
    // An identifier other than the next one is refused and changes nothing.
    assert!(matches!(enc.protect_data(Ok(9), &mut out), Err(EncoderError::InternalError(_))));
    assert_eq!(out, md(3));
    match enc.protect_data(Err("full".to_string()), &mut out) {
        Err(EncoderError::InternalError(s)) => assert_eq!(s, "full"),
        _ => panic!("expected an internal error"),
    }
    assert_eq!(enc.next_metadata(), md(4));
}

#[test]
fn encoder_eviction() {
    let mut enc = VLCEncoder::new(4, 8);
    let mut out = [0u8; 8];
    for id in 0..5u64 {
        enc.protect_data(Ok(id), &mut out).unwrap();
    }
    enc.remove_up_to(md(2));
    assert_eq!(enc.first_metadata(), Some(md(2)));
    assert_eq!(enc.current_window_size(), 3);
    enc.remove_up_to(md(2));
    assert_eq!(enc.first_metadata(), Some(md(2)));
    enc.remove_up_to(md(1));
    assert_eq!(enc.first_metadata(), Some(md(2)));
    enc.remove_up_to(md(100));
    assert_eq!(enc.current_window_size(), 0);
    assert!(!enc.can_send_repair_symbols());
    assert_eq!(enc.next_metadata(), md(5));
}

#[test]
fn vlc_repair_symbol_wire_form() {
    let mut enc = VLCEncoder::new(4, 8);
    let mut out = [0u8; 8];
    for id in 0..3u64 {
        enc.protect_data(Ok(id), &mut out).unwrap();
    }
    assert_eq!(enc.repair_request_up_to(24, md(2)).unwrap(), 2);
    let eq = RepairEquation { pivot: 0, last_nonzero_id: 2, sequence_number: 7, constant_term: vec![9, 8, 7, 6] };
    let bytes = enc.generate_and_serialize_repair_symbol_up_to(md(2), Ok(eq)).unwrap();
    assert_eq!(bytes, vec![0, 0, 0, 0, 0, 0, 0, 0, 0, 0, 0, 3, 0, 0, 0, 0, 0, 0, 0, 7, 9, 8, 7, 6]);
    let mut buf = [0xffu8; 26];
    let eq = RepairEquation { pivot: 1, last_nonzero_id: 2, sequence_number: 1, constant_term: vec![1, 2, 3, 4] };
    assert_eq!(enc.generate_and_serialize_repair_symbol_in_place(&mut buf, Ok(eq)).unwrap(), 24);
    assert_eq!(&buf[..12], &[0, 0, 0, 0, 0, 0, 0, 1, 0, 0, 0, 2]);
    assert_eq!(&buf[20..], &[1, 2, 3, 4, 0xff, 0xff]);
}

#[test]
fn repair_generation_errors() {
    let mut enc = VLCEncoder::new(4, 8);
    let mut out = [0u8; 8];
    assert!(matches!(enc.repair_request(24), Err(EncoderError::NoSymbolToGenerate)));
    assert!(matches!(enc.generate_and_serialize_repair_symbol(Err(GenerationError::WindowEmpty)), Err(EncoderError::NoSymbolToGenerate)));
    enc.protect_data(Ok(0), &mut out).unwrap();
    assert!(matches!(enc.repair_request(23), Err(EncoderError::BufferTooSmall)));
    let mut small = [0u8; 23];
    let eq = RepairEquation { pivot: 0, last_nonzero_id: 0, sequence_number: 0, constant_term: vec![0; 4] };
    assert!(matches!(enc.generate_and_serialize_repair_symbol_in_place_up_to(&mut small, md(0), Ok(eq)), Err(EncoderError::BufferTooSmall)));
    // An equation over an identifier that was never assigned is refused.
    let eq = RepairEquation { pivot: 0, last_nonzero_id: 1, sequence_number: 0, constant_term: vec![0; 4] };
    assert!(matches!(enc.generate_and_serialize_repair_symbol_up_to(md(1), Ok(eq)), Err(EncoderError::InternalError(_))));
    // A constant term of the wrong size is refused.
    let eq = RepairEquation { pivot: 0, last_nonzero_id: 0, sequence_number: 0, constant_term: vec![0; 3] };
    assert!(matches!(enc.generate_and_serialize_repair_symbol(Ok(eq)), Err(EncoderError::InternalError(_))));
    assert!(matches!(enc.generate_and_serialize_repair_symbol(Err(GenerationError::EmptyBounds)), Err(EncoderError::NoSymbolToGenerate)));
    assert!(matches!(enc.received_symbol(&[1, 2, 3]), Err(EncoderError::BadMetadata)));
    assert_eq!(enc.received_symbol(&[0, 0, 0, 0, 0, 0, 0, 5, 1]).unwrap(), (8, 5));
}

#[test]
fn rlc_repair_symbol_wire_form() {
    let mut enc = RLCEncoder::new(2, 8, 42);
    let mut out = [0u8; 8];
    for id in 0..2u64 {
        enc.protect_data(Ok(id), &mut out).unwrap();
    }
    let (up_to, seed) = enc.repair_request(22).unwrap();
    assert_eq!(up_to, 1);
    let eq = RepairEquation { pivot: 0, last_nonzero_id: 1, sequence_number: 0, constant_term: vec![5, 6] };
    let bytes = enc.generate_and_serialize_repair_symbol(seed, Ok(eq)).unwrap();
    let mut expected = vec![0, 0, 0, 0, 0, 0, 0, 0, 0, 0, 0, 0, 0, 0, 0, 2];
    expected.extend_from_slice(&seed.to_be_bytes());
    expected.extend_from_slice(&[5, 6]);
    assert_eq!(bytes, expected);

    let dec = RLCDecoder::new(2, 8);
    let (n, fields) = dec.deserialize_repair_symbol(&RepairSymbol::new(bytes)).unwrap();
    assert_eq!(n, 22);
    assert_eq!((fields.first_id, fields.n_protected_symbols, fields.seed), (0, 2, seed));
    assert_eq!(fields.payload, vec![5, 6]);
}

#[test]
fn rlc_seeds_follow_the_generator_seed() {
    let mut a = RLCEncoder::new(2, 8, 7);
    let mut b = RLCEncoder::new(2, 8, 7);
    let mut out = [0u8; 8];
    a.protect_data(Ok(0), &mut out).unwrap();
    b.protect_data(Ok(0), &mut out).unwrap();
    let first = a.repair_request(22).unwrap().1;
    assert_eq!(first, b.repair_request(22).unwrap().1);
    assert_eq!(a.repair_request(22).unwrap().1, b.repair_request(22).unwrap().1);
}

#[test]
fn round_trip_through_fresh_decoder() {
    let data: Vec<u8> = (0..16).collect();
    let mut enc = VLCEncoder::new(16, 4);
    let mut out = [0u8; 8];
    enc.protect_data(Ok(0), &mut out).unwrap();
    let mut dec = VLCDecoder::new(16, 4);
    let recovered = dec.receive_source_symbol(SourceSymbol::new(out, data.clone()), Ok(vec![])).unwrap();
    assert_eq!(recovered.len(), 1);
    assert_eq!(recovered[0].get(), &data);
    assert_eq!(recovered[0].metadata(), md(0));
}

#[test]
fn duplicate_source_symbol_is_unused() {
    let mut dec = VLCDecoder::new(4, 8);
    dec.receive_source_symbol(SourceSymbol::new(md(3), payload(1, 4)), Ok(vec![])).unwrap();
    let again = dec.receive_source_symbol(SourceSymbol::new(md(3), payload(1, 4)), Ok(vec![]));
    assert!(matches!(again, Err(DecoderError::UnusedSourceSymbol)));
    assert_eq!(dec.bounds(), Some((md(3), md(3))));
    let wrong_size = dec.receive_source_symbol(SourceSymbol::new(md(4), payload(1, 3)), Ok(vec![]));
    assert!(matches!(wrong_size, Err(DecoderError::InternalError(_))));
    let refused = dec.receive_source_symbol(SourceSymbol::new(md(5), payload(1, 4)), Err(SolverError::UnusedSourceSymbol));
    assert!(matches!(refused, Err(DecoderError::UnusedSourceSymbol)));
    assert_eq!(dec.bounds(), Some((md(3), md(3))));
}

#[test]
fn decoder_eviction_is_idempotent_and_monotonic() {
    let mut dec = VLCDecoder::new(4, 8);
    for id in 0..6u64 {
        dec.receive_source_symbol(SourceSymbol::new(md(id), payload(id as u8, 4)), Ok(vec![])).unwrap();
    }
    assert_eq!(dec.remove_up_to(md(3)), md(3));
    assert_eq!(dec.bounds(), Some((md(3), md(5))));
    assert_eq!(dec.remove_up_to(md(3)), md(3));
    assert_eq!(dec.bounds(), Some((md(3), md(5))));
    assert_eq!(dec.remove_up_to(md(1)), md(3));
    assert_eq!(dec.bounds(), Some((md(3), md(5))));
    assert_eq!(dec.remove_up_to(md(9)), md(9));
    assert_eq!(dec.bounds(), None);
    let stale = dec.receive_source_symbol(SourceSymbol::new(md(4), payload(0, 4)), Ok(vec![]));
    assert!(matches!(stale, Err(DecoderError::UnusedSourceSymbol)));
}

#[test]
fn contiguity_watermark() {
    let mut dec = VLCDecoder::new(4, 8);
    assert_eq!(dec.largest_contiguously_received(), None);
    dec.receive_source_symbol(SourceSymbol::new(md(1), payload(1, 4)), Ok(vec![])).unwrap();
    assert_eq!(dec.largest_contiguously_received(), None);
    dec.receive_source_symbol(SourceSymbol::new(md(0), payload(0, 4)), Ok(vec![])).unwrap();
    assert_eq!(dec.largest_contiguously_received(), Some(md(1)));
    dec.receive_source_symbol(SourceSymbol::new(md(3), payload(3, 4)), Ok(vec![])).unwrap();
    assert_eq!(dec.largest_contiguously_received(), Some(md(1)));
    dec.receive_source_symbol(SourceSymbol::new(md(2), payload(2, 4)), Ok(vec![])).unwrap();
    assert_eq!(dec.largest_contiguously_received(), Some(md(3)));
}

#[test]
fn two_unknowns_need_two_equations() {
    let a = payload(0xa, 16);
    let b = payload(0xb, 16);
    let c = payload(0xc, 16);
    let d = payload(0xd, 16);
    let mut dec = Decoder::VLC(VLCDecoder::new(16, 4));
    dec.receive_source_symbol(SourceSymbol::new(md(1), b), Ok(vec![])).unwrap();
    dec.receive_source_symbol(SourceSymbol::new(md(3), d), Ok(vec![])).unwrap();
    // One equation over [0, 4) with A and C unknown: nothing is recovered yet.
    let (n, recovered) = dec.receive_and_deserialize_repair_symbol(vlc_repair(0, 4, 0, &[1; 16]), Ok(vec![])).unwrap();
    assert_eq!(n, 36);
    assert!(recovered.is_empty());
    assert_eq!(dec.largest_contiguously_received(), None);
    // A second independent equation yields A and C in one call.
    let solved = vec![SourceSymbol::new(md(0), a.clone()), SourceSymbol::new(md(2), c.clone())];
    let (_, recovered) = dec.receive_and_deserialize_repair_symbol(vlc_repair(0, 4, 1, &[2; 16]), Ok(solved)).unwrap();
    assert_eq!(ids(&recovered), vec![0, 2]);
    assert_eq!(recovered[0].get(), &a);
    assert_eq!(recovered[1].get(), &c);
    assert_eq!(dec.largest_contiguously_received(), Some(md(3)));
    // A third equation is redundant.
    let redundant = dec.receive_and_deserialize_repair_symbol(vlc_repair(0, 4, 2, &[3; 16]), Err(SolverError::UnusedEquation));
    assert!(matches!(redundant, Err(DecoderError::UnusedRepairSymbol)));
}

#[test]
fn recovered_symbols_are_surfaced_once() {
    let mut dec = VLCDecoder::new(2, 8);
    dec.receive_source_symbol(SourceSymbol::new(md(0), payload(0, 2)), Ok(vec![])).unwrap();
    let solved = vec![
        SourceSymbol::new(md(0), payload(0, 2)),
        SourceSymbol::new(md(1), payload(1, 2)),
        SourceSymbol::new(md(1), payload(1, 2)),
    ];
    let (_, recovered) = dec.receive_and_deserialize_repair_symbol(vlc_repair(0, 2, 0, &[0, 0]), Ok(solved)).unwrap();
    assert_eq!(ids(&recovered), vec![1]);
}

#[test]
fn short_rlc_repair_buffer_is_too_small() {
    let dec = Decoder::RLC(RLCDecoder::new(16, 4));
    let buf = vec![0u8; 8 + 8 + 4 + 16 - 1];
    assert!(matches!(dec.read_repair_symbol(&buf), Err(DecoderError::BufferTooSmall)));
    let buf = vec![7u8; 8 + 8 + 4 + 16 + 3];
    let (n, rs) = dec.read_repair_symbol(&buf).unwrap();
    assert_eq!(n, 36);
    assert_eq!(rs.wire_len(), 36);
}

#[test]
fn repair_symbol_range_checks() {
    let mut dec = VLCDecoder::new(2, 8);
    let short = RepairSymbol::new(vec![0; 21]);
    assert!(matches!(dec.receive_and_deserialize_repair_symbol(short, Ok(vec![])), Err(DecoderError::BufferTooSmall)));
    let empty_range = vlc_repair(0, 0, 0, &[0, 0]);
    assert!(matches!(dec.receive_and_deserialize_repair_symbol(empty_range, Ok(vec![])), Err(DecoderError::BadMetadata)));
    let past_the_end = vlc_repair(u64::MAX, 2, 0, &[0, 0]);
    assert!(matches!(dec.receive_and_deserialize_repair_symbol(past_the_end, Ok(vec![])), Err(DecoderError::BadMetadata)));
    dec.remove_up_to(md(5));
    let evicted = vlc_repair(4, 3, 0, &[0, 0]);
    assert!(matches!(dec.receive_and_deserialize_repair_symbol(evicted, Ok(vec![])), Err(DecoderError::UnusedRepairSymbol)));
}

#[test]
fn read_source_symbol_metadata() {
    let dec = Decoder::VLC(VLCDecoder::new(2, 8));
    assert!(matches!(dec.read_source_symbol_metadata(&[1, 2, 3]), Err(DecoderError::BufferTooSmall)));
    assert_eq!(dec.read_source_symbol_metadata(&[0, 0, 0, 0, 0, 0, 0, 9, 4]).unwrap(), (8, md(9)));
}

#[test]
fn first_symbol_id_only_before_start() {
    let mut dec = VLCDecoder::new(2, 8);
    dec.set_first_symbol_id(md(10));
    assert_eq!(dec.largest_contiguously_received(), None);
    dec.receive_source_symbol(SourceSymbol::new(md(10), payload(0, 2)), Ok(vec![])).unwrap();
    assert_eq!(dec.largest_contiguously_received(), Some(md(10)));
    let early = dec.receive_source_symbol(SourceSymbol::new(md(9), payload(0, 2)), Ok(vec![]));
    assert!(matches!(early, Err(DecoderError::UnusedSourceSymbol)));
    dec.set_first_symbol_id(md(0));
    assert_eq!(dec.largest_contiguously_received(), Some(md(10)));
}

#[test]
fn encoder_facade_dispatches() {
    let mut enc = Encoder::RLC(RLCEncoder::new(4, 8, 1));
    let mut out = [0u8; 8];
    assert_eq!(enc.symbol_size(), 4);
    assert_eq!(enc.next_repair_symbol_size(md(0)).unwrap(), 24);
    enc.protect_data(Ok(0), &mut out).unwrap();
    enc.protect_data(Ok(1), &mut out).unwrap();
    assert_eq!(enc.n_protected_symbols(), 2);
    assert_eq!(enc.next_metadata().unwrap(), md(2));
    let (up_to, seed) = enc.repair_request_up_to(24, md(1)).unwrap();
    assert_eq!(up_to, 1);
    let eq = RepairEquation { pivot: 1, last_nonzero_id: 1, sequence_number: 0, constant_term: vec![4; 4] };
    let rs = enc.generate_and_serialize_repair_symbol_up_to(md(1), seed, Ok(eq)).unwrap();
    assert_eq!(rs.wire_len(), 24);
    assert_eq!(&rs.get()[..16], &[0, 0, 0, 0, 0, 0, 0, 1, 0, 0, 0, 0, 0, 0, 0, 1]);
    enc.remove_up_to(md(1));
    assert_eq!(enc.first_metadata(), Some(md(1)));
    assert!(enc.can_send_repair_symbols());
}

#[test]
fn source_symbol_accessors() {
    let s = SourceSymbol::new(md(4), vec![1, 2]);
    assert_eq!(s.metadata(), md(4));
    assert_eq!(s.get(), &vec![1, 2]);
    assert_eq!(s.take(), vec![1, 2]);
    let r = RepairSymbol::new(vec![3; 5]);
    assert_eq!(r.get().len(), 5);
    assert_eq!(r.take(), vec![3; 5]);
}

#[test]
fn rlc_decoder_takes_repair_answers() {
    let mut dec = Decoder::RLC(RLCDecoder::new(2, 8));
    let mut bytes = Vec::new();
    bytes.extend_from_slice(&0u64.to_be_bytes());
    bytes.extend_from_slice(&2u64.to_be_bytes());
    bytes.extend_from_slice(&99u32.to_be_bytes());
    bytes.extend_from_slice(&[1, 1]);
    let solved = vec![SourceSymbol::new(md(1), payload(1, 2))];
    let (n, recovered) = dec.receive_and_deserialize_repair_symbol(RepairSymbol::new(bytes), Ok(solved)).unwrap();
    assert_eq!(n, 22);
    assert_eq!(ids(&recovered), vec![1]);
    assert_eq!(dec.bounds(), Some((md(1), md(1))));
    assert_eq!(dec.largest_contiguously_received(), None);
    let mut empty = Vec::new();
    empty.extend_from_slice(&5u64.to_be_bytes());
    empty.extend_from_slice(&0u64.to_be_bytes());
    empty.extend_from_slice(&[0; 6]);
    assert!(matches!(dec.receive_and_deserialize_repair_symbol(RepairSymbol::new(empty), Ok(vec![])), Err(DecoderError::BadMetadata)));
    dec.remove_up_to(md(2));
    assert_eq!(dec.bounds(), None);
}
