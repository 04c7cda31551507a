use nobreak_core::codec::{
    decode_byte_map, decode_header, decode_likely_metrics, decode_raw_frame, decode_words,
    is_frame_aligned, MetricEstimate,
};
use nobreak_core::hex::{byte_hex, bytes_hex, prefixed_byte_hex, range_hex};

fn value_of(estimate: Option<MetricEstimate>) -> Option<f64> {
    estimate.map(|e| e.raw as f64 / (e.divisor_tenths as f64 / 10.0))
}

fn aligned_frame(len: usize) -> Vec<u8> {
    let mut frame = vec![0u8; len];
    frame[0] = 0xAA;
    frame[1] = 0x21;
    frame[2] = 0x00;
    frame[3] = 0x0C;
    frame
}

#[test]
fn decode_empty_frame() {
    let decoded = decode_raw_frame(&[]);
    assert_eq!(decoded.header.actual_len, 0);
    assert_eq!(decoded.header.declared_len, 0);
    assert_eq!(decoded.header.start_byte_hex, "0x00");
    assert_eq!(decoded.header.frame_code_hex, "0x00");
    assert_eq!(decoded.header.checksum_hex, "0x00");
    assert!(decoded.header.length_match);
    assert!(!decoded.likely_metrics.frame_aligned);
    assert_eq!(decoded.likely_metrics.mapping_confidence, "insufficient_frame_alignment");
    assert!(decoded.words_le.is_empty());
    assert!(decoded.words_be.is_empty());
    assert!(decoded.byte_map.is_empty());
    assert_eq!(decoded.payload_hex, "");
    assert_eq!(decoded.likely_metrics.v_input_est, None);
    assert_eq!(decoded.likely_metrics.temperature_est, None);
}

#[test]
fn decode_aligned_frame_of_zeros() {
    let frame = aligned_frame(31);
    let decoded = decode_raw_frame(&frame);
    assert!(decoded.likely_metrics.frame_aligned);
    assert_eq!(decoded.likely_metrics.mapping_confidence, "experimental");
    assert_eq!(value_of(decoded.likely_metrics.v_input_est), Some(0.0));
    assert_eq!(value_of(decoded.likely_metrics.v_output_est), Some(0.0));
    assert_eq!(value_of(decoded.likely_metrics.v_battery_est), Some(0.0));
    assert_eq!(value_of(decoded.likely_metrics.f_output_est), Some(0.0));
    assert_eq!(value_of(decoded.likely_metrics.c_battery_est), Some(0.0));
    assert_eq!(value_of(decoded.likely_metrics.p_output_est), Some(0.0));
    assert_eq!(value_of(decoded.likely_metrics.temperature_est), Some(0.0));
    assert_eq!(decoded.header.declared_len, 33);
    assert_eq!(decoded.header.actual_len, 31);
    assert!(!decoded.header.length_match);
}

#[test]
fn decode_short_frame_fields() {
    let frame = [0xAAu8, 0x07, 0x01, 0x02, 0x03, 0x04, 0xFF];
    let decoded = decode_raw_frame(&frame);
    assert_eq!(decoded.header.start_byte_hex, "0xAA");
    assert_eq!(decoded.header.frame_code_hex, "0x07");
    assert_eq!(decoded.header.declared_len, 7);
    assert_eq!(decoded.header.actual_len, 7);
    assert_eq!(decoded.header.checksum_hex, "0xFF");
    assert!(decoded.header.length_match);
    assert_eq!(decoded.payload_hex, "01020304");
    assert_eq!(decoded.words_le, vec![0x0201u16, 0x0403]);
    assert_eq!(decoded.words_be, vec![0x0102u16, 0x0304]);
    assert!(!decoded.likely_metrics.frame_aligned);
    assert_eq!(
        decoded.likely_metrics.mapping_note,
        "Offsets/scales inferred from observed frames; keep raw bytes for verification"
    );
    assert_eq!(
        decoded.notes,
        vec![
            "Decoded from raw CDC frame without write/control commands".to_string(),
            "Likely metrics are marked experimental and should be cross-validated".to_string(),
        ]
    );
}

#[test]
fn words_exclude_checksum_and_odd_tail() {
    let (le, be) = decode_words(&[1, 2, 3]);
    assert!(le.is_empty() && be.is_empty());
    let (le, be) = decode_words(&[1, 2, 3, 4]);
    assert!(le.is_empty() && be.is_empty());
    let (le, be) = decode_words(&[1, 2, 0x10, 0x20, 9]);
    assert_eq!(le, vec![0x2010u16]);
    assert_eq!(be, vec![0x1020u16]);
    let (le, be) = decode_words(&[1, 2, 0x10, 0x20, 0x30, 9]);
    assert_eq!(le, vec![0x2010u16]);
    assert_eq!(be, vec![0x1020u16]);
    let (le, be) = decode_words(&[1, 2, 0xFF, 0xFF, 0x00, 0x01, 9]);
    assert_eq!(le, vec![0xFFFFu16, 0x0100]);
    assert_eq!(be, vec![0xFFFFu16, 0x0001]);
}

#[test]
fn payload_is_empty_up_to_three_bytes() {
    assert_eq!(decode_raw_frame(&[1]).payload_hex, "");
    assert_eq!(decode_raw_frame(&[1, 2]).payload_hex, "");
    assert_eq!(decode_raw_frame(&[1, 2, 3]).payload_hex, "");
    assert_eq!(decode_raw_frame(&[1, 2, 0xAB, 4]).payload_hex, "AB");
}

#[test]
fn header_of_one_byte_frame() {
    let header = decode_header(&[0x7E]);
    assert_eq!(header.start_byte_hex, "0x7E");
    assert_eq!(header.frame_code_hex, "0x00");
    assert_eq!(header.checksum_hex, "0x7E");
    assert_eq!(header.declared_len, 0);
    assert_eq!(header.actual_len, 1);
    assert!(!header.length_match);
}

#[test]
fn byte_map_lists_every_byte() {
    let entries = decode_byte_map(&[0x00, 0x0A, 0xFF]);
    assert_eq!(entries.len(), 3);
    assert_eq!((entries[0].idx, entries[0].hex.as_str(), entries[0].dec), (0, "00", 0));
    assert_eq!((entries[1].idx, entries[1].hex.as_str(), entries[1].dec), (1, "0A", 10));
    assert_eq!((entries[2].idx, entries[2].hex.as_str(), entries[2].dec), (2, "FF", 255));
}

#[test]
fn aligned_estimates_follow_the_formulas() {
    let mut frame = aligned_frame(40);
    for (i, byte) in frame.iter_mut().enumerate().skip(4) {
        *byte = (i as u8).wrapping_mul(37).wrapping_add(11);
    }
    let word = |i: usize| ((frame[i] as u16) << 8) | frame[i + 1] as u16;
    let metrics = decode_likely_metrics(&frame);
    assert!(metrics.frame_aligned);
    assert_eq!(value_of(metrics.v_input_est), Some(word(11) as f64 / 504.0));
    assert_eq!(value_of(metrics.v_output_est), Some(word(23) as f64 / 366.0));
    assert_eq!(value_of(metrics.v_battery_est), Some(word(20) as f64 / 1249.0));
    assert_eq!(value_of(metrics.f_output_est), Some(word(27) as f64 / 77.4));
    assert_eq!(value_of(metrics.c_battery_est), Some(frame[26] as f64));
    assert_eq!(value_of(metrics.p_output_est), Some(frame[27] as f64));
    assert_eq!(value_of(metrics.temperature_est), Some(frame[15] as f64));
    assert_eq!(
        metrics.v_input_est,
        Some(MetricEstimate { raw: word(11), divisor_tenths: 5040 })
    );
    assert_eq!(
        metrics.f_output_est,
        Some(MetricEstimate { raw: word(27), divisor_tenths: 774 })
    );
}

#[test]
fn input_voltage_exact_value() {
    let mut frame = aligned_frame(31);
    frame[11] = 0xDC;
    frame[12] = 0x50;
    let metrics = decode_likely_metrics(&frame);
    assert_eq!(value_of(metrics.v_input_est), Some(56400.0 / 504.0));
    assert_eq!(metrics.v_input_est.map(|e| e.raw), Some(56400));
}

#[test]
fn alignment_needs_length_and_marker() {
    assert!(is_frame_aligned(&aligned_frame(31)));
    assert!(is_frame_aligned(&aligned_frame(64)));
    assert!(!is_frame_aligned(&aligned_frame(30)));
    for at in 0..4 {
        let mut frame = aligned_frame(31);
        frame[at] ^= 1;
        assert!(!is_frame_aligned(&frame));
        let metrics = decode_likely_metrics(&frame);
        assert_eq!(metrics.v_input_est, None);
        assert_eq!(metrics.v_output_est, None);
        assert_eq!(metrics.v_battery_est, None);
        assert_eq!(metrics.f_output_est, None);
        assert_eq!(metrics.c_battery_est, None);
        assert_eq!(metrics.p_output_est, None);
        assert_eq!(metrics.temperature_est, None);
        assert_eq!(metrics.mapping_confidence, "insufficient_frame_alignment");
    }
}

#[test]
fn decode_is_total_over_lengths() {
    let mut seed: u32 = 0x1234_5678;
    for len in 0..200usize {
        let mut frame = Vec::with_capacity(len);
        for _ in 0..len {
            seed = seed.wrapping_mul(1_664_525).wrapping_add(1_013_904_223);
            frame.push((seed >> 24) as u8);
        }
        let decoded = decode_raw_frame(&frame);
        assert_eq!(decoded.header.actual_len, len);
        assert_eq!(decoded.words_le.len(), decoded.words_be.len());
        assert_eq!(decoded.words_le.len(), if len >= 3 { (len - 3) / 2 } else { 0 });
        assert_eq!(decoded.byte_map.len(), len);
        assert_eq!(decoded.payload_hex.len(), if len > 3 { 2 * (len - 3) } else { 0 });
        assert_eq!(decoded.likely_metrics.frame_aligned, decoded.likely_metrics.v_input_est.is_some());
    }
}

#[test]
fn hex_rendering() {
    assert_eq!(byte_hex(0x00), "00");
    assert_eq!(byte_hex(0x9F), "9F");
    assert_eq!(byte_hex(0xA0), "A0");
    assert_eq!(prefixed_byte_hex(0x0C), "0x0C");
    assert_eq!(bytes_hex(&[]), "");
    assert_eq!(bytes_hex(&[0xAA, 0x04, 0x00, 0x80, 0x1E, 0x9E]), "AA0400801E9E");
    assert_eq!(range_hex(&[0x01, 0x23, 0x45, 0x67], 1, 3), "2345");
    assert_eq!(range_hex(&[0x01, 0x23], 1, 1), "");
    for b in 0..=255u8 {
        assert_eq!(byte_hex(b), format!("{:02X}", b));
    }
}
