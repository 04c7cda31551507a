//! Decoder for the vendor-framed byte sequence that a CDC read returns.
//!
//! Decoding is total: every byte string, however short or malformed, yields a
//! complete view. Metric estimates are kept as the raw integer together with
//! the divisor (in tenths) that scales it, so that no rounding happens here.

use vstd::prelude::*;
use vstd::slice::slice_to_vec;
use crate::hex::{
    byte_hex, hex_of_byte, hex_of_bytes, prefixed_byte_hex, prefixed_hex_of_byte, range_hex,
};
use crate::text::clone_strings;

verus! {

/// Shortest frame that can carry the known metric layout.
pub const ALIGNED_MIN_LEN: usize = 31;

/// Divisor, in tenths, of the input-voltage estimate (504.0).
pub const V_INPUT_DIVISOR_TENTHS: u16 = 5040;

/// Divisor, in tenths, of the output-voltage estimate (366.0).
pub const V_OUTPUT_DIVISOR_TENTHS: u16 = 3660;

/// Divisor, in tenths, of the battery-voltage estimate (1249.0).
pub const V_BATTERY_DIVISOR_TENTHS: u16 = 12490;

/// Divisor, in tenths, of the output-frequency estimate (77.4).
pub const F_OUTPUT_DIVISOR_TENTHS: u16 = 774;

/// Divisor, in tenths, of the estimates that are a plain byte (1.0).
pub const UNIT_DIVISOR_TENTHS: u16 = 10;

/// An estimated metric: the value is `raw * 10 / divisor_tenths`.
#[derive(Debug, Clone, Copy, PartialEq, Eq)]
pub struct MetricEstimate {
    pub raw: u16,
    pub divisor_tenths: u16,
}

/// One byte of the frame with its position and both renderings.
#[derive(Debug, PartialEq, Eq)]
pub struct ByteEntry {
    pub idx: usize,
    pub hex: String,
    pub dec: u8,
}

pub struct ByteEntryView {
    pub idx: nat,
    pub hex: Seq<char>,
    pub dec: u8,
}

impl View for ByteEntry {
    type V = ByteEntryView;

    open spec fn view(&self) -> ByteEntryView {
        ByteEntryView { idx: self.idx as nat, hex: self.hex@, dec: self.dec }
    }
}

impl Clone for ByteEntry {
    fn clone(&self) -> (copy: ByteEntry)
        ensures
            copy == *self,
    {
        ByteEntry { idx: self.idx, hex: self.hex.clone(), dec: self.dec }
    }
}

/// Header fields, present for every frame.
#[derive(Debug, PartialEq, Eq)]
pub struct FrameHeader {
    pub start_byte_hex: String,
    pub frame_code_hex: String,
    pub declared_len: usize,
    pub actual_len: usize,
    pub checksum_hex: String,
    pub length_match: bool,
}

pub struct FrameHeaderView {
    pub start_byte_hex: Seq<char>,
    pub frame_code_hex: Seq<char>,
    pub declared_len: nat,
    pub actual_len: nat,
    pub checksum_hex: Seq<char>,
    pub length_match: bool,
}

impl View for FrameHeader {
    type V = FrameHeaderView;

    open spec fn view(&self) -> FrameHeaderView {
        FrameHeaderView {
            start_byte_hex: self.start_byte_hex@,
            frame_code_hex: self.frame_code_hex@,
            declared_len: self.declared_len as nat,
            actual_len: self.actual_len as nat,
            checksum_hex: self.checksum_hex@,
            length_match: self.length_match,
        }
    }
}

impl Clone for FrameHeader {
    fn clone(&self) -> (copy: FrameHeader)
        ensures
            copy == *self,
    {
        FrameHeader {
            start_byte_hex: self.start_byte_hex.clone(),
            frame_code_hex: self.frame_code_hex.clone(),
            declared_len: self.declared_len,
            actual_len: self.actual_len,
            checksum_hex: self.checksum_hex.clone(),
            length_match: self.length_match,
        }
    }
}

/// The seven estimates with the alignment verdict that governs them.
#[derive(Debug, PartialEq, Eq)]
pub struct LikelyMetrics {
    pub v_input_est: Option<MetricEstimate>,
    pub v_output_est: Option<MetricEstimate>,
    pub v_battery_est: Option<MetricEstimate>,
    pub f_output_est: Option<MetricEstimate>,
    pub c_battery_est: Option<MetricEstimate>,
    pub p_output_est: Option<MetricEstimate>,
    pub temperature_est: Option<MetricEstimate>,
    pub frame_aligned: bool,
    pub mapping_confidence: String,
    pub mapping_note: String,
}

pub struct LikelyMetricsView {
    pub v_input_est: Option<MetricEstimate>,
    pub v_output_est: Option<MetricEstimate>,
    pub v_battery_est: Option<MetricEstimate>,
    pub f_output_est: Option<MetricEstimate>,
    pub c_battery_est: Option<MetricEstimate>,
    pub p_output_est: Option<MetricEstimate>,
    pub temperature_est: Option<MetricEstimate>,
    pub frame_aligned: bool,
    pub mapping_confidence: Seq<char>,
    pub mapping_note: Seq<char>,
}

impl View for LikelyMetrics {
    type V = LikelyMetricsView;

    open spec fn view(&self) -> LikelyMetricsView {
        LikelyMetricsView {
            v_input_est: self.v_input_est,
            v_output_est: self.v_output_est,
            v_battery_est: self.v_battery_est,
            f_output_est: self.f_output_est,
            c_battery_est: self.c_battery_est,
            p_output_est: self.p_output_est,
            temperature_est: self.temperature_est,
            frame_aligned: self.frame_aligned,
            mapping_confidence: self.mapping_confidence@,
            mapping_note: self.mapping_note@,
        }
    }
}

impl Clone for LikelyMetrics {
    fn clone(&self) -> (copy: LikelyMetrics)
        ensures
            copy == *self,
    {
        LikelyMetrics {
            v_input_est: self.v_input_est,
            v_output_est: self.v_output_est,
            v_battery_est: self.v_battery_est,
            f_output_est: self.f_output_est,
            c_battery_est: self.c_battery_est,
            p_output_est: self.p_output_est,
            temperature_est: self.temperature_est,
            frame_aligned: self.frame_aligned,
            mapping_confidence: self.mapping_confidence.clone(),
            mapping_note: self.mapping_note.clone(),
        }
    }
}

/// Everything the decoder reads out of one frame.
#[derive(Debug, PartialEq, Eq)]
pub struct DecodedFrame {
    pub header: FrameHeader,
    pub payload_hex: String,
    pub byte_map: Vec<ByteEntry>,
    pub words_le: Vec<u16>,
    pub words_be: Vec<u16>,
    pub likely_metrics: LikelyMetrics,
    pub notes: Vec<String>,
}

pub struct DecodedFrameView {
    pub header: FrameHeaderView,
    pub payload_hex: Seq<char>,
    pub byte_map: Seq<ByteEntryView>,
    pub words_le: Seq<u16>,
    pub words_be: Seq<u16>,
    pub likely_metrics: LikelyMetricsView,
    pub notes: Seq<Seq<char>>,
}

impl View for DecodedFrame {
    type V = DecodedFrameView;

    open spec fn view(&self) -> DecodedFrameView {
        DecodedFrameView {
            header: self.header@,
            payload_hex: self.payload_hex@,
            byte_map: Seq::new(self.byte_map@.len(), |i: int| self.byte_map@[i]@),
            words_le: self.words_le@,
            words_be: self.words_be@,
            likely_metrics: self.likely_metrics@,
            notes: Seq::new(self.notes@.len(), |i: int| self.notes@[i]@),
        }
    }
}

impl Clone for DecodedFrame {
    fn clone(&self) -> (copy: DecodedFrame)
        ensures
            copy@ == self@,
    {
        let mut byte_map: Vec<ByteEntry> = Vec::new();
        let mut i: usize = 0;
        while i < self.byte_map.len()
            invariant
                i <= self.byte_map@.len(),
                byte_map@ == self.byte_map@.take(i as int),
            decreases self.byte_map@.len() - i,
        {
            byte_map.push(self.byte_map[i].clone());
            assert(byte_map@ =~= self.byte_map@.take(i + 1));
            i = i + 1;
        }
        assert(self.byte_map@.take(i as int) =~= self.byte_map@);
        let copy = DecodedFrame {
            header: self.header.clone(),
            payload_hex: self.payload_hex.clone(),
            byte_map,
            words_le: slice_to_vec(self.words_le.as_slice()),
            words_be: slice_to_vec(self.words_be.as_slice()),
            likely_metrics: self.likely_metrics.clone(),
            notes: clone_strings(&self.notes),
        };
        assert(copy@.byte_map =~= self@.byte_map);
        assert(copy@.notes =~= self@.notes);
        copy
    }
}

/// The byte at `i`, or zero where the frame is too short to have one.
pub open spec fn byte_or_zero(frame: Seq<u8>, i: int) -> u8 {
    if 0 <= i < frame.len() {
        frame[i]
    } else {
        0
    }
}

/// The big-endian 16-bit value whose high byte sits at `i`.
pub open spec fn word_be_at(frame: Seq<u8>, i: int) -> int {
    frame[i] as int * 256 + frame[i + 1] as int
}

/// The header of any frame.
pub open spec fn header_of(frame: Seq<u8>) -> FrameHeaderView {
    FrameHeaderView {
        start_byte_hex: prefixed_hex_of_byte(byte_or_zero(frame, 0)),
        frame_code_hex: prefixed_hex_of_byte(byte_or_zero(frame, 1)),
        declared_len: byte_or_zero(frame, 1) as nat,
        actual_len: frame.len(),
        checksum_hex: prefixed_hex_of_byte(byte_or_zero(frame, frame.len() - 1)),
        length_match: byte_or_zero(frame, 1) as nat == frame.len(),
    }
}

/// The payload digits: everything between the two header bytes and the
/// checksum, and nothing for a frame of three bytes or fewer.
pub open spec fn payload_hex_of(frame: Seq<u8>) -> Seq<char> {
    if frame.len() > 3 {
        hex_of_bytes(frame.subrange(2, frame.len() - 1))
    } else {
        Seq::empty()
    }
}

/// How many byte pairs lie between the header and the checksum byte.
pub open spec fn word_count(frame: Seq<u8>) -> nat {
    if frame.len() >= 3 {
        ((frame.len() - 3) / 2) as nat
    } else {
        0
    }
}

/// The pairs read with the first byte as the low half.
pub open spec fn words_le_of(frame: Seq<u8>) -> Seq<u16> {
    Seq::new(
        word_count(frame),
        |k: int| (frame[2 + 2 * k] as int + 256 * frame[3 + 2 * k] as int) as u16,
    )
}

/// The pairs read with the first byte as the high half.
pub open spec fn words_be_of(frame: Seq<u8>) -> Seq<u16> {
    Seq::new(word_count(frame), |k: int| word_be_at(frame, 2 + 2 * k) as u16)
}

/// One entry per byte, in order.
pub open spec fn byte_map_of(frame: Seq<u8>) -> Seq<ByteEntryView> {
    Seq::new(
        frame.len(),
        |i: int| ByteEntryView { idx: i as nat, hex: hex_of_byte(frame[i]), dec: frame[i] },
    )
}

/// Whether the frame starts with the marker bytes of the known layout and is
/// long enough to hold it.
pub open spec fn frame_aligned(frame: Seq<u8>) -> bool {
    &&& frame.len() >= ALIGNED_MIN_LEN
    &&& frame[0] == 0xAA
    &&& frame[1] == 0x21
    &&& frame[2] == 0x00
    &&& frame[3] == 0x0C
}

/// An estimate taken from the 16-bit big-endian value at `i`.
pub open spec fn word_estimate(frame: Seq<u8>, i: int, divisor_tenths: u16) -> Option<
    MetricEstimate,
> {
    if frame_aligned(frame) {
        Some(MetricEstimate { raw: word_be_at(frame, i) as u16, divisor_tenths })
    } else {
        None
    }
}

/// An estimate that is the byte at `i` itself.
pub open spec fn byte_estimate(frame: Seq<u8>, i: int) -> Option<MetricEstimate> {
    if frame_aligned(frame) {
        Some(MetricEstimate { raw: frame[i] as u16, divisor_tenths: UNIT_DIVISOR_TENTHS })
    } else {
        None
    }
}

pub open spec fn confidence_of(frame: Seq<u8>) -> Seq<char> {
    if frame_aligned(frame) {
        "experimental"@
    } else {
        "insufficient_frame_alignment"@
    }
}

pub open spec fn mapping_note_text() -> Seq<char> {
    "Offsets/scales inferred from observed frames; keep raw bytes for verification"@
}

pub open spec fn notes_text() -> Seq<Seq<char>> {
    seq![
        "Decoded from raw CDC frame without write/control commands"@,
        "Likely metrics are marked experimental and should be cross-validated"@,
    ]
}

/// The estimates of a frame: all present when it is aligned, all absent otherwise.
pub open spec fn likely_metrics_of(frame: Seq<u8>) -> LikelyMetricsView {
    LikelyMetricsView {
        v_input_est: word_estimate(frame, 11, V_INPUT_DIVISOR_TENTHS),
        v_output_est: word_estimate(frame, 23, V_OUTPUT_DIVISOR_TENTHS),
        v_battery_est: word_estimate(frame, 20, V_BATTERY_DIVISOR_TENTHS),
        f_output_est: word_estimate(frame, 27, F_OUTPUT_DIVISOR_TENTHS),
        c_battery_est: byte_estimate(frame, 26),
        p_output_est: byte_estimate(frame, 27),
        temperature_est: byte_estimate(frame, 15),
        frame_aligned: frame_aligned(frame),
        mapping_confidence: confidence_of(frame),
        mapping_note: mapping_note_text(),
    }
}

/// The complete decoded view of a frame.
pub open spec fn decoded_of(frame: Seq<u8>) -> DecodedFrameView {
    DecodedFrameView {
        header: header_of(frame),
        payload_hex: payload_hex_of(frame),
        byte_map: byte_map_of(frame),
        words_le: words_le_of(frame),
        words_be: words_be_of(frame),
        likely_metrics: likely_metrics_of(frame),
        notes: notes_text(),
    }
}

/// Tests the frame against the known layout.
pub fn is_frame_aligned(frame: &[u8]) -> (aligned: bool)
    ensures
        aligned == frame_aligned(frame@),
{
    frame.len() >= ALIGNED_MIN_LEN && frame[0] == 0xAA && frame[1] == 0x21 && frame[2] == 0x00
        && frame[3] == 0x0C
}

/// Reads the header fields; missing bytes count as zero.
pub fn decode_header(frame: &[u8]) -> (header: FrameHeader)
    ensures
        header@ == header_of(frame@),
{
    let len: usize = frame.len();
    let start_byte: u8 = if len > 0 {
        frame[0]
    } else {
        0
    };
    let frame_code: u8 = if len > 1 {
        frame[1]
    } else {
        0
    };
    let checksum: u8 = if len > 0 {
        frame[len - 1]
    } else {
        0
    };
    let declared_len: usize = frame_code as usize;
    FrameHeader {
        start_byte_hex: prefixed_byte_hex(start_byte),
        frame_code_hex: prefixed_byte_hex(frame_code),
        declared_len,
        actual_len: len,
        checksum_hex: prefixed_byte_hex(checksum),
        length_match: declared_len == len,
    }
}

/// Reads the byte pairs between header and checksum in both byte orders.
pub fn decode_words(frame: &[u8]) -> (words: (Vec<u16>, Vec<u16>))
    ensures
        words.0@ == words_le_of(frame@),
        words.1@ == words_be_of(frame@),
{
    let mut words_le: Vec<u16> = Vec::new();
    let mut words_be: Vec<u16> = Vec::new();
    let len: usize = frame.len();
    if len >= 4 {
        let mut idx: usize = 2;
        while idx + 1 < len - 1
            invariant
                len == frame@.len(),
                len >= 4,
                2 <= idx <= len,
                idx % 2 == 0,
                words_le@.len() == (idx - 2) / 2,
                words_be@.len() == (idx - 2) / 2,
                (idx - 2) / 2 <= word_count(frame@),
                forall|k: int|
                    0 <= k < words_le@.len() ==> words_le@[k] == #[trigger] words_le_of(frame@)[k],
                forall|k: int|
                    0 <= k < words_be@.len() ==> words_be@[k] == #[trigger] words_be_of(frame@)[k],
            decreases len - idx,
        {
            let lo: u8 = frame[idx];
            let hi: u8 = frame[idx + 1];
            let ghost k: int = (idx - 2) / 2;
            assert(2 + 2 * k == idx);
            assert(k < word_count(frame@));
            words_le.push(lo as u16 + 256 * (hi as u16));
            words_be.push(lo as u16 * 256 + hi as u16);
            idx = idx + 2;
        }
        assert(words_le@.len() == word_count(frame@));
    }
    assert(words_le@ =~= words_le_of(frame@));
    assert(words_be@ =~= words_be_of(frame@));
    (words_le, words_be)
}

/// Lists every byte with its index and renderings.
pub fn decode_byte_map(frame: &[u8]) -> (entries: Vec<ByteEntry>)
    ensures
        Seq::new(entries@.len(), |i: int| entries@[i]@) == byte_map_of(frame@),
{
    let mut entries: Vec<ByteEntry> = Vec::new();
    let mut idx: usize = 0;
    while idx < frame.len()
        invariant
            idx <= frame@.len(),
            entries@.len() == idx,
            forall|i: int| 0 <= i < idx ==> (#[trigger] entries@[i])@ == byte_map_of(frame@)[i],
        decreases frame@.len() - idx,
    {
        let byte: u8 = frame[idx];
        entries.push(ByteEntry { idx, hex: byte_hex(byte), dec: byte });
        idx = idx + 1;
    }
    assert(Seq::new(entries@.len(), |i: int| entries@[i]@) =~= byte_map_of(frame@));
    entries
}

/// Derives the seven estimates and the confidence label.
pub fn decode_likely_metrics(frame: &[u8]) -> (metrics: LikelyMetrics)
    ensures
        metrics@ == likely_metrics_of(frame@),
{
    let aligned: bool = is_frame_aligned(frame);
    let mapping_note = String::from_str(
        "Offsets/scales inferred from observed frames; keep raw bytes for verification",
    );
    if aligned {
        LikelyMetrics {
            v_input_est: Some(
                MetricEstimate {
                    raw: frame[11] as u16 * 256 + frame[12] as u16,
                    divisor_tenths: V_INPUT_DIVISOR_TENTHS,
                },
            ),
            v_output_est: Some(
                MetricEstimate {
                    raw: frame[23] as u16 * 256 + frame[24] as u16,
                    divisor_tenths: V_OUTPUT_DIVISOR_TENTHS,
                },
            ),
            v_battery_est: Some(
                MetricEstimate {
                    raw: frame[20] as u16 * 256 + frame[21] as u16,
                    divisor_tenths: V_BATTERY_DIVISOR_TENTHS,
                },
            ),
            f_output_est: Some(
                MetricEstimate {
                    raw: frame[27] as u16 * 256 + frame[28] as u16,
                    divisor_tenths: F_OUTPUT_DIVISOR_TENTHS,
                },
            ),
            c_battery_est: Some(
                MetricEstimate { raw: frame[26] as u16, divisor_tenths: UNIT_DIVISOR_TENTHS },
            ),
            p_output_est: Some(
                MetricEstimate { raw: frame[27] as u16, divisor_tenths: UNIT_DIVISOR_TENTHS },
            ),
            temperature_est: Some(
                MetricEstimate { raw: frame[15] as u16, divisor_tenths: UNIT_DIVISOR_TENTHS },
            ),
            frame_aligned: true,
            mapping_confidence: String::from_str("experimental"),
            mapping_note,
        }
    } else {
        LikelyMetrics {
            v_input_est: None,
            v_output_est: None,
            v_battery_est: None,
            f_output_est: None,
            c_battery_est: None,
            p_output_est: None,
            temperature_est: None,
            frame_aligned: false,
            mapping_confidence: String::from_str("insufficient_frame_alignment"),
            mapping_note,
        }
    }
}

/// Decodes a frame into its structured view. Never fails: a short or
/// malformed frame yields zeroed header bytes, no words and no estimates.
pub fn decode_raw_frame(frame: &[u8]) -> (decoded: DecodedFrame)
    ensures
        decoded@ == decoded_of(frame@),
{
    let header = decode_header(frame);
    let payload_hex = if frame.len() > 3 {
        range_hex(frame, 2, frame.len() - 1)
    } else {
        String::new()
    };
    let byte_map = decode_byte_map(frame);
    let (words_le, words_be) = decode_words(frame);
    let likely_metrics = decode_likely_metrics(frame);
    let mut notes: Vec<String> = Vec::new();
    notes.push(String::from_str("Decoded from raw CDC frame without write/control commands"));
    notes.push(
        String::from_str("Likely metrics are marked experimental and should be cross-validated"),
    );
    let decoded = DecodedFrame {
        header,
        payload_hex,
        byte_map,
        words_le,
        words_be,
        likely_metrics,
        notes,
    };
    assert(decoded@.notes =~= notes_text());
    decoded
}

/// The decoded length is the input's length, and the two word arrays run in
/// parallel, whatever the frame holds.
pub proof fn lemma_decode_total(frame: Seq<u8>)
    ensures
        decoded_of(frame).header.actual_len == frame.len(),
        decoded_of(frame).words_le.len() == decoded_of(frame).words_be.len(),
        decoded_of(frame).byte_map.len() == frame.len(),
        !frame_aligned(frame) ==> {
            &&& decoded_of(frame).likely_metrics.v_input_est is None
            &&& decoded_of(frame).likely_metrics.v_output_est is None
            &&& decoded_of(frame).likely_metrics.v_battery_est is None
            &&& decoded_of(frame).likely_metrics.f_output_est is None
            &&& decoded_of(frame).likely_metrics.c_battery_est is None
            &&& decoded_of(frame).likely_metrics.p_output_est is None
            &&& decoded_of(frame).likely_metrics.temperature_est is None
        },
{
}

/// A frame of at least 31 bytes that starts with `AA 21 00 0C` is aligned, and
/// each estimate is the documented field over the documented divisor.
pub proof fn lemma_aligned_estimates(frame: Seq<u8>)
    requires
        frame.len() >= 31,
        frame[0] == 0xAA,
        frame[1] == 0x21,
        frame[2] == 0x00,
        frame[3] == 0x0C,
    ensures
        decoded_of(frame).likely_metrics.frame_aligned,
        decoded_of(frame).likely_metrics.mapping_confidence == "experimental"@,
        decoded_of(frame).likely_metrics.v_input_est == Some(
            MetricEstimate {
                raw: (frame[11] as int * 256 + frame[12] as int) as u16,
                divisor_tenths: 5040,
            },
        ),
        decoded_of(frame).likely_metrics.v_output_est == Some(
            MetricEstimate {
                raw: (frame[23] as int * 256 + frame[24] as int) as u16,
                divisor_tenths: 3660,
            },
        ),
        decoded_of(frame).likely_metrics.v_battery_est == Some(
            MetricEstimate {
                raw: (frame[20] as int * 256 + frame[21] as int) as u16,
                divisor_tenths: 12490,
            },
        ),
        decoded_of(frame).likely_metrics.f_output_est == Some(
            MetricEstimate {
                raw: (frame[27] as int * 256 + frame[28] as int) as u16,
                divisor_tenths: 774,
            },
        ),
        decoded_of(frame).likely_metrics.c_battery_est == Some(
            MetricEstimate { raw: frame[26] as u16, divisor_tenths: 10 },
        ),
        decoded_of(frame).likely_metrics.p_output_est == Some(
            MetricEstimate { raw: frame[27] as u16, divisor_tenths: 10 },
        ),
        decoded_of(frame).likely_metrics.temperature_est == Some(
            MetricEstimate { raw: frame[15] as u16, divisor_tenths: 10 },
        ),
{
}

} // verus!
