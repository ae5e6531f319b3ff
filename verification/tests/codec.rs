//! Byte-level tests of the framing codec: the sample-rate table, header
//! encode/decode, PCM payload coding, and chunk reassembly.

use rvban::bytes::{decode_pcm_payload, encode_pcm_payload};
use rvban::chunks::ChunkBuffer;
use rvban::header::{
    decode_header, encode_header, sample_rate_from_index, sample_rate_to_index, ParseError,
    VBanBitResolution, VBanCodec, VBanHeader, VBanProtocol, VBanSampleRates,
};

fn sample_header() -> VBanHeader {
    VBanHeader {
        sr_index: 3,
        sub_protocol: VBanProtocol::VbanProtocolAudio,
        num_samples: 255,
        num_channels: 1,
        bit_resolution: VBanBitResolution::VbanBitfmt16Int,
        codec: VBanCodec::VbanCodecPcm,
        stream_name: [
            0x53, 0x74, 0x72, 0x65, 0x61, 0x6D, 0x31, 0, 0, 0, 0, 0, 0, 0, 0, 0,
        ],
        frame_counter: 0,
    }
}

#[test]
fn sample_rate_table_round_trips() {
    let expected = [
        6000u32, 12000, 24000, 48000, 96000, 192000, 384000, 8000, 16000, 32000, 64000, 128000,
        256000, 512000, 11025, 22050, 44100, 88200, 176400, 352800, 705600,
    ];
    for i in 0u8..=20 {
        let hz = sample_rate_from_index(i);
        assert_eq!(hz, expected[i as usize]);
        assert_eq!(sample_rate_to_index(hz), Some(i));
    }
}

#[test]
fn sample_rate_outside_table_has_no_index() {
    assert_eq!(sample_rate_to_index(44101), None);
    assert_eq!(sample_rate_to_index(0), None);
}

#[test]
fn sample_rate_enum_maps_both_ways() {
    assert_eq!(
        VBanSampleRates::from_hz(48000),
        VBanSampleRates::SampleRate48000Hz
    );
    assert_eq!(VBanSampleRates::SampleRate48000Hz.hz(), 48000);
    assert_eq!(VBanSampleRates::SampleRate48000Hz.index(), 3);
    assert_eq!(
        VBanSampleRates::from_hz(13),
        VBanSampleRates::SampleRateNotSupported
    );
    assert_eq!(
        VBanSampleRates::from_index(16),
        VBanSampleRates::SampleRate44100Hz
    );
}

#[test]
fn encoded_header_is_bit_exact() {
    let bytes = encode_header(&sample_header());
    let expected: [u8; 28] = [
        0x56, 0x42, 0x41, 0x4E, 0x03, 0xFF, 0x01, 0x01, 0x53, 0x74, 0x72, 0x65, 0x61, 0x6D, 0x31,
        0x00, 0x00, 0x00, 0x00, 0x00, 0x00, 0x00, 0x00, 0x00, 0x00, 0x00, 0x00, 0x00,
    ];
    assert_eq!(bytes.as_slice(), &expected);
}

#[test]
fn header_round_trips() {
    let mut h = sample_header();
    h.sr_index = 16;
    h.codec = VBanCodec::VbanCodecOpus;
    h.num_samples = 239;
    h.num_channels = 0;
    h.frame_counter = 0xDEADBEEF;
    let bytes = encode_header(&h);
    let back = decode_header(&bytes).expect("a well-formed header must parse");
    assert_eq!(back, h);
}

#[test]
fn header_round_trips_every_index() {
    for i in 0u8..=20 {
        let mut h = sample_header();
        h.sr_index = i;
        let back = decode_header(&encode_header(&h)).unwrap();
        assert_eq!(back, h);
    }
}

#[test]
fn decode_rejects_bad_preamble() {
    let mut bytes = encode_header(&sample_header());
    bytes[0] = 0x57;
    assert_eq!(decode_header(&bytes), Err(ParseError::BadPreamble));
}

#[test]
fn decode_rejects_invalid_sample_rate() {
    let mut bytes = encode_header(&sample_header());
    bytes[4] = 21;
    assert_eq!(decode_header(&bytes), Err(ParseError::InvalidSampleRate));
    bytes[4] = 0x1F;
    assert_eq!(decode_header(&bytes), Err(ParseError::InvalidSampleRate));
}

#[test]
fn decode_reads_frame_counter_little_endian() {
    let mut bytes = encode_header(&sample_header());
    bytes[24] = 0x01;
    bytes[25] = 0x02;
    bytes[26] = 0x03;
    bytes[27] = 0x04;
    let h = decode_header(&bytes).unwrap();
    assert_eq!(h.frame_counter, 0x0403_0201);
}

#[test]
fn decode_splits_compound_bytes() {
    let mut bytes = encode_header(&sample_header());
    bytes[4] = 0x20 | 0x10; // serial sub-protocol, index 16
    bytes[7] = 0xC0 | 0x01; // opus codec, 16-bit integer
    let h = decode_header(&bytes).unwrap();
    assert_eq!(h.sub_protocol, VBanProtocol::VbanProtocolSerial);
    assert_eq!(h.sr_index, 16);
    assert_eq!(h.codec, VBanCodec::VbanCodecOpus);
    assert_eq!(h.bit_resolution, VBanBitResolution::VbanBitfmt16Int);
}

#[test]
fn pcm_payload_round_trips() {
    let samples: Vec<i16> = vec![0, 1, -1, i16::MAX, i16::MIN, 12345, -12345];
    let bytes = encode_pcm_payload(&samples);
    assert_eq!(bytes.len(), 2 * samples.len());
    assert_eq!(decode_pcm_payload(&bytes, 0), samples);
}

#[test]
fn pcm_payload_is_little_endian() {
    let bytes = encode_pcm_payload(&vec![0x0102i16, -2]);
    assert_eq!(bytes, vec![0x02, 0x01, 0xFE, 0xFF]);
}

#[test]
fn pcm_decode_ignores_trailing_odd_byte() {
    let bytes = vec![0x02, 0x01, 0x7F];
    assert_eq!(decode_pcm_payload(&bytes, 0), vec![0x0102i16]);
}

#[test]
fn chunk_buffer_preserves_byte_order() {
    let mut buf = ChunkBuffer::new();
    buf.push_chunk(&vec![0x01, 0x00, 0x02]);
    buf.push_chunk(&vec![0x00, 0x03, 0x00, 0x04, 0x00, 0x05]);
    assert_eq!(buf.available(), 9);
    let first = buf.take_samples(3).unwrap();
    assert_eq!(first, vec![1i16, 2, 3]);
    assert_eq!(buf.available(), 3);
    assert_eq!(buf.take_samples(2), None);
    assert_eq!(buf.available(), 3);
    buf.push_chunk(&vec![0x00]);
    let second = buf.take_samples(2).unwrap();
    assert_eq!(second, vec![4i16, 5]);
    assert_eq!(buf.available(), 0);
}

#[test]
fn chunk_buffer_keeps_partial_tail() {
    let mut buf = ChunkBuffer::new();
    buf.push_chunk(&vec![0x0A, 0x00, 0x0B]);
    let got = buf.take_samples(1).unwrap();
    assert_eq!(got, vec![0x0Ai16]);
    buf.push_chunk(&vec![0x00]);
    assert_eq!(buf.take_samples(1).unwrap(), vec![0x0Bi16]);
}
