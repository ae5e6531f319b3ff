//! Engine tests: sender cycles, recipient lifecycle, filtering, timeouts,
//! renegotiation, and the end-to-end PCM loopback.

use rvban::header::{
    encode_header, VBanBitResolution, VBanCodec, VBanHeader, VBanProtocol, VBanSampleRates,
};
use rvban::vban_recipient::{PacketError, PlayerState, VbanRecipient};
use rvban::vban_sender::VbanSender;
use rvban::{VbanSink, VbanSource};

/// A deterministic 1 kHz tone at 48 kHz: the same slot index always carries
/// the same sample, so the stream a sink collects can be checked exactly.
fn wave(slot: usize) -> i16 {
    let frame = slot / 2;
    let phase = (frame % 48) as f32 / 48.0;
    (phase * 2.0 * std::f32::consts::PI).sin().mul_add(10000.0, 0.0) as i16
}

/// A capture backend double that plays the tone.
struct SineSource {
    slot: usize,
}

impl VbanSource for SineSource {
    fn read(&mut self, buf: &mut Vec<i16>) {
        for i in 0..buf.len() {
            buf[i] = wave(self.slot + i);
        }
        self.slot += buf.len();
    }
}

/// A capture backend double that emits silence.
struct ZeroSource;

impl VbanSource for ZeroSource {
    fn read(&mut self, buf: &mut Vec<i16>) {
        for i in 0..buf.len() {
            buf[i] = 0;
        }
    }
}

/// A playback backend double that records what it was opened with and what
/// it played.
struct CollectSink {
    channels: u32,
    rate: u32,
    samples: Vec<i16>,
    drained: bool,
}

impl VbanSink for CollectSink {
    fn init(_device: &str, num_channels: u32, sample_rate: u32) -> Option<Self> {
        Some(CollectSink {
            channels: num_channels,
            rate: sample_rate,
            samples: Vec::new(),
            drained: false,
        })
    }

    fn write(&mut self, buf: &Vec<i16>) {
        self.samples.extend_from_slice(buf);
    }

    fn drain(&mut self) {
        self.drained = true;
    }
}

/// A playback backend double that only opens at 48 kHz, to drive the
/// reopen-failure path of a rate change.
struct Only48Sink {
    rate: u32,
}

impl VbanSink for Only48Sink {
    fn init(_device: &str, _num_channels: u32, sample_rate: u32) -> Option<Self> {
        if sample_rate == 48000 {
            Some(Only48Sink { rate: sample_rate })
        } else {
            None
        }
    }

    fn write(&mut self, _buf: &Vec<i16>) {}

    fn drain(&mut self) {}
}

/// A playback backend double whose device can never be opened.
struct NoSink;

impl VbanSink for NoSink {
    fn init(_device: &str, _num_channels: u32, _sample_rate: u32) -> Option<Self> {
        None
    }

    fn write(&mut self, _buf: &Vec<i16>) {}

    fn drain(&mut self) {}
}

fn pcm_sender(name: &str, rate: VBanSampleRates) -> VbanSender<SineSource> {
    VbanSender::create(
        Some(name.to_string()),
        2,
        rate,
        VBanBitResolution::VbanBitfmt16Int,
        VBanCodec::VbanCodecPcm,
        SineSource { slot: 0 },
    )
    .expect("a valid PCM configuration must be accepted")
}

fn pcm_recipient(filter: Option<&str>) -> VbanRecipient<CollectSink> {
    VbanRecipient::create(
        filter.map(|f| f.to_string()),
        None,
        None,
        "default".to_string(),
        None,
    )
    .expect("a short filter must be accepted")
}

#[test]
fn sender_create_rejects_bad_configs() {
    let mk = |numch: u8, rate: VBanSampleRates, format: VBanBitResolution, codec: VBanCodec| {
        VbanSender::create(None, numch, rate, format, codec, ZeroSource)
    };
    assert!(mk(
        2,
        VBanSampleRates::SampleRate48000Hz,
        VBanBitResolution::VbanBitfmt24Int,
        VBanCodec::VbanCodecPcm
    )
    .is_none());
    assert!(mk(
        0,
        VBanSampleRates::SampleRate48000Hz,
        VBanBitResolution::VbanBitfmt16Int,
        VBanCodec::VbanCodecPcm
    )
    .is_none());
    assert!(mk(
        2,
        VBanSampleRates::SampleRateNotSupported,
        VBanBitResolution::VbanBitfmt16Int,
        VBanCodec::VbanCodecPcm
    )
    .is_none());
    assert!(mk(
        2,
        VBanSampleRates::SampleRate48000Hz,
        VBanBitResolution::VbanBitfmt16Int,
        VBanCodec::VbanCodecVbca
    )
    .is_none());
    assert!(mk(
        3,
        VBanSampleRates::SampleRate48000Hz,
        VBanBitResolution::VbanBitfmt16Int,
        VBanCodec::VbanCodecOpus
    )
    .is_none());
    assert!(mk(
        2,
        VBanSampleRates::SampleRate44100Hz,
        VBanBitResolution::VbanBitfmt16Int,
        VBanCodec::VbanCodecOpus
    )
    .is_none());
    assert!(VbanSender::create(
        Some("seventeen bytes !".to_string()),
        2,
        VBanSampleRates::SampleRate48000Hz,
        VBanBitResolution::VbanBitfmt16Int,
        VBanCodec::VbanCodecPcm,
        ZeroSource
    )
    .is_none());
    assert!(mk(
        2,
        VBanSampleRates::SampleRate48000Hz,
        VBanBitResolution::VbanBitfmt16Int,
        VBanCodec::VbanCodecOpus
    )
    .is_some());
}

#[test]
fn sender_default_stream_name_is_stream1() {
    let s = VbanSender::create(
        None,
        2,
        VBanSampleRates::SampleRate48000Hz,
        VBanBitResolution::VbanBitfmt16Int,
        VBanCodec::VbanCodecPcm,
        ZeroSource,
    )
    .unwrap();
    assert_eq!(
        &s.name,
        &[0x53, 0x74, 0x72, 0x65, 0x61, 0x6D, 0x31, 0, 0, 0, 0, 0, 0, 0, 0, 0]
    );
}

#[test]
fn sender_packets_fit_and_declare_bounded_counts() {
    let mut s = pcm_sender("Stream1", VBanSampleRates::SampleRate48000Hz);
    let p = s.handle().expect("a stereo PCM packet must fit");
    assert_eq!(p.len(), 28 + 1024);
    assert!(p.len() <= 1464);
    assert_eq!(p[5], 255); // 256 samples per channel on the wire
    assert_eq!(p[6], 1); // 2 channels on the wire
    assert!(p[5] as usize + 1 <= 256);
    assert!(p[6] as usize + 1 <= 256);
}

#[test]
fn sender_frame_counter_counts_up_by_one() {
    let mut s = pcm_sender("Stream1", VBanSampleRates::SampleRate48000Hz);
    for expected in 0u32..5 {
        let p = s.handle().unwrap();
        let counter =
            u32::from_le_bytes([p[24], p[25], p[26], p[27]]);
        assert_eq!(counter, expected);
    }
    assert_eq!(s.nu_frame, 5);
}

#[test]
fn sender_frame_counter_wraps_modulo_2_pow_32() {
    let mut s = pcm_sender("Stream1", VBanSampleRates::SampleRate48000Hz);
    s.nu_frame = u32::MAX;
    let p = s.handle().unwrap();
    assert_eq!(&p[24..28], &[0xFF, 0xFF, 0xFF, 0xFF]);
    assert_eq!(s.nu_frame, 0);
}

#[test]
fn sender_drops_pcm_blocks_that_cannot_fit() {
    let mut s = VbanSender::create(
        None,
        4,
        VBanSampleRates::SampleRate48000Hz,
        VBanBitResolution::VbanBitfmt16Int,
        VBanCodec::VbanCodecPcm,
        ZeroSource,
    )
    .unwrap();
    assert!(s.handle().is_none());
    assert_eq!(s.nu_frame, 0);
}

#[test]
fn sender_opus_framing() {
    let mut s = VbanSender::create(
        Some("Stream1".to_string()),
        2,
        VBanSampleRates::SampleRate48000Hz,
        VBanBitResolution::VbanBitfmt16Int,
        VBanCodec::VbanCodecOpus,
        ZeroSource,
    )
    .unwrap();
    let block = s.read_block();
    assert_eq!(block.len(), 240 * 2);
    let payload = vec![0xAB; 100];
    let p = s.build_opus_packet(240, &payload).unwrap();
    assert_eq!(p.len(), 128);
    assert_eq!(p[5], 239);
    assert_eq!(p[7], 0xC1); // opus codec over 16-bit integer resolution
    assert_eq!(&p[28..], payload.as_slice());
    assert_eq!(s.nu_frame, 1);

    // An encoder failure is framed as an empty payload; the counter still
    // advances.
    let p2 = s.build_opus_packet(240, &Vec::new()).unwrap();
    assert_eq!(p2.len(), 28);
    assert_eq!(s.nu_frame, 2);

    // A payload the packet cannot carry is dropped with the counter held.
    assert!(s.build_opus_packet(240, &vec![0u8; 1437]).is_none());
    assert_eq!(s.nu_frame, 2);
}

#[test]
fn pcm_stereo_loopback_delivers_the_tone() {
    let mut sender = pcm_sender("Stream1", VBanSampleRates::SampleRate48000Hz);
    let mut rec = pcm_recipient(None);
    let mut now: u64 = 1000;
    let mut started_count = 0;
    // One second of stereo audio at 48 kHz: 188 packets of 256 frames.
    for _ in 0..188 {
        let packet = sender.handle().unwrap();
        let out = rec.handle(now, Some(&packet));
        if out.started {
            started_count += 1;
        }
        assert!(!out.stopped);
        now += 5;
    }
    assert_eq!(started_count, 1);
    assert_eq!(rec.state, PlayerState::Playing);
    let sink = rec.sink.as_ref().unwrap();
    assert_eq!(sink.rate, 48000);
    assert_eq!(sink.channels, 2);
    assert!(sink.samples.len() >= 48000 * 2);
    assert_eq!(sink.samples.len(), 188 * 512);
    for (slot, sample) in sink.samples.iter().enumerate() {
        assert_eq!(*sample, wave(slot));
    }
}

#[test]
fn recipient_prepends_configured_silence() {
    let mut rec: VbanRecipient<CollectSink> = VbanRecipient::create(
        None,
        None,
        None,
        "default".to_string(),
        Some(10),
    )
    .unwrap();
    let mut sender = pcm_sender("Stream1", VBanSampleRates::SampleRate48000Hz);
    let packet = sender.handle().unwrap();
    let out = rec.handle(1000, Some(&packet));
    assert!(out.started);
    let sink = rec.sink.as_ref().unwrap();
    // 10 ms at 48 kHz: 480 zero samples ahead of the packet's 512.
    assert_eq!(sink.samples.len(), 480 + 512);
    assert!(sink.samples[..480].iter().all(|s| *s == 0));
}

#[test]
fn stream_name_filtering_gates_playback() {
    let mut rec = pcm_recipient(Some("Music"));
    let mut wrong = pcm_sender("Stream1", VBanSampleRates::SampleRate48000Hz);
    let mut now: u64 = 1000;
    for _ in 0..100 {
        let packet = wrong.handle().unwrap();
        let out = rec.handle(now, Some(&packet));
        assert!(!out.started && !out.stopped);
        now += 5;
    }
    assert_eq!(rec.state, PlayerState::Idle);
    assert!(rec.sink.is_none());

    let mut right = pcm_sender("Music", VBanSampleRates::SampleRate48000Hz);
    let mut started_count = 0;
    for _ in 0..10 {
        let packet = right.handle().unwrap();
        let out = rec.handle(now, Some(&packet));
        if out.started {
            started_count += 1;
        }
        now += 5;
    }
    assert_eq!(started_count, 1);
    assert_eq!(rec.state, PlayerState::Playing);
    assert_eq!(rec.sink.as_ref().unwrap().samples.len(), 10 * 512);
}

#[test]
fn idle_timeout_stops_playback_exactly_once() {
    let mut rec = pcm_recipient(None);
    let mut sender = pcm_sender("Stream1", VBanSampleRates::SampleRate48000Hz);
    let packet = sender.handle().unwrap();
    let out = rec.handle(1000, Some(&packet));
    assert!(out.started);
    assert_eq!(rec.state, PlayerState::Playing);

    // 2.5 s of silence: the sink is drained and released, stopped fires.
    let out = rec.handle(3500, None);
    assert!(out.stopped && !out.started);
    assert_eq!(rec.state, PlayerState::Idle);
    assert!(rec.sink.is_none());

    // Quiet stays quiet: no second stop.
    let out = rec.handle(4000, None);
    assert!(!out.stopped && !out.started);

    // A packet one second later starts playback exactly once more.
    let packet = sender.handle().unwrap();
    let out = rec.handle(4500, Some(&packet));
    assert!(out.started && !out.stopped);
    let out = rec.handle(4505, Some(&sender.handle().unwrap()));
    assert!(!out.started && !out.stopped);
}

#[test]
fn sample_rate_renegotiation_reopens_without_events() {
    let mut rec = pcm_recipient(None);
    let mut at48 = pcm_sender("Stream1", VBanSampleRates::SampleRate48000Hz);
    let out = rec.handle(1000, Some(&at48.handle().unwrap()));
    assert!(out.started);
    assert_eq!(rec.sink.as_ref().unwrap().rate, 48000);

    let mut at44 = pcm_sender("Stream1", VBanSampleRates::SampleRate44100Hz);
    let out = rec.handle(1010, Some(&at44.handle().unwrap()));
    assert!(!out.started && !out.stopped);
    assert_eq!(rec.state, PlayerState::Playing);
    let sink = rec.sink.as_ref().unwrap();
    assert_eq!(sink.rate, 44100);
    assert_eq!(sink.samples.len(), 512);
    assert_eq!(rec.sample_rate, Some(VBanSampleRates::SampleRate44100Hz));
}

#[test]
fn oversized_payload_is_rejected() {
    // 255 wire samples and 4 declared channels: 1024 PCM samples of 2 bytes
    // each make 2048 payload bytes, and 2076 in all.
    let header = VBanHeader {
        sr_index: 3,
        sub_protocol: VBanProtocol::VbanProtocolAudio,
        num_samples: 255,
        num_channels: 3,
        bit_resolution: VBanBitResolution::VbanBitfmt16Int,
        codec: VBanCodec::VbanCodecPcm,
        stream_name: [0; 16],
        frame_counter: 0,
    };
    let mut packet = encode_header(&header);
    packet.extend(std::iter::repeat(0u8).take(2048));
    assert_eq!(packet.len(), 2076);

    let mut rec = pcm_recipient(None);
    assert_eq!(
        rec.validate_packet(&packet),
        Err(PacketError::Oversized)
    );
    let out = rec.handle(1000, Some(&packet));
    assert!(!out.started && !out.stopped && out.opus_job.is_none());
    assert_eq!(rec.state, PlayerState::Idle);
    assert!(rec.sink.is_none());
}

#[test]
fn validate_packet_names_each_drop() {
    let rec = pcm_recipient(Some("Music"));
    let mut good = pcm_sender("Music", VBanSampleRates::SampleRate48000Hz);
    let packet = good.handle().unwrap();
    assert!(rec.validate_packet(&packet).is_ok());

    assert_eq!(
        rec.validate_packet(&vec![0x56, 0x42, 0x41, 0x4E]),
        Err(PacketError::TooShort)
    );

    let mut bad = packet.clone();
    bad[0] = 0x00;
    assert_eq!(rec.validate_packet(&bad), Err(PacketError::BadPreamble));

    let mut bad = packet.clone();
    bad[4] = 25;
    assert_eq!(rec.validate_packet(&bad), Err(PacketError::InvalidSampleRate));

    let mut bad = packet.clone();
    bad[4] = 0x40 | 3; // text sub-protocol
    assert_eq!(rec.validate_packet(&bad), Err(PacketError::WrongProtocol));

    let mut bad = packet.clone();
    bad[7] = 0x10 | 1; // VBCA codec
    assert_eq!(rec.validate_packet(&bad), Err(PacketError::UnsupportedCodec));

    let mut bad = packet.clone();
    bad[7] = 0x03; // 32-bit integer resolution
    assert_eq!(
        rec.validate_packet(&bad),
        Err(PacketError::UnsupportedBitResolution)
    );

    let mut wrong_name = pcm_sender("Stream1", VBanSampleRates::SampleRate48000Hz);
    assert_eq!(
        rec.validate_packet(&wrong_name.handle().unwrap()),
        Err(PacketError::StreamNameMismatch)
    );
}

#[test]
fn sink_open_failure_leaves_idle_for_retry() {
    let mut rec: VbanRecipient<NoSink> =
        VbanRecipient::create(None, None, None, "default".to_string(), None).unwrap();
    let mut sender = pcm_sender("Stream1", VBanSampleRates::SampleRate48000Hz);
    let out = rec.handle(1000, Some(&sender.handle().unwrap()));
    assert!(!out.started && !out.stopped);
    assert_eq!(rec.state, PlayerState::Idle);
    assert!(rec.sink.is_none());
}

#[test]
fn opus_packets_come_back_as_decode_jobs() {
    let mut rec = pcm_recipient(None);
    let header = VBanHeader {
        sr_index: 3,
        sub_protocol: VBanProtocol::VbanProtocolAudio,
        num_samples: 239,
        num_channels: 1,
        bit_resolution: VBanBitResolution::VbanBitfmt16Int,
        codec: VBanCodec::VbanCodecOpus,
        stream_name: [0; 16],
        frame_counter: 7,
    };
    let mut packet = encode_header(&header);
    let payload: Vec<u8> = (0u8..=99).collect();
    packet.extend_from_slice(&payload);

    let out = rec.handle(1000, Some(&packet));
    assert!(!out.started && !out.stopped);
    assert_eq!(rec.state, PlayerState::Idle);
    let job = out.opus_job.expect("a valid Opus packet must yield a job");
    assert_eq!(job.sample_rate, VBanSampleRates::SampleRate48000Hz);
    assert_eq!(job.num_channels, 2);
    assert_eq!(job.num_samples, 240);
    assert_eq!(job.payload, payload);

    // The caller's decoder hands the samples back; playback then starts.
    let decoded = vec![0i16; 480];
    let d = rec.deliver(1000, job.sample_rate, job.num_channels, &decoded);
    assert!(d.started && !d.stopped);
    assert_eq!(rec.state, PlayerState::Playing);
    assert_eq!(rec.sink.as_ref().unwrap().samples.len(), 480);
}

#[test]
fn failed_rate_change_reopen_degrades_to_idle() {
    let mut rec: VbanRecipient<Only48Sink> =
        VbanRecipient::create(None, None, None, "default".to_string(), None).unwrap();
    let mut at48 = pcm_sender("Stream1", VBanSampleRates::SampleRate48000Hz);
    let out = rec.handle(1000, Some(&at48.handle().unwrap()));
    assert!(out.started);
    assert_eq!(rec.sink.as_ref().unwrap().rate, 48000);

    // The device refuses 44.1 kHz: playback winds down instead of panicking,
    // and the next packet may start it again.
    let mut at44 = pcm_sender("Stream1", VBanSampleRates::SampleRate44100Hz);
    let out = rec.handle(1010, Some(&at44.handle().unwrap()));
    assert!(!out.started && out.stopped);
    assert_eq!(rec.state, PlayerState::Idle);
    assert!(rec.sink.is_none());

    let out = rec.handle(1020, Some(&at48.handle().unwrap()));
    assert!(out.started && !out.stopped);
    assert_eq!(rec.state, PlayerState::Playing);
}

#[test]
fn timeout_and_fresh_packet_in_one_cycle_stop_and_restart() {
    let mut rec = pcm_recipient(None);
    let mut sender = pcm_sender("Stream1", VBanSampleRates::SampleRate48000Hz);
    let out = rec.handle(1000, Some(&sender.handle().unwrap()));
    assert!(out.started);

    // The quiet stream times out in the same cycle that a new packet
    // arrives: playback stops once and starts once.
    let out = rec.handle(3600, Some(&sender.handle().unwrap()));
    assert!(out.stopped && out.started);
    assert_eq!(rec.state, PlayerState::Playing);
}

#[test]
fn recipient_create_rejects_long_filter() {
    let rec: Option<VbanRecipient<CollectSink>> = VbanRecipient::create(
        Some("seventeen bytes !".to_string()),
        None,
        None,
        "default".to_string(),
        None,
    );
    assert!(rec.is_none());
}
