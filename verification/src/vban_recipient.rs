//! The recipient engine: one receive-validate-render cycle per call. The
//! caller owns the UDP socket and the clock and hands each cycle the packet
//! it received (or none, on a read timeout) with the time in milliseconds;
//! the playback backend stands behind the [`VbanSink`] trait and is opened,
//! reopened and released by the engine itself. Opus payloads are validated
//! here and handed back as an [`OpusJob`]; the caller decodes one and
//! returns the samples through [`VbanRecipient::deliver`].

use vstd::prelude::*;
use vstd::utf8::encode_utf8;
use crate::VbanSink;
use crate::bytes::decode_pcm_payload;
use crate::header::{
    ParseError, VBanBitResolution, VBanCodec, VBanHeader, VBanProtocol, VBanSampleRates,
    bytes16_eq, decode_header, pad_stream_name, spec_decodes_to, spec_header_decodes, spec_pad16,
    spec_preamble_ok,
};

verus! {

/// Playback lifecycle: a sink is bound exactly while `Playing`.
#[derive(Clone, Copy, Debug, PartialEq, Eq, Structural)]
pub enum PlayerState {
    Idle,
    Playing,
}

/// Why one received datagram was dropped. Checks run top to bottom; the
/// first failure names the drop.
#[derive(Clone, Copy, Debug, PartialEq, Eq, Structural)]
pub enum PacketError {
    /// Shorter than the 28 header bytes.
    TooShort,
    /// Longer than the 1464-byte VBAN maximum.
    Oversized,
    /// The first four bytes are not `VBAN`.
    BadPreamble,
    /// The sample-rate index exceeds the table.
    InvalidSampleRate,
    /// A sub-protocol other than audio.
    WrongProtocol,
    /// A codec other than PCM or Opus.
    UnsupportedCodec,
    /// A bit resolution other than 16-bit integer.
    UnsupportedBitResolution,
    /// A configured stream-name filter that the packet does not match.
    StreamNameMismatch,
}

/// A validated Opus payload. The caller decodes it at the stated rate and
/// channel count into `num_samples` samples per channel and hands the result
/// to [`VbanRecipient::deliver`]; a decoder failure just drops the packet.
pub struct OpusJob {
    /// The packet's sample rate, always one of the table's entries.
    pub sample_rate: VBanSampleRates,
    /// Channels, counted from 1; the wire byte plus one, so at most 256.
    pub num_channels: u16,
    /// Samples per channel, counted from 1; the wire byte plus one.
    pub num_samples: u16,
    /// The compressed Opus frame: everything after the 28 header bytes.
    pub payload: Vec<u8>,
}

/// What one cycle asks of the caller: `started` and `stopped` drive the
/// external state-change hook, and an `opus_job` asks for a decode.
pub struct HandleOutcome {
    /// Playback began this cycle: run the hook with `playback_started`.
    pub started: bool,
    /// Playback ended this cycle: run the hook with `playback_stopped`.
    pub stopped: bool,
    /// A validated Opus payload waiting for the caller's decoder.
    pub opus_job: Option<OpusJob>,
}

/// A packet the recipient renders: within length bounds, decodable, audio
/// sub-protocol, PCM or Opus, 16-bit integer, and matching the configured
/// stream-name filter if one is set.
pub open spec fn spec_packet_valid(filter: Option<[u8; 16]>, b: Seq<u8>) -> bool {
    &&& 28 <= b.len()
    &&& b.len() <= 1464
    &&& spec_header_decodes(b)
    &&& VBanProtocol::spec_from_byte(b[4]) == VBanProtocol::VbanProtocolAudio
    &&& (VBanCodec::spec_from_byte(b[7]) == VBanCodec::VbanCodecPcm
        || VBanCodec::spec_from_byte(b[7]) == VBanCodec::VbanCodecOpus)
    &&& VBanBitResolution::spec_from_byte(b[7]) == VBanBitResolution::VbanBitfmt16Int
    &&& (filter matches Some(f) ==> f@ == b.subrange(8, 24))
}

// ****************************************
//            VBAN recipient
// ****************************************

/// The recipient engine. The filter, sink name and silence length are fixed
/// at creation; the negotiated format follows the packets that arrive.
pub struct VbanRecipient<K: VbanSink> {
    /// The rate negotiated with the current stream, while one plays.
    pub sample_rate: Option<VBanSampleRates>,
    /// The channel count of the last rendered packet, counted from 1.
    pub num_channels: Option<u16>,
    /// The bit resolution of the last valid packet.
    pub sample_format: Option<VBanBitResolution>,
    /// The stream-name filter: only packets naming exactly these 16 bytes
    /// are rendered, if set.
    pub stream_name: Option<[u8; 16]>,
    /// Idle until a packet opens the sink; Playing until the idle timeout.
    pub state: PlayerState,
    /// When the last rendered packet arrived, on the caller's clock.
    pub last_packet_ms: u64,
    /// The bound playback backend, present exactly while `Playing`.
    pub sink: Option<K>,
    /// The device name the sink is opened with.
    pub sink_name: String,
    /// Zero samples worth this many milliseconds are written before the
    /// first samples of a stream.
    pub silence: u32,
}

impl<K: VbanSink> VbanRecipient<K> {
    /// The shape every cycle keeps: a sink is bound exactly while playing,
    /// and a playing engine knows its negotiated, supported rate.
    pub open spec fn wf(self) -> bool {
        &&& (self.state == PlayerState::Playing <==> self.sink is Some)
        &&& (self.state == PlayerState::Playing ==> (self.sample_rate matches Some(r) && r
            != VBanSampleRates::SampleRateNotSupported))
    }

    /// More than two seconds have passed since the last rendered packet of
    /// a playing stream.
    pub open spec fn spec_timed_out(self, now_ms: u64) -> bool {
        self.state == PlayerState::Playing && now_ms - self.last_packet_ms > 2000
    }

    /// Builds an idle recipient. Fails exactly when the stream-name filter
    /// runs over 16 bytes; a shorter filter is zero-padded to its wire
    /// form. The caller binds the UDP socket and sets its read timeout.
    pub fn create(
        stream_name: Option<String>,
        num_channels: Option<u8>,
        sample_rate: Option<VBanSampleRates>,
        sink_name: String,
        silence: Option<u32>,
    ) -> (r: Option<VbanRecipient<K>>)
        ensures
            r is Some <==> (stream_name matches Some(n) ==> encode_utf8(n@).len() <= 16),
            r matches Some(rec) ==> ({
                &&& rec.wf()
                &&& rec.state == PlayerState::Idle
                &&& rec.sink is None
                &&& rec.sample_rate == sample_rate
                &&& rec.num_channels == (match num_channels {
                    Option::None => Option::<u16>::None,
                    Option::Some(c) => Option::<u16>::Some(c as u16),
                })
                &&& rec.sample_format is None
                &&& rec.last_packet_ms == 0
                &&& rec.sink_name == sink_name
                &&& rec.silence == (match silence {
                    Option::None => 0u32,
                    Option::Some(v) => v,
                })
                &&& (stream_name is None ==> rec.stream_name is None)
                &&& (stream_name matches Some(n) ==> rec.stream_name matches Some(f) && f@
                    == spec_pad16(encode_utf8(n@)))
            }),
    {
        let filter: Option<[u8; 16]> = match &stream_name {
            None => None,
            Some(n) => {
                let bs = n.as_str().as_bytes();
                if bs.len() > 16 {
                    return None;
                }
                Some(pad_stream_name(bs))
            },
        };
        let ch: Option<u16> = match num_channels {
            None => None,
            Some(c) => Some(c as u16),
        };
        Some(
            VbanRecipient {
                sample_rate,
                num_channels: ch,
                sample_format: None,
                stream_name: filter,
                state: PlayerState::Idle,
                last_packet_ms: 0,
                sink: None,
                sink_name,
                silence: match silence {
                    None => 0,
                    Some(v) => v,
                },
            },
        )
    }

    /// Holds one datagram against every acceptance rule, in order: length
    /// bounds, preamble, sample-rate index, audio sub-protocol, PCM or Opus,
    /// 16-bit integer resolution, and the stream-name filter. Returns the
    /// parsed header exactly when all hold, else the first rule broken.
    pub fn validate_packet(&self, packet: &Vec<u8>) -> (r: Result<VBanHeader, PacketError>)
        ensures
            r is Ok <==> spec_packet_valid(self.stream_name, packet@),
            r matches Ok(h) ==> spec_decodes_to(packet@, h) && h.wf(),
            r == Err::<VBanHeader, PacketError>(PacketError::TooShort) <==> packet@.len() < 28,
            r == Err::<VBanHeader, PacketError>(PacketError::Oversized) <==> packet@.len() > 1464,
            r == Err::<VBanHeader, PacketError>(PacketError::BadPreamble) <==> (28 <= packet@.len()
                <= 1464 && !spec_preamble_ok(packet@)),
            r == Err::<VBanHeader, PacketError>(PacketError::InvalidSampleRate) <==> (28
                <= packet@.len() <= 1464 && spec_preamble_ok(packet@) && !spec_header_decodes(
                packet@,
            )),
            r == Err::<VBanHeader, PacketError>(PacketError::WrongProtocol) <==> (28
                <= packet@.len() <= 1464 && spec_header_decodes(packet@)
                && VBanProtocol::spec_from_byte(packet@[4]) != VBanProtocol::VbanProtocolAudio),
            r == Err::<VBanHeader, PacketError>(PacketError::UnsupportedCodec) <==> (28
                <= packet@.len() <= 1464 && spec_header_decodes(packet@)
                && VBanProtocol::spec_from_byte(packet@[4]) == VBanProtocol::VbanProtocolAudio && !(
            VBanCodec::spec_from_byte(packet@[7]) == VBanCodec::VbanCodecPcm
                || VBanCodec::spec_from_byte(packet@[7]) == VBanCodec::VbanCodecOpus)),
            r == Err::<VBanHeader, PacketError>(PacketError::UnsupportedBitResolution) <==> (28
                <= packet@.len() <= 1464 && spec_header_decodes(packet@)
                && VBanProtocol::spec_from_byte(packet@[4]) == VBanProtocol::VbanProtocolAudio && (
            VBanCodec::spec_from_byte(packet@[7]) == VBanCodec::VbanCodecPcm
                || VBanCodec::spec_from_byte(packet@[7]) == VBanCodec::VbanCodecOpus)
                && VBanBitResolution::spec_from_byte(packet@[7])
                != VBanBitResolution::VbanBitfmt16Int),
            r == Err::<VBanHeader, PacketError>(PacketError::StreamNameMismatch) <==> (28
                <= packet@.len() <= 1464 && spec_header_decodes(packet@)
                && VBanProtocol::spec_from_byte(packet@[4]) == VBanProtocol::VbanProtocolAudio && (
            VBanCodec::spec_from_byte(packet@[7]) == VBanCodec::VbanCodecPcm
                || VBanCodec::spec_from_byte(packet@[7]) == VBanCodec::VbanCodecOpus)
                && VBanBitResolution::spec_from_byte(packet@[7])
                == VBanBitResolution::VbanBitfmt16Int && (self.stream_name matches Some(f) && f@
                != packet@.subrange(8, 24))),
    {
        if packet.len() < 28 {
            return Err(PacketError::TooShort);
        }
        if packet.len() > 1464 {
            return Err(PacketError::Oversized);
        }
        let h = match decode_header(packet) {
            Err(ParseError::BadPreamble) => {
                return Err(PacketError::BadPreamble);
            },
            Err(ParseError::InvalidSampleRate) => {
                return Err(PacketError::InvalidSampleRate);
            },
            Ok(h) => h,
        };
        if !(h.sub_protocol == VBanProtocol::VbanProtocolAudio) {
            return Err(PacketError::WrongProtocol);
        }
        if !(h.codec == VBanCodec::VbanCodecPcm || h.codec == VBanCodec::VbanCodecOpus) {
            return Err(PacketError::UnsupportedCodec);
        }
        if !(h.bit_resolution == VBanBitResolution::VbanBitfmt16Int) {
            return Err(PacketError::UnsupportedBitResolution);
        }
        match &self.stream_name {
            None => {},
            Some(f) => {
                if !bytes16_eq(f, &h.stream_name) {
                    return Err(PacketError::StreamNameMismatch);
                }
            },
        }
        Ok(h)
    }

    /// Renders one block of decoded samples at a packet's rate and channel
    /// count, driving the sink lifecycle:
    ///
    /// - idle: open the sink, pre-write the configured silence, play the
    ///   block, report `started`; an open failure leaves the engine idle
    ///   with nothing reported, to be retried by the next packet;
    /// - playing at the same rate: just play the block;
    /// - playing at a new rate: drain and reopen at the new rate, keeping
    ///   state; a reopen failure degrades to idle and reports `stopped`.
    ///
    /// The arrival clock is remembered for the idle timeout either way.
    pub fn deliver(
        &mut self,
        now_ms: u64,
        rate: VBanSampleRates,
        num_channels: u16,
        samples: &Vec<i16>,
    ) -> (r: HandleOutcome)
        requires
            old(self).wf(),
            rate != VBanSampleRates::SampleRateNotSupported,
            num_channels >= 1,
        ensures
            final(self).wf(),
            final(self).stream_name == old(self).stream_name,
            final(self).sink_name == old(self).sink_name,
            final(self).silence == old(self).silence,
            final(self).sample_format == old(self).sample_format,
            final(self).last_packet_ms == now_ms,
            final(self).num_channels == Some(num_channels),
            r.opus_job is None,
            old(self).state == PlayerState::Idle ==> !r.stopped && (r.started <==> final(self).state == PlayerState::Playing) && (r.started ==> final(self).sample_rate == Some(
                rate,
            )) && (!r.started ==> final(self).state == PlayerState::Idle && final(self).sample_rate
                == old(self).sample_rate),
            old(self).state == PlayerState::Playing && old(self).sample_rate == Some(rate)
                ==> !r.started && !r.stopped && final(self).state == PlayerState::Playing && final(self).sample_rate == Some(rate),
            old(self).state == PlayerState::Playing && old(self).sample_rate != Some(rate)
                ==> !r.started && final(self).sample_rate == Some(rate) && (r.stopped <==> final(self).state == PlayerState::Idle),
    {
        self.last_packet_ms = now_ms;
        self.num_channels = Some(num_channels);
        if self.state == PlayerState::Idle {
            let hz = rate.hz();
            match K::init(self.sink_name.as_str(), num_channels as u32, hz) {
                None => HandleOutcome { started: false, stopped: false, opus_job: None },
                Some(mut sink) => {
                    let per_ms = hz / 1000;
                    assert(per_ms <= 705);
                    let ghost pm = per_ms as int;
                    let ghost sl = self.silence as int;
                    assert(pm * sl <= 705 * 0xFFFF_FFFF) by (nonlinear_arith)
                        requires
                            0 <= pm <= 705,
                            0 <= sl <= 0xFFFF_FFFF,
                    ;
                    let total = per_ms as u64 * self.silence as u64;
                    let cap: usize = if total > (usize::MAX as u64) {
                        usize::MAX
                    } else {
                        total as usize
                    };
                    let silence_buf: Vec<i16> = vec![0i16; cap];
                    sink.write(&silence_buf);
                    sink.write(samples);
                    self.sample_rate = Some(rate);
                    self.sink = Some(sink);
                    self.state = PlayerState::Playing;
                    HandleOutcome { started: true, stopped: false, opus_job: None }
                },
            }
        } else {
            let same = match self.sample_rate {
                Some(r0) => r0 == rate,
                None => false,
            };
            if same {
                match &mut self.sink {
                    Some(sink) => sink.write(samples),
                    None => {},
                }
                HandleOutcome { started: false, stopped: false, opus_job: None }
            } else {
                match &mut self.sink {
                    Some(sink) => sink.drain(),
                    None => {},
                }
                self.sink = None;
                self.sample_rate = Some(rate);
                let hz = rate.hz();
                match K::init(self.sink_name.as_str(), num_channels as u32, hz) {
                    None => {
                        self.state = PlayerState::Idle;
                        HandleOutcome { started: false, stopped: true, opus_job: None }
                    },
                    Some(mut sink) => {
                        sink.write(samples);
                        self.sink = Some(sink);
                        HandleOutcome { started: false, stopped: false, opus_job: None }
                    },
                }
            }
        }
    }

    /// One receive-validate-render cycle.
    ///
    /// First the idle timeout: a playing stream more than two seconds quiet
    /// drains and releases the sink and reports `stopped`. Then the packet,
    /// if any came: one that fails [`Self::validate_packet`] is dropped
    /// without further effect; a valid PCM packet is decoded and rendered
    /// through [`Self::deliver`]; a valid Opus packet is handed back as an
    /// [`OpusJob`] for the caller's decoder, touching no other state.
    pub fn handle(&mut self, now_ms: u64, packet: Option<&Vec<u8>>) -> (r: HandleOutcome)
        requires
            old(self).wf(),
            now_ms >= old(self).last_packet_ms,
        ensures
            final(self).wf(),
            final(self).stream_name == old(self).stream_name,
            final(self).sink_name == old(self).sink_name,
            final(self).silence == old(self).silence,
            final(self).last_packet_ms <= now_ms,
            old(self).spec_timed_out(now_ms) ==> r.stopped,
            r.stopped ==> old(self).state == PlayerState::Playing,
            (match packet {
                Option::None => true,
                Option::Some(p) => !spec_packet_valid(old(self).stream_name, p@),
            }) ==> !r.started && r.opus_job is None && r.stopped == old(self).spec_timed_out(
                now_ms,
            ) && final(self).last_packet_ms == old(self).last_packet_ms && final(self).sample_rate
                == old(self).sample_rate && final(self).sample_format == old(self).sample_format
                && final(self).num_channels == old(self).num_channels && final(self).state == (
            if old(self).spec_timed_out(now_ms) {
                PlayerState::Idle
            } else {
                old(self).state
            }),
            packet matches Some(p) ==> (spec_packet_valid(old(self).stream_name, p@) ==> final(self).sample_format == Some(VBanBitResolution::spec_from_byte(p@[7]))),
            packet matches Some(p) ==> ((spec_packet_valid(old(self).stream_name, p@)
                && VBanCodec::spec_from_byte(p@[7]) == VBanCodec::VbanCodecOpus) ==> (!r.started
                && r.stopped == old(self).spec_timed_out(now_ms) && (r.opus_job matches Some(job)
                && job.sample_rate == VBanSampleRates::spec_from_index(
                (p@[4] as int % 32) as u8,
            ) && job.num_channels == p@[6] + 1 && job.num_samples == p@[5] + 1 && job.payload@
                == p@.skip(28)) && final(self).state == (
            if old(self).spec_timed_out(now_ms) {
                PlayerState::Idle
            } else {
                old(self).state
            }) && final(self).last_packet_ms == old(self).last_packet_ms && final(self).sample_rate
                == old(self).sample_rate)),
            packet matches Some(p) ==> ((spec_packet_valid(old(self).stream_name, p@)
                && VBanCodec::spec_from_byte(p@[7]) == VBanCodec::VbanCodecPcm) ==> ({
                let mid_idle = old(self).state == PlayerState::Idle || old(self).spec_timed_out(
                    now_ms,
                );
                let rate = VBanSampleRates::spec_from_index((p@[4] as int % 32) as u8);
                &&& r.opus_job is None
                &&& final(self).last_packet_ms == now_ms
                &&& final(self).num_channels == Some((p@[6] + 1) as u16)
                &&& (mid_idle ==> (r.started <==> final(self).state == PlayerState::Playing) && (
                r.stopped <==> old(self).spec_timed_out(now_ms)) && (r.started ==> final(self).sample_rate == Some(rate)))
                &&& (!mid_idle && old(self).state == PlayerState::Playing ==> !r.started && (
                old(self).sample_rate == Some(rate) ==> !r.stopped && final(self).state
                    == PlayerState::Playing) && (old(self).sample_rate != Some(rate) ==> final(self).sample_rate == Some(rate) && (r.stopped <==> final(self).state
                    == PlayerState::Idle)))
            })),
    {
        let mut stopped = false;
        if self.state == PlayerState::Playing && now_ms - self.last_packet_ms > 2000 {
            match &mut self.sink {
                Some(sink) => sink.drain(),
                None => {},
            }
            self.sink = None;
            self.state = PlayerState::Idle;
            stopped = true;
        }
        let p = match packet {
            None => {
                return HandleOutcome { started: false, stopped, opus_job: None };
            },
            Some(p) => p,
        };
        let h = match self.validate_packet(p) {
            Err(_) => {
                return HandleOutcome { started: false, stopped, opus_job: None };
            },
            Ok(h) => h,
        };
        self.sample_format = Some(h.bit_resolution);
        let rate = VBanSampleRates::from_index(h.sr_index);
        let ch: u16 = h.num_channels as u16 + 1;
        if h.codec == VBanCodec::VbanCodecOpus {
            let mut payload: Vec<u8> = Vec::new();
            let mut i: usize = 28;
            while i < p.len()
                invariant
                    28 <= i <= p@.len(),
                    p@.len() <= usize::MAX,
                    payload@ == p@.subrange(28, i as int),
                decreases p@.len() - i,
            {
                let b = p[i];
                payload.push(b);
                assert(payload@ =~= p@.subrange(28, i as int + 1));
                i = i + 1;
            }
            assert(payload@ =~= p@.skip(28));
            let job = OpusJob {
                sample_rate: rate,
                num_channels: ch,
                num_samples: h.num_samples as u16 + 1,
                payload,
            };
            return HandleOutcome { started: false, stopped, opus_job: Some(job) };
        }
        let samples = decode_pcm_payload(p, 28);
        let d = self.deliver(now_ms, rate, ch, &samples);
        HandleOutcome { started: d.started, stopped: stopped || d.stopped, opus_job: None }
    }
}

} // verus!
