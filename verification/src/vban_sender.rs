//! The sender engine: one capture-build cycle per call. The engine owns its
//! capture source and all packet framing; the caller owns the UDP socket and
//! sends what a cycle hands back, and for the Opus codec it also runs the
//! encoder between [`VbanSender::read_block`] and
//! [`VbanSender::build_opus_packet`].

use vstd::prelude::*;
use vstd::utf8::encode_utf8;
use crate::VbanSource;
use crate::bytes::{encode_pcm_payload, spec_pcm_bytes};
use crate::header::{
    VBanBitResolution, VBanCodec, VBanHeader, VBanProtocol, VBanSampleRates, encode_header,
    pad_stream_name, spec_encode_header, spec_pad16,
};

verus! {

/// Samples per channel in one PCM packet: the VBAN packet maximum.
pub const PCM_BLOCK_SIZE: usize = 256;

/// Samples per channel in one Opus frame: a size the encoder accepts at all
/// three supported rates while staying under the VBAN maximum of 256.
pub const OPUS_FRAME_SIZE: usize = 240;

/// Bitrate asked of the Opus encoder, in bits per second.
pub const OPUS_BITRATE: i32 = 320000;

/// The stream name used when the caller names none.
pub open spec fn spec_default_stream_name() -> Seq<u8> {
    seq![0x53u8, 0x74u8, 0x72u8, 0x65u8, 0x61u8, 0x6Du8, 0x31u8]
}

/// The counter value following `c`, modulo 2^32.
pub open spec fn spec_wrap_inc(c: u32) -> u32 {
    ((c + 1) % 0x1_0000_0000) as u32
}

// ****************************************
//              VBAN sender
// ****************************************

/// The sender engine. Configuration is fixed at creation; only the frame
/// counter and the source advance as cycles run.
pub struct VbanSender<S: VbanSource> {
    /// Configured sample rate, one of the table's entries.
    pub sample_rate: VBanSampleRates,
    /// Channels captured and declared, counted from 1.
    pub num_channels: u8,
    /// Bit resolution; only 16-bit integer is supported.
    pub sample_format: VBanBitResolution,
    /// Stream name, zero-padded to its 16 wire bytes.
    pub name: [u8; 16],
    /// Counter written into the next packet; advances by one per packet.
    pub nu_frame: u32,
    /// Codec declared on the wire: PCM or Opus.
    pub codec: VBanCodec,
    /// The capture backend.
    pub source: S,
}

impl<S: VbanSource> VbanSender<S> {
    /// A configuration the engine keeps through every cycle.
    pub open spec fn wf(self) -> bool {
        &&& self.sample_format == VBanBitResolution::VbanBitfmt16Int
        &&& self.num_channels >= 1
        &&& self.sample_rate != VBanSampleRates::SampleRateNotSupported
        &&& (self.codec == VBanCodec::VbanCodecPcm || self.codec == VBanCodec::VbanCodecOpus)
        &&& (self.codec == VBanCodec::VbanCodecOpus ==> (self.num_channels == 1
            || self.num_channels == 2) && (self.sample_rate.spec_hz() == 12000
            || self.sample_rate.spec_hz() == 24000 || self.sample_rate.spec_hz() == 48000))
    }

    /// The fields that creation fixed, unchanged between two states.
    pub open spec fn spec_same_config(pre: Self, post: Self) -> bool {
        &&& post.sample_rate == pre.sample_rate
        &&& post.num_channels == pre.num_channels
        &&& post.sample_format == pre.sample_format
        &&& post.name == pre.name
        &&& post.codec == pre.codec
    }

    /// The configuration that `create` accepts.
    pub open spec fn spec_config_ok(
        stream_name: Option<String>,
        numch: u8,
        sample_rate: VBanSampleRates,
        format: VBanBitResolution,
        codec: VBanCodec,
    ) -> bool {
        &&& format == VBanBitResolution::VbanBitfmt16Int
        &&& numch >= 1
        &&& sample_rate != VBanSampleRates::SampleRateNotSupported
        &&& (codec == VBanCodec::VbanCodecPcm || codec == VBanCodec::VbanCodecOpus)
        &&& (stream_name matches Some(n) ==> encode_utf8(n@).len() <= 16)
        &&& (codec == VBanCodec::VbanCodecOpus ==> (numch == 1 || numch == 2) && (
        sample_rate.spec_hz() == 12000 || sample_rate.spec_hz() == 24000 || sample_rate.spec_hz()
            == 48000))
    }

    /// The 16 wire bytes that `create` gives the stream name.
    pub open spec fn spec_created_name(stream_name: Option<String>) -> Seq<u8> {
        match stream_name {
            Option::None => spec_pad16(spec_default_stream_name()),
            Option::Some(n) => spec_pad16(encode_utf8(n@)),
        }
    }

    /// Builds a sender around an owned capture source. Fails exactly on a
    /// configuration the wire cannot carry: a bit resolution other than
    /// 16-bit integer, a stream name over 16 bytes, a channel count of zero,
    /// a rate outside the table, a codec other than PCM or Opus, or Opus
    /// with channels outside {1, 2} or a rate outside {12000, 24000, 48000}.
    /// A missing stream name defaults to `Stream1`. The caller binds the
    /// socket and, for Opus, owns the encoder.
    pub fn create(
        stream_name: Option<String>,
        numch: u8,
        sample_rate: VBanSampleRates,
        format: VBanBitResolution,
        codec: VBanCodec,
        source: S,
    ) -> (r: Option<VbanSender<S>>)
        ensures
            r is Some <==> Self::spec_config_ok(stream_name, numch, sample_rate, format, codec),
            r matches Some(s) ==> s.wf() && s.sample_rate == sample_rate && s.num_channels == numch
                && s.sample_format == format && s.codec == codec && s.nu_frame == 0 && s.name@
                == Self::spec_created_name(stream_name),
    {
        if !(format == VBanBitResolution::VbanBitfmt16Int) {
            return None;
        }
        if numch == 0 {
            return None;
        }
        if sample_rate == VBanSampleRates::SampleRateNotSupported {
            return None;
        }
        if !(codec == VBanCodec::VbanCodecPcm || codec == VBanCodec::VbanCodecOpus) {
            return None;
        }
        if codec == VBanCodec::VbanCodecOpus {
            if !(numch == 1 || numch == 2) {
                return None;
            }
            let hz = sample_rate.hz();
            if !(hz == 12000 || hz == 24000 || hz == 48000) {
                return None;
            }
        }
        let name: [u8; 16] = match &stream_name {
            None => {
                let mut d: Vec<u8> = Vec::new();
                d.push(0x53);
                d.push(0x74);
                d.push(0x72);
                d.push(0x65);
                d.push(0x61);
                d.push(0x6D);
                d.push(0x31);
                assert(d@ =~= spec_default_stream_name());
                pad_stream_name(d.as_slice())
            },
            Some(n) => {
                let bs = n.as_str().as_bytes();
                if bs.len() > 16 {
                    return None;
                }
                pad_stream_name(bs)
            },
        };
        Some(
            VbanSender {
                sample_rate,
                num_channels: numch,
                sample_format: format,
                name,
                nu_frame: 0,
                codec,
                source,
            },
        )
    }

    /// Samples per channel in one packet of this sender's codec.
    pub open spec fn spec_block_size(self) -> usize {
        if self.codec == VBanCodec::VbanCodecOpus {
            OPUS_FRAME_SIZE
        } else {
            PCM_BLOCK_SIZE
        }
    }

    /// Samples per channel in one packet: 256 for PCM, 240 for Opus.
    pub fn block_size(&self) -> (r: usize)
        ensures
            r == self.spec_block_size(),
    {
        if self.codec == VBanCodec::VbanCodecOpus {
            OPUS_FRAME_SIZE
        } else {
            PCM_BLOCK_SIZE
        }
    }

    /// The header this sender writes when declaring `ns_wire + 1` samples
    /// per channel.
    pub open spec fn spec_header(self, ns_wire: u8) -> VBanHeader {
        VBanHeader {
            sr_index: self.sample_rate.spec_index(),
            sub_protocol: VBanProtocol::VbanProtocolAudio,
            num_samples: ns_wire,
            num_channels: (self.num_channels - 1) as u8,
            bit_resolution: self.sample_format,
            codec: self.codec,
            stream_name: self.name,
            frame_counter: self.nu_frame,
        }
    }

    /// Pulls one block of interleaved samples from the source: block size
    /// times the channel count.
    pub fn read_block(&mut self) -> (samples: Vec<i16>)
        requires
            old(self).wf(),
        ensures
            final(self).wf(),
            Self::spec_same_config(*old(self), *final(self)),
            final(self).nu_frame == old(self).nu_frame,
            samples@.len() == old(self).spec_block_size() * old(self).num_channels,
    {
        let bs = self.block_size();
        let nc = self.num_channels as usize;
        assert(bs * nc <= 65280) by (nonlinear_arith)
            requires
                bs <= 256,
                nc <= 255,
        ;
        let n = bs * nc;
        let mut buf: Vec<i16> = vec![0i16; n];
        self.source.read(&mut buf);
        buf
    }

    /// Frames one block of interleaved PCM samples: header, then each sample
    /// as two little-endian bytes. The declared samples-per-channel is the
    /// block's samples divided by the channel count, minus one on the wire.
    /// A packet that would exceed 1464 bytes is dropped and the frame counter
    /// holds; otherwise the counter advances by exactly one, modulo 2^32.
    pub fn build_pcm_packet(&mut self, samples: &Vec<i16>) -> (r: Option<Vec<u8>>)
        requires
            old(self).wf(),
            old(self).codec == VBanCodec::VbanCodecPcm,
            samples@.len() as int % (old(self).num_channels as int) == 0,
            1 <= samples@.len() as int / (old(self).num_channels as int) <= 256,
        ensures
            final(self).wf(),
            Self::spec_same_config(*old(self), *final(self)),
            final(self).source == old(self).source,
            28 + 2 * samples@.len() > 1464 ==> r is None && final(self).nu_frame == old(self).nu_frame,
            28 + 2 * samples@.len() <= 1464 ==> (r matches Some(p) && p@ == spec_encode_header(
                old(self).spec_header(
                    (samples@.len() as int / (old(self).num_channels as int) - 1) as u8,
                ),
            ) + spec_pcm_bytes(samples@) && p@.len() == 28 + 2 * samples@.len() && p@.len() <= 1464
                && final(self).nu_frame == spec_wrap_inc(old(self).nu_frame)),
    {
        let ns = samples.len() / (self.num_channels as usize);
        let header = VBanHeader {
            sr_index: self.sample_rate.index(),
            sub_protocol: VBanProtocol::VbanProtocolAudio,
            num_samples: (ns - 1) as u8,
            num_channels: self.num_channels - 1,
            bit_resolution: self.sample_format,
            codec: self.codec,
            stream_name: self.name,
            frame_counter: self.nu_frame,
        };
        let mut packet = encode_header(&header);
        let mut payload = encode_pcm_payload(samples);
        if payload.len() > 1436 {
            return None;
        }
        packet.append(&mut payload);
        self.nu_frame = self.nu_frame.wrapping_add(1);
        Some(packet)
    }

    /// Frames one already-encoded Opus payload, declaring `samples_per_channel`
    /// samples. An encoder failure is framed as an empty payload, so the
    /// frame is dropped silently at the far end while the counter still
    /// advances. A packet that would exceed 1464 bytes is dropped and the
    /// counter holds.
    pub fn build_opus_packet(&mut self, samples_per_channel: u16, payload: &Vec<u8>) -> (r: Option<
        Vec<u8>,
    >)
        requires
            old(self).wf(),
            old(self).codec == VBanCodec::VbanCodecOpus,
            1 <= samples_per_channel <= 256,
        ensures
            final(self).wf(),
            Self::spec_same_config(*old(self), *final(self)),
            final(self).source == old(self).source,
            28 + payload@.len() > 1464 ==> r is None && final(self).nu_frame == old(self).nu_frame,
            28 + payload@.len() <= 1464 ==> (r matches Some(p) && p@ == spec_encode_header(
                old(self).spec_header((samples_per_channel - 1) as u8),
            ) + payload@ && p@.len() == 28 + payload@.len() && p@.len() <= 1464 && final(self).nu_frame == spec_wrap_inc(old(self).nu_frame)),
    {
        let header = VBanHeader {
            sr_index: self.sample_rate.index(),
            sub_protocol: VBanProtocol::VbanProtocolAudio,
            num_samples: (samples_per_channel - 1) as u8,
            num_channels: self.num_channels - 1,
            bit_resolution: self.sample_format,
            codec: self.codec,
            stream_name: self.name,
            frame_counter: self.nu_frame,
        };
        let mut packet = encode_header(&header);
        if payload.len() > 1436 {
            return None;
        }
        let mut body: Vec<u8> = Vec::new();
        let mut i: usize = 0;
        while i < payload.len()
            invariant
                i <= payload@.len(),
                body@ == payload@.take(i as int),
            decreases payload@.len() - i,
        {
            body.push(payload[i]);
            assert(body@ =~= payload@.take(i as int + 1));
            i = i + 1;
        }
        assert(body@ =~= payload@);
        packet.append(&mut body);
        self.nu_frame = self.nu_frame.wrapping_add(1);
        Some(packet)
    }

    /// One PCM capture-build cycle: pulls a 256-samples-per-channel block
    /// and frames it. With one or two channels the packet always fits; with
    /// more, a PCM block of 256 samples per channel cannot fit 1464 bytes
    /// and the cycle drops the frame with the counter held. For the Opus
    /// codec the caller composes `read_block`, its encoder, and
    /// `build_opus_packet` instead.
    pub fn handle(&mut self) -> (r: Option<Vec<u8>>)
        requires
            old(self).wf(),
            old(self).codec == VBanCodec::VbanCodecPcm,
        ensures
            final(self).wf(),
            Self::spec_same_config(*old(self), *final(self)),
            r is Some <==> 28 + 512 * old(self).num_channels <= 1464,
            r is None ==> final(self).nu_frame == old(self).nu_frame,
            r matches Some(p) ==> p@.len() == 28 + 512 * old(self).num_channels && p@.len() <= 1464
                && final(self).nu_frame == spec_wrap_inc(old(self).nu_frame) && p@.subrange(0, 28)
                == spec_encode_header(old(self).spec_header(255)),
    {
        let samples = self.read_block();
        let ghost ch = self.num_channels as int;
        assert((256 * ch) % ch == 0 && (256 * ch) / ch == 256) by (nonlinear_arith)
            requires
                1 <= ch,
        ;
        let r = self.build_pcm_packet(&samples);
        proof {
            if 28 + 2 * samples@.len() <= 1464 {
                let p = r.unwrap();
                assert(p@.subrange(0, 28) =~= spec_encode_header(
                    old(self).spec_header(255),
                ));
            }
        }
        r
    }
}

} // verus!
