//! The 28-byte VBAN header: the sample-rate table, the bit-packed enums of
//! the `sr_sp` and `format_codec` bytes, and the header codec itself.

use vstd::prelude::*;
use crate::bytes::{push_u32_le, spec_u32_le, spec_u32_of_le, u32_from_le};

verus! {

/// Greatest index that the VBAN sample-rate table defines.
pub const VBAN_SR_MAX_INDEX: u8 = 20;

// ****************************************
//           VBAN sample rates
// ****************************************

/// The 21 sample rates of the VBAN table, and a sentinel for a rate outside
/// it. The table order is normative: the wire index of each rate is its
/// position here.
#[derive(Clone, Copy, Debug, PartialEq, Eq, Structural)]
pub enum VBanSampleRates {
    SampleRate6000Hz,
    SampleRate12000Hz,
    SampleRate24000Hz,
    SampleRate48000Hz,
    SampleRate96000Hz,
    SampleRate192000Hz,
    SampleRate384000Hz,
    SampleRate8000Hz,
    SampleRate16000Hz,
    SampleRate32000Hz,
    SampleRate64000Hz,
    SampleRate128000Hz,
    SampleRate256000Hz,
    SampleRate512000Hz,
    SampleRate11025Hz,
    SampleRate22050Hz,
    SampleRate44100Hz,
    SampleRate88200Hz,
    SampleRate176400Hz,
    SampleRate352800Hz,
    SampleRate705600Hz,
    SampleRateNotSupported,
}

impl VBanSampleRates {
    /// The rate standing at a table index; indices past the table are not
    /// supported.
    pub open spec fn spec_from_index(i: u8) -> VBanSampleRates {
        if i == 0 { VBanSampleRates::SampleRate6000Hz }
        else if i == 1 { VBanSampleRates::SampleRate12000Hz }
        else if i == 2 { VBanSampleRates::SampleRate24000Hz }
        else if i == 3 { VBanSampleRates::SampleRate48000Hz }
        else if i == 4 { VBanSampleRates::SampleRate96000Hz }
        else if i == 5 { VBanSampleRates::SampleRate192000Hz }
        else if i == 6 { VBanSampleRates::SampleRate384000Hz }
        else if i == 7 { VBanSampleRates::SampleRate8000Hz }
        else if i == 8 { VBanSampleRates::SampleRate16000Hz }
        else if i == 9 { VBanSampleRates::SampleRate32000Hz }
        else if i == 10 { VBanSampleRates::SampleRate64000Hz }
        else if i == 11 { VBanSampleRates::SampleRate128000Hz }
        else if i == 12 { VBanSampleRates::SampleRate256000Hz }
        else if i == 13 { VBanSampleRates::SampleRate512000Hz }
        else if i == 14 { VBanSampleRates::SampleRate11025Hz }
        else if i == 15 { VBanSampleRates::SampleRate22050Hz }
        else if i == 16 { VBanSampleRates::SampleRate44100Hz }
        else if i == 17 { VBanSampleRates::SampleRate88200Hz }
        else if i == 18 { VBanSampleRates::SampleRate176400Hz }
        else if i == 19 { VBanSampleRates::SampleRate352800Hz }
        else if i == 20 { VBanSampleRates::SampleRate705600Hz }
        else { VBanSampleRates::SampleRateNotSupported }
    }

    /// The table index of a rate; 21 for the sentinel, which has none.
    pub open spec fn spec_index(self) -> u8 {
        match self {
            VBanSampleRates::SampleRate6000Hz => 0,
            VBanSampleRates::SampleRate12000Hz => 1,
            VBanSampleRates::SampleRate24000Hz => 2,
            VBanSampleRates::SampleRate48000Hz => 3,
            VBanSampleRates::SampleRate96000Hz => 4,
            VBanSampleRates::SampleRate192000Hz => 5,
            VBanSampleRates::SampleRate384000Hz => 6,
            VBanSampleRates::SampleRate8000Hz => 7,
            VBanSampleRates::SampleRate16000Hz => 8,
            VBanSampleRates::SampleRate32000Hz => 9,
            VBanSampleRates::SampleRate64000Hz => 10,
            VBanSampleRates::SampleRate128000Hz => 11,
            VBanSampleRates::SampleRate256000Hz => 12,
            VBanSampleRates::SampleRate512000Hz => 13,
            VBanSampleRates::SampleRate11025Hz => 14,
            VBanSampleRates::SampleRate22050Hz => 15,
            VBanSampleRates::SampleRate44100Hz => 16,
            VBanSampleRates::SampleRate88200Hz => 17,
            VBanSampleRates::SampleRate176400Hz => 18,
            VBanSampleRates::SampleRate352800Hz => 19,
            VBanSampleRates::SampleRate705600Hz => 20,
            VBanSampleRates::SampleRateNotSupported => 21,
        }
    }

    /// The rate in Hz; 0 for the sentinel.
    pub open spec fn spec_hz(self) -> u32 {
        match self {
            VBanSampleRates::SampleRate6000Hz => 6000,
            VBanSampleRates::SampleRate12000Hz => 12000,
            VBanSampleRates::SampleRate24000Hz => 24000,
            VBanSampleRates::SampleRate48000Hz => 48000,
            VBanSampleRates::SampleRate96000Hz => 96000,
            VBanSampleRates::SampleRate192000Hz => 192000,
            VBanSampleRates::SampleRate384000Hz => 384000,
            VBanSampleRates::SampleRate8000Hz => 8000,
            VBanSampleRates::SampleRate16000Hz => 16000,
            VBanSampleRates::SampleRate32000Hz => 32000,
            VBanSampleRates::SampleRate64000Hz => 64000,
            VBanSampleRates::SampleRate128000Hz => 128000,
            VBanSampleRates::SampleRate256000Hz => 256000,
            VBanSampleRates::SampleRate512000Hz => 512000,
            VBanSampleRates::SampleRate11025Hz => 11025,
            VBanSampleRates::SampleRate22050Hz => 22050,
            VBanSampleRates::SampleRate44100Hz => 44100,
            VBanSampleRates::SampleRate88200Hz => 88200,
            VBanSampleRates::SampleRate176400Hz => 176400,
            VBanSampleRates::SampleRate352800Hz => 352800,
            VBanSampleRates::SampleRate705600Hz => 705600,
            VBanSampleRates::SampleRateNotSupported => 0,
        }
    }

    /// The table entry whose rate is `hz`; the sentinel if no entry has it.
    pub open spec fn spec_from_hz(hz: u32) -> VBanSampleRates {
        if hz == 6000 { VBanSampleRates::SampleRate6000Hz }
        else if hz == 12000 { VBanSampleRates::SampleRate12000Hz }
        else if hz == 24000 { VBanSampleRates::SampleRate24000Hz }
        else if hz == 48000 { VBanSampleRates::SampleRate48000Hz }
        else if hz == 96000 { VBanSampleRates::SampleRate96000Hz }
        else if hz == 192000 { VBanSampleRates::SampleRate192000Hz }
        else if hz == 384000 { VBanSampleRates::SampleRate384000Hz }
        else if hz == 8000 { VBanSampleRates::SampleRate8000Hz }
        else if hz == 16000 { VBanSampleRates::SampleRate16000Hz }
        else if hz == 32000 { VBanSampleRates::SampleRate32000Hz }
        else if hz == 64000 { VBanSampleRates::SampleRate64000Hz }
        else if hz == 128000 { VBanSampleRates::SampleRate128000Hz }
        else if hz == 256000 { VBanSampleRates::SampleRate256000Hz }
        else if hz == 512000 { VBanSampleRates::SampleRate512000Hz }
        else if hz == 11025 { VBanSampleRates::SampleRate11025Hz }
        else if hz == 22050 { VBanSampleRates::SampleRate22050Hz }
        else if hz == 44100 { VBanSampleRates::SampleRate44100Hz }
        else if hz == 88200 { VBanSampleRates::SampleRate88200Hz }
        else if hz == 176400 { VBanSampleRates::SampleRate176400Hz }
        else if hz == 352800 { VBanSampleRates::SampleRate352800Hz }
        else if hz == 705600 { VBanSampleRates::SampleRate705600Hz }
        else { VBanSampleRates::SampleRateNotSupported }
    }

    /// The rate standing at table index `i`.
    pub fn from_index(i: u8) -> (r: VBanSampleRates)
        requires
            i <= VBAN_SR_MAX_INDEX,
        ensures
            r == VBanSampleRates::spec_from_index(i),
    {
        match i {
            0 => VBanSampleRates::SampleRate6000Hz,
            1 => VBanSampleRates::SampleRate12000Hz,
            2 => VBanSampleRates::SampleRate24000Hz,
            3 => VBanSampleRates::SampleRate48000Hz,
            4 => VBanSampleRates::SampleRate96000Hz,
            5 => VBanSampleRates::SampleRate192000Hz,
            6 => VBanSampleRates::SampleRate384000Hz,
            7 => VBanSampleRates::SampleRate8000Hz,
            8 => VBanSampleRates::SampleRate16000Hz,
            9 => VBanSampleRates::SampleRate32000Hz,
            10 => VBanSampleRates::SampleRate64000Hz,
            11 => VBanSampleRates::SampleRate128000Hz,
            12 => VBanSampleRates::SampleRate256000Hz,
            13 => VBanSampleRates::SampleRate512000Hz,
            14 => VBanSampleRates::SampleRate11025Hz,
            15 => VBanSampleRates::SampleRate22050Hz,
            16 => VBanSampleRates::SampleRate44100Hz,
            17 => VBanSampleRates::SampleRate88200Hz,
            18 => VBanSampleRates::SampleRate176400Hz,
            19 => VBanSampleRates::SampleRate352800Hz,
            _ => VBanSampleRates::SampleRate705600Hz,
        }
    }

    /// The table index of this rate.
    pub fn index(self) -> (r: u8)
        requires
            self != VBanSampleRates::SampleRateNotSupported,
        ensures
            r == self.spec_index(),
            r <= VBAN_SR_MAX_INDEX,
    {
        match self {
            VBanSampleRates::SampleRate6000Hz => 0,
            VBanSampleRates::SampleRate12000Hz => 1,
            VBanSampleRates::SampleRate24000Hz => 2,
            VBanSampleRates::SampleRate48000Hz => 3,
            VBanSampleRates::SampleRate96000Hz => 4,
            VBanSampleRates::SampleRate192000Hz => 5,
            VBanSampleRates::SampleRate384000Hz => 6,
            VBanSampleRates::SampleRate8000Hz => 7,
            VBanSampleRates::SampleRate16000Hz => 8,
            VBanSampleRates::SampleRate32000Hz => 9,
            VBanSampleRates::SampleRate64000Hz => 10,
            VBanSampleRates::SampleRate128000Hz => 11,
            VBanSampleRates::SampleRate256000Hz => 12,
            VBanSampleRates::SampleRate512000Hz => 13,
            VBanSampleRates::SampleRate11025Hz => 14,
            VBanSampleRates::SampleRate22050Hz => 15,
            VBanSampleRates::SampleRate44100Hz => 16,
            VBanSampleRates::SampleRate88200Hz => 17,
            VBanSampleRates::SampleRate176400Hz => 18,
            VBanSampleRates::SampleRate352800Hz => 19,
            VBanSampleRates::SampleRate705600Hz => 20,
            VBanSampleRates::SampleRateNotSupported => 0,
        }
    }

    /// The rate in Hz; 0 for the sentinel.
    pub fn hz(self) -> (r: u32)
        ensures
            r == self.spec_hz(),
    {
        match self {
            VBanSampleRates::SampleRate6000Hz => 6000,
            VBanSampleRates::SampleRate12000Hz => 12000,
            VBanSampleRates::SampleRate24000Hz => 24000,
            VBanSampleRates::SampleRate48000Hz => 48000,
            VBanSampleRates::SampleRate96000Hz => 96000,
            VBanSampleRates::SampleRate192000Hz => 192000,
            VBanSampleRates::SampleRate384000Hz => 384000,
            VBanSampleRates::SampleRate8000Hz => 8000,
            VBanSampleRates::SampleRate16000Hz => 16000,
            VBanSampleRates::SampleRate32000Hz => 32000,
            VBanSampleRates::SampleRate64000Hz => 64000,
            VBanSampleRates::SampleRate128000Hz => 128000,
            VBanSampleRates::SampleRate256000Hz => 256000,
            VBanSampleRates::SampleRate512000Hz => 512000,
            VBanSampleRates::SampleRate11025Hz => 11025,
            VBanSampleRates::SampleRate22050Hz => 22050,
            VBanSampleRates::SampleRate44100Hz => 44100,
            VBanSampleRates::SampleRate88200Hz => 88200,
            VBanSampleRates::SampleRate176400Hz => 176400,
            VBanSampleRates::SampleRate352800Hz => 352800,
            VBanSampleRates::SampleRate705600Hz => 705600,
            VBanSampleRates::SampleRateNotSupported => 0,
        }
    }

    /// The table entry whose rate is `hz`, or the sentinel.
    pub fn from_hz(hz: u32) -> (r: VBanSampleRates)
        ensures
            r == VBanSampleRates::spec_from_hz(hz),
    {
        match hz {
            6000 => VBanSampleRates::SampleRate6000Hz,
            12000 => VBanSampleRates::SampleRate12000Hz,
            24000 => VBanSampleRates::SampleRate24000Hz,
            48000 => VBanSampleRates::SampleRate48000Hz,
            96000 => VBanSampleRates::SampleRate96000Hz,
            192000 => VBanSampleRates::SampleRate192000Hz,
            384000 => VBanSampleRates::SampleRate384000Hz,
            8000 => VBanSampleRates::SampleRate8000Hz,
            16000 => VBanSampleRates::SampleRate16000Hz,
            32000 => VBanSampleRates::SampleRate32000Hz,
            64000 => VBanSampleRates::SampleRate64000Hz,
            128000 => VBanSampleRates::SampleRate128000Hz,
            256000 => VBanSampleRates::SampleRate256000Hz,
            512000 => VBanSampleRates::SampleRate512000Hz,
            11025 => VBanSampleRates::SampleRate11025Hz,
            22050 => VBanSampleRates::SampleRate22050Hz,
            44100 => VBanSampleRates::SampleRate44100Hz,
            88200 => VBanSampleRates::SampleRate88200Hz,
            176400 => VBanSampleRates::SampleRate176400Hz,
            352800 => VBanSampleRates::SampleRate352800Hz,
            705600 => VBanSampleRates::SampleRate705600Hz,
            _ => VBanSampleRates::SampleRateNotSupported,
        }
    }
}

/// The Hz value at a table index.
pub open spec fn spec_sample_rate_from_index(i: u8) -> u32 {
    VBanSampleRates::spec_from_index(i).spec_hz()
}

/// The table index carrying a Hz value, if any entry does.
pub open spec fn spec_sample_rate_to_index(hz: u32) -> Option<u8> {
    if VBanSampleRates::spec_from_hz(hz) == VBanSampleRates::SampleRateNotSupported {
        None
    } else {
        Some(VBanSampleRates::spec_from_hz(hz).spec_index())
    }
}

/// The Hz value at a table index.
pub fn sample_rate_from_index(i: u8) -> (hz: u32)
    requires
        i <= VBAN_SR_MAX_INDEX,
    ensures
        hz == spec_sample_rate_from_index(i),
{
    VBanSampleRates::from_index(i).hz()
}

/// The table index carrying a Hz value, if any entry does.
pub fn sample_rate_to_index(hz: u32) -> (r: Option<u8>)
    ensures
        r == spec_sample_rate_to_index(hz),
{
    let rate = VBanSampleRates::from_hz(hz);
    if rate == VBanSampleRates::SampleRateNotSupported {
        None
    } else {
        Some(rate.index())
    }
}

/// Every index of the 21-entry table comes back from the rate it names:
/// `sample_rate_to_index(sample_rate_from_index(i)) == i`.
pub proof fn lemma_sample_rate_index_round_trip(i: u8)
    requires
        i <= VBAN_SR_MAX_INDEX,
    ensures
        spec_sample_rate_to_index(spec_sample_rate_from_index(i)) == Some(i),
{
}

// ****************************************
//             VBAN protocol
// ****************************************

/// The sub-protocol carried in the high 3 bits of the `sr_sp` byte. Only
/// audio is handled; the rest are named so that any byte decodes.
#[derive(Clone, Copy, Debug, PartialEq, Eq, Structural)]
pub enum VBanProtocol {
    VbanProtocolAudio,
    VbanProtocolSerial,
    VbanProtocolTxt,
    VbanProtocolService,
    VbanProtocolUndefined1,
    VbanProtocolUndefined2,
    VbanProtocolUndefined3,
    VbanProtocolUndefined4,
}

impl VBanProtocol {
    /// The variant's wire bits: a multiple of 0x20 in the high 3 bits.
    pub open spec fn spec_byte(self) -> u8 {
        match self {
            VBanProtocol::VbanProtocolAudio => 0x00,
            VBanProtocol::VbanProtocolSerial => 0x20,
            VBanProtocol::VbanProtocolTxt => 0x40,
            VBanProtocol::VbanProtocolService => 0x60,
            VBanProtocol::VbanProtocolUndefined1 => 0x80,
            VBanProtocol::VbanProtocolUndefined2 => 0xA0,
            VBanProtocol::VbanProtocolUndefined3 => 0xC0,
            VBanProtocol::VbanProtocolUndefined4 => 0xE0,
        }
    }

    /// The variant named by the high 3 bits of `b`.
    pub open spec fn spec_from_byte(b: u8) -> VBanProtocol {
        let hi = b / 0x20;
        if hi == 0 { VBanProtocol::VbanProtocolAudio }
        else if hi == 1 { VBanProtocol::VbanProtocolSerial }
        else if hi == 2 { VBanProtocol::VbanProtocolTxt }
        else if hi == 3 { VBanProtocol::VbanProtocolService }
        else if hi == 4 { VBanProtocol::VbanProtocolUndefined1 }
        else if hi == 5 { VBanProtocol::VbanProtocolUndefined2 }
        else if hi == 6 { VBanProtocol::VbanProtocolUndefined3 }
        else { VBanProtocol::VbanProtocolUndefined4 }
    }

    /// Reads the sub-protocol out of the `sr_sp` byte.
    pub fn from_byte(b: u8) -> (r: VBanProtocol)
        ensures
            r == VBanProtocol::spec_from_byte(b),
    {
        match b / 0x20 {
            0 => VBanProtocol::VbanProtocolAudio,
            1 => VBanProtocol::VbanProtocolSerial,
            2 => VBanProtocol::VbanProtocolTxt,
            3 => VBanProtocol::VbanProtocolService,
            4 => VBanProtocol::VbanProtocolUndefined1,
            5 => VBanProtocol::VbanProtocolUndefined2,
            6 => VBanProtocol::VbanProtocolUndefined3,
            _ => VBanProtocol::VbanProtocolUndefined4,
        }
    }

    /// The variant's wire bits.
    pub fn to_byte(self) -> (r: u8)
        ensures
            r == self.spec_byte(),
            r % 0x20 == 0,
    {
        match self {
            VBanProtocol::VbanProtocolAudio => 0x00,
            VBanProtocol::VbanProtocolSerial => 0x20,
            VBanProtocol::VbanProtocolTxt => 0x40,
            VBanProtocol::VbanProtocolService => 0x60,
            VBanProtocol::VbanProtocolUndefined1 => 0x80,
            VBanProtocol::VbanProtocolUndefined2 => 0xA0,
            VBanProtocol::VbanProtocolUndefined3 => 0xC0,
            VBanProtocol::VbanProtocolUndefined4 => 0xE0,
        }
    }
}

// ****************************************
//          VBAN bit resolution
// ****************************************

/// The bit resolution carried in the low 3 bits of the `format_codec` byte,
/// with a count sentinel that stands for no wire value.
#[derive(Clone, Copy, Debug, PartialEq, Eq, Structural)]
pub enum VBanBitResolution {
    VbanBitfmt8Int,
    VbanBitfmt16Int,
    VbanBitfmt24Int,
    VbanBitfmt32Int,
    VbanBitfmt32Float,
    VbanBitfmt64Float,
    VbanBitfmt12Int,
    VbanBitfmt10Int,
    VbanBitResolutionMax,
}

impl VBanBitResolution {
    /// The variant's wire code; the sentinel's 8 never fits the 3 bits.
    pub open spec fn spec_byte(self) -> u8 {
        match self {
            VBanBitResolution::VbanBitfmt8Int => 0,
            VBanBitResolution::VbanBitfmt16Int => 1,
            VBanBitResolution::VbanBitfmt24Int => 2,
            VBanBitResolution::VbanBitfmt32Int => 3,
            VBanBitResolution::VbanBitfmt32Float => 4,
            VBanBitResolution::VbanBitfmt64Float => 5,
            VBanBitResolution::VbanBitfmt12Int => 6,
            VBanBitResolution::VbanBitfmt10Int => 7,
            VBanBitResolution::VbanBitResolutionMax => 8,
        }
    }

    /// The variant named by the low 3 bits of `b`.
    pub open spec fn spec_from_byte(b: u8) -> VBanBitResolution {
        let lo = b % 8;
        if lo == 0 { VBanBitResolution::VbanBitfmt8Int }
        else if lo == 1 { VBanBitResolution::VbanBitfmt16Int }
        else if lo == 2 { VBanBitResolution::VbanBitfmt24Int }
        else if lo == 3 { VBanBitResolution::VbanBitfmt32Int }
        else if lo == 4 { VBanBitResolution::VbanBitfmt32Float }
        else if lo == 5 { VBanBitResolution::VbanBitfmt64Float }
        else if lo == 6 { VBanBitResolution::VbanBitfmt12Int }
        else { VBanBitResolution::VbanBitfmt10Int }
    }

    /// Reads the bit resolution out of the `format_codec` byte.
    pub fn from_byte(b: u8) -> (r: VBanBitResolution)
        ensures
            r == VBanBitResolution::spec_from_byte(b),
    {
        match b % 8 {
            0 => VBanBitResolution::VbanBitfmt8Int,
            1 => VBanBitResolution::VbanBitfmt16Int,
            2 => VBanBitResolution::VbanBitfmt24Int,
            3 => VBanBitResolution::VbanBitfmt32Int,
            4 => VBanBitResolution::VbanBitfmt32Float,
            5 => VBanBitResolution::VbanBitfmt64Float,
            6 => VBanBitResolution::VbanBitfmt12Int,
            _ => VBanBitResolution::VbanBitfmt10Int,
        }
    }

    /// The variant's wire code.
    pub fn to_byte(self) -> (r: u8)
        ensures
            r == self.spec_byte(),
            r <= 8,
    {
        match self {
            VBanBitResolution::VbanBitfmt8Int => 0,
            VBanBitResolution::VbanBitfmt16Int => 1,
            VBanBitResolution::VbanBitfmt24Int => 2,
            VBanBitResolution::VbanBitfmt32Int => 3,
            VBanBitResolution::VbanBitfmt32Float => 4,
            VBanBitResolution::VbanBitfmt64Float => 5,
            VBanBitResolution::VbanBitfmt12Int => 6,
            VBanBitResolution::VbanBitfmt10Int => 7,
            VBanBitResolution::VbanBitResolutionMax => 8,
        }
    }
}

// ****************************************
//              VBAN codec
// ****************************************

/// The codec carried in the high 4 bits of the `format_codec` byte. PCM and
/// Opus are the two this crate handles; the rest are named so that any byte
/// decodes.
#[derive(Clone, Copy, Debug, PartialEq, Eq, Structural)]
pub enum VBanCodec {
    VbanCodecPcm,
    VbanCodecVbca,
    VbanCodecVbcv,
    VbanCodecUndefined3,
    VbanCodecUndefined4,
    VbanCodecUndefined5,
    VbanCodecUndefined6,
    VbanCodecUndefined7,
    VbanCodecUndefined8,
    VbanCodecUndefined9,
    VbanCodecUndefined10,
    VbanCodecUndefined11,
    VbanCodecOpus,
    VbanCodecUndefined13,
    VbanCodecUndefined14,
    VbanCodecUser,
}

impl VBanCodec {
    /// The variant's wire bits: a multiple of 0x10 in the high nibble;
    /// Opus is 0xC0.
    pub open spec fn spec_byte(self) -> u8 {
        match self {
            VBanCodec::VbanCodecPcm => 0x00,
            VBanCodec::VbanCodecVbca => 0x10,
            VBanCodec::VbanCodecVbcv => 0x20,
            VBanCodec::VbanCodecUndefined3 => 0x30,
            VBanCodec::VbanCodecUndefined4 => 0x40,
            VBanCodec::VbanCodecUndefined5 => 0x50,
            VBanCodec::VbanCodecUndefined6 => 0x60,
            VBanCodec::VbanCodecUndefined7 => 0x70,
            VBanCodec::VbanCodecUndefined8 => 0x80,
            VBanCodec::VbanCodecUndefined9 => 0x90,
            VBanCodec::VbanCodecUndefined10 => 0xA0,
            VBanCodec::VbanCodecUndefined11 => 0xB0,
            VBanCodec::VbanCodecOpus => 0xC0,
            VBanCodec::VbanCodecUndefined13 => 0xD0,
            VBanCodec::VbanCodecUndefined14 => 0xE0,
            VBanCodec::VbanCodecUser => 0xF0,
        }
    }

    /// The variant named by the high nibble of `b`.
    pub open spec fn spec_from_byte(b: u8) -> VBanCodec {
        let hi = b / 0x10;
        if hi == 0 { VBanCodec::VbanCodecPcm }
        else if hi == 1 { VBanCodec::VbanCodecVbca }
        else if hi == 2 { VBanCodec::VbanCodecVbcv }
        else if hi == 3 { VBanCodec::VbanCodecUndefined3 }
        else if hi == 4 { VBanCodec::VbanCodecUndefined4 }
        else if hi == 5 { VBanCodec::VbanCodecUndefined5 }
        else if hi == 6 { VBanCodec::VbanCodecUndefined6 }
        else if hi == 7 { VBanCodec::VbanCodecUndefined7 }
        else if hi == 8 { VBanCodec::VbanCodecUndefined8 }
        else if hi == 9 { VBanCodec::VbanCodecUndefined9 }
        else if hi == 10 { VBanCodec::VbanCodecUndefined10 }
        else if hi == 11 { VBanCodec::VbanCodecUndefined11 }
        else if hi == 12 { VBanCodec::VbanCodecOpus }
        else if hi == 13 { VBanCodec::VbanCodecUndefined13 }
        else if hi == 14 { VBanCodec::VbanCodecUndefined14 }
        else { VBanCodec::VbanCodecUser }
    }

    /// Reads the codec out of the `format_codec` byte.
    pub fn from_byte(b: u8) -> (r: VBanCodec)
        ensures
            r == VBanCodec::spec_from_byte(b),
    {
        match b / 0x10 {
            0 => VBanCodec::VbanCodecPcm,
            1 => VBanCodec::VbanCodecVbca,
            2 => VBanCodec::VbanCodecVbcv,
            3 => VBanCodec::VbanCodecUndefined3,
            4 => VBanCodec::VbanCodecUndefined4,
            5 => VBanCodec::VbanCodecUndefined5,
            6 => VBanCodec::VbanCodecUndefined6,
            7 => VBanCodec::VbanCodecUndefined7,
            8 => VBanCodec::VbanCodecUndefined8,
            9 => VBanCodec::VbanCodecUndefined9,
            10 => VBanCodec::VbanCodecUndefined10,
            11 => VBanCodec::VbanCodecUndefined11,
            12 => VBanCodec::VbanCodecOpus,
            13 => VBanCodec::VbanCodecUndefined13,
            14 => VBanCodec::VbanCodecUndefined14,
            _ => VBanCodec::VbanCodecUser,
        }
    }

    /// The variant's wire bits.
    pub fn to_byte(self) -> (r: u8)
        ensures
            r == self.spec_byte(),
            r % 0x10 == 0,
    {
        match self {
            VBanCodec::VbanCodecPcm => 0x00,
            VBanCodec::VbanCodecVbca => 0x10,
            VBanCodec::VbanCodecVbcv => 0x20,
            VBanCodec::VbanCodecUndefined3 => 0x30,
            VBanCodec::VbanCodecUndefined4 => 0x40,
            VBanCodec::VbanCodecUndefined5 => 0x50,
            VBanCodec::VbanCodecUndefined6 => 0x60,
            VBanCodec::VbanCodecUndefined7 => 0x70,
            VBanCodec::VbanCodecUndefined8 => 0x80,
            VBanCodec::VbanCodecUndefined9 => 0x90,
            VBanCodec::VbanCodecUndefined10 => 0xA0,
            VBanCodec::VbanCodecUndefined11 => 0xB0,
            VBanCodec::VbanCodecOpus => 0xC0,
            VBanCodec::VbanCodecUndefined13 => 0xD0,
            VBanCodec::VbanCodecUndefined14 => 0xE0,
            VBanCodec::VbanCodecUser => 0xF0,
        }
    }
}

// ****************************************
//        Stream names on the wire
// ****************************************

/// The 16 wire bytes of a stream name: the name's bytes, right-zero-padded.
pub open spec fn spec_pad16(b: Seq<u8>) -> Seq<u8> {
    Seq::new(16, |i: int| if i < b.len() { b[i] } else { 0 })
}

/// Zero-pads a stream name of at most 16 bytes to its 16 wire bytes.
pub fn pad_stream_name(name: &[u8]) -> (r: [u8; 16])
    requires
        name@.len() <= 16,
    ensures
        r@ == spec_pad16(name@),
{
    let mut v: Vec<u8> = Vec::new();
    let mut i: usize = 0;
    while i < 16
        invariant
            i <= 16,
            v@.len() == i,
            name@.len() <= 16,
            forall|j: int| 0 <= j < v@.len() ==> v@[j] == spec_pad16(name@)[j],
        decreases 16 - i,
    {
        if i < name.len() {
            let b = name[i];
            v.push(b);
        } else {
            v.push(0);
        }
        i = i + 1;
    }
    let r = [
        v[0],
        v[1],
        v[2],
        v[3],
        v[4],
        v[5],
        v[6],
        v[7],
        v[8],
        v[9],
        v[10],
        v[11],
        v[12],
        v[13],
        v[14],
        v[15],
    ];
    assert(r@ =~= spec_pad16(name@));
    r
}

/// Compares two 16-byte names for the byte-for-byte match that stream
/// filtering asks for.
pub fn bytes16_eq(a: &[u8; 16], b: &[u8; 16]) -> (r: bool)
    ensures
        r <==> a@ == b@,
{
    let mut eq = true;
    let mut i: usize = 0;
    while i < 16
        invariant
            i <= 16,
            eq ==> forall|j: int| 0 <= j < i ==> a@[j] == b@[j],
            !eq ==> a@ != b@,
        decreases 16 - i,
    {
        if a[i] != b[i] {
            eq = false;
        }
        i = i + 1;
    }
    if eq {
        assert(a@ =~= b@);
    }
    eq
}

// ****************************************
//              VBAN header
// ****************************************

/// The structured fields of the 28-byte header. The compound `sr_sp` and
/// `format_codec` bytes stand here as their two sub-fields each; the
/// preamble is fixed and carries no field.
#[derive(Clone, Copy, Debug, PartialEq, Eq)]
pub struct VBanHeader {
    /// Index into the sample-rate table: the low 5 bits of byte 4.
    pub sr_index: u8,
    /// Sub-protocol: the high 3 bits of byte 4.
    pub sub_protocol: VBanProtocol,
    /// Samples per channel minus one.
    pub num_samples: u8,
    /// Channels minus one.
    pub num_channels: u8,
    /// Bit resolution: the low 3 bits of byte 7.
    pub bit_resolution: VBanBitResolution,
    /// Codec: the high 4 bits of byte 7.
    pub codec: VBanCodec,
    /// Stream name, zero-padded to its 16 wire bytes.
    pub stream_name: [u8; 16],
    /// Per-packet counter, little-endian on the wire.
    pub frame_counter: u32,
}

/// Why a byte block is no VBAN header.
#[derive(Clone, Copy, Debug, PartialEq, Eq, Structural)]
pub enum ParseError {
    /// The first four bytes are not `VBAN`.
    BadPreamble,
    /// The sample-rate index exceeds the 21-entry table.
    InvalidSampleRate,
}

impl VBanHeader {
    /// A header whose fields all have a wire form: the sample-rate index is
    /// in the table and the bit resolution is no sentinel.
    pub open spec fn wf(self) -> bool {
        self.sr_index <= VBAN_SR_MAX_INDEX && self.bit_resolution.spec_byte() <= 7
    }
}

/// The compound byte 4: sub-protocol bits over the sample-rate index.
pub open spec fn spec_sr_sp_byte(h: VBanHeader) -> u8 {
    (h.sub_protocol.spec_byte() + h.sr_index) as u8
}

/// The compound byte 7: codec bits over the bit-resolution code.
pub open spec fn spec_format_byte(h: VBanHeader) -> u8 {
    (h.codec.spec_byte() + h.bit_resolution.spec_byte()) as u8
}

/// The 28 wire bytes of a header.
pub open spec fn spec_encode_header(h: VBanHeader) -> Seq<u8> {
    seq![
        0x56u8,
        0x42u8,
        0x41u8,
        0x4Eu8,
        spec_sr_sp_byte(h),
        h.num_samples,
        h.num_channels,
        spec_format_byte(h),
    ] + h.stream_name@ + spec_u32_le(h.frame_counter)
}

/// The first four bytes read `VBAN`.
pub open spec fn spec_preamble_ok(b: Seq<u8>) -> bool {
    b[0] == 0x56 && b[1] == 0x42 && b[2] == 0x41 && b[3] == 0x4E
}

/// The byte block decodes: preamble present and sample-rate index in the
/// table.
pub open spec fn spec_header_decodes(b: Seq<u8>) -> bool {
    spec_preamble_ok(b) && b[4] as int % 32 <= VBAN_SR_MAX_INDEX
}

/// `h` holds exactly the fields that the byte block `b` carries.
pub open spec fn spec_decodes_to(b: Seq<u8>, h: VBanHeader) -> bool {
    &&& h.sr_index == b[4] as int % 32
    &&& h.sub_protocol == VBanProtocol::spec_from_byte(b[4])
    &&& h.num_samples == b[5]
    &&& h.num_channels == b[6]
    &&& h.bit_resolution == VBanBitResolution::spec_from_byte(b[7])
    &&& h.codec == VBanCodec::spec_from_byte(b[7])
    &&& h.stream_name@ == b.subrange(8, 24)
    &&& h.frame_counter == spec_u32_of_le(b[24], b[25], b[26], b[27])
}

/// Emits the 28 header bytes:
/// `preamble || sr_index|sub_protocol || num_samples || num_channels ||
/// bit_res|codec || stream_name || frame_counter (little-endian)`.
pub fn encode_header(h: &VBanHeader) -> (r: Vec<u8>)
    requires
        h.wf(),
    ensures
        r@ == spec_encode_header(*h),
        r@.len() == 28,
{
    let mut out: Vec<u8> = Vec::new();
    out.push(0x56);
    out.push(0x42);
    out.push(0x41);
    out.push(0x4E);
    out.push(h.sub_protocol.to_byte() + h.sr_index);
    out.push(h.num_samples);
    out.push(h.num_channels);
    out.push(h.codec.to_byte() + h.bit_resolution.to_byte());
    let ghost prefix = out@;
    let mut i: usize = 0;
    while i < 16
        invariant
            i <= 16,
            out@ == prefix + h.stream_name@.take(i as int),
        decreases 16 - i,
    {
        out.push(h.stream_name[i]);
        assert(out@ =~= prefix + h.stream_name@.take(i as int + 1));
        i = i + 1;
    }
    assert(h.stream_name@.take(16) =~= h.stream_name@);
    push_u32_le(&mut out, h.frame_counter);
    assert(out@ =~= spec_encode_header(*h));
    out
}

/// Parses the 28 header bytes at the head of `bytes`. Fails with
/// `BadPreamble` if the first four bytes are not `VBAN`, then with
/// `InvalidSampleRate` if the low 5 bits of byte 4 exceed the table.
pub fn decode_header(bytes: &Vec<u8>) -> (r: Result<VBanHeader, ParseError>)
    requires
        bytes@.len() >= 28,
    ensures
        r matches Ok(h) ==> spec_header_decodes(bytes@) && spec_decodes_to(bytes@, h) && h.wf(),
        r == Err::<VBanHeader, ParseError>(ParseError::BadPreamble) <==> !spec_preamble_ok(bytes@),
        r == Err::<VBanHeader, ParseError>(ParseError::InvalidSampleRate) <==> (spec_preamble_ok(
            bytes@,
        ) && bytes@[4] as int % 32 > VBAN_SR_MAX_INDEX),
        r is Ok <==> spec_header_decodes(bytes@),
{
    if !(bytes[0] == 0x56 && bytes[1] == 0x42 && bytes[2] == 0x41 && bytes[3] == 0x4E) {
        return Err(ParseError::BadPreamble);
    }
    let sr_sp = bytes[4];
    let sr_index = sr_sp % 32;
    if sr_index > VBAN_SR_MAX_INDEX {
        return Err(ParseError::InvalidSampleRate);
    }
    let fmt = bytes[7];
    let stream_name = [
        bytes[8],
        bytes[9],
        bytes[10],
        bytes[11],
        bytes[12],
        bytes[13],
        bytes[14],
        bytes[15],
        bytes[16],
        bytes[17],
        bytes[18],
        bytes[19],
        bytes[20],
        bytes[21],
        bytes[22],
        bytes[23],
    ];
    let h = VBanHeader {
        sr_index,
        sub_protocol: VBanProtocol::from_byte(sr_sp),
        num_samples: bytes[5],
        num_channels: bytes[6],
        bit_resolution: VBanBitResolution::from_byte(fmt),
        codec: VBanCodec::from_byte(fmt),
        stream_name,
        frame_counter: u32_from_le(bytes[24], bytes[25], bytes[26], bytes[27]),
    };
    assert(h.stream_name@ =~= bytes@.subrange(8, 24));
    Ok(h)
}

/// The wire form itself caps the declared counts: whatever header a packet
/// carries, its samples per channel and its channels, each the wire byte
/// plus one, stay at or under 256.
pub proof fn lemma_wire_counts_bounded(h: VBanHeader)
    ensures
        h.num_samples + 1 <= 256,
        h.num_channels + 1 <= 256,
{
}

/// Decoding undoes encoding: the 28 bytes of any well-formed header parse,
/// and they parse back to exactly that header —
/// `decode_header(encode_header(h)) == h`.
pub proof fn lemma_header_round_trip(h: VBanHeader)
    requires
        h.wf(),
    ensures
        spec_header_decodes(spec_encode_header(h)),
        spec_decodes_to(spec_encode_header(h), h),
{
    let b = spec_encode_header(h);
    let sp = h.sub_protocol.spec_byte() as int;
    let idx = h.sr_index as int;
    assert(b[4] == (sp + idx) as u8);
    assert(sp % 32 == 0 && sp / 32 <= 7);
    assert((sp + idx) % 32 == idx && (sp + idx) / 32 == sp / 32) by (nonlinear_arith)
        requires
            sp % 32 == 0,
            0 <= idx < 32,
            0 <= sp <= 0xE0,
    ;
    let cd = h.codec.spec_byte() as int;
    let br = h.bit_resolution.spec_byte() as int;
    assert(b[7] == (cd + br) as u8);
    assert(cd % 16 == 0 && cd % 8 == 0);
    assert((cd + br) % 8 == br && (cd + br) / 16 == cd / 16) by (nonlinear_arith)
        requires
            cd % 16 == 0,
            cd % 8 == 0,
            0 <= br < 8,
            0 <= cd <= 0xF0,
    ;
    assert(b.subrange(8, 24) =~= h.stream_name@);
    let fc = h.frame_counter;
    assert(b[24] == (fc as int % 256) as u8);
    assert(spec_u32_of_le(b[24], b[25], b[26], b[27]) == fc);
}

} // verus!

