//! Value types of the audio API: format identifiers and flags, channel
//! labels, channel-layout tags and the small fixed-size description
//! structs.
//!
//! The numeric codes the API defines are kept as plain `u32` constants and
//! wrapped in their newtypes at the point of use.

use vstd::prelude::*;

verus! {

/// Identifies one audio data format (a four-character code).
#[derive(Clone, Copy, PartialEq, Eq, Structural, Debug)]
pub struct AudioFormat(pub u32);

impl AudioFormat {
    pub const LINEAR_PCM: u32 = 1819304813;
    pub const AC3: u32 = 1633889587;
    pub const _60958AC3: u32 = 1667326771;
    pub const APPLE_IMA4: u32 = 1768775988;
    pub const MPEG4_AAC: u32 = 1633772320;
    pub const MPEG4_CELP: u32 = 1667591280;
    pub const MPEG4_HVXC: u32 = 1752594531;
    pub const MPEG4_TWIN_VQ: u32 = 1953986161;
    pub const MACE3: u32 = 1296122675;
    pub const MACE6: u32 = 1296122678;
    pub const U_LAW: u32 = 1970037111;
    pub const A_LAW: u32 = 1634492791;
    pub const QDESIGN: u32 = 1363430723;
    pub const QDESIGN2: u32 = 1363430706;
    pub const QUALCOMM: u32 = 1365470320;
    pub const MPEGLAYER1: u32 = 778924081;
    pub const MPEGLAYER2: u32 = 778924082;
    pub const MPEGLAYER3: u32 = 778924083;
    pub const TIME_CODE: u32 = 1953066341;
    pub const MIDI_STREAM: u32 = 1835623529;
    pub const PARAMETER_VALUE_STREAM: u32 = 1634760307;
    pub const APPLE_LOSSLESS: u32 = 1634492771;
    pub const MPEG4AAC_HE: u32 = 1633772392;
    pub const MPEG4AAC_LD: u32 = 1633772396;
    pub const MPEG4AAC_ELD: u32 = 1633772389;
    pub const MPEG4AAC_ELD_SBR: u32 = 1633772390;
    pub const MPEG4AAC_ELD_V2: u32 = 1633772391;
    pub const MPEG4AAC_HE_V2: u32 = 1633772400;
    pub const MPEG4AAC_SPATIAL: u32 = 1633772403;
    pub const AMR: u32 = 1935764850;
    pub const AMR_WB: u32 = 1935767394;
    pub const AUDIBLE: u32 = 1096107074;
    pub const ILBC: u32 = 1768710755;
    pub const DVI_INTEL_IMA: u32 = 1836253201;
    pub const MICROSOFT_GSM: u32 = 1836253233;
    pub const AES3: u32 = 1634038579;
    pub const ENHANCED_AC3: u32 = 1700998451;
    pub const FLAC: u32 = 1718378851;
    pub const OPUS: u32 = 1869641075;
}

/// A set of flags qualifying an audio data format.
#[derive(Clone, Copy, PartialEq, Eq, Structural, Debug)]
pub struct AudioFormatFlags(pub u32);

impl AudioFormatFlags {
    pub const IS_FLOAT: u32 = 1;
    pub const IS_BIG_ENDIAN: u32 = 2;
    pub const IS_SIGNED_INTEGER: u32 = 4;
    pub const IS_PACKED: u32 = 8;
    pub const IS_ALIGNED_HIGH: u32 = 16;
    pub const IS_NON_INTERLEAVED: u32 = 32;
    pub const IS_NON_MIXABLE: u32 = 64;
    pub const ARE_ALL_CLEAR: u32 = 2147483648;
    /// On this little-endian target the native-endian flag is the empty set.
    pub const NATIVE_ENDIAN: u32 = 0;

    /// The empty flag set.
    pub fn empty() -> (r: AudioFormatFlags)
        ensures
            r.0 == 0,
    {
        AudioFormatFlags(0)
    }

    /// The union of two flag sets.
    pub fn union(self, other: AudioFormatFlags) -> (r: AudioFormatFlags)
        ensures
            r.0 == self.0 | other.0,
    {
        AudioFormatFlags(self.0 | other.0)
    }

    /// The flags both sets share.
    pub fn intersection(self, other: AudioFormatFlags) -> (r: AudioFormatFlags)
        ensures
            r.0 == self.0 & other.0,
    {
        AudioFormatFlags(self.0 & other.0)
    }

    /// Whether every flag of `other` is set in `self`.
    pub fn contains(self, other: AudioFormatFlags) -> (r: bool)
        ensures
            r == (self.0 & other.0 == other.0),
    {
        self.0 & other.0 == other.0
    }

    /// The flag set for linear PCM data with the given sample layout:
    /// float or signed integer, optionally big-endian, packed exactly when
    /// the valid bits fill the channel, optionally non-interleaved.
    pub fn with_lpcm_flags(
        valid_bits_per_channel: u32,
        total_bits_per_channel: u32,
        is_float: bool,
        is_big_endian: bool,
        is_non_interleaved: bool,
    ) -> (r: AudioFormatFlags)
        ensures
            r.0 == (if is_float { 1u32 } else { 4u32 }) | (if is_big_endian { 2u32 } else { 0u32 })
                | (if valid_bits_per_channel == total_bits_per_channel { 8u32 } else { 16u32 })
                | (if is_non_interleaved { 32u32 } else { 0u32 }),
    {
        let mut bits: u32 = if is_float {
            AudioFormatFlags::IS_FLOAT
        } else {
            AudioFormatFlags::IS_SIGNED_INTEGER
        };
        let endian: u32 = if is_big_endian {
            AudioFormatFlags::IS_BIG_ENDIAN
        } else {
            0
        };
        bits = bits | endian;
        bits = bits | (
            if valid_bits_per_channel == total_bits_per_channel {
                AudioFormatFlags::IS_PACKED
            } else {
                AudioFormatFlags::IS_ALIGNED_HIGH
            }
        );
        let interleave: u32 = if is_non_interleaved {
            AudioFormatFlags::IS_NON_INTERLEAVED
        } else {
            0
        };
        bits = bits | interleave;
        AudioFormatFlags(bits)
    }
}

/// The bytes one frame (and, with one frame per packet, one packet) of
/// linear PCM occupies: one channel's bytes when the channels are kept in
/// separate buffers, all channels' bytes when they are interleaved.
pub fn lpcm_bytes_per_frame(
    channels_per_frame: u32,
    total_bits_per_channel: u32,
    is_non_interleaved: bool,
) -> (r: u32)
    requires
        (if is_non_interleaved { 1int } else { channels_per_frame as int }) * (
        total_bits_per_channel as int / 8) <= u32::MAX,
    ensures
        r == (if is_non_interleaved { 1int } else { channels_per_frame as int }) * (
        total_bits_per_channel as int / 8),
{
    let channels: u32 = if is_non_interleaved {
        1
    } else {
        channels_per_frame
    };
    channels * (total_bits_per_channel / 8)
}

/// Whether a stream description names linear PCM stored in this machine's
/// own byte order: the format is linear PCM and the big-endian flag
/// matches the native-endian flag set, which is empty here.
pub fn lpcm_is_native_endian(format_id: AudioFormat, format_flags: AudioFormatFlags) -> (r: bool)
    ensures
        r == (format_id.0 == AudioFormat::LINEAR_PCM && format_flags.0
            & AudioFormatFlags::IS_BIG_ENDIAN == AudioFormatFlags::NATIVE_ENDIAN),
{
    format_id.0 == AudioFormat::LINEAR_PCM
        && format_flags.intersection(AudioFormatFlags(AudioFormatFlags::IS_BIG_ENDIAN)).0
            == AudioFormatFlags::NATIVE_ENDIAN
}

/// Describes one packet of audio data in a buffer of variable-sized
/// packets.
#[derive(Clone, Copy, PartialEq, Eq, Structural, Debug)]
pub struct AudioStreamPacketDescription {
    pub start_offset: i64,
    pub variable_frames_in_packet: u32,
    pub data_byte_size: u32,
}

/// Identifies an audio codec component by type, subtype and manufacturer.
#[derive(Clone, Copy, PartialEq, Eq, Structural, Debug)]
pub struct AudioClassDescription {
    pub component_type: u32,
    pub component_sub_type: u32,
    pub component_manufacturer: u32,
}

/// Identifies the role of one channel (a speaker position or a generic
/// slot).
#[derive(Clone, Copy, PartialEq, Eq, Structural, Debug)]
pub struct AudioChannelLabel(pub u32);

impl AudioChannelLabel {
    pub const UNKNOWN: u32 = 4294967295;
    pub const UNUSED: u32 = 0;
    pub const USE_COORDINATES: u32 = 100;
}

/// A set of channels named by one bit each.
#[derive(Clone, Copy, PartialEq, Eq, Structural, Debug)]
pub struct AudioChannelBitmap(pub u32);

impl AudioChannelBitmap {
    pub const LEFT: u32 = 1;
    pub const RIGHT: u32 = 2;
    pub const CENTER: u32 = 4;
    pub const LFESCREEN: u32 = 8;
    pub const LEFT_SURROUND: u32 = 16;
    pub const RIGHT_SURROUND: u32 = 32;
    pub const LEFT_CENTER: u32 = 64;
    pub const RIGHT_CENTER: u32 = 128;
    pub const CENTER_SURROUND: u32 = 256;
    pub const LEFT_SURROUND_DIRECT: u32 = 512;
    pub const RIGHT_SURROUND_DIRECT: u32 = 1024;
    pub const TOP_CENTER_SURROUND: u32 = 2048;
    pub const VERTICAL_HEIGHT_LEFT: u32 = 4096;
    pub const VERTICAL_HEIGHT_CENTER: u32 = 8192;
    pub const VERTICAL_HEIGHT_RIGHT: u32 = 16384;
    pub const TOP_BACK_LEFT: u32 = 32768;
    pub const TOP_BACK_CENTER: u32 = 65536;
    pub const TOP_BACK_RIGHT: u32 = 131072;

    /// Whether every channel of `other` is present in `self`.
    pub fn contains(self, other: AudioChannelBitmap) -> (r: bool)
        ensures
            r == (self.0 & other.0 == other.0),
    {
        self.0 & other.0 == other.0
    }
}

/// Flags describing how a channel's coordinates are to be read.
#[derive(Clone, Copy, PartialEq, Eq, Structural, Debug)]
pub struct AudioChannelFlags(pub u32);

impl AudioChannelFlags {
    pub const ALL_OFF: u32 = 0;
    pub const RECTANGULAR_COORDINATES: u32 = 1;
    pub const SPHERICAL_COORDINATES: u32 = 2;
    pub const METERS: u32 = 4;

    /// Whether every flag of `other` is set in `self`.
    pub fn contains(self, other: AudioChannelFlags) -> (r: bool)
        ensures
            r == (self.0 & other.0 == other.0),
    {
        self.0 & other.0 == other.0
    }
}

/// Names a channel layout: either a reference to per-channel descriptions
/// or a bitmap, or one of the predefined layouts, with the channel count in
/// the low 16 bits.
#[derive(Clone, Copy, PartialEq, Eq, Structural, Debug)]
pub struct AudioChannelLayoutTag(pub u32);

impl AudioChannelLayoutTag {
    pub const USE_CHANNEL_DESCRIPTIONS: u32 = 0;
    pub const USE_CHANNEL_BITMAP: u32 = 65536;
    pub const DISCRETE_IN_ORDER: u32 = 9633792;
    pub const UNKNOWN: u32 = 4294901760;

    /// The channel count carried in the tag's low 16 bits.
    pub fn channels(&self) -> (n: usize)
        ensures
            n == self.0 & 0xFFFF,
    {
        (self.0 & 0xFFFF) as usize
    }

    /// The discrete-in-order layout of `channels` channels.  The channel
    /// count always reads back out of the tag.
    pub fn discrete_in_order(channels: u16) -> (r: AudioChannelLayoutTag)
        ensures
            r.0 == AudioChannelLayoutTag::DISCRETE_IN_ORDER | channels as u32,
            r.0 & 0xFFFF == channels,
    {
        proof {
            assert(((9633792u32 | (channels as u32)) & 0xFFFF) == channels as u32) by (bit_vector);
        }
        AudioChannelLayoutTag(AudioChannelLayoutTag::DISCRETE_IN_ORDER | channels as u32)
    }

    /// The unknown layout of `channels` channels.  The channel count
    /// always reads back out of the tag.
    pub fn unknown(channels: u16) -> (r: AudioChannelLayoutTag)
        ensures
            r.0 == AudioChannelLayoutTag::UNKNOWN | channels as u32,
            r.0 & 0xFFFF == channels,
    {
        proof {
            assert(((4294901760u32 | (channels as u32)) & 0xFFFF) == channels as u32) by (bit_vector);
        }
        AudioChannelLayoutTag(AudioChannelLayoutTag::UNKNOWN | channels as u32)
    }
}

/// Labels for the standard speaker positions.
pub struct StandardChannelLabel {}

impl StandardChannelLabel {
    pub const LEFT: u32 = 1;
    pub const RIGHT: u32 = 2;
    pub const CENTER: u32 = 3;
    pub const LFESCREEN: u32 = 4;
    pub const LEFT_SURROUND: u32 = 5;
    pub const RIGHT_SURROUND: u32 = 6;
    pub const LEFT_CENTER: u32 = 7;
    pub const RIGHT_CENTER: u32 = 8;
    pub const CENTER_SURROUND: u32 = 9;
    pub const LEFT_SURROUND_DIRECT: u32 = 10;
    pub const RIGHT_SURROUND_DIRECT: u32 = 11;
    pub const TOP_CENTER_SURROUND: u32 = 12;
    pub const VERTICAL_HEIGHT_LEFT: u32 = 13;
    pub const VERTICAL_HEIGHT_CENTER: u32 = 14;
    pub const VERTICAL_HEIGHT_RIGHT: u32 = 15;
    pub const TOP_BACK_LEFT: u32 = 16;
    pub const TOP_BACK_CENTER: u32 = 17;
    pub const TOP_BACK_RIGHT: u32 = 18;
    pub const REAR_SURROUND_LEFT: u32 = 33;
    pub const REAR_SURROUND_RIGHT: u32 = 34;
    pub const LEFT_WIDE: u32 = 35;
    pub const RIGHT_WIDE: u32 = 36;
    pub const LFE2: u32 = 37;
    pub const LEFT_TOTAL: u32 = 38;
    pub const RIGHT_TOTAL: u32 = 39;
    pub const HEARING_IMPAIRED: u32 = 40;
    pub const NARRATION: u32 = 41;
    pub const MONO: u32 = 42;
    pub const DIALOG_CENTRIC_MIX: u32 = 43;
    pub const CENTER_SURROUND_DIRECT: u32 = 44;
    pub const HAPTIC: u32 = 45;
}

/// Labels for first-order ambisonic components.
pub struct AmbisonicChannelLabel {}

impl AmbisonicChannelLabel {
    pub const W: u32 = 200;
    pub const X: u32 = 201;
    pub const Y: u32 = 202;
    pub const Z: u32 = 203;
}

/// Labels for mid/side recording.
pub struct MidSideChannelLabel {}

impl MidSideChannelLabel {
    pub const MID: u32 = 204;
    pub const SIDE: u32 = 205;
}

/// Labels for X-Y recording.
pub struct XyChannelLabel {}

impl XyChannelLabel {
    pub const X: u32 = 206;
    pub const Y: u32 = 207;
}

/// Labels for the remaining special channels.
pub struct OtherChannelLabel {}

impl OtherChannelLabel {
    pub const HEADPHONES_LEFT: u32 = 301;
    pub const HEADPHONES_RIGHT: u32 = 302;
    pub const CLICK_TRACK: u32 = 304;
    pub const FOREIGN_LANGUAGE: u32 = 305;
}

/// Labels for generic discrete channels.
pub struct DiscreteChannelLabel {}

impl DiscreteChannelLabel {
    pub const DISCRETE: u32 = 400;
    pub const DISCRETE_0: u32 = 65536;
    pub const DISCRETE_1: u32 = 65537;
    pub const DISCRETE_2: u32 = 65538;
    pub const DISCRETE_3: u32 = 65539;
    pub const DISCRETE_4: u32 = 65540;
    pub const DISCRETE_5: u32 = 65541;
    pub const DISCRETE_6: u32 = 65542;
    pub const DISCRETE_7: u32 = 65543;
    pub const DISCRETE_8: u32 = 65544;
    pub const DISCRETE_9: u32 = 65545;
    pub const DISCRETE_10: u32 = 65546;
    pub const DISCRETE_11: u32 = 65547;
    pub const DISCRETE_12: u32 = 65548;
    pub const DISCRETE_13: u32 = 65549;
    pub const DISCRETE_14: u32 = 65550;
    pub const DISCRETE_15: u32 = 65551;
    pub const DISCRETE_65535: u32 = 131071;
}

/// Labels for higher-order ambisonic channels in ACN order.
pub struct HoaAcnChannelLabel {}

impl HoaAcnChannelLabel {
    pub const HOA_ACN: u32 = 500;
    pub const HOA_ACN0: u32 = 131072;
    pub const HOA_ACN1: u32 = 131073;
    pub const HOA_ACN2: u32 = 131074;
    pub const HOA_ACN3: u32 = 131075;
    pub const HOA_ACN4: u32 = 131076;
    pub const HOA_ACN5: u32 = 131077;
    pub const HOA_ACN6: u32 = 131078;
    pub const HOA_ACN7: u32 = 131079;
    pub const HOA_ACN8: u32 = 131080;
    pub const HOA_ACN9: u32 = 131081;
    pub const HOA_ACN10: u32 = 131082;
    pub const HOA_ACN11: u32 = 131083;
    pub const HOA_ACN12: u32 = 131084;
    pub const HOA_ACN13: u32 = 131085;
    pub const HOA_ACN14: u32 = 131086;
    pub const HOA_ACN15: u32 = 131087;
    pub const HOA_ACN65024: u32 = 196096;
}

/// The standard speaker layouts.
pub struct StandardChannelLayoutTag {}

impl StandardChannelLayoutTag {
    pub const MONO: u32 = 6553601;
    pub const STEREO: u32 = 6619138;
    pub const STEREO_HEADPHONES: u32 = 6684674;
    pub const MATRIX_STEREO: u32 = 6750210;
    pub const MID_SIDE: u32 = 6815746;
    pub const XY: u32 = 6881282;
    pub const BINAURAL: u32 = 6946818;
    pub const AMBISONIC_B_FORMAT: u32 = 7012356;
    pub const QUADRAPHONIC: u32 = 7077892;
    pub const PENTAGONAL: u32 = 7143429;
    pub const HEXAGONAL: u32 = 7208966;
    pub const OCTAGONAL: u32 = 7274504;
    pub const CUBE: u32 = 7340040;
}

/// Layouts defined by MPEG.
pub struct MpegChannelLayoutTag {}

impl MpegChannelLayoutTag {
    pub const _1_0: u32 = 6553601;
    pub const _2_0: u32 = 6619138;
    pub const _3_0_A: u32 = 7405571;
    pub const _3_0_B: u32 = 7471107;
    pub const _4_0_A: u32 = 7536644;
    pub const _4_0_B: u32 = 7602180;
    pub const _5_0_A: u32 = 7667717;
    pub const _5_0_B: u32 = 7733253;
    pub const _5_0_C: u32 = 7798789;
    pub const _5_0_D: u32 = 7864325;
    pub const _5_1_A: u32 = 7929862;
    pub const _5_1_B: u32 = 7995398;
    pub const _5_1_C: u32 = 8060934;
    pub const _5_1_D: u32 = 8126470;
    pub const _6_1_A: u32 = 8192007;
    pub const _7_1_A: u32 = 8257544;
    pub const _7_1_B: u32 = 8323080;
    pub const _7_1_C: u32 = 8388616;
    pub const EMAGIC_DEFAULT_7_1: u32 = 8454152;
    pub const SMPTE_DTV: u32 = 8519688;
}

/// Layouts defined by the ITU.
pub struct ItuChannelLayoutTag {}

impl ItuChannelLayoutTag {
    pub const _1_0: u32 = 6553601;
    pub const _2_0: u32 = 6619138;
    pub const _2_1: u32 = 8585219;
    pub const _2_2: u32 = 8650756;
    pub const _3_0: u32 = 7405571;
    pub const _3_1: u32 = 7536644;
    pub const _3_2: u32 = 7667717;
    pub const _3_2_1: u32 = 7929862;
    pub const _3_4_1: u32 = 8388616;
}

/// Layouts defined for DVD audio.
pub struct DvdChannelLayoutTag {}

impl DvdChannelLayoutTag {
    pub const _0: u32 = 6553601;
    pub const _1: u32 = 6619138;
    pub const _2: u32 = 8585219;
    pub const _3: u32 = 8650756;
    pub const _4: u32 = 8716291;
    pub const _5: u32 = 8781828;
    pub const _6: u32 = 8847365;
    pub const _7: u32 = 7405571;
    pub const _8: u32 = 7536644;
    pub const _9: u32 = 7667717;
    pub const _10: u32 = 8912900;
    pub const _11: u32 = 8978437;
    pub const _12: u32 = 7929862;
    pub const _13: u32 = 7536644;
    pub const _14: u32 = 7667717;
    pub const _15: u32 = 8912900;
    pub const _16: u32 = 8978437;
    pub const _17: u32 = 7929862;
    pub const _18: u32 = 9043973;
    pub const _19: u32 = 7733253;
    pub const _20: u32 = 7995398;
}

/// Symmetrical layouts recommended for AudioUnit use.
pub struct AudioUnitChannelLayoutTag {}

impl AudioUnitChannelLayoutTag {
    pub const _4: u32 = 7077892;
    pub const _5: u32 = 7143429;
    pub const _6: u32 = 7208966;
    pub const _8: u32 = 7274504;
    pub const _5_0: u32 = 7733253;
    pub const _6_0: u32 = 9109510;
    pub const _7_0: u32 = 9175047;
    pub const _7_0_FRONT: u32 = 9699335;
    pub const _5_1: u32 = 7929862;
    pub const _6_1: u32 = 8192007;
    pub const _7_1: u32 = 8388616;
    pub const _7_1_FRONT: u32 = 8257544;
}

/// Layouts used by AAC.
pub struct AacChannelLayoutTag {}

impl AacChannelLayoutTag {
    pub const _3_0: u32 = 7471107;
    pub const QUADRAPHONIC: u32 = 7077892;
    pub const _4_0: u32 = 7602180;
    pub const _5_0: u32 = 7864325;
    pub const _5_1: u32 = 8126470;
    pub const _6_0: u32 = 9240582;
    pub const _6_1: u32 = 9306119;
    pub const _7_0: u32 = 9371655;
    pub const _7_1: u32 = 8323080;
    pub const _7_1_B: u32 = 11993096;
    pub const _7_1_C: u32 = 12058632;
    pub const OCTAGONAL: u32 = 9437192;
}

/// The TMH 10.2 layouts.
pub struct TmhChannelLayoutTag {}

impl TmhChannelLayoutTag {
    pub const _10_2_STD: u32 = 9502736;
    pub const _10_2_FULL: u32 = 9568277;
}

/// Layouts used by AC-3.
pub struct Ac3ChannelLayoutTag {}

impl Ac3ChannelLayoutTag {
    pub const _1_0_1: u32 = 9764866;
    pub const _3_0: u32 = 9830403;
    pub const _3_1: u32 = 9895940;
    pub const _3_0_1: u32 = 9961476;
    pub const _2_1_1: u32 = 10027012;
    pub const _3_1_1: u32 = 10092549;
}

/// Layouts used by Enhanced AC-3.
pub struct Eac3ChannelLayoutTag {}

impl Eac3ChannelLayoutTag {
    pub const _6_0_A: u32 = 10158086;
    pub const _7_0_A: u32 = 10223623;
    pub const _6_1_A: u32 = 10289159;
    pub const _6_1_B: u32 = 10354695;
    pub const _6_1_C: u32 = 10420231;
    pub const _7_1_A: u32 = 10485768;
    pub const _7_1_B: u32 = 10551304;
    pub const _7_1_C: u32 = 10616840;
    pub const _7_1_D: u32 = 10682376;
    pub const _7_1_E: u32 = 10747912;
    pub const _7_1_F: u32 = 10813448;
    pub const _7_1_G: u32 = 10878984;
    pub const _7_1_H: u32 = 10944520;
}

/// Layouts used by DTS.
pub struct DtsChannelLayoutTag {}

impl DtsChannelLayoutTag {
    pub const _3_1: u32 = 11010052;
    pub const _4_1: u32 = 11075589;
    pub const _6_0_A: u32 = 11141126;
    pub const _6_0_B: u32 = 11206662;
    pub const _6_0_C: u32 = 11272198;
    pub const _6_1_A: u32 = 11337735;
    pub const _6_1_B: u32 = 11403271;
    pub const _6_1_C: u32 = 11468807;
    pub const _7_0: u32 = 11534343;
    pub const _7_1: u32 = 11599880;
    pub const _8_0_A: u32 = 11665416;
    pub const _8_0_B: u32 = 11730952;
    pub const _8_1_A: u32 = 11796489;
    pub const _8_1_B: u32 = 11862025;
    pub const _6_1_D: u32 = 11927559;
}

/// Higher-order ambisonic layouts.
pub struct HoaChannelLayoutTag {}

impl HoaChannelLayoutTag {
    pub const ACN_SN3D: u32 = 12451840;
    pub const ACN_N3D: u32 = 12517376;
}

} // verus!
