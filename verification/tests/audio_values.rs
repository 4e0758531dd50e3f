use core_audio::audio_buffer_list::AudioBuffer;
use core_audio::audio_buffer_list::AudioBufferList;
use core_audio::audio_channel_layout::AudioChannelDescription;
use core_audio::audio_channel_layout::AudioChannelLayout;
use core_audio::core_audio_types::AudioChannelBitmap;
use core_audio::core_audio_types::AudioChannelFlags;
use core_audio::core_audio_types::AudioChannelLabel;
use core_audio::core_audio_types::AudioChannelLayoutTag;
use core_audio::core_audio_types::lpcm_bytes_per_frame;
use core_audio::core_audio_types::lpcm_is_native_endian;
use core_audio::core_audio_types::AudioFormat;
use core_audio::core_audio_types::AudioFormatFlags;
use core_audio::core_audio_types::StandardChannelLabel;
use core_audio::core_audio_types::StandardChannelLayoutTag;

#[test]
fn lpcm_flags_float_big_endian_packed() {
    let f = AudioFormatFlags::with_lpcm_flags(32, 32, true, true, false);
    assert_eq!(f.0, 1 | 2 | 8);
}

#[test]
fn lpcm_flags_integer_aligned_high_non_interleaved() {
    let f = AudioFormatFlags::with_lpcm_flags(24, 32, false, false, true);
    assert_eq!(f.0, 4 | 16 | 32);
}

#[test]
fn lpcm_flags_integer_packed_little_endian() {
    let f = AudioFormatFlags::with_lpcm_flags(16, 16, false, false, false);
    assert_eq!(f.0, 4 | 8);
    assert!(f.contains(AudioFormatFlags(AudioFormatFlags::IS_SIGNED_INTEGER)));
    assert!(!f.contains(AudioFormatFlags(AudioFormatFlags::IS_FLOAT)));
}

#[test]
fn flag_set_operations() {
    let a = AudioFormatFlags(AudioFormatFlags::IS_FLOAT);
    let b = AudioFormatFlags(AudioFormatFlags::IS_PACKED);
    assert_eq!(a.union(b).0, 9);
    assert_eq!(a.intersection(b).0, 0);
    assert_eq!(AudioFormatFlags::empty().0, 0);
}

#[test]
fn format_codes() {
    assert_eq!(AudioFormat::LINEAR_PCM, 1819304813);
    assert_eq!(AudioFormat::FLAC, 1718378851);
    assert_eq!(AudioFormat(AudioFormat::OPUS).0, 1869641075);
}

#[test]
fn layout_tag_channel_counts() {
    assert_eq!(AudioChannelLayoutTag(StandardChannelLayoutTag::MONO).channels(), 1);
    assert_eq!(AudioChannelLayoutTag(StandardChannelLayoutTag::STEREO).channels(), 2);
    assert_eq!(AudioChannelLayoutTag(StandardChannelLayoutTag::OCTAGONAL).channels(), 8);
    assert_eq!(StandardChannelLayoutTag::MONO, (100 << 16) | 1);
}

#[test]
fn discrete_in_order_keeps_channel_count() {
    let t = AudioChannelLayoutTag::discrete_in_order(5);
    assert_eq!(t.0, AudioChannelLayoutTag::DISCRETE_IN_ORDER | 5);
    assert_eq!(t.channels(), 5);
    let u = AudioChannelLayoutTag::unknown(3);
    assert_eq!(u.0, AudioChannelLayoutTag::UNKNOWN | 3);
    assert_eq!(u.channels(), 3);
}

#[test]
fn channel_labels() {
    assert_eq!(StandardChannelLabel::LEFT, 1);
    assert_eq!(StandardChannelLabel::RIGHT, 2);
    assert_eq!(StandardChannelLabel::HAPTIC, 45);
    assert_eq!(AudioChannelLabel::UNKNOWN, u32::MAX);
}

#[test]
fn buffer_list_starts_zeroed() {
    let l = AudioBufferList::with_len(3);
    assert_eq!(l.buffer_count(), 3);
    for i in 0..3 {
        let b = l.get(i);
        assert_eq!(b.num_channels, 0);
        assert_eq!(b.data_byte_size, 0);
        assert_eq!(b.data_address, 0);
    }
}

#[test]
fn buffer_round_trips_through_the_record() {
    let mut l = AudioBufferList::with_len(2);
    let b = AudioBuffer {
        num_channels: 2,
        data_byte_size: 4096,
        data_address: 0x1234_5678_9ABC_DEF0,
    };
    l.set(1, b);
    assert_eq!(l.get(1), b);
    assert_eq!(l.get(0).data_address, 0);
    assert_eq!(l.get(1).num_channels(), 2);
    assert_eq!(l.buffer_count(), 2);
}

#[test]
fn empty_buffer_list() {
    let l = AudioBufferList::with_len(0);
    assert_eq!(l.buffer_count(), 0);
}

#[test]
fn channel_layout_header_and_descriptions() {
    let mut l = AudioChannelLayout::with_len(2);
    assert_eq!(l.description_count(), 2);
    l.set_tag(AudioChannelLayoutTag(StandardChannelLayoutTag::STEREO));
    l.set_bitmap(AudioChannelBitmap(AudioChannelBitmap::LEFT | AudioChannelBitmap::RIGHT));
    let d = AudioChannelDescription::new(
        AudioChannelLabel(StandardChannelLabel::LEFT),
        AudioChannelFlags(AudioChannelFlags::RECTANGULAR_COORDINATES),
        (1, 2, 3),
    );
    l.set(0, d);
    assert_eq!(l.get(0), d);
    assert_eq!(l.description_count(), 2);
    let all = l.channel_descriptions();
    assert_eq!(all.len(), 2);
    assert_eq!(all[0], d);
    assert_eq!(all[1].channel_label, AudioChannelLabel(0));
}

#[test]
fn coordinate_accessors_follow_the_flags() {
    let rect = AudioChannelDescription::new(
        AudioChannelLabel(StandardChannelLabel::LEFT),
        AudioChannelFlags(AudioChannelFlags::RECTANGULAR_COORDINATES),
        (7, 8, 9),
    );
    let r = rect.rectangular_coordinate().unwrap();
    assert_eq!((r.left_right, r.back_front, r.down_up), (7, 8, 9));
    assert!(rect.spherical_coordinate().is_none());

    let sph = AudioChannelDescription::new(
        AudioChannelLabel(StandardChannelLabel::RIGHT),
        AudioChannelFlags(AudioChannelFlags::SPHERICAL_COORDINATES),
        (4, 5, 6),
    );
    let s = sph.spherical_coordinate().unwrap();
    assert_eq!((s.azimuth, s.elevation, s.distance), (4, 5, 6));
    assert!(sph.rectangular_coordinate().is_none());

    let none = AudioChannelDescription::new(
        AudioChannelLabel(AudioChannelLabel::UNUSED),
        AudioChannelFlags(AudioChannelFlags::ALL_OFF),
        (0, 0, 0),
    );
    assert!(none.rectangular_coordinate().is_none());
    assert!(none.spherical_coordinate().is_none());
}

#[test]
fn lpcm_bytes_per_frame_follows_interleaving() {
    assert_eq!(lpcm_bytes_per_frame(2, 16, false), 4);
    assert_eq!(lpcm_bytes_per_frame(2, 16, true), 2);
    assert_eq!(lpcm_bytes_per_frame(6, 24, false), 18);
    assert_eq!(lpcm_bytes_per_frame(1, 32, false), 4);
}

#[test]
fn native_endian_means_lpcm_without_the_big_endian_flag() {
    let lpcm = AudioFormat(AudioFormat::LINEAR_PCM);
    let flac = AudioFormat(AudioFormat::FLAC);
    let little = AudioFormatFlags(AudioFormatFlags::IS_FLOAT | AudioFormatFlags::IS_PACKED);
    let big = AudioFormatFlags(little.0 | AudioFormatFlags::IS_BIG_ENDIAN);
    assert!(lpcm_is_native_endian(lpcm, little));
    assert!(!lpcm_is_native_endian(lpcm, big));
    assert!(!lpcm_is_native_endian(flac, little));
}
