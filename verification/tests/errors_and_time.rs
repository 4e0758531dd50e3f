use core_audio::audio_hardware::audio_object_iter;
use core_audio::audio_hardware::AudioObject;
use core_audio::audio_hardware::AudioStreamDirection;
use core_audio::error::cvt_r;
use core_audio::error::Error;
use core_audio::error::ErrorKind;
use core_audio::host_time::join_nanos;
use core_audio::host_time::split_nanos;
use core_audio::host_time::HostTime;
use core_audio::host_time::NSEC_PER_SEC;

#[test]
fn every_status_code_decodes_to_its_kind() {
    let table: [(i32, ErrorKind); 11] = [
        (1937010544, ErrorKind::NotRunning),
        (2003329396, ErrorKind::Unspecified),
        (2003332927, ErrorKind::UnknownProperty),
        (561211770, ErrorKind::BadPropertySize),
        (1852797029, ErrorKind::IllegalOperation),
        (560947818, ErrorKind::BadObject),
        (560227702, ErrorKind::BadDevice),
        (561214578, ErrorKind::BadStream),
        (1970171760, ErrorKind::UnsupportedOperation),
        (560226676, ErrorKind::UnsupportedFormat),
        (560492391, ErrorKind::Permissions),
    ];
    for (status, kind) in table {
        assert_eq!(Error::from_osstatus(status).kind(), kind);
        assert_eq!(kind.as_osstatus(), status);
        assert_eq!(Error::from_kind(kind).kind(), kind);
        assert_eq!(Error::from_kind(kind).raw_osstatus(), status);
    }
}

#[test]
fn unknown_status_codes_are_other() {
    assert_eq!(Error::from_osstatus(0).kind(), ErrorKind::Other);
    assert_eq!(Error::from_osstatus(-1).kind(), ErrorKind::Other);
    assert_eq!(Error::from_osstatus(123456).kind(), ErrorKind::Other);
}

#[test]
fn error_messages() {
    assert_eq!(
        ErrorKind::NotRunning.as_str(),
        "The function call requires that the hardware be running but it isn't."
    );
    assert_eq!(ErrorKind::Other.as_str(), "Unspecified error.");
    assert_eq!(
        ErrorKind::BadDevice.as_str(),
        "The AudioObjectID passed to the function doesn't map to a valid AudioDevice."
    );
}

#[test]
fn cvt_r_maps_zero_to_ok() {
    assert!(cvt_r(0).is_ok());
    let e = cvt_r(560947818).unwrap_err();
    assert_eq!(e.raw_osstatus(), 560947818);
    assert_eq!(e.kind(), ErrorKind::BadObject);
}

#[test]
fn host_time_tick_arithmetic() {
    let t = HostTime::from_ticks(1000);
    assert_eq!(t.ticks(), 1000);
    let later = t.add_ticks(500);
    assert_eq!(later.ticks(), 1500);
    assert_eq!(later.ticks_since(&t), 500);
    assert_eq!(later.sub_ticks(500), t);
    assert_eq!(t.ticks_since(&t), 0);
}

#[test]
fn nanosecond_split_and_join() {
    assert_eq!(split_nanos(1_500_000_000), (1, 500_000_000));
    assert_eq!(split_nanos(999_999_999), (0, 999_999_999));
    assert_eq!(split_nanos(2 * NSEC_PER_SEC), (2, 0));
    assert_eq!(join_nanos(1, 500_000_000), Some(1_500_000_000));
    assert_eq!(join_nanos(0, 0), Some(0));
    assert_eq!(join_nanos(u64::MAX, 0), None);
    assert_eq!(join_nanos(u64::MAX / NSEC_PER_SEC, 999_999_999), None);
}

#[test]
fn object_listing_stops_at_the_unknown_marker() {
    let v = [
        AudioObject(41),
        AudioObject(42),
        AudioObject(0),
        AudioObject(43),
    ];
    let live = audio_object_iter(&v);
    assert_eq!(live, vec![AudioObject(41), AudioObject(42)]);

    let none: [AudioObject; 0] = [];
    assert!(audio_object_iter(&none).is_empty());

    let all = [AudioObject(1), AudioObject(2)];
    assert_eq!(audio_object_iter(&all).len(), 2);

    let first = [AudioObject(0), AudioObject(9)];
    assert!(audio_object_iter(&first).is_empty());
    assert_eq!(AudioObject::UNKNOWN, 0);
    assert!(!AudioObject(0).is_known());
    assert!(AudioObject(7).is_known());
}

#[test]
fn stream_direction_codes() {
    assert_eq!(AudioStreamDirection::Output.as_u32(), 0);
    assert_eq!(AudioStreamDirection::Input.as_u32(), 1);
    assert_eq!(AudioStreamDirection::from_u32(0), Some(AudioStreamDirection::Output));
    assert_eq!(AudioStreamDirection::from_u32(1), Some(AudioStreamDirection::Input));
    assert_eq!(AudioStreamDirection::from_u32(2), None);
}
