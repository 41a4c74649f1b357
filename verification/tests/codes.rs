use axhvc::{HyperCallCode, InvalidHyperCallCode};

const ALL: [HyperCallCode; 7] = [
    HyperCallCode::HypervisorDisable,
    HyperCallCode::HyperVisorPrepareDisable,
    HyperCallCode::HyperVisorDebug,
    HyperCallCode::HIVCPublishChannel,
    HyperCallCode::HIVCSubscribChannel,
    HyperCallCode::HIVCUnPublishChannel,
    HyperCallCode::HIVCUnSubscribChannel,
];

fn found(value: u32) -> HyperCallCode {
    match HyperCallCode::try_from(value) {
        Ok(code) => code,
        Err(marker) => panic!("{:#x} was rejected as {:?}", value, marker),
    }
}

fn rejected(value: u32) -> InvalidHyperCallCode {
    match HyperCallCode::try_from(value) {
        Ok(code) => panic!("{:#x} was accepted as {}", value, code.render()),
        Err(marker) => marker,
    }
}

#[test]
fn values_are_the_assigned_numbers() {
    assert_eq!(HyperCallCode::HypervisorDisable.value(), 0);
    assert_eq!(HyperCallCode::HyperVisorPrepareDisable.value(), 1);
    assert_eq!(HyperCallCode::HyperVisorDebug.value(), 2);
    assert_eq!(HyperCallCode::HIVCPublishChannel.value(), 3);
    assert_eq!(HyperCallCode::HIVCSubscribChannel.value(), 4);
    assert_eq!(HyperCallCode::HIVCUnPublishChannel.value(), 5);
    assert_eq!(HyperCallCode::HIVCUnSubscribChannel.value(), 6);
}

#[test]
fn casts_agree_with_values() {
    assert_eq!(HyperCallCode::HypervisorDisable as u32, 0);
    assert_eq!(HyperCallCode::HyperVisorPrepareDisable as u32, 1);
    assert_eq!(HyperCallCode::HyperVisorDebug as u32, 2);
    assert_eq!(HyperCallCode::HIVCPublishChannel as u32, 3);
    assert_eq!(HyperCallCode::HIVCSubscribChannel as u32, 4);
    assert_eq!(HyperCallCode::HIVCUnPublishChannel as u32, 5);
    assert_eq!(HyperCallCode::HIVCUnSubscribChannel as u32, 6);
    for code in ALL {
        assert_eq!(code as u32, code.value());
    }
}

#[test]
fn lookup_finds_each_operation() {
    assert!(found(0) == HyperCallCode::HypervisorDisable);
    assert!(found(1) == HyperCallCode::HyperVisorPrepareDisable);
    assert!(found(2) == HyperCallCode::HyperVisorDebug);
    assert!(found(3) == HyperCallCode::HIVCPublishChannel);
    assert!(found(4) == HyperCallCode::HIVCSubscribChannel);
    assert!(found(5) == HyperCallCode::HIVCUnPublishChannel);
    assert!(found(6) == HyperCallCode::HIVCUnSubscribChannel);
}

#[test]
fn lookup_of_three_is_publish_channel() {
    assert!(HyperCallCode::try_from(3u32) == Ok(HyperCallCode::HIVCPublishChannel));
}

#[test]
fn lookup_of_seven_is_rejected_with_seven() {
    assert!(HyperCallCode::try_from(7u32) == Err(InvalidHyperCallCode(7)));
    assert_eq!(rejected(7).0, 7);
}

#[test]
fn value_of_unsubscribe_is_six() {
    assert_eq!(HyperCallCode::HIVCUnSubscribChannel.value(), 6);
}

#[test]
fn value_then_lookup_is_identity() {
    for code in ALL {
        assert!(found(code.value()) == code);
    }
}

#[test]
fn lookup_then_value_is_identity() {
    for value in 0u32..=6 {
        assert_eq!(found(value).value(), value);
    }
}

#[test]
fn lookup_rejects_undefined_numbers() {
    for value in [7u32, 8, 100, 0xFFFF_FFFF] {
        assert_eq!(rejected(value), InvalidHyperCallCode(value));
        assert_eq!(rejected(value).0, value);
    }
}

#[test]
fn lookup_rejects_patterns_that_look_negative_or_shifted() {
    for value in [
        0x8000_0000u32,
        0x8000_0003,
        0xFFFF_FFFE,
        0x0000_0100,
        0x0001_0000,
        0x0100_0000,
        0x0000_0010,
        u32::MAX - 6,
    ] {
        assert_eq!(rejected(value).0, value);
    }
    for low in 0u32..=6 {
        for shift in [8u32, 16, 24] {
            let value = low | (1 << shift);
            assert_eq!(rejected(value).0, value);
        }
    }
}

#[test]
fn lookup_accepts_exactly_seven_numbers() {
    let mut accepted = 0;
    for value in 0u32..=0x1_0000 {
        match HyperCallCode::try_from(value) {
            Ok(code) => {
                accepted += 1;
                assert!(value <= 6);
                assert_eq!(code.value(), value);
            }
            Err(marker) => {
                assert!(value > 6);
                assert_eq!(marker.0, value);
            }
        }
    }
    assert_eq!(accepted, 7);
}

#[test]
fn try_into_goes_through_the_same_lookup() {
    let code: Result<HyperCallCode, InvalidHyperCallCode> = 4u32.try_into();
    assert!(code == Ok(HyperCallCode::HIVCSubscribChannel));
    let none: Result<HyperCallCode, InvalidHyperCallCode> = 9u32.try_into();
    assert!(none == Err(InvalidHyperCallCode(9)));
}

#[test]
fn codes_are_equal_exactly_when_their_values_are() {
    for a in ALL {
        for b in ALL {
            assert_eq!(a == b, a.value() == b.value());
            assert_eq!(a != b, a.value() != b.value());
        }
    }
}

#[test]
fn markers_are_equal_exactly_when_their_values_are() {
    let values = [0u32, 6, 7, 8, 100, 0xFFFF_FFFF];
    for a in values {
        for b in values {
            assert_eq!(InvalidHyperCallCode(a) == InvalidHyperCallCode(b), a == b);
        }
    }
    assert_eq!(InvalidHyperCallCode(7), InvalidHyperCallCode(7));
    assert_ne!(InvalidHyperCallCode(7), InvalidHyperCallCode(8));
}

#[test]
fn codes_and_markers_are_plain_copies() {
    let code = HyperCallCode::HyperVisorDebug;
    let copy = code;
    assert!(code == copy);
    assert!(code.clone() == copy);
    let marker = InvalidHyperCallCode(42);
    let copy = marker;
    assert_eq!(marker, copy);
    assert_eq!(marker.clone().0, 42);
}
