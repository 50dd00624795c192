use protocol_enums::TapType;
use std::cmp::Ordering;

#[test]
fn tap_type_boundaries() {
    assert_eq!(TapType::from_numeric(0), Ok(TapType::Any));
    assert_eq!(TapType::from_numeric(3), Ok(TapType::Tor));
    assert_eq!(TapType::from_numeric(5), Ok(TapType::Isp(5)));
    assert!(TapType::from_numeric(256).is_err());
    assert_eq!(TapType::Isp(5).to_numeric(), 5);
}

#[test]
fn tap_type_try_from_is_from_numeric() {
    assert_eq!(TapType::try_from(0u16), Ok(TapType::Any));
    assert_eq!(TapType::try_from(1u16), Ok(TapType::Isp(1)));
    assert_eq!(TapType::try_from(2u16), Ok(TapType::Isp(2)));
    assert_eq!(TapType::try_from(3u16), Ok(TapType::Tor));
    assert_eq!(TapType::try_from(4u16), Ok(TapType::Isp(4)));
    assert_eq!(TapType::try_from(255u16), Ok(TapType::Isp(255)));
    assert_eq!(TapType::try_from(256u16), Err("TapType not in [0, 256)"));
    assert_eq!(TapType::try_from(u16::MAX), Err("TapType not in [0, 256)"));
}

#[test]
fn tap_type_codes() {
    assert_eq!(u16::from(TapType::Any), 0);
    assert_eq!(u16::from(TapType::Tor), 3);
    assert_eq!(u16::from(TapType::Max), 256);
    assert_eq!(u16::from(TapType::Isp(0)), 0);
    assert_eq!(u16::from(TapType::Isp(3)), 3);
    assert_eq!(u16::from(TapType::Isp(255)), 255);
}

#[test]
fn tap_type_round_trips_through_every_code_below_256() {
    for code in 0..256u16 {
        let tap = TapType::from_numeric(code).unwrap();
        assert_eq!(tap.to_numeric(), code);
        assert_ne!(tap, TapType::Max);
        assert_ne!(tap, TapType::Isp(0));
        assert_ne!(tap, TapType::Isp(3));
        assert_eq!(TapType::from_numeric(tap.to_numeric()), Ok(tap));
    }
    for code in 256..=u16::MAX {
        assert!(TapType::from_numeric(code).is_err());
    }
}

#[test]
fn tap_type_that_is_not_canonical_does_not_come_back() {
    assert_eq!(TapType::from_numeric(TapType::Isp(0).to_numeric()), Ok(TapType::Any));
    assert_eq!(TapType::from_numeric(TapType::Isp(3).to_numeric()), Ok(TapType::Tor));
    assert!(TapType::from_numeric(TapType::Max.to_numeric()).is_err());
}

#[test]
fn tap_types_are_ordered_by_code() {
    assert!(TapType::Any < TapType::Isp(1));
    assert!(TapType::Isp(2) < TapType::Tor);
    assert!(TapType::Tor < TapType::Isp(4));
    assert!(TapType::Isp(255) < TapType::Max);
    assert_eq!(TapType::Any.partial_cmp(&TapType::Isp(0)), Some(Ordering::Equal));
    assert_eq!(TapType::Tor.partial_cmp(&TapType::Isp(3)), Some(Ordering::Equal));
    assert_eq!(TapType::Max.partial_cmp(&TapType::Any), Some(Ordering::Greater));
}

#[test]
fn tap_type_defaults_to_any() {
    assert_eq!(TapType::default(), TapType::Any);
}

#[test]
fn tap_type_is_written_by_name_and_number() {
    assert_eq!(TapType::Any.to_string(), "any");
    assert_eq!(TapType::Tor.to_string(), "tor");
    assert_eq!(TapType::Max.to_string(), "max");
    assert_eq!(TapType::Isp(0).to_string(), "isp0");
    assert_eq!(TapType::Isp(5).to_string(), "isp5");
    assert_eq!(TapType::Isp(9).to_string(), "isp9");
    assert_eq!(TapType::Isp(10).to_string(), "isp10");
    assert_eq!(TapType::Isp(42).to_string(), "isp42");
    assert_eq!(TapType::Isp(99).to_string(), "isp99");
    assert_eq!(TapType::Isp(100).to_string(), "isp100");
    assert_eq!(TapType::Isp(107).to_string(), "isp107");
    assert_eq!(TapType::Isp(255).to_string(), "isp255");
}

#[test]
fn tap_type_number_is_written_as_std_writes_it() {
    for n in 0..=u8::MAX {
        assert_eq!(TapType::Isp(n).to_string(), format!("isp{}", n));
    }
}
