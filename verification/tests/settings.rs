use sch16t::settings::SensorStatus;
use sch16t::{AccDynamicRange, DecimationRatio, Filter, HiSpd, Polarity, RateDynamicRange, SpiSupply};

#[test]
fn filter_names_parse() {
    assert_eq!(Filter::try_from("Lpf0"), Ok(Filter::Lpf0));
    assert_eq!(Filter::try_from("Lpf5"), Ok(Filter::Lpf5));
    assert_eq!(Filter::try_from("Lpf7"), Ok(Filter::Lpf7));
    assert_eq!(Filter::try_from("Lpf6"), Err("Filter values are Lfp0/1/2/3/4/5/7"));
    assert_eq!(Filter::try_from("lpf1"), Err("Filter values are Lfp0/1/2/3/4/5/7"));
}

#[test]
fn other_names_parse() {
    assert_eq!(RateDynamicRange::try_from("Dyn3"), Ok(RateDynamicRange::Dyn3));
    assert_eq!(RateDynamicRange::try_from("Dyn5"), Err("Range values are Dyn1/2/3/4"));
    assert_eq!(AccDynamicRange::try_from("Dyn4"), Ok(AccDynamicRange::Dyn4));
    assert_eq!(AccDynamicRange::try_from(""), Err("Range values are Dyn1/2/3/4"));
    assert_eq!(DecimationRatio::try_from("Dec5"), Ok(DecimationRatio::Dec5));
    assert_eq!(
        DecimationRatio::try_from("Dec6"),
        Err("Decimation ratio values are Dec1/2/3/4/5")
    );
    assert_eq!(Polarity::try_from("ActiveLow"), Ok(Polarity::ActiveLow));
    assert_eq!(
        Polarity::try_from("Low"),
        Err("Polarity values are ActiveLow and ActiveHigh")
    );
    assert_eq!(HiSpd::try_from("Mhz25"), Ok(HiSpd::Mhz25));
    assert_eq!(HiSpd::try_from("Mhz20"), Err("HiSpd values are Mhz10 and Mhz25"));
    assert_eq!(SpiSupply::try_from("V18"), Ok(SpiSupply::V18));
    assert_eq!(SpiSupply::try_from("V5"), Err("SpiSupply values are V18 and V33"));
}

#[test]
fn names_are_debug_names() {
    for f in [Filter::Lpf0, Filter::Lpf3, Filter::Lpf7] {
        assert_eq!(f.name(), format!("{:?}", f));
        assert_eq!(Filter::try_from(f.name()), Ok(f));
    }
    assert_eq!(Polarity::ActiveHigh.name(), "ActiveHigh");
    assert_eq!(DecimationRatio::Dec2.name(), "Dec2");
    assert_eq!(SpiSupply::V33.name(), "V33");
}

#[test]
fn codes_round_trip() {
    assert_eq!(Filter::Lpf7.code(), 7);
    assert_eq!(Filter::from_code(7), Some(Filter::Lpf7));
    assert_eq!(Filter::from_code(6), None);
    assert_eq!(RateDynamicRange::Dyn1.code(), 1);
    assert_eq!(RateDynamicRange::from_code(0), None);
    assert_eq!(AccDynamicRange::from_code(4), Some(AccDynamicRange::Dyn4));
    assert_eq!(DecimationRatio::Dec1.code(), 0);
    assert_eq!(DecimationRatio::from_code(5), None);
    assert_eq!(Polarity::from_code(1), Some(Polarity::ActiveLow));
    assert_eq!(HiSpd::from_code(1), Some(HiSpd::Mhz25));
    assert_eq!(SpiSupply::from_code(0), Some(SpiSupply::V33));
    assert_eq!(SpiSupply::from_code(2), None);
}

#[test]
fn defaults_are_reset_values() {
    assert_eq!(Filter::default(), Filter::Lpf0);
    assert_eq!(RateDynamicRange::default(), RateDynamicRange::Dyn1);
    assert_eq!(AccDynamicRange::default(), AccDynamicRange::Dyn1);
    assert_eq!(DecimationRatio::default(), DecimationRatio::Dec1);
    assert_eq!(Polarity::default(), Polarity::ActiveHigh);
    assert_eq!(HiSpd::default(), HiSpd::Mhz10);
    assert_eq!(SpiSupply::default(), SpiSupply::V33);
}

#[test]
fn status_codes_use_two_bits() {
    assert_eq!(SensorStatus::from_code(0), SensorStatus::Initialization);
    assert_eq!(SensorStatus::from_code(1), SensorStatus::Normal);
    assert_eq!(SensorStatus::from_code(2), SensorStatus::Saturation);
    assert_eq!(SensorStatus::from_code(3), SensorStatus::SensorError);
    assert_eq!(SensorStatus::from_code(5), SensorStatus::Normal);
}
