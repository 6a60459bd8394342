use fuel_monitor::Error;
use fuel_monitor::FuelLevel;
use fuel_monitor::RawReading;
use fuel_monitor::FUEL_LEVEL_MAX_MILLILITRES;

#[test]
fn zero_level() {
    let zero = FuelLevel::zero();
    assert_eq!(zero.as_litres(), 0);
    assert_eq!(zero.as_millilitres(), 0);
}

#[test]
fn bad_fuel_level_result() {
    let level = FuelLevel::with_millilitres(RawReading::Millilitres(-1000));
    assert_eq!(Err(Error::NegativeFuelLevel), level);
}

#[test]
fn with_ml() {
    let level = FuelLevel::with_millilitres(RawReading::Millilitres(1000));
    assert_eq!(level, Ok(FuelLevel::with_litres(1)));
}

#[test]
fn litres_accessors_round_trip() {
    let level = FuelLevel::with_litres(7);
    assert_eq!(level.as_litres(), 7);
    assert_eq!(level.as_millilitres(), 7000);
}

#[test]
fn non_finite_readings_are_invalid() {
    assert_eq!(
        FuelLevel::with_millilitres(RawReading::NotANumber),
        Err(Error::InvalidFuelLevel)
    );
    assert_eq!(
        FuelLevel::with_millilitres(RawReading::PositiveInfinity),
        Err(Error::InvalidFuelLevel)
    );
}

#[test]
fn negative_infinity_is_negative_first() {
    // Negativity is checked before finiteness, and negative infinity lies
    // below zero.
    assert_eq!(
        FuelLevel::with_millilitres(RawReading::NegativeInfinity),
        Err(Error::NegativeFuelLevel)
    );
}

#[test]
fn millilitre_round_trip() {
    let from_ml = FuelLevel::with_millilitres(RawReading::Millilitres(4000));
    assert_eq!(from_ml, Ok(FuelLevel::with_litres(4)));
}

#[test]
fn fractional_litres_truncate() {
    let level = FuelLevel::with_millilitres(RawReading::Millilitres(1500)).unwrap();
    assert_eq!(level.as_millilitres(), 1500);
    assert_eq!(level.as_litres(), 1);
}

#[test]
fn ordering_agrees_with_magnitude() {
    let a = FuelLevel::with_litres(1);
    let b = FuelLevel::with_litres(2);
    let c = FuelLevel::with_millilitres(RawReading::Millilitres(2000)).unwrap();
    assert!(a < b);
    assert!(!(b < a));
    assert!(b > a);
    assert!(a != b);
    assert_eq!(b, c);
    assert!(!(b < c));
    assert!(!(b > c));
    assert_eq!(a.partial_cmp(&b), Some(std::cmp::Ordering::Less));
    assert_eq!(b.partial_cmp(&c), Some(std::cmp::Ordering::Equal));
    assert_eq!(b.partial_cmp(&a), Some(std::cmp::Ordering::Greater));
}

#[test]
fn rendering_shows_litres() {
    assert_eq!(FuelLevel::zero().render(), "0.000 litres");
    assert_eq!(FuelLevel::with_litres(2).render(), "2.000 litres");
    assert_eq!(FuelLevel::with_litres(12).render(), "12.000 litres");
    let fractional = FuelLevel::with_millilitres(RawReading::Millilitres(1500)).unwrap();
    assert_eq!(fractional.render(), "1.500 litres");
    let small = FuelLevel::with_millilitres(RawReading::Millilitres(7)).unwrap();
    assert_eq!(small.render(), "0.007 litres");
}

#[test]
fn ceiling_reference_is_ten_litres() {
    let ceiling = FuelLevel::fuel_level_max();
    assert_eq!(ceiling, FuelLevel::with_litres(10));
    assert_eq!(ceiling.as_millilitres(), FUEL_LEVEL_MAX_MILLILITRES);
}
