use bier_timer::{
    temperature_after_time, time_until_temperature, Ambience, Container, ContainerMaterial, ContainerShape,
    CoolingError, Drink, Duration, Fluid, Temperature, TemperatureUnit,
};

fn celsius(c: i64) -> Temperature {
    Temperature::new_with_unit(c * 1_000_000_000, TemperatureUnit::DegCelsius)
}

fn beer_bottle(area_mm2: u64) -> Drink {
    let container = Container::new(500_000, area_mm2, ContainerMaterial::Glass, ContainerShape::BeerBottle);
    Drink::new("Bier", "500ml Flasche", "bier5.svg", container, 50_000).unwrap()
}

fn freezer() -> Ambience {
    Ambience::new("Eisfach", "flake3.svg", celsius(-18), Some(Fluid::Air))
}

fn decay_rate(drink: &Drink) -> f64 {
    drink.cooling_coefficient.air.num as f64 / drink.cooling_coefficient.air.den as f64
}

#[test]
fn temperature_at_start_is_initial() {
    let drink = beer_bottle(40_640);
    let t = temperature_after_time(Duration::zero(), celsius(20), &drink, &freezer()).unwrap();
    assert_eq!(t, celsius(20));
}

#[test]
fn temperature_approaches_ambient_monotonically() {
    let drink = beer_bottle(40_640);
    let ambient = freezer().temperature.nanokelvin;
    let mut last = i64::MAX;
    for ms in [0i64, 1, 999, 1000, 1500, 60_000, 600_000, 3_600_000, 36_000_000, 360_000_000] {
        let t = temperature_after_time(Duration::milliseconds(ms), celsius(20), &drink, &freezer()).unwrap();
        let distance = t.nanokelvin - ambient;
        assert!(distance >= 0);
        assert!(distance <= last);
        last = distance;
    }
}

#[test]
fn warming_also_approaches_ambient() {
    let drink = beer_bottle(40_640);
    let room = Ambience::new("Raum", "sun.svg", celsius(20), None);
    let mut last = celsius(4).nanokelvin;
    for ms in [0i64, 10_000, 100_000, 1_000_000] {
        let t = temperature_after_time(Duration::milliseconds(ms), celsius(4), &drink, &room).unwrap();
        assert!(t.nanokelvin >= last);
        assert!(t.nanokelvin <= room.temperature.nanokelvin);
        last = t.nanokelvin;
    }
}

#[test]
fn negative_elapsed_time_counts_as_none() {
    let drink = beer_bottle(40_640);
    let t = temperature_after_time(Duration::milliseconds(-5000), celsius(20), &drink, &freezer()).unwrap();
    assert_eq!(t, celsius(20));
}

#[test]
fn temperature_after_time_exact_values() {
    let drink = beer_bottle(40_640);
    let at = |ms: i64| temperature_after_time(Duration::milliseconds(ms), celsius(20), &drink, &freezer()).unwrap();
    assert_eq!(at(1500).nanokelvin, 293_143_064_714);
    assert_eq!(at(600_000).nanokelvin, 290_474_490_068);
    assert_eq!(at(3_600_000).nanokelvin, 279_670_957_489);
}

#[test]
fn temperature_after_time_follows_exponential_law() {
    let drink = beer_bottle(40_640);
    let k = decay_rate(&drink);
    for ms in [0i64, 1500, 60_000, 600_000, 3_600_000, 20_000_000] {
        let t = temperature_after_time(Duration::milliseconds(ms), celsius(20), &drink, &freezer()).unwrap();
        let expected = 255.15e9 + 38e9 * (-k * ms as f64 / 1000.0).exp();
        assert!((t.nanokelvin as f64 - expected).abs() <= 2000.0, "{} vs {}", t.nanokelvin, expected);
    }
}

fn round_trip(ms: i64) -> i64 {
    let drink = beer_bottle(40_640);
    let initial = celsius(20);
    let t = temperature_after_time(Duration::milliseconds(ms), initial, &drink, &freezer()).unwrap();
    time_until_temperature(t, initial, &drink, &freezer()).unwrap().millis
}

#[test]
fn round_trip_within_a_second() {
    for ms in [0i64, 999, 1000, 60_500, 1_234_567, 5_000_000, 20_000_000] {
        let back = round_trip(ms);
        assert!(back > ms - 1000 && back < ms + 1000, "{} -> {}", ms, back);
    }
}

#[test]
fn round_trip_at_a_hundred_thousand_seconds() {
    let back = round_trip(100_000_000);
    assert!(back > 99_999_000 && back < 100_001_000, "{}", back);
}

#[test]
fn round_trip_exact_seconds() {
    assert_eq!(round_trip(60_500), 60_000);
    assert_eq!(round_trip(1_234_567), 1_234_000);
}

#[test]
fn cooling_in_two_steps_equals_one() {
    let drink = beer_bottle(40_640);
    let initial = celsius(20);
    for (a, b) in [(500i64, 500i64), (600_000, 600_000), (1, 3_599_999)] {
        let mid = temperature_after_time(Duration::milliseconds(a), initial, &drink, &freezer()).unwrap();
        let two = temperature_after_time(Duration::milliseconds(b), mid, &drink, &freezer()).unwrap();
        let one = temperature_after_time(Duration::milliseconds(a + b), initial, &drink, &freezer()).unwrap();
        assert!((two.nanokelvin - one.nanokelvin).abs() <= 2, "{} vs {}", two.nanokelvin, one.nanokelvin);
    }
}

#[test]
fn tiny_container_in_large_surface_cools_without_jumps() {
    let container = Container::new(1, 100_000_000, ContainerMaterial::Aluminium, ContainerShape::Can);
    let drink = Drink::new("x", "", "", container, 0).unwrap();
    assert!(drink.decay_per_millisecond.air > 0);
    let at = |ms: i64| temperature_after_time(Duration::milliseconds(ms), celsius(20), &drink, &freezer()).unwrap();
    let half = at(500);
    let again = temperature_after_time(Duration::milliseconds(500), half, &drink, &freezer()).unwrap();
    assert!((again.nanokelvin - at(1000).nanokelvin).abs() <= 2);
    let d = time_until_temperature(celsius(6), celsius(20), &drink, &freezer()).unwrap();
    assert_eq!(d.millis, 0);
    assert!(at(0).nanokelvin >= celsius(6).nanokelvin);
}

#[test]
fn unreachable_target_beyond_ambient() {
    let drink = beer_bottle(40_640);
    let fridge = Ambience::new("Kühlschrank", "thermo.svg", celsius(5), Some(Fluid::Air));
    let r = time_until_temperature(celsius(-3), celsius(20), &drink, &fridge);
    assert_eq!(r, Err(CoolingError::UnreachableTarget));
}

#[test]
fn unreachable_target_equal_to_ambient() {
    let drink = beer_bottle(40_640);
    let fridge = Ambience::new("Kühlschrank", "thermo.svg", celsius(5), Some(Fluid::Air));
    let r = time_until_temperature(celsius(5), celsius(20), &drink, &fridge);
    assert_eq!(r, Err(CoolingError::UnreachableTarget));
}

#[test]
fn unreachable_target_warmer_than_start() {
    let drink = beer_bottle(40_640);
    let r = time_until_temperature(celsius(25), celsius(20), &drink, &freezer());
    assert_eq!(r, Err(CoolingError::UnreachableTarget));
}

#[test]
fn target_equal_to_initial_takes_no_time() {
    let drink = beer_bottle(40_640);
    let r = time_until_temperature(celsius(20), celsius(20), &drink, &freezer()).unwrap();
    assert_eq!(r.millis, 0);
}

#[test]
fn ethanol_is_not_an_ambient_medium() {
    let drink = beer_bottle(40_640);
    let bath = Ambience::new("Schnapsbad", "vodka.svg", celsius(-10), Some(Fluid::Ethanol));
    assert_eq!(
        time_until_temperature(celsius(6), celsius(20), &drink, &bath),
        Err(CoolingError::UnsupportedFluidRole)
    );
    assert_eq!(
        temperature_after_time(Duration::milliseconds(1000), celsius(20), &drink, &bath),
        Err(CoolingError::UnsupportedFluidRole)
    );
}

#[test]
fn beer_in_freezer_reaches_six_degrees() {
    let drink = beer_bottle(40_640);
    let d = time_until_temperature(celsius(6), celsius(20), &drink, &freezer()).unwrap();
    assert_eq!(d.millis, 3_776_000);
    let k = decay_rate(&drink);
    let expected = -(24.0f64 / 38.0).ln() / k;
    assert!((d.millis as f64 / 1000.0 - expected).abs() <= 1.0);
    let at = temperature_after_time(d, celsius(20), &drink, &freezer()).unwrap();
    assert!(at.nanokelvin >= celsius(6).nanokelvin);
    let after = temperature_after_time(Duration::milliseconds(d.millis + 1000), celsius(20), &drink, &freezer())
        .unwrap();
    assert!(after.nanokelvin < celsius(6).nanokelvin);
}

#[test]
fn doubling_surface_area_shortens_cooling() {
    let small = beer_bottle(40_640);
    let large = beer_bottle(81_280);
    let d_small = time_until_temperature(celsius(6), celsius(20), &small, &freezer()).unwrap();
    let d_large = time_until_temperature(celsius(6), celsius(20), &large, &freezer()).unwrap();
    assert!(d_small.millis > 0);
    assert!(d_large.millis > 0);
    assert!(d_large.millis < d_small.millis);
    assert_eq!(d_large.millis, 1_888_000);
}

#[test]
fn ice_bath_cools_a_can_faster_than_a_freezer() {
    let container = Container::new(500_000, 37_680, ContainerMaterial::Aluminium, ContainerShape::Can);
    let can = Drink::new("Bier", "500ml Dose", "can5.svg", container, 50_000).unwrap();
    let bath = Ambience::new("Eisbad", "flake.svg", celsius(0), Some(Fluid::Water));
    let in_bath = time_until_temperature(celsius(6), celsius(20), &can, &bath).unwrap();
    assert_eq!(in_bath.millis, 227_000);
    let in_freezer = time_until_temperature(celsius(6), celsius(20), &can, &freezer()).unwrap();
    assert!(in_bath.millis < in_freezer.millis);
}
