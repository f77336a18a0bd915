use bier_timer::{
    time_until_temperature, Ambience, Container, ContainerMaterial, ContainerShape, CoolingError, Drink, Fluid,
    Temperature, TemperatureUnit, TimerInfo, TimerPreset, Timestamp,
};

fn celsius(c: i64) -> Temperature {
    Temperature::new_with_unit(c * 1_000_000_000, TemperatureUnit::DegCelsius)
}

fn beer_preset(target: i64, ambient_fluid: Fluid) -> TimerPreset {
    let container = Container::new(500_000, 40_640, ContainerMaterial::Glass, ContainerShape::BeerBottle);
    let drink = Drink::new("Bier", "500ml Flasche", "bier5.svg", container, 50_000).unwrap();
    TimerPreset {
        name: "Bier".to_string(),
        path_to_image: "bier5.svg".to_string(),
        drink,
        initial_ambience: Ambience::new("Raumtemperatur", "sun.svg", celsius(20), None),
        ambient_ambience: Ambience::new("Eisfach", "flake3.svg", celsius(-18), Some(ambient_fluid)),
        target_ambience: Ambience::new("Optimal für Bier", "bier5.svg", celsius(target), None),
    }
}

const NOW: i64 = 1_700_000_000_000;

#[test]
fn timer_finishes_when_target_is_reached() {
    let preset = beer_preset(6, Fluid::Air);
    let expected = time_until_temperature(
        preset.target_ambience.temperature,
        preset.initial_ambience.temperature,
        &preset.drink,
        &preset.ambient_ambience,
    )
    .unwrap();
    let timer = TimerInfo::new(preset, Timestamp::from_millis(NOW)).unwrap();
    assert_eq!(timer.timestamp_started.millis, NOW);
    assert_eq!(timer.timestamp_finished.millis, NOW + expected.millis);
    assert_eq!(expected.millis, 3_776_000);
}

#[test]
fn timer_samples_over_its_life() {
    let timer = TimerInfo::new(beer_preset(6, Fluid::Air), Timestamp::from_millis(NOW)).unwrap();
    let start = timer.sample(Timestamp::from_millis(NOW));
    assert_eq!(start.current_temperature, celsius(20));
    assert_eq!(start.time_left.millis, 3_776_000);
    assert!(!start.finished);

    let at_finish = timer.sample(timer.timestamp_finished);
    assert!(at_finish.current_temperature.nanokelvin >= celsius(6).nanokelvin);
    assert!(at_finish.current_temperature.nanokelvin <= celsius(20).nanokelvin);
    assert_eq!(at_finish.time_left.millis, 0);
    assert!(!at_finish.finished);

    let later = timer.sample(Timestamp::from_millis(timer.timestamp_finished.millis + 1000));
    assert!(later.current_temperature.nanokelvin < celsius(6).nanokelvin);

    let after = timer.sample(Timestamp::from_millis(timer.timestamp_finished.millis + 1));
    assert!(after.finished);
    assert_eq!(after.time_left.millis, -1);
    assert!(timer.timer_finished(Timestamp::from_millis(timer.timestamp_finished.millis + 1)));

    let before_start = timer.sample(Timestamp::from_millis(NOW - 10_000));
    assert_eq!(before_start.current_temperature, celsius(20));
    assert_eq!(before_start.time_left.millis, 3_786_000);
}

#[test]
fn timer_sampling_is_repeatable() {
    let timer = TimerInfo::new(beer_preset(6, Fluid::Air), Timestamp::from_millis(NOW)).unwrap();
    let now = Timestamp::from_millis(NOW + 600_000);
    assert_eq!(timer.sample(now), timer.sample(now));
    assert_eq!(timer.current_temperature(now).nanokelvin, 290_474_490_068);
    assert_eq!(timer.current_time_left(now).millis, 3_176_000);
}

#[test]
fn timer_refuses_unreachable_target() {
    let r = TimerInfo::new(beer_preset(-20, Fluid::Air), Timestamp::from_millis(NOW));
    assert!(matches!(r, Err(CoolingError::UnreachableTarget)));
}

#[test]
fn timer_refuses_ethanol_bath() {
    let r = TimerInfo::new(beer_preset(6, Fluid::Ethanol), Timestamp::from_millis(NOW));
    assert!(matches!(r, Err(CoolingError::UnsupportedFluidRole)));
}

#[test]
fn running_timer_never_passes_its_target() {
    let timer = TimerInfo::new(beer_preset(6, Fluid::Air), Timestamp::from_millis(NOW)).unwrap();
    let mut at = NOW;
    while at <= timer.timestamp_finished.millis {
        let t = timer.sample(Timestamp::from_millis(at)).current_temperature.nanokelvin;
        assert!(celsius(6).nanokelvin <= t && t <= celsius(20).nanokelvin);
        at += 250_000;
    }
    let t = timer.sample(timer.timestamp_finished).current_temperature.nanokelvin;
    assert!(celsius(6).nanokelvin <= t);
}
