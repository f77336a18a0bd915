use bier_timer::{
    format_chrono_duration, format_chrono_duration_precise, format_chrono_duration_simple, linear_interpolate,
    linear_interpolate_ceil, Ambience, Duration, Fluid, Temperature, TemperatureUnit,
};

fn ms(h: i64, m: i64, s: i64) -> Duration {
    Duration::milliseconds(((h * 60 + m) * 60 + s) * 1000)
}

#[test]
fn coarse_duration_display() {
    assert_eq!(format_chrono_duration(Duration::zero()), "0:00:00");
    assert_eq!(format_chrono_duration(Duration::milliseconds(-5000)), "0:00:00");
    assert_eq!(format_chrono_duration(ms(0, 5, 30)), "05 mins");
    assert_eq!(format_chrono_duration(ms(0, 45, 0)), "45 mins");
    assert_eq!(format_chrono_duration(ms(1, 5, 59)), "1:05 hrs");
    assert_eq!(format_chrono_duration(ms(25, 0, 0)), "1:00 hrs");
}

#[test]
fn precise_duration_display() {
    assert_eq!(format_chrono_duration_precise(Duration::zero()), "0:00");
    assert_eq!(format_chrono_duration_precise(ms(0, 1, 5)), "1:05");
    assert_eq!(format_chrono_duration_precise(ms(0, 12, 34)), "12:34");
    assert_eq!(format_chrono_duration_precise(ms(1, 2, 3)), "1:02:03");
    assert_eq!(format_chrono_duration_precise(Duration::milliseconds(999)), "0:00");
}

#[test]
fn simple_duration_display() {
    assert_eq!(format_chrono_duration_simple(Duration::milliseconds(-1)), "0:00:00");
    assert_eq!(format_chrono_duration_simple(ms(0, 7, 0)), "0:07");
    assert_eq!(format_chrono_duration_simple(ms(2, 30, 0)), "2:30");
}

#[test]
fn duration_parts_round_toward_zero() {
    let d = Duration::milliseconds(-90_500);
    assert_eq!(d.num_seconds(), -90);
    assert_eq!(d.num_minutes(), -1);
    assert_eq!(d.num_hours(), 0);
    let d = ms(2, 3, 4);
    assert_eq!(d.num_milliseconds(), 7_384_000);
    assert_eq!(d.num_seconds(), 7384);
    assert_eq!(d.num_minutes(), 123);
    assert_eq!(d.num_hours(), 2);
}

#[test]
fn temperature_units() {
    let t = Temperature::new_with_unit(20_000_000_000, TemperatureUnit::DegCelsius);
    assert_eq!(t.as_kelvin(), 293_150_000_000);
    assert_eq!(t.as_deg_celsius(), 20_000_000_000);
    assert_eq!(t.as_unit(TemperatureUnit::Kelvin), 293_150_000_000);
    assert_eq!(Temperature::new(273_150_000_000).as_deg_celsius(), 0);
    assert_eq!(Temperature::new_with_unit(5, TemperatureUnit::Kelvin).nanokelvin, 5);
}

#[test]
fn temperature_arithmetic() {
    let a = Temperature::new(300_000);
    let b = Temperature::new(100_000);
    assert_eq!(a.add(b).nanokelvin, 400_000);
    assert_eq!(a.sub(b).nanokelvin, 200_000);
    let r = a.div(b);
    assert_eq!(r.num, 300_000);
    assert_eq!(r.den, 100_000);
}

#[test]
fn temperature_display() {
    let c = |m: i64| Temperature::new_with_unit(m * 1_000_000, TemperatureUnit::DegCelsius);
    assert_eq!(c(20_000).format(TemperatureUnit::DegCelsius, true), "20 °C");
    assert_eq!(c(20_000).format(TemperatureUnit::Kelvin, true), "293 K");
    assert_eq!(c(20_000).format(TemperatureUnit::DegCelsius, false), "20");
    assert_eq!(c(-18_000).format(TemperatureUnit::DegCelsius, true), "-18 °C");
    assert_eq!(c(20_500).format(TemperatureUnit::DegCelsius, false), "20");
    assert_eq!(c(21_500).format(TemperatureUnit::DegCelsius, false), "22");
    assert_eq!(c(5_501).format(TemperatureUnit::DegCelsius, false), "6");
    assert_eq!(c(-2_600).format(TemperatureUnit::DegCelsius, false), "-3");
    assert_eq!(c(-400).format(TemperatureUnit::DegCelsius, false), "0");
}

#[test]
fn interpolation_values() {
    assert_eq!(linear_interpolate(5, 0, 10, 0, 100), 50);
    assert_eq!(linear_interpolate(15, 0, 10, 0, 100), 150);
    assert_eq!(linear_interpolate(1, 0, 3, 0, 10), 3);
    assert_eq!(linear_interpolate(50_000, 0, 600_000, 0, -37_000), -3084);
    assert_eq!(linear_interpolate_ceil(15, 0, 10, 0, 100), 100);
    assert_eq!(linear_interpolate_ceil(-5, 0, 10, 0, 100), 0);
    assert_eq!(linear_interpolate_ceil(5, 10, 0, 0, 100), 50);
    assert_eq!(linear_interpolate_ceil(8_000, 20_000, 6_000, 0, 100), 86);
}

#[test]
fn ambience_defaults_to_air() {
    let t = Temperature::new(278_150);
    let a = Ambience::new("Kühlschrank", "thermo.svg", t, None);
    assert_eq!(a.fluid, Fluid::Air);
    assert_eq!(a.name, "Kühlschrank");
    assert_eq!(a.path_to_image, "thermo.svg");
    assert_eq!(a.temperature, t);
    let b = Ambience::new("Eisbad", "flake.svg", t, Some(Fluid::Water));
    assert_eq!(b.fluid, Fluid::Water);
    assert_ne!(a.id, b.id);
}
