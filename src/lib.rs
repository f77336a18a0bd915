//! Cooling timer for drinks: predicts how a drink's temperature evolves in a
//! freezer, fridge or ice bath, and how long it takes to reach a target.
//!
//! All quantities are exact integers: temperatures in nanokelvin, areas in
//! mm², volumes in mm³, times in milliseconds, alcohol fractions in parts
//! per million, and the cooling coefficient as an exact fraction.

pub mod ambience;
pub mod cooling;
pub mod drink;
pub mod fraction;
mod ids;
pub mod interpolation;
pub mod materials;
pub mod temperature;
mod text;
pub mod time;
pub mod timer;

pub use ambience::Ambience;
pub use cooling::{
    lemma_cooling_approaches_ambient, lemma_cooling_composes, lemma_round_trip, temperature_after_time, time_until_temperature,
};
pub use drink::{
    calculate_freezing_point, lemma_cooling_coefficient_positive, lemma_pure_liquid_heat_capacity, milliliters_to_m3, mixture_heat_capacity,
    Container, CoolingError, Drink, PerMedium, DECAY_SCALE, MAX_AREA_MM2, MAX_VOLUME_MM3, PPM,
};
pub use fraction::Fraction;
pub use interpolation::{linear_interpolate, linear_interpolate_ceil};
pub use materials::{ContainerMaterial, ContainerShape, DrinkType, Fluid, HeatTransferCoefficient, ThermalConductivity};
pub use temperature::{Temperature, TemperatureUnit, CELSIUS_OFFSET_NK};
pub use time::{
    format_chrono_duration, format_chrono_duration_precise, format_chrono_duration_simple, Duration, Timestamp,
    TIMESTAMP_LIMIT,
};
pub use timer::{TimerInfo, TimerPreset, TimerSample};
