//! Physical constants of the fluids and container materials.
use vstd::prelude::*;

use crate::fraction::Fraction;

verus! {

/// A fluid: the ambient medium a container sits in, or a part of a drink.
#[derive(Debug, Clone, Copy, PartialEq, Eq, Structural)]
pub enum Fluid {
    Air,
    Water,
    Ethanol,
}

/// Density in kg/m³ (water and ethanol only).
pub open spec fn density(f: Fluid) -> int {
    match f {
        Fluid::Water => 1000,
        _ => 789,
    }
}

/// Specific heat capacity in J/(kg·K) (water and ethanol only).
pub open spec fn heat_capacity(f: Fluid) -> int {
    match f {
        Fluid::Water => 4182,
        _ => 2460,
    }
}

/// Heat-transfer coefficient of the fluid film on a container's outside, in
/// W/(m²·K) (air and water only).
pub open spec fn film_coefficient(f: Fluid) -> int {
    match f {
        Fluid::Air => 25,
        _ => 1000,
    }
}

/// Whether the fluid can surround a container: air and water can, ethanol
/// is only ever part of a drink.
pub open spec fn is_ambient_medium(f: Fluid) -> bool {
    f != Fluid::Ethanol
}

impl Fluid {
    /// Density in kg/m³.
    pub fn get_density(&self) -> (r: u64)
        requires
            *self != Fluid::Air,
        ensures
            r == density(*self),
    {
        match self {
            Fluid::Water => 1000,
            _ => 789,
        }
    }

    /// Specific heat capacity in J/(kg·K).
    pub fn get_heat_capacity(&self) -> (r: u64)
        requires
            *self != Fluid::Air,
        ensures
            r == heat_capacity(*self),
    {
        match self {
            Fluid::Water => 4182,
            _ => 2460,
        }
    }

}

/// Heat-transfer coefficient in W/(m²·K): how much heat passes through a
/// square metre for each kelvin of difference.
pub trait HeatTransferCoefficient {
    /// Whether the value is defined for this item.
    spec fn has_heat_transfer_coefficient(&self) -> bool;

    /// The coefficient as a fraction.
    spec fn heat_transfer_coefficient(&self) -> (int, int);

    fn get_heat_transfer_coefficient(&self) -> (r: Fraction)
        requires
            self.has_heat_transfer_coefficient(),
        ensures
            r@ == self.heat_transfer_coefficient(),
            r.is_positive(),
    ;
}

/// Thermal conductivity in mW/(m·K): higher means more heat passes through
/// the material.
pub trait ThermalConductivity {
    /// The conductivity.
    spec fn thermal_conductivity(&self) -> int;

    fn get_thermal_conductivity(&self) -> (r: u64)
        ensures
            r == self.thermal_conductivity(),
    ;
}

impl HeatTransferCoefficient for Fluid {
    /// Air and water can surround a container; ethanol cannot.
    open spec fn has_heat_transfer_coefficient(&self) -> bool {
        is_ambient_medium(*self)
    }

    open spec fn heat_transfer_coefficient(&self) -> (int, int) {
        (film_coefficient(*self), 1)
    }

    /// The coefficient of the fluid film on a container's outside.
    fn get_heat_transfer_coefficient(&self) -> (r: Fraction) {
        let h: i128 = match self {
            Fluid::Air => 25,
            _ => 1000,
        };
        Fraction { num: h, den: 1 }
    }
}

/// What a container is made of.
#[derive(Debug, Clone, Copy, PartialEq, Eq, Structural, Default)]
pub enum ContainerMaterial {
    Plastic,
    #[default]
    Glass,
    Aluminium,
}

/// Wall thickness in micrometres.
pub open spec fn wall_thickness(m: ContainerMaterial) -> int {
    match m {
        ContainerMaterial::Plastic => 1000,
        ContainerMaterial::Glass => 4500,
        ContainerMaterial::Aluminium => 1000,
    }
}

/// Thermal conductivity in mW/(m·K).
pub open spec fn conductivity(m: ContainerMaterial) -> int {
    match m {
        ContainerMaterial::Plastic => 10,
        ContainerMaterial::Glass => 37,
        ContainerMaterial::Aluminium => 162_000,
    }
}

/// Heat-transfer coefficient of the wall, conductivity over thickness, in
/// W/(m²·K).
pub open spec fn wall_coefficient(m: ContainerMaterial) -> (int, int) {
    (1000 * conductivity(m), wall_thickness(m))
}

impl ContainerMaterial {
    /// Thickness of the wall in micrometres: the thicker the wall, the longer
    /// heat takes to pass through it.
    pub fn get_thickness(&self) -> (r: u64)
        ensures
            r == wall_thickness(*self),
    {
        match self {
            ContainerMaterial::Plastic => 1000,
            ContainerMaterial::Glass => 4500,
            ContainerMaterial::Aluminium => 1000,
        }
    }

}

impl ThermalConductivity for ContainerMaterial {
    open spec fn thermal_conductivity(&self) -> int {
        conductivity(*self)
    }

    fn get_thermal_conductivity(&self) -> (r: u64) {
        match self {
            ContainerMaterial::Plastic => 10,
            ContainerMaterial::Glass => 37,
            ContainerMaterial::Aluminium => 162_000,
        }
    }
}

impl HeatTransferCoefficient for ContainerMaterial {
    open spec fn has_heat_transfer_coefficient(&self) -> bool {
        true
    }

    /// Conductivity over wall thickness.
    open spec fn heat_transfer_coefficient(&self) -> (int, int) {
        wall_coefficient(*self)
    }

    fn get_heat_transfer_coefficient(&self) -> (r: Fraction) {
        Fraction {
            num: 1000 * self.get_thermal_conductivity() as i128,
            den: self.get_thickness() as i128,
        }
    }
}

/// The drink's kind, for classification only.
#[derive(Debug, Clone, Copy, PartialEq, Eq, Structural, Default)]
pub enum DrinkType {
    #[default]
    Beer,
    Wine,
    Lemonade,
    Schnaps,
    Other,
}

/// The container's shape. It is descriptive: area and volume are given
/// separately and the shape has no effect on cooling.
#[derive(Debug, Clone, Copy, PartialEq, Eq, Structural, Default)]
pub enum ContainerShape {
    #[default]
    BeerBottle,
    WineBottle,
    /// Beer or soda can
    Can,
    /// Plastic bottle
    PetBottle,
    SchnapsBottle,
}

} // verus!
