//! Containers and drinks: from a container and its contents to the drink's
//! cooling coefficients.
use vstd::prelude::*;

use crate::fraction::{
    frac_add, frac_div, frac_inv, frac_mul, pow10, same_value, scaled_quotient, whole, Fraction,
};
use crate::ids::fresh_id;
use crate::interpolation::{interpolate, linear_interpolate};
use crate::materials::{
    conductivity, density, film_coefficient, heat_capacity, wall_coefficient,
    ContainerMaterial, ContainerShape, Fluid, HeatTransferCoefficient, ThermalConductivity,
};
use crate::temperature::{Temperature, TemperatureUnit, CELSIUS_OFFSET_NK};

verus! {

/// Parts per million: the scale of alcohol fractions (`1_000_000` is pure
/// ethanol).
pub const PPM: u64 = 1_000_000;

/// Largest container volume handled, in mm³ (one cubic metre).
pub const MAX_VOLUME_MM3: u64 = 1_000_000_000;

/// Largest container surface handled, in mm² (one hundred square metres).
pub const MAX_AREA_MM2: u64 = 100_000_000;

/// Heat-transfer coefficient of the drink's own film on the inside of the
/// wall, in W/(m²·K).
pub const INNER_FILM_COEFFICIENT: u64 = 400;

/// Scale of the per-millisecond decay factor: `DECAY_SCALE` stands for one.
pub const DECAY_SCALE: u64 = 1_000_000_000_000_000_000;

/// Why a cooling computation was refused.
#[derive(Debug, Clone, Copy, PartialEq, Eq, Structural)]
pub enum CoolingError {
    /// The container's volume or area is zero or beyond the handled range, or
    /// the alcohol fraction exceeds one.
    InvalidComposition,
    /// Ethanol was given as the medium around a container.
    UnsupportedFluidRole,
    /// The target temperature is never reached from the initial one.
    UnreachableTarget,
}

/// A container: volume in mm³, outer surface in mm², wall material, and a
/// shape that is only descriptive.
#[derive(Debug, Clone, Copy, PartialEq, Eq, Structural, Default)]
pub struct Container {
    pub volume: u64,
    pub surface_area: u64,
    pub material: ContainerMaterial,
    pub shape: ContainerShape,
}

impl HeatTransferCoefficient for Container {
    open spec fn has_heat_transfer_coefficient(&self) -> bool {
        true
    }

    /// That of the wall.
    open spec fn heat_transfer_coefficient(&self) -> (int, int) {
        wall_coefficient(self.material)
    }

    fn get_heat_transfer_coefficient(&self) -> (r: Fraction) {
        self.material.get_heat_transfer_coefficient()
    }
}

impl ThermalConductivity for Container {
    open spec fn thermal_conductivity(&self) -> int {
        conductivity(self.material)
    }

    fn get_thermal_conductivity(&self) -> (r: u64) {
        self.material.get_thermal_conductivity()
    }
}

impl Container {
    pub fn new(volume: u64, surface_area: u64, material: ContainerMaterial, shape: ContainerShape) -> (c: Container)
        ensures
            c == (Container { volume, surface_area, material, shape }),
    {
        Container { volume, surface_area, material, shape }
    }
}

/// A volume in millilitres in the unit containers use, cubic millimetres
/// (a billionth of a cubic metre).
pub fn milliliters_to_m3(milliliters: u64) -> (v: u64)
    requires
        milliliters * 1000 <= u64::MAX,
    ensures
        v == milliliters * 1000,
{
    milliliters * 1000
}

/// Inputs from which a drink can be built.
pub open spec fn valid_composition(c: Container, alcohol: int) -> bool {
    &&& 0 < c.volume <= MAX_VOLUME_MM3
    &&& 0 < c.surface_area <= MAX_AREA_MM2
    &&& 0 <= alcohol <= PPM
}

/// Mass of water per cubic metre of drink, in units of a millionth of a
/// kilogram: density times volume share, for alcohol fraction `x` in ppm.
pub open spec fn water_share(x: int) -> int {
    density(Fluid::Water) * (PPM - x)
}

/// The ethanol counterpart of [`water_share`].
pub open spec fn ethanol_share(x: int) -> int {
    density(Fluid::Ethanol) * x
}

/// Specific heat capacity of the water–ethanol mixture in J/(kg·K): the
/// average of the two, weighted by mass (rule of mixtures).
pub open spec fn mixture_heat_capacity_of(x: int) -> (int, int) {
    (
        heat_capacity(Fluid::Water) * water_share(x) + heat_capacity(Fluid::Ethanol) * ethanol_share(x),
        water_share(x) + ethanol_share(x),
    )
}

/// Mass of the drink in kg, for a volume in mm³.
pub open spec fn total_mass(volume: int, x: int) -> (int, int) {
    (volume * (water_share(x) + ethanol_share(x)), pow10(15))
}

/// Heat capacity of the whole drink in J/K: mass times specific heat.
pub open spec fn total_heat_capacity(volume: int, x: int) -> (int, int) {
    frac_mul(total_mass(volume, x), mixture_heat_capacity_of(x))
}

/// Overall heat-transfer coefficient in W/(m²·K) from the surrounding fluid
/// to the drink: the outer film, the wall and the inner film in series,
/// `1/U = 1/h_ambient + 1/h_wall + 1/h_inner`.
pub open spec fn overall_coefficient(ambient: Fluid, material: ContainerMaterial) -> (int, int) {
    frac_inv(
        frac_add(
            frac_add(frac_inv(whole(film_coefficient(ambient))), frac_inv(wall_coefficient(material))),
            frac_inv(whole(INNER_FILM_COEFFICIENT as int)),
        ),
    )
}

/// Cooling coefficient in 1/s: `U * A / C`, with the area converted from mm²
/// to m².
pub open spec fn cooling_coefficient_of(c: Container, x: int, ambient: Fluid) -> (int, int) {
    frac_div(
        frac_mul(overall_coefficient(ambient, c.material), (c.surface_area as int, pow10(6))),
        total_heat_capacity(c.volume as int, x),
    )
}

/// The factor, scaled by [`DECAY_SCALE`] and rounded down, by which the
/// difference to the ambient temperature shrinks in one millisecond, for the
/// cooling coefficient `k` (per second). It is the implicit (backward Euler)
/// step `1 / (1 + k/1000)`, which agrees with `exp(-k/1000)` up to terms in
/// `k²` and lies strictly between zero and one for every positive `k` in the
/// handled range.
pub open spec fn step_factor(k: (int, int)) -> int {
    (1000 * k.1) * DECAY_SCALE / (1000 * k.1 + k.0)
}

/// The cooling coefficient of any container with positive volume and area,
/// holding any water–ethanol mixture, in air or in water, is strictly
/// positive.
pub proof fn lemma_cooling_coefficient_positive(c: Container, x: int, ambient: Fluid)
    requires
        c.volume > 0,
        c.surface_area > 0,
        0 <= x <= PPM,
        ambient != Fluid::Ethanol,
    ensures
        cooling_coefficient_of(c, x, ambient).0 > 0,
        cooling_coefficient_of(c, x, ambient).1 > 0,
{
    let m = water_share(x) + ethanol_share(x);
    let h = mixture_heat_capacity_of(x).0;
    assert(m > 0 && h > 0) by (nonlinear_arith)
        requires
            m == 1000 * (1_000_000 - x) + 789 * x,
            h == 4182 * (1000 * (1_000_000 - x)) + 2460 * (789 * x),
            0 <= x <= 1_000_000,
    ;
    assert(pow10(6) == 1_000_000 && pow10(15) == 1_000_000_000_000_000) by {
        reveal_with_fuel(pow10, 16);
    }
    let ha = film_coefficient(ambient);
    let w = wall_coefficient(c.material);
    let hi = INNER_FILM_COEFFICIENT as int;
    assert(w.0 > 0 && w.1 > 0 && ha > 0);
    let inner = frac_add(frac_inv(whole(ha)), frac_inv(w));
    assert(inner.0 > 0 && inner.1 > 0) by (nonlinear_arith)
        requires inner == frac_add(frac_inv(whole(ha)), frac_inv(w)), w.0 > 0, w.1 > 0, ha > 0;
    let outer = frac_add(inner, frac_inv(whole(hi)));
    assert(outer.0 > 0 && outer.1 > 0) by (nonlinear_arith)
        requires outer == frac_add(inner, frac_inv(whole(hi))), inner.0 > 0, inner.1 > 0, hi > 0;
    let u = frac_inv(outer);
    let ua = frac_mul(u, (c.surface_area as int, pow10(6)));
    assert(ua.0 > 0 && ua.1 > 0) by (nonlinear_arith)
        requires ua == frac_mul(u, (c.surface_area as int, 1_000_000)), u.0 > 0, u.1 > 0, c.surface_area > 0;
    let cap = total_heat_capacity(c.volume as int, x);
    assert(cap.0 > 0 && cap.1 > 0) by (nonlinear_arith)
        requires
            cap == frac_mul((c.volume * m, 1_000_000_000_000_000), (h, m)),
            c.volume > 0,
            m > 0,
            h > 0,
    ;
    assert(ua.0 * cap.1 > 0 && ua.1 * cap.0 > 0) by (nonlinear_arith)
        requires ua.0 > 0, ua.1 > 0, cap.0 > 0, cap.1 > 0;
}

/// A drink of pure water has the specific heat of water, 4182 J/(kg·K), and
/// one of pure ethanol that of ethanol, 2460 J/(kg·K); so the heat capacity
/// in J/K of `volume` mm³ of either is its mass (`volume` times its
/// density, over `10^9`) times that value.
pub proof fn lemma_pure_liquid_heat_capacity(volume: int)
    requires
        volume > 0,
    ensures
        same_value(mixture_heat_capacity_of(0), whole(4182)),
        same_value(mixture_heat_capacity_of(PPM as int), whole(2460)),
        same_value(total_heat_capacity(volume, 0), (volume * 1000 * 4182, pow10(9))),
        same_value(total_heat_capacity(volume, PPM as int), (volume * 789 * 2460, pow10(9))),
{
    assert(pow10(15) == 1_000_000_000_000_000 && pow10(9) == 1_000_000_000) by {
        reveal_with_fuel(pow10, 16);
    }
    let w = water_share(0);
    let e = ethanol_share(PPM as int);
    assert(w == 1_000_000_000 && ethanol_share(0) == 0 && water_share(PPM as int) == 0 && e == 789_000_000);
    let cw = total_heat_capacity(volume, 0);
    assert(mixture_heat_capacity_of(0) == (4_182_000_000_000int, 1_000_000_000int));
    assert(cw == (volume * 1_000_000_000 * 4_182_000_000_000, 1_000_000_000_000_000 * 1_000_000_000int)) by {
        assert(total_mass(volume, 0) == (volume * 1_000_000_000, 1_000_000_000_000_000int));
    }
    let ce = total_heat_capacity(volume, PPM as int);
    assert(mixture_heat_capacity_of(PPM as int) == (2460 * 789_000_000int, 789_000_000int));
    assert(ce == (volume * 789_000_000 * (2460 * 789_000_000), 1_000_000_000_000_000 * 789_000_000int)) by {
        assert(total_mass(volume, PPM as int) == (volume * 789_000_000, 1_000_000_000_000_000int));
    }
    let (w0, w1) = cw;
    let (e0, e1) = ce;
    assert(w0 * 1_000_000_000 == (volume * 1000 * 4182) * w1) by (nonlinear_arith)
        requires
            w0 == volume * 1_000_000_000 * 4_182_000_000_000,
            w1 == 1_000_000_000_000_000 * 1_000_000_000int,
    ;
    assert(e0 * 1_000_000_000 == (volume * 789 * 2460) * e1) by (nonlinear_arith)
        requires
            e0 == volume * 789_000_000 * (2460 * 789_000_000),
            e1 == 1_000_000_000_000_000 * 789_000_000int,
    ;
}

/// A positive coefficient leaves a factor below one.
pub proof fn lemma_step_factor_below_scale(k: (int, int))
    requires
        k.0 > 0,
        k.1 > 0,
    ensures
        0 <= step_factor(k) < DECAY_SCALE,
{
    let a = 1000 * k.1;
    let b = 1000 * k.1 + k.0;
    assert(0 <= a * (DECAY_SCALE as int) / b < DECAY_SCALE) by (nonlinear_arith)
        requires 0 < a < b;
}

/// Freezing point in nanokelvin for alcohol fraction `x` (ppm): linear
/// between 0 °C for water and -37 °C at 60 % ethanol, rounded down.
pub open spec fn freezing_point_of(x: int) -> int {
    CELSIUS_OFFSET_NK + interpolate(x, 0, 600_000, 0, -37_000_000_000)
}

/// A value for each medium a container can sit in.
#[derive(Debug, Clone, Copy, PartialEq, Eq, Structural)]
pub struct PerMedium<T> {
    /// In air: freezer, fridge.
    pub air: T,
    /// In water: ice bath.
    pub water: T,
}

/// A drink in its container. The cooling data is derived once, when the
/// drink is built.
#[derive(Debug, Clone)]
pub struct Drink {
    pub id: uuid::Uuid,
    pub name: String,
    pub description: String,
    pub path_to_image: String,
    pub container: Container,
    /// Share of ethanol in the liquid by volume, in ppm.
    pub alcohol_percentage: u64,
    /// Cooling coefficients in 1/s.
    pub cooling_coefficient: PerMedium<Fraction>,
    /// [`step_factor`] of each coefficient.
    pub decay_per_millisecond: PerMedium<u64>,
    pub freezing_point: Temperature,
}

impl Drink {
    /// The drink's cooling data is consistent with its coefficients.
    pub open spec fn wf(&self) -> bool {
        &&& self.cooling_coefficient.air.is_positive()
        &&& self.cooling_coefficient.water.is_positive()
        &&& self.decay_per_millisecond.air == step_factor(self.cooling_coefficient.air@)
        &&& self.decay_per_millisecond.water == step_factor(self.cooling_coefficient.water@)
    }

    /// The per-millisecond decay factor in the medium `ambient`.
    pub open spec fn decay_in(&self, ambient: Fluid) -> int {
        match ambient {
            Fluid::Water => self.decay_per_millisecond.water as int,
            _ => self.decay_per_millisecond.air as int,
        }
    }

    /// Builds a drink of `alcohol_percentage` ppm ethanol by volume in
    /// `container`, deriving its cooling coefficients and freezing point.
    pub fn new(
        name: &str,
        description: &str,
        path_to_image: &str,
        container: Container,
        alcohol_percentage: u64,
    ) -> (r: Result<Drink, CoolingError>)
        ensures
            !valid_composition(container, alcohol_percentage as int) ==> r == Err::<Drink, CoolingError>(
                CoolingError::InvalidComposition,
            ),
            valid_composition(container, alcohol_percentage as int) ==> r is Ok,
            r matches Ok(d) ==> {
                &&& d.wf()
                &&& d.name@ == name@
                &&& d.description@ == description@
                &&& d.path_to_image@ == path_to_image@
                &&& d.container == container
                &&& d.alcohol_percentage == alcohol_percentage
                &&& same_value(
                    d.cooling_coefficient.air@,
                    cooling_coefficient_of(container, alcohol_percentage as int, Fluid::Air),
                )
                &&& same_value(
                    d.cooling_coefficient.water@,
                    cooling_coefficient_of(container, alcohol_percentage as int, Fluid::Water),
                )
                &&& d.freezing_point.nanokelvin == freezing_point_of(alcohol_percentage as int)
            },
    {
        if container.volume == 0 || container.volume > MAX_VOLUME_MM3 || container.surface_area == 0
            || container.surface_area > MAX_AREA_MM2 || alcohol_percentage > PPM {
            return Err(CoolingError::InvalidComposition);
        }
        let capacity = total_heat_capacity_density(alcohol_percentage);
        let air = cooling_coefficient(&container, capacity, Fluid::Air);
        let water = cooling_coefficient(&container, capacity, Fluid::Water);
        let air_step = decay_step(air);
        let water_step = decay_step(water);
        Ok(Drink {
            id: fresh_id(),
            name: String::from_str(name),
            description: String::from_str(description),
            path_to_image: String::from_str(path_to_image),
            container,
            alcohol_percentage,
            cooling_coefficient: PerMedium { air, water },
            decay_per_millisecond: PerMedium { air: air_step, water: water_step },
            freezing_point: calculate_freezing_point(alcohol_percentage),
        })
    }
}

/// Specific heat capacity of the water–ethanol mixture at alcohol fraction
/// `alcohol` (ppm), in J/(kg·K).
pub fn mixture_heat_capacity(alcohol: u64) -> (r: Fraction)
    requires
        alcohol <= PPM,
    ensures
        r@ == mixture_heat_capacity_of(alcohol as int),
        r.is_positive(),
{
    let water = Fluid::Water;
    let ethanol = Fluid::Ethanol;
    let water_density = water.get_density() as i128;
    let ethanol_density = ethanol.get_density() as i128;
    let water_capacity = water.get_heat_capacity() as i128;
    let ethanol_capacity = ethanol.get_heat_capacity() as i128;
    assert(water_density == 1000 && ethanol_density == 789);
    assert(water_capacity == 4182 && ethanol_capacity == 2460);
    let water_mass = water_density * (PPM - alcohol) as i128;
    let ethanol_mass = ethanol_density * alcohol as i128;
    Fraction {
        num: water_capacity * water_mass + ethanol_capacity * ethanol_mass,
        den: water_mass + ethanol_mass,
    }
}

/// The numerator of [`mixture_heat_capacity`]: heat capacity per unit
/// volume, in J/(m³·K) scaled by a million.
fn total_heat_capacity_density(alcohol: u64) -> (h: u128)
    requires
        alcohol <= PPM,
    ensures
        h == mixture_heat_capacity_of(alcohol as int).0,
        0 < h <= 4_182_000_000_000,
{
    let c = mixture_heat_capacity(alcohol);
    c.num as u128
}

/// The cooling coefficient of `container`, holding a liquid of heat capacity
/// per volume `capacity`, in the medium `ambient`, with the powers of ten
/// cancelled: `10^12 c h_a h_i A / ((1000 c (h_a + h_i) + h_a h_i t) V H)`.
fn cooling_coefficient(container: &Container, capacity: u128, ambient: Fluid) -> (k: Fraction)
    requires
        0 < container.volume <= MAX_VOLUME_MM3,
        0 < container.surface_area <= MAX_AREA_MM2,
        ambient != Fluid::Ethanol,
        0 < capacity <= 4_182_000_000_000,
    ensures
        k.is_positive(),
        k.num <= 7_000_000_000_000_000_000_000_000_000_000_000,
        k.den <= 1_000_000_000_000_000_000_000_000_000_000_000,
        forall|x: int|
            0 <= x <= PPM && mixture_heat_capacity_of(x).0 == capacity ==> same_value(
                k@,
                #[trigger] cooling_coefficient_of(*container, x, ambient),
            ),
{
    let c = container.get_thermal_conductivity() as u128;
    let t = container.material.get_thickness() as u128;
    let ha = ambient.get_heat_transfer_coefficient().num as u128;
    let hi = INNER_FILM_COEFFICIENT as u128;
    let area = container.surface_area as u128;
    let volume = container.volume as u128;
    assert(1 <= c <= 162_000 && 1 <= t <= 4500 && 1 <= ha <= 1000 && hi == 400) by {
        assert(conductivity(container.material) <= 162_000);
    }
    assert(c * ha <= 162_000_000) by (nonlinear_arith)
        requires c <= 162_000, ha <= 1000;
    let ch: u128 = c * ha;
    let chh: u128 = ch * hi;
    assert(chh * area <= 6_480_000_000_000_000_000) by (nonlinear_arith)
        requires chh == ch * hi, ch <= 162_000_000, hi == 400, area <= 100_000_000;
    let num: u128 = 1_000_000_000_000 * (chh * area);
    assert(ha * hi <= 400_000) by (nonlinear_arith)
        requires ha <= 1000, hi == 400;
    let hh: u128 = ha * hi;
    assert(hh * t <= 1_800_000_000) by (nonlinear_arith)
        requires hh <= 400_000, t <= 4500;
    assert(1000 * c * (ha + hi) <= 226_800_000_000) by (nonlinear_arith)
        requires c <= 162_000, ha <= 1000, hi == 400;
    let resistance: u128 = 1000 * c * (ha + hi) + hh * t;
    assert(resistance * volume <= 228_600_000_000_000_000_000) by (nonlinear_arith)
        requires resistance <= 228_600_000_000, volume <= 1_000_000_000;
    let rv: u128 = resistance * volume;
    assert(rv * capacity <= 956_005_200_000_000_000_000_000_000_000_000) by (nonlinear_arith)
        requires rv <= 228_600_000_000_000_000_000, capacity <= 4_182_000_000_000;
    let den: u128 = rv * capacity;
    assert(num > 0 && den > 0) by (nonlinear_arith)
        requires num == 1_000_000_000_000 * (chh * area), chh == ch * hi, ch == c * ha, den == rv * capacity,
            rv == resistance * volume, resistance >= 1, c >= 1, ha >= 1, hi >= 1, area >= 1,
            volume >= 1, capacity >= 1;
    let k = Fraction { num: num as i128, den: den as i128 };
    assert forall|x: int|
        0 <= x <= PPM && mixture_heat_capacity_of(x).0 == capacity implies same_value(
            k@,
            #[trigger] cooling_coefficient_of(*container, x, ambient),
        ) by {
        let m = water_share(x) + ethanol_share(x);
        assert(m > 0) by (nonlinear_arith)
            requires m == 1000 * (1_000_000 - x) + 789 * x, 0 <= x <= 1_000_000;
        assert(pow10(6) == 1_000_000 && pow10(15) == 1_000_000_000_000_000) by {
            reveal_with_fuel(pow10, 16);
        }
        lemma_coefficient_identity(
            c as int, t as int, ha as int, hi as int, area as int, volume as int, capacity as int, m,
            ch as int, chh as int, hh as int, resistance as int, rv as int, num as int, den as int,
        );
    }
    k
}

/// The coefficient as `cooling_coefficient` computes it is the
/// series-resistance formula of [`cooling_coefficient_of`].
proof fn lemma_coefficient_identity(
    c: int,
    t: int,
    ha: int,
    hi: int,
    area: int,
    volume: int,
    capacity: int,
    m: int,
    ch: int,
    chh: int,
    hh: int,
    resistance: int,
    rv: int,
    num: int,
    den: int,
)
    requires
        ch == c * ha,
        chh == ch * hi,
        hh == ha * hi,
        resistance == 1000 * c * (ha + hi) + hh * t,
        rv == resistance * volume,
        num == 1_000_000_000_000 * (chh * area),
        den == rv * capacity,
    ensures
        same_value(
            (num, den),
            frac_div(
                frac_mul(
                    frac_inv(frac_add(frac_add(frac_inv(whole(ha)), frac_inv((1000 * c, t))), frac_inv(whole(hi)))),
                    (area, 1_000_000),
                ),
                frac_mul((volume * m, 1_000_000_000_000_000), (capacity, m)),
            ),
        ),
{
    let u_num = ha * (1000 * c) * hi;
    let u_den = (1 * (1000 * c) + t * ha) * hi + 1 * (ha * (1000 * c));
    assert(u_den == resistance) by (nonlinear_arith)
        requires
            u_den == (1 * (1000 * c) + t * ha) * hi + 1 * (ha * (1000 * c)),
            resistance == 1000 * c * (ha + hi) + hh * t,
            hh == ha * hi,
    ;
    assert(u_num == 1000 * chh) by (nonlinear_arith)
        requires u_num == ha * (1000 * c) * hi, chh == ch * hi, ch == c * ha;
    let x = chh * area;
    let spec_num = (u_num * area) * (1_000_000_000_000_000 * m);
    let spec_den = (u_den * 1_000_000) * ((volume * m) * capacity);
    assert(spec_num == 1_000_000_000_000_000_000 * (m * x)) by (nonlinear_arith)
        requires spec_num == (u_num * area) * (1_000_000_000_000_000 * m), u_num == 1000 * chh, x == chh * area;
    assert(spec_den == 1_000_000 * (m * den)) by (nonlinear_arith)
        requires
            spec_den == (u_den * 1_000_000) * ((volume * m) * capacity),
            u_den == resistance,
            den == rv * capacity,
            rv == resistance * volume,
    ;
    assert(num * spec_den == spec_num * den) by (nonlinear_arith)
        requires
            num == 1_000_000_000_000 * x,
            spec_den == 1_000_000 * (m * den),
            spec_num == 1_000_000_000_000_000_000 * (m * x),
    ;
}

/// The per-millisecond decay factor of the coefficient `k`.
fn decay_step(k: Fraction) -> (r: u64)
    requires
        k.is_positive(),
        k.num <= 7_000_000_000_000_000_000_000_000_000_000_000,
        k.den <= 1_000_000_000_000_000_000_000_000_000_000_000,
    ensures
        r == step_factor(k@),
        r < DECAY_SCALE,
{
    let kn = k.num as u128;
    let kd = k.den as u128;
    assert(1000 * kd + kn <= 1_007_000_000_000_000_000_000_000_000_000_000_000);
    let q = scaled_quotient(1000 * kd, 1000 * kd + kn, 18);
    assert(pow10(18) == DECAY_SCALE) by {
        reveal_with_fuel(pow10, 19);
    }
    proof {
        lemma_step_factor_below_scale(k@);
    }
    q as u64
}

/// Freezing point of a drink with alcohol fraction `alcohol` (ppm): from
/// 0 °C for water to -37 °C at 60 % ethanol, extended linearly beyond.
pub fn calculate_freezing_point(alcohol: u64) -> (t: Temperature)
    requires
        alcohol <= PPM,
    ensures
        t.nanokelvin == freezing_point_of(alcohol as int),
{
    assert(-62_000_000_000 <= interpolate(alcohol as int, 0, 600_000, 0, -37_000_000_000) <= 0) by (nonlinear_arith)
        requires
            0 <= alcohol <= 1_000_000,
            interpolate(alcohol as int, 0, 600_000, 0, -37_000_000_000) == 0 + (alcohol - 0) * (-37_000_000_000 - 0) / (600_000 - 0),
    ;
    let t = linear_interpolate(alcohol as i64, 0, 600_000, 0, -37_000_000_000);
    Temperature::new_with_unit(t, TemperatureUnit::DegCelsius)
}

} // verus!
