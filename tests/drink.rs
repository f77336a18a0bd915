use bier_timer::{
    calculate_freezing_point, milliliters_to_m3, mixture_heat_capacity, Container, ContainerMaterial,
    ContainerShape, CoolingError, Drink, Fluid, HeatTransferCoefficient, ThermalConductivity,
};

fn bottle(volume: u64, area: u64) -> Container {
    Container::new(volume, area, ContainerMaterial::Glass, ContainerShape::BeerBottle)
}

#[test]
fn property_tables() {
    assert_eq!(Fluid::Water.get_density(), 1000);
    assert_eq!(Fluid::Ethanol.get_density(), 789);
    assert_eq!(Fluid::Water.get_heat_capacity(), 4182);
    assert_eq!(Fluid::Ethanol.get_heat_capacity(), 2460);
    let air = Fluid::Air.get_heat_transfer_coefficient();
    assert_eq!(air.num, 25 * air.den);
    let water = Fluid::Water.get_heat_transfer_coefficient();
    assert_eq!(water.num, 1000 * water.den);
    assert_eq!(ContainerMaterial::Glass.get_thickness(), 4500);
    assert_eq!(ContainerMaterial::Aluminium.get_thermal_conductivity(), 162_000);
    let glass = ContainerMaterial::Glass.get_heat_transfer_coefficient();
    assert_eq!(glass.num * 9, glass.den * 74);
    let plastic = bottle(1, 1);
    let plastic = Container { material: ContainerMaterial::Plastic, ..plastic };
    let h = plastic.get_heat_transfer_coefficient();
    assert_eq!(h.num, 10 * h.den);
    assert_eq!(plastic.get_thermal_conductivity(), 10);
}

#[test]
fn mixture_heat_capacity_of_pure_water() {
    let c = mixture_heat_capacity(0);
    assert!(c.den > 0);
    assert_eq!(c.num, 4182 * c.den);
}

#[test]
fn mixture_heat_capacity_of_pure_ethanol() {
    let c = mixture_heat_capacity(1_000_000);
    assert!(c.den > 0);
    assert_eq!(c.num, 2460 * c.den);
}

#[test]
fn mixture_heat_capacity_by_mass() {
    let c = mixture_heat_capacity(500_000);
    let value = c.num as f64 / c.den as f64;
    let expected = (4182.0 * 1000.0 + 2460.0 * 789.0) / (1000.0 + 789.0);
    assert!((value - expected).abs() < 1e-9);
}

#[test]
fn freezing_point_endpoints() {
    assert_eq!(calculate_freezing_point(0).as_deg_celsius(), 0);
    assert_eq!(calculate_freezing_point(600_000).as_deg_celsius(), -37_000_000_000);
    assert_eq!(calculate_freezing_point(50_000).nanokelvin, 270_066_666_666);
}

#[test]
fn drink_freezing_point_endpoints() {
    let water = Drink::new("Wasser", "", "", bottle(500_000, 40_640), 0).unwrap();
    assert_eq!(water.freezing_point.as_deg_celsius(), 0);
    let strong = Drink::new("Schnaps", "", "", bottle(700_000, 48_440), 600_000).unwrap();
    assert_eq!(strong.freezing_point.as_deg_celsius(), -37_000_000_000);
}

#[test]
fn drink_cooling_coefficients_exact() {
    let d = Drink::new("Bier", "500ml Flasche", "bier5.svg", bottle(500_000, 40_640), 50_000).unwrap();
    let air = d.cooling_coefficient.air;
    assert_eq!(air.num * 123_573_765_787_500_000_000_000_000, air.den * 15_036_800_000_000_000_000_000);
    let k = air.num as f64 / air.den as f64;
    let u = 1.0 / (1.0 / 25.0 + 0.0045 / 0.037 + 1.0 / 400.0);
    let capacity = 0.95 * 5e-4 * 1000.0 * 4182.0 + 0.05 * 5e-4 * 789.0 * 2460.0;
    assert!((k - u * 0.04064 / capacity).abs() < 1e-12);
    assert_eq!(d.decay_per_millisecond.air, 999_999_878_317_229_595);
    assert_eq!(d.decay_per_millisecond.water, 999_999_840_389_114_320);
    assert_eq!(d.name, "Bier");
    assert_eq!(d.description, "500ml Flasche");
    assert_eq!(d.path_to_image, "bier5.svg");
    assert_eq!(d.alcohol_percentage, 50_000);
}

#[test]
fn cooling_coefficients_positive() {
    for (volume, area, material) in [
        (1u64, 1u64, ContainerMaterial::Plastic),
        (1_000_000_000, 1, ContainerMaterial::Glass),
        (1, 100_000_000, ContainerMaterial::Aluminium),
        (1_000_000_000, 100_000_000, ContainerMaterial::Aluminium),
    ] {
        for alcohol in [0u64, 1, 400_000, 1_000_000] {
            let c = Container::new(volume, area, material, ContainerShape::Can);
            let d = Drink::new("x", "", "", c, alcohol).unwrap();
            assert!(d.cooling_coefficient.air.num > 0 && d.cooling_coefficient.air.den > 0);
            assert!(d.cooling_coefficient.water.num > 0 && d.cooling_coefficient.water.den > 0);
            assert!(0 < d.decay_per_millisecond.air && d.decay_per_millisecond.air < 1_000_000_000_000_000_000);
            assert!(0 < d.decay_per_millisecond.water && d.decay_per_millisecond.water < 1_000_000_000_000_000_000);
        }
    }
}

#[test]
fn invalid_compositions_are_refused() {
    let refused = |c: Container, alcohol: u64| {
        matches!(Drink::new("x", "", "", c, alcohol), Err(CoolingError::InvalidComposition))
    };
    assert!(refused(bottle(0, 40_640), 0));
    assert!(refused(bottle(500_000, 0), 0));
    assert!(refused(bottle(500_000, 40_640), 1_000_001));
    assert!(refused(bottle(1_000_000_001, 40_640), 0));
    assert!(refused(bottle(500_000, 100_000_001), 0));
}

#[test]
fn drinks_get_distinct_ids() {
    let a = Drink::new("a", "", "", bottle(500_000, 40_640), 0).unwrap();
    let b = Drink::new("b", "", "", bottle(500_000, 40_640), 0).unwrap();
    assert_ne!(a.id, b.id);
}

#[test]
fn milliliters_in_cubic_millimetres() {
    assert_eq!(milliliters_to_m3(500), 500_000);
    assert_eq!(milliliters_to_m3(0), 0);
}
