//! Newton's law of cooling, advanced millisecond by millisecond, and its
//! inverse.
//!
//! The difference between the drink's and the ambient temperature shrinks by
//! the drink's per-millisecond decay factor (see
//! [`crate::drink::step_factor`]) each millisecond. The inverse finds the
//! last whole second at which the drink has not yet passed the target.
use vstd::prelude::*;

use crate::ambience::Ambience;
use crate::drink::{lemma_step_factor_below_scale, CoolingError, Drink, DECAY_SCALE};
use crate::materials::Fluid;
use crate::temperature::Temperature;
use crate::time::Duration;

verus! {

/// The share `x` (scaled by [`DECAY_SCALE`]) of a temperature difference
/// after `n` more milliseconds.
pub open spec fn advance(step: int, x: int, n: nat) -> int
    decreases n,
{
    if n == 0 {
        x
    } else {
        advance(step, x, (n - 1) as nat) * step / (DECAY_SCALE as int)
    }
}

/// The share of the initial temperature difference left after `ms`
/// milliseconds.
pub open spec fn decay(step: int, ms: nat) -> int {
    advance(step, DECAY_SCALE as int, ms)
}

/// What remains, rounded down, of a temperature difference `gap` when the
/// share `d` of it is left.
pub open spec fn remaining(gap: int, d: int) -> int {
    gap * d / (DECAY_SCALE as int)
}

/// Temperature in nanokelvin of a drink that started at `initial` in an
/// ambience at `ambient`, `ms` milliseconds later (at `initial` for any
/// time before the start).
pub open spec fn temperature_at(step: int, initial: int, ambient: int, ms: int) -> int {
    let d = decay(step, if ms < 0 { 0 } else { ms as nat });
    if initial >= ambient {
        ambient + remaining(initial - ambient, d)
    } else {
        ambient - remaining(ambient - initial, d)
    }
}

/// How far apart two temperatures are.
pub open spec fn distance(a: int, b: int) -> int {
    if a >= b { a - b } else { b - a }
}

/// The drink's temperature after `ms` milliseconds in `ambience`, having
/// started at `initial`.
pub open spec fn cooling_curve(drink: Drink, ambience: Ambience, initial: Temperature, ms: int) -> int {
    temperature_at(
        drink.decay_in(ambience.fluid),
        initial.nanokelvin as int,
        ambience.temperature.nanokelvin as int,
        ms,
    )
}

/// Whether `target` is ever reached: it is the initial temperature, or lies
/// strictly closer to the ambient temperature on the same side.
pub open spec fn is_reachable(target: int, initial: int, ambient: int) -> bool {
    ||| target == initial
    ||| ambient < target <= initial
    ||| initial <= target < ambient
}

/// After `s` whole seconds the drink is still at least as far from the
/// ambient temperature as `target` is: it has not passed the target.
pub open spec fn short_of(drink: Drink, ambience: Ambience, initial: Temperature, target: int, s: nat) -> bool {
    distance(cooling_curve(drink, ambience, initial, (1000 * s) as int), ambience.temperature.nanokelvin as int)
        >= distance(target, ambience.temperature.nanokelvin as int)
}

/// `s` is the last whole second at which the drink has not passed `target`.
pub open spec fn is_last_second_short_of(
    drink: Drink,
    ambience: Ambience,
    initial: Temperature,
    target: int,
    s: nat,
) -> bool {
    &&& short_of(drink, ambience, initial, target, s)
    &&& forall|e: nat| e > s ==> !#[trigger] short_of(drink, ambience, initial, target, e)
}

proof fn lemma_advance_step(step: int, x: int, n: nat)
    requires
        0 <= step < DECAY_SCALE,
        0 <= advance(step, x, n),
    ensures
        0 <= advance(step, x, n + 1) <= advance(step, x, n),
        advance(step, x, n) > 0 ==> advance(step, x, n + 1) < advance(step, x, n),
{
    let d = advance(step, x, n);
    assert(advance(step, x, n + 1) == d * step / (DECAY_SCALE as int));
    assert(0 <= d * step / (DECAY_SCALE as int) <= d) by (nonlinear_arith)
        requires 0 <= step < DECAY_SCALE, 0 <= d;
    assert(d > 0 ==> d * step / (DECAY_SCALE as int) < d) by (nonlinear_arith)
        requires 0 <= step < DECAY_SCALE, 0 <= d;
}

/// The share never grows, and shrinks by at least one unit a millisecond
/// until it is gone.
proof fn lemma_advance_bounds(step: int, x: int, n: nat)
    requires
        0 <= step < DECAY_SCALE,
        0 <= x,
    ensures
        0 <= advance(step, x, n) <= x,
        advance(step, x, n) == 0 || n + advance(step, x, n) <= x,
    decreases n,
{
    if n > 0 {
        lemma_advance_bounds(step, x, (n - 1) as nat);
        lemma_advance_step(step, x, (n - 1) as nat);
    }
}

/// Later shares are no larger.
pub proof fn lemma_advance_monotone(step: int, x: int, n1: nat, n2: nat)
    requires
        0 <= step < DECAY_SCALE,
        0 <= x,
        n1 <= n2,
    ensures
        0 <= advance(step, x, n2) <= advance(step, x, n1) <= x,
    decreases n2,
{
    lemma_advance_bounds(step, x, n2);
    lemma_advance_bounds(step, x, n1);
    if n1 < n2 {
        lemma_advance_monotone(step, x, n1, (n2 - 1) as nat);
        lemma_advance_bounds(step, x, (n2 - 1) as nat);
        lemma_advance_step(step, x, (n2 - 1) as nat);
    }
}

/// Advancing by `a` and then by `b` milliseconds is advancing by `a + b`.
pub proof fn lemma_advance_compose(step: int, x: int, a: nat, b: nat)
    ensures
        advance(step, advance(step, x, a), b) == advance(step, x, a + b),
    decreases b,
{
    if b > 0 {
        lemma_advance_compose(step, x, a, (b - 1) as nat);
        assert((a + b - 1) as nat == (a + (b - 1) as nat) as nat);
    }
}

/// Advancing a share `x` is, up to one unit of rounding per millisecond,
/// scaling the share `decay` left from a whole difference.
proof fn lemma_advance_scales(step: int, x: int, n: nat)
    requires
        0 <= step < DECAY_SCALE,
        0 <= x <= DECAY_SCALE,
    ensures
        -(n * DECAY_SCALE) <= advance(step, x, n) * DECAY_SCALE - x * decay(step, n) <= n * DECAY_SCALE,
    decreases n,
{
    if n > 0 {
        let m = (n - 1) as nat;
        lemma_advance_scales(step, x, m);
        lemma_advance_bounds(step, x, m);
        lemma_advance_bounds(step, DECAY_SCALE as int, m);
        let s = DECAY_SCALE as int;
        let f = advance(step, x, m);
        let g = decay(step, m);
        let f1 = f * step / s;
        let g1 = g * step / s;
        assert(f1 * s <= f * step < f1 * s + s) by (nonlinear_arith)
            requires f1 == f * step / s, s > 0;
        assert(g1 * s <= g * step < g1 * s + s) by (nonlinear_arith)
            requires g1 == g * step / s, s > 0;
        assert(advance(step, x, n) == f1);
        assert(decay(step, n) == g1);
        let delta = f * s - x * g;
        assert(f1 * s * s <= f * step * s) by (nonlinear_arith)
            requires f1 * s <= f * step, s > 0;
        assert(f1 * s * s >= f * step * s - s * s) by (nonlinear_arith)
            requires f * step < f1 * s + s, s > 0;
        assert(x * g1 * s >= x * g * step - x * s) by (nonlinear_arith)
            requires g * step < g1 * s + s, x >= 0;
        assert(x * g1 * s <= x * g * step) by (nonlinear_arith)
            requires g1 * s <= g * step, x >= 0;
        assert((f1 * s - x * g1) * s == f1 * s * s - x * g1 * s) by (nonlinear_arith);
        assert(step * delta == f * step * s - x * g * step) by (nonlinear_arith)
            requires delta == f * s - x * g;
        assert(x * s <= s * s) by (nonlinear_arith)
            requires 0 <= x <= s;
        assert((f1 * s - x * g1) * s <= step * delta + x * s);
        assert((f1 * s - x * g1) * s >= step * delta - s * s);
        assert(-(m * s) * s <= step * delta <= (m * s) * s) by (nonlinear_arith)
            requires -(m * s) <= delta <= m * s, 0 <= step < s;
        assert(-(n * s) <= f1 * s - x * g1 <= n * s) by (nonlinear_arith)
            requires
                (f1 * s - x * g1) * s <= step * delta + x * s,
                (f1 * s - x * g1) * s >= step * delta - s * s,
                -(m * s) * s <= step * delta <= (m * s) * s,
                0 <= x <= s,
                n == m + 1,
                s > 0,
        ;
    }
}

proof fn lemma_remaining_monotone(gap: int, d1: int, d2: int)
    requires
        0 <= gap,
        0 <= d1 <= d2 <= DECAY_SCALE,
    ensures
        0 <= remaining(gap, d1) <= remaining(gap, d2) <= gap,
        remaining(gap, DECAY_SCALE as int) == gap,
{
    assert(0 <= gap * d1 / (DECAY_SCALE as int) <= gap * d2 / (DECAY_SCALE as int)) by (nonlinear_arith)
        requires 0 <= gap, 0 <= d1 <= d2;
    assert(gap * d2 / (DECAY_SCALE as int) <= gap) by (nonlinear_arith)
        requires 0 <= gap, d2 <= DECAY_SCALE;
    assert(gap * (DECAY_SCALE as int) / (DECAY_SCALE as int) == gap) by (nonlinear_arith);
}

/// The share `x` after `n` more milliseconds.
fn advance_by(step: u64, x: u128, n: u64) -> (d: u128)
    requires
        step < DECAY_SCALE,
        x <= DECAY_SCALE,
    ensures
        d == advance(step as int, x as int, n as nat),
        d <= x,
{
    let mut d: u128 = x;
    let mut i: u64 = 0;
    while i < n && d > 0
        invariant
            step < DECAY_SCALE,
            x <= DECAY_SCALE,
            i <= n,
            d == advance(step as int, x as int, i as nat),
            d <= x,
        decreases n - i,
    {
        proof {
            lemma_advance_step(step as int, x as int, i as nat);
        }
        assert(d * step <= 1_000_000_000_000_000_000_000_000_000_000_000_000) by (nonlinear_arith)
            requires d <= DECAY_SCALE, step < DECAY_SCALE;
        d = d * step as u128 / DECAY_SCALE as u128;
        i = i + 1;
    }
    proof {
        lemma_advance_monotone(step as int, x as int, i as nat, n as nat);
    }
    d
}

/// The temperature at which the share `d` of the initial difference to the
/// ambient temperature is left.
fn temperature_with_decay(initial: i64, ambient: i64, d: u128) -> (t: i64)
    requires
        d <= DECAY_SCALE,
    ensures
        initial >= ambient ==> t == ambient + remaining(initial - ambient, d as int),
        initial < ambient ==> t == ambient - remaining(ambient - initial, d as int),
{
    let gap: u128 = if initial >= ambient {
        (initial as i128 - ambient as i128) as u128
    } else {
        (ambient as i128 - initial as i128) as u128
    };
    proof {
        lemma_remaining_monotone(gap as int, d as int, DECAY_SCALE as int);
    }
    let left = remaining_of(gap, d);
    if initial >= ambient {
        (ambient as i128 + left as i128) as i64
    } else {
        (ambient as i128 - left as i128) as i64
    }
}

fn remaining_of(gap: u128, d: u128) -> (r: u128)
    requires
        gap <= 20_000_000_000_000_000_000,
        d <= DECAY_SCALE,
    ensures
        r == remaining(gap as int, d as int),
{
    assert(gap * d <= 20_000_000_000_000_000_000_000_000_000_000_000_000) by (nonlinear_arith)
        requires gap <= 20_000_000_000_000_000_000, d <= DECAY_SCALE;
    gap * d / DECAY_SCALE as u128
}

/// The per-millisecond decay factor of `drink` in `ambience`, or the error
/// for a medium a container cannot sit in.
fn decay_for(drink: &Drink, ambience: &Ambience) -> (r: Result<u64, CoolingError>)
    requires
        drink.wf(),
    ensures
        ambience.fluid == Fluid::Ethanol ==> r == Err::<u64, CoolingError>(CoolingError::UnsupportedFluidRole),
        ambience.fluid != Fluid::Ethanol ==> r == Ok::<u64, CoolingError>(
            drink.decay_in(ambience.fluid) as u64,
        ),
        r matches Ok(step) ==> step < DECAY_SCALE,
{
    proof {
        lemma_step_factor_below_scale(drink.cooling_coefficient.air@);
        lemma_step_factor_below_scale(drink.cooling_coefficient.water@);
    }
    match ambience.fluid {
        Fluid::Air => Ok(drink.decay_per_millisecond.air),
        Fluid::Water => Ok(drink.decay_per_millisecond.water),
        Fluid::Ethanol => Err(CoolingError::UnsupportedFluidRole),
    }
}

/// The temperature `drink`, having started at `initial_temperature`, has
/// after `time` in `ambience`. A negative time counts as none. Takes time
/// linear in the number of milliseconds.
pub fn temperature_after_time(
    time: Duration,
    initial_temperature: Temperature,
    drink: &Drink,
    ambience: &Ambience,
) -> (r: Result<Temperature, CoolingError>)
    requires
        drink.wf(),
    ensures
        ambience.fluid == Fluid::Ethanol ==> r == Err::<Temperature, CoolingError>(
            CoolingError::UnsupportedFluidRole,
        ),
        ambience.fluid != Fluid::Ethanol ==> (r matches Ok(t) && t.nanokelvin == cooling_curve(
            *drink,
            *ambience,
            initial_temperature,
            time.millis as int,
        )),
{
    let step = match decay_for(drink, ambience) {
        Ok(step) => step,
        Err(e) => return Err(e),
    };
    let elapsed: u64 = if time.millis < 0 {
        0
    } else {
        time.millis as u64
    };
    let d = advance_by(step, DECAY_SCALE as u128, elapsed);
    let t = temperature_with_decay(initial_temperature.nanokelvin, ambience.temperature.nanokelvin, d);
    Ok(Temperature::new(t))
}

/// On a whole second the drink is `remaining` of the initial difference
/// away from the ambient temperature, on the side it started on.
proof fn lemma_curve_distance(drink: Drink, ambience: Ambience, initial: Temperature, ms: nat)
    requires
        0 <= drink.decay_in(ambience.fluid) < DECAY_SCALE,
    ensures
        distance(cooling_curve(drink, ambience, initial, ms as int), ambience.temperature.nanokelvin as int)
            == remaining(
            distance(initial.nanokelvin as int, ambience.temperature.nanokelvin as int),
            decay(drink.decay_in(ambience.fluid), ms),
        ),
{
    let step = drink.decay_in(ambience.fluid);
    lemma_advance_bounds(step, DECAY_SCALE as int, ms);
    lemma_remaining_monotone(
        distance(initial.nanokelvin as int, ambience.temperature.nanokelvin as int),
        decay(step, ms),
        DECAY_SCALE as int,
    );
}

/// How long `drink`, starting at `initial_temperature`, can stay in
/// `ambience` without passing `target_temperature`: the last whole second
/// at which it is still at least as far from the ambient temperature as the
/// target (the exact time truncated to whole seconds). A target on the far
/// side of the ambient temperature, equal to it, or farther from it than the
/// initial temperature (a gradient outside `(0, 1]`) is never reached. When
/// the drink starts at the ambient temperature, the only reachable target is
/// that temperature, reached at once.
pub fn time_until_temperature(
    target_temperature: Temperature,
    initial_temperature: Temperature,
    drink: &Drink,
    ambience: &Ambience,
) -> (r: Result<Duration, CoolingError>)
    requires
        drink.wf(),
    ensures
        ambience.fluid == Fluid::Ethanol ==> r == Err::<Duration, CoolingError>(CoolingError::UnsupportedFluidRole),
        ambience.fluid != Fluid::Ethanol && !is_reachable(
            target_temperature.nanokelvin as int,
            initial_temperature.nanokelvin as int,
            ambience.temperature.nanokelvin as int,
        ) ==> r == Err::<Duration, CoolingError>(CoolingError::UnreachableTarget),
        ambience.fluid != Fluid::Ethanol && is_reachable(
            target_temperature.nanokelvin as int,
            initial_temperature.nanokelvin as int,
            ambience.temperature.nanokelvin as int,
        ) ==> (r matches Ok(d) && 0 <= d.millis <= DECAY_SCALE && d.millis % 1000 == 0),
        ambience.fluid != Fluid::Ethanol && initial_temperature == ambience.temperature ==> (r is Ok ==> r
            == Ok::<Duration, CoolingError>(Duration { millis: 0 })),
        r matches Ok(d) ==> (initial_temperature != ambience.temperature ==> is_last_second_short_of(
            *drink,
            *ambience,
            initial_temperature,
            target_temperature.nanokelvin as int,
            (d.millis / 1000) as nat,
        )),
{
    let step = match decay_for(drink, ambience) {
        Ok(step) => step,
        Err(e) => return Err(e),
    };
    let initial = initial_temperature.nanokelvin as i128;
    let ambient = ambience.temperature.nanokelvin as i128;
    let target = target_temperature.nanokelvin as i128;
    let ghost target_nk = target_temperature.nanokelvin as int;
    if !((target == initial) || (ambient < target && target <= initial) || (initial <= target && target < ambient)) {
        return Err(CoolingError::UnreachableTarget);
    }
    if initial == ambient {
        return Ok(Duration::zero());
    }
    let gap: u128 = if initial >= ambient {
        (initial - ambient) as u128
    } else {
        (ambient - initial) as u128
    };
    let want: u128 = if target >= ambient {
        (target - ambient) as u128
    } else {
        (ambient - target) as u128
    };
    let mut d: u128 = DECAY_SCALE as u128;
    let mut s: u64 = 0;
    proof {
        lemma_curve_distance(*drink, *ambience, initial_temperature, 0);
        lemma_remaining_monotone(gap as int, 0, DECAY_SCALE as int);
    }
    loop
        invariant
            step == drink.decay_in(ambience.fluid),
            step < DECAY_SCALE,
            initial == initial_temperature.nanokelvin,
            ambient == ambience.temperature.nanokelvin,
            d == decay(step as int, (1000 * s) as nat),
            d <= DECAY_SCALE,
            1000 * s + d <= DECAY_SCALE,
            gap == distance(initial as int, ambient as int),
            0 < gap <= 20_000_000_000_000_000_000,
            want == distance(target_nk, ambient as int),
            0 < want <= gap,
            short_of(*drink, *ambience, initial_temperature, target_nk, s as nat),
        ensures
            1000 * s <= DECAY_SCALE,
            short_of(*drink, *ambience, initial_temperature, target_nk, s as nat),
            !short_of(*drink, *ambience, initial_temperature, target_nk, (s + 1) as nat),
        decreases d,
    {
        let next = advance_by(step, d, 1000);
        proof {
            lemma_advance_compose(step as int, DECAY_SCALE as int, (1000 * s) as nat, 1000);
            assert((1000 * s + 1000) as nat == (1000 * (s + 1)) as nat);
            lemma_curve_distance(*drink, *ambience, initial_temperature, (1000 * (s + 1)) as nat);
            lemma_curve_distance(*drink, *ambience, initial_temperature, (1000 * s) as nat);
            lemma_advance_bounds(step as int, d as int, 1000);
            lemma_advance_bounds(step as int, DECAY_SCALE as int, (1000 * s) as nat);
        }
        if remaining_of(gap, next) < want {
            break;
        }
        proof {
            assert(next > 0) by {
                if next == 0 {
                    assert(remaining(gap as int, 0) == 0) by (nonlinear_arith);
                }
            }
        }
        d = next;
        s = s + 1;
    }
    proof {
        assert forall|e: nat| e > s implies !#[trigger] short_of(
            *drink,
            *ambience,
            initial_temperature,
            target_nk,
            e,
        ) by {
            lemma_advance_monotone(step as int, DECAY_SCALE as int, (1000 * (s + 1)) as nat, (1000 * e) as nat);
            lemma_curve_distance(*drink, *ambience, initial_temperature, (1000 * (s + 1)) as nat);
            lemma_curve_distance(*drink, *ambience, initial_temperature, (1000 * e) as nat);
            lemma_remaining_monotone(
                gap as int,
                decay(step as int, (1000 * e) as nat),
                decay(step as int, (1000 * (s + 1)) as nat),
            );
        }
        assert(((s as i64 * 1000) / 1000) as nat == s);
    }
    Ok(Duration::milliseconds(s as i64 * 1000))
}

/// The cooling law as modelled here: the drink starts at its initial
/// temperature, stays between it and the ambient temperature, and as time
/// passes never moves away from the ambient temperature.
pub proof fn lemma_cooling_approaches_ambient(
    drink: Drink,
    ambience: Ambience,
    initial: Temperature,
    t1: int,
    t2: int,
)
    requires
        drink.wf(),
        ambience.fluid != Fluid::Ethanol,
        0 <= t1 <= t2,
    ensures
        cooling_curve(drink, ambience, initial, 0) == initial.nanokelvin,
        distance(cooling_curve(drink, ambience, initial, t2), ambience.temperature.nanokelvin as int)
            <= distance(cooling_curve(drink, ambience, initial, t1), ambience.temperature.nanokelvin as int),
        initial.nanokelvin >= ambience.temperature.nanokelvin ==> ambience.temperature.nanokelvin
            <= cooling_curve(drink, ambience, initial, t1) <= initial.nanokelvin,
        initial.nanokelvin <= ambience.temperature.nanokelvin ==> initial.nanokelvin <= cooling_curve(
            drink,
            ambience,
            initial,
            t1,
        ) <= ambience.temperature.nanokelvin,
{
    let step = drink.decay_in(ambience.fluid);
    lemma_step_factor_below_scale(drink.cooling_coefficient.air@);
    lemma_step_factor_below_scale(drink.cooling_coefficient.water@);
    let gap = distance(initial.nanokelvin as int, ambience.temperature.nanokelvin as int);
    lemma_advance_monotone(step, DECAY_SCALE as int, t1 as nat, t2 as nat);
    lemma_advance_monotone(step, DECAY_SCALE as int, 0, t1 as nat);
    lemma_remaining_monotone(gap, decay(step, t2 as nat), decay(step, t1 as nat));
    lemma_remaining_monotone(gap, decay(step, t1 as nat), DECAY_SCALE as int);
}

/// Going forward and back: for the temperature the drink has after `t`
/// milliseconds, the time until that temperature is within a second of `t`:
/// it is never a second or more early, and it is a second or more late only
/// where the drink then still has exactly that temperature.
pub proof fn lemma_round_trip(drink: Drink, ambience: Ambience, initial: Temperature, t: int)
    requires
        drink.wf(),
        ambience.fluid != Fluid::Ethanol,
        0 <= t,
        cooling_curve(drink, ambience, initial, t) != ambience.temperature.nanokelvin,
    ensures
        is_reachable(
            cooling_curve(drink, ambience, initial, t),
            initial.nanokelvin as int,
            ambience.temperature.nanokelvin as int,
        ),
        initial != ambience.temperature,
        forall|s: nat|
            #[trigger] is_last_second_short_of(drink, ambience, initial, cooling_curve(drink, ambience, initial, t), s)
                ==> t < 1000 * s + 1000 && (1000 * s < t + 1000 || cooling_curve(
                drink,
                ambience,
                initial,
                (1000 * s) as int,
            ) == cooling_curve(drink, ambience, initial, t)),
{
    let x = cooling_curve(drink, ambience, initial, t);
    let ambient = ambience.temperature.nanokelvin as int;
    lemma_cooling_approaches_ambient(drink, ambience, initial, t, t);
    lemma_cooling_approaches_ambient(drink, ambience, initial, 0, t);
    assert forall|s: nat|
        #[trigger] is_last_second_short_of(drink, ambience, initial, x, s) implies t < 1000 * s + 1000 && (1000
            * s < t + 1000 || cooling_curve(drink, ambience, initial, (1000 * s) as int) == x) by {
        let c: nat = (t / 1000) as nat;
        assert(1000 * c <= t < 1000 * c + 1000);
        lemma_cooling_approaches_ambient(drink, ambience, initial, (1000 * c) as int, t);
        assert(short_of(drink, ambience, initial, x, c));
        if c > s {
            assert(!short_of(drink, ambience, initial, x, c));
        }
        if 1000 * s >= t {
            lemma_cooling_approaches_ambient(drink, ambience, initial, t, (1000 * s) as int);
            lemma_cooling_approaches_ambient(drink, ambience, initial, (1000 * s) as int, (1000 * s) as int);
            assert(short_of(drink, ambience, initial, x, s));
        }
    }
}

/// Cooling for `t1` and then, from the temperature reached, for `t2` ends
/// where cooling for `t1 + t2` does, up to rounding: within two nanokelvin
/// plus one per `DECAY_SCALE / (t2 * gap)`, where `gap` is the initial
/// difference to the ambient temperature.
pub proof fn lemma_cooling_composes(drink: Drink, ambience: Ambience, initial: Temperature, t1: int, t2: int)
    requires
        drink.wf(),
        ambience.fluid != Fluid::Ethanol,
        0 <= t1,
        0 <= t2,
    ensures
        distance(
            cooling_curve(
                drink,
                ambience,
                Temperature { nanokelvin: cooling_curve(drink, ambience, initial, t1) as i64 },
                t2,
            ),
            cooling_curve(drink, ambience, initial, t1 + t2),
        ) <= 2 + distance(initial.nanokelvin as int, ambience.temperature.nanokelvin as int) * t2 / (
        DECAY_SCALE as int),
{
    let step = drink.decay_in(ambience.fluid);
    let sc = DECAY_SCALE as int;
    lemma_step_factor_below_scale(drink.cooling_coefficient.air@);
    lemma_step_factor_below_scale(drink.cooling_coefficient.water@);
    let ti = initial.nanokelvin as int;
    let ta = ambience.temperature.nanokelvin as int;
    let gap = distance(ti, ta);
    let d1 = decay(step, t1 as nat);
    let g = decay(step, t2 as nat);
    let f = decay(step, (t1 + t2) as nat);
    lemma_advance_bounds(step, sc, t1 as nat);
    lemma_advance_bounds(step, sc, t2 as nat);
    lemma_advance_bounds(step, sc, (t1 + t2) as nat);
    lemma_advance_compose(step, sc, t1 as nat, t2 as nat);
    lemma_advance_scales(step, d1, t2 as nat);
    let mid = cooling_curve(drink, ambience, initial, t1);
    lemma_cooling_approaches_ambient(drink, ambience, initial, t1, t1);
    let gap1 = remaining(gap, d1);
    assert(distance(mid, ta) == gap1);
    assert(0 <= gap1 * sc <= gap * d1 < gap1 * sc + sc) by (nonlinear_arith)
        requires gap1 == gap * d1 / sc, sc > 0, gap >= 0, d1 >= 0;
    // The two ends, each as a distance from the ambient temperature.
    let a = gap1 * g;
    let b = gap * f;
    assert(a * sc <= gap * d1 * g) by (nonlinear_arith)
        requires a == gap1 * g, gap1 * sc <= gap * d1, g >= 0;
    assert(a * sc >= gap * d1 * g - sc * g) by (nonlinear_arith)
        requires a == gap1 * g, gap * d1 < gap1 * sc + sc, g >= 0;
    assert(-(gap * t2) * sc <= b * sc - gap * d1 * g <= (gap * t2) * sc) by (nonlinear_arith)
        requires
            b == gap * f,
            -(t2 * sc) <= f * sc - d1 * g <= t2 * sc,
            gap >= 0,
    ;
    assert(-(sc + gap * t2) <= a - b <= sc + gap * t2) by (nonlinear_arith)
        requires
            a * sc <= gap * d1 * g,
            a * sc >= gap * d1 * g - sc * g,
            -(gap * t2) * sc <= b * sc - gap * d1 * g <= (gap * t2) * sc,
            0 <= g <= sc,
            sc > 0,
    ;
    let qa = a / sc;
    let qb = b / sc;
    let qg = (gap * t2) / sc;
    assert(-(2 + qg) <= qa - qb <= 2 + qg) by (nonlinear_arith)
        requires
            -(sc + gap * t2) <= a - b <= sc + gap * t2,
            qa == a / sc,
            qb == b / sc,
            qg == (gap * t2) / sc,
            sc > 0,
            gap * t2 >= 0,
    {
        vstd::arithmetic::div_mod::lemma_fundamental_div_mod(a, sc);
        vstd::arithmetic::div_mod::lemma_fundamental_div_mod(b, sc);
        vstd::arithmetic::div_mod::lemma_fundamental_div_mod(gap * t2, sc);
    }
    let two = cooling_curve(drink, ambience, Temperature { nanokelvin: mid as i64 }, t2);
    let one = cooling_curve(drink, ambience, initial, t1 + t2);
    assert(remaining(gap1, g) == qa);
    assert(remaining(gap, f) == qb);
    if ti >= ta {
        assert(mid == ta + gap1);
        assert(two == ta + qa);
        assert(one == ta + qb);
    } else {
        assert(mid == ta - gap1);
        if gap1 == 0 {
            assert(qa == 0) by (nonlinear_arith)
                requires qa == a / sc, a == gap1 * g, gap1 == 0, sc > 0;
        }
        assert(two == ta - qa);
        assert(one == ta - qb);
    }
}

} // verus!
