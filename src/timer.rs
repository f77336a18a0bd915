//! Timers: a preset started at some instant, sampled at later instants.
use vstd::prelude::*;

use crate::ambience::Ambience;
use crate::cooling::{
    cooling_curve, distance, is_last_second_short_of, is_reachable, lemma_cooling_approaches_ambient,
    temperature_after_time, time_until_temperature,
};
use crate::drink::{CoolingError, Drink, DECAY_SCALE};
use crate::ids::fresh_id;
use crate::materials::Fluid;
use crate::temperature::Temperature;
use crate::time::{Duration, Timestamp};

verus! {

/// A reusable description of a timer: a drink, where it starts, where it
/// cools, and the state it should reach.
#[derive(Debug, Clone)]
pub struct TimerPreset {
    pub name: String,
    pub path_to_image: String,
    pub drink: Drink,
    pub initial_ambience: Ambience,
    pub ambient_ambience: Ambience,
    pub target_ambience: Ambience,
}

/// A running timer. Only the instants it started and finishes at are kept;
/// everything else is derived from the current time when sampled.
#[derive(Debug, Clone)]
pub struct TimerInfo {
    pub id: uuid::Uuid,
    pub timestamp_started: Timestamp,
    pub timestamp_finished: Timestamp,
    pub drink: Drink,
    pub initial_ambience: Ambience,
    pub ambient_ambience: Ambience,
    pub target_ambience: Ambience,
}

/// What a timer shows at one instant.
#[derive(Debug, Clone, Copy, PartialEq, Eq, Structural)]
pub struct TimerSample {
    pub current_temperature: Temperature,
    pub time_left: Duration,
    pub finished: bool,
}

impl TimerInfo {
    /// The timer was started by [`TimerInfo::new`]: its drink is consistent,
    /// it cools in air or water towards a reachable target, and it finishes
    /// on the last whole second before the drink passes the target.
    pub open spec fn wf(&self) -> bool {
        &&& self.drink.wf()
        &&& self.ambient_ambience.fluid != Fluid::Ethanol
        &&& self.timestamp_started.in_range()
        &&& self.timestamp_started.millis <= self.timestamp_finished.millis
        &&& self.timestamp_finished.millis <= self.timestamp_started.millis + DECAY_SCALE
        &&& (self.timestamp_finished.millis - self.timestamp_started.millis) % 1000 == 0
        &&& is_reachable(
            self.target_ambience.temperature.nanokelvin as int,
            self.initial_ambience.temperature.nanokelvin as int,
            self.ambient_ambience.temperature.nanokelvin as int,
        )
        &&& self.initial_ambience.temperature == self.ambient_ambience.temperature
            ==> self.timestamp_finished == self.timestamp_started
        &&& self.initial_ambience.temperature != self.ambient_ambience.temperature
            ==> is_last_second_short_of(
            self.drink,
            self.ambient_ambience,
            self.initial_ambience.temperature,
            self.target_ambience.temperature.nanokelvin as int,
            ((self.timestamp_finished.millis - self.timestamp_started.millis) / 1000) as nat,
        )
    }

    /// The drink's temperature after `ms` milliseconds of this timer.
    pub open spec fn temperature_after(&self, ms: int) -> int {
        cooling_curve(self.drink, self.ambient_ambience, self.initial_ambience.temperature, ms)
    }

    /// Starts `preset` at `now`. The finishing instant is fixed here: the
    /// last whole second before the drink passes the target. A
    /// target that is never reached, or ethanol as the cooling medium, is
    /// refused.
    pub fn new(preset: TimerPreset, now: Timestamp) -> (r: Result<TimerInfo, CoolingError>)
        requires
            preset.drink.wf(),
            now.in_range(),
        ensures
            preset.ambient_ambience.fluid == Fluid::Ethanol ==> r == Err::<TimerInfo, CoolingError>(
                CoolingError::UnsupportedFluidRole,
            ),
            preset.ambient_ambience.fluid != Fluid::Ethanol && !is_reachable(
                preset.target_ambience.temperature.nanokelvin as int,
                preset.initial_ambience.temperature.nanokelvin as int,
                preset.ambient_ambience.temperature.nanokelvin as int,
            ) ==> r == Err::<TimerInfo, CoolingError>(CoolingError::UnreachableTarget),
            preset.ambient_ambience.fluid != Fluid::Ethanol && is_reachable(
                preset.target_ambience.temperature.nanokelvin as int,
                preset.initial_ambience.temperature.nanokelvin as int,
                preset.ambient_ambience.temperature.nanokelvin as int,
            ) ==> r is Ok,
            r matches Ok(t) ==> {
                &&& t.wf()
                &&& t.timestamp_started == now
                &&& t.drink == preset.drink
                &&& t.initial_ambience == preset.initial_ambience
                &&& t.ambient_ambience == preset.ambient_ambience
                &&& t.target_ambience == preset.target_ambience
            },
    {
        let duration = match time_until_temperature(
            preset.target_ambience.temperature,
            preset.initial_ambience.temperature,
            &preset.drink,
            &preset.ambient_ambience,
        ) {
            Ok(d) => d,
            Err(e) => return Err(e),
        };
        let finished = Timestamp::from_millis(now.millis + duration.millis);
        Ok(TimerInfo {
            id: fresh_id(),
            timestamp_started: now,
            timestamp_finished: finished,
            drink: preset.drink,
            initial_ambience: preset.initial_ambience,
            ambient_ambience: preset.ambient_ambience,
            target_ambience: preset.target_ambience,
        })
    }

    /// Time left until the timer finishes, negative once it has.
    pub fn current_time_left(&self, now: Timestamp) -> (d: Duration)
        requires
            self.wf(),
            now.in_range(),
        ensures
            d.millis == self.timestamp_finished.millis - now.millis,
    {
        Duration::milliseconds(self.timestamp_finished.millis - now.millis)
    }

    /// The drink's temperature at `now`.
    pub fn current_temperature(&self, now: Timestamp) -> (t: Temperature)
        requires
            self.wf(),
            now.in_range(),
        ensures
            t.nanokelvin == self.temperature_after(now.millis - self.timestamp_started.millis),
    {
        let elapsed = now.signed_duration_since(self.timestamp_started);
        match temperature_after_time(elapsed, self.initial_ambience.temperature, &self.drink, &self.ambient_ambience) {
            Ok(t) => t,
            Err(_) => {
                proof {
                    assert(false);
                }
                self.initial_ambience.temperature
            },
        }
    }

    /// Whether the finishing instant has passed.
    pub fn timer_finished(&self, now: Timestamp) -> (b: bool)
        requires
            self.wf(),
            now.in_range(),
        ensures
            b == (self.timestamp_finished.millis - now.millis < 0),
    {
        self.current_time_left(now).millis < 0
    }

    /// Temperature, time left and completion at `now`.
    pub fn sample(&self, now: Timestamp) -> (s: TimerSample)
        requires
            self.wf(),
            now.in_range(),
        ensures
            s.current_temperature.nanokelvin == self.temperature_after(now.millis - self.timestamp_started.millis),
            s.time_left.millis == self.timestamp_finished.millis - now.millis,
            s.finished == (s.time_left.millis < 0),
            self.timestamp_started.millis <= now.millis <= self.timestamp_finished.millis ==> between(
                s.current_temperature.nanokelvin as int,
                self.target_ambience.temperature.nanokelvin as int,
                self.initial_ambience.temperature.nanokelvin as int,
            ),
    {
        proof {
            if self.timestamp_started.millis <= now.millis <= self.timestamp_finished.millis {
                self.lemma_short_of_target(now.millis - self.timestamp_started.millis);
            }
        }
        TimerSample {
            current_temperature: self.current_temperature(now),
            time_left: self.current_time_left(now),
            finished: self.timer_finished(now),
        }
    }

    /// Until it finishes, a timer's drink lies between its initial and its
    /// target temperature: it has not passed the target.
    pub proof fn lemma_short_of_target(&self, ms: int)
        requires
            self.wf(),
            0 <= ms <= self.timestamp_finished.millis - self.timestamp_started.millis,
        ensures
            between(
                self.temperature_after(ms),
                self.target_ambience.temperature.nanokelvin as int,
                self.initial_ambience.temperature.nanokelvin as int,
            ),
    {
        let ambient = self.ambient_ambience;
        let initial = self.initial_ambience.temperature;
        let s = ((self.timestamp_finished.millis - self.timestamp_started.millis) / 1000) as nat;
        lemma_cooling_approaches_ambient(self.drink, ambient, initial, ms, ms);
        lemma_cooling_approaches_ambient(self.drink, ambient, initial, 0, ms);
        if initial != ambient.temperature {
            assert(1000 * s == self.timestamp_finished.millis - self.timestamp_started.millis);
            lemma_cooling_approaches_ambient(self.drink, ambient, initial, ms, (1000 * s) as int);
            lemma_cooling_approaches_ambient(self.drink, ambient, initial, (1000 * s) as int, (1000 * s) as int);
        }
    }
}

/// `x` lies in the closed interval between `a` and `b`.
pub open spec fn between(x: int, a: int, b: int) -> bool {
    if a <= b { a <= x <= b } else { b <= x <= a }
}

} // verus!
