//! A vehicle modelled as a type-state machine.
//!
//! A vehicle is either stopped or running, and each operation is only
//! available on the handle for the state in which it is physically
//! meaningful: a stopped vehicle can be washed or started, a running one
//! can accelerate, decelerate or stop.  While running, the vehicle
//! integrates distance piecewise: each speed-changing operation credits
//! the whole seconds elapsed since the previous one, multiplied by the
//! speed that was held over that interval.

use vstd::prelude::*;

mod clock;
pub mod laws;

verus! {

use vstd::arithmetic::mul::lemma_mul_nonnegative;

/// Speed strictly above this threshold dirties the vehicle.
pub const DIRT_THRESHOLD: u32 = 20;

/// The raw odometer counts speed-units times seconds; the reported
/// distance divides by this fixed conversion factor.
pub const DISTANCE_UNIT_DIVISOR: u64 = 60;

/// Cleanliness of the vehicle's exterior.
#[derive(Clone, Copy, Debug, PartialEq, Eq, Structural)]
pub enum CarAesthetics {
    Clean,
    Dirty,
}

/// Ghost snapshot of a vehicle's record, used by all contracts.
pub ghost struct VehicleView {
    /// Current speed, in speed units per interval.
    pub speed: u32,
    /// Current cleanliness.
    pub aesthetics: CarAesthetics,
    /// Raw odometer: accumulated speed-units times seconds.
    pub distance_raw: u64,
    /// Whether a running-since instant is currently recorded.
    pub timer_set: bool,
}

/// Raw odometer value after crediting `secs` seconds of travel at
/// `speed`, saturating at the counter's maximum.
pub open spec fn accrued_raw(raw: u64, speed: u32, secs: u64) -> u64 {
    if raw + secs * speed <= u64::MAX {
        (raw + secs * speed) as u64
    } else {
        u64::MAX
    }
}

/// The record after crediting `secs` seconds of travel at the current
/// speed; nothing but the raw odometer changes.
pub open spec fn spec_add_travel(v: VehicleView, secs: u64) -> VehicleView {
    VehicleView { distance_raw: accrued_raw(v.distance_raw, v.speed, secs), ..v }
}

/// The record after one distance-accrual step with `secs` elapsed
/// seconds: travel is credited only if an instant was recorded, and a
/// fresh instant is recorded either way.
pub open spec fn spec_accrue(v: VehicleView, secs: u64) -> VehicleView {
    let stamped = VehicleView { timer_set: true, ..v };
    if v.timer_set {
        spec_add_travel(stamped, secs)
    } else {
        stamped
    }
}

/// The record after washing: the vehicle becomes clean, nothing else
/// changes.
pub open spec fn spec_wash(v: VehicleView) -> VehicleView {
    VehicleView { aesthetics: CarAesthetics::Clean, ..v }
}

/// The record after starting: a running-since instant is recorded;
/// speed, cleanliness and distance carry over unchanged.
pub open spec fn spec_start(v: VehicleView) -> VehicleView {
    VehicleView { timer_set: true, ..v }
}

/// The record after stopping: speed drops to zero and the running-since
/// instant is cleared, with no final distance-accrual step, so travel
/// since the last speed change is never credited.
pub open spec fn spec_stop(v: VehicleView) -> VehicleView {
    VehicleView { speed: 0, timer_set: false, ..v }
}

/// The record after accelerating by `delta` with `secs` elapsed seconds:
/// an accrual step, then the speed increase, then the vehicle becomes
/// dirty if the new speed is strictly above the threshold.
pub open spec fn spec_accelerate(v: VehicleView, delta: u32, secs: u64) -> VehicleView {
    let a = spec_accrue(v, secs);
    let new_speed = (a.speed + delta) as u32;
    VehicleView {
        speed: new_speed,
        aesthetics: if new_speed > DIRT_THRESHOLD {
            CarAesthetics::Dirty
        } else {
            a.aesthetics
        },
        ..a
    }
}

/// The record after decelerating by `delta` with `secs` elapsed seconds:
/// an accrual step, then the speed decrease, clamped at zero when
/// `delta` exceeds the current speed.
pub open spec fn spec_decelerate(v: VehicleView, delta: u32, secs: u64) -> VehicleView {
    let a = spec_accrue(v, secs);
    let new_speed: u32 = if delta <= a.speed {
        (a.speed - delta) as u32
    } else {
        0
    };
    VehicleView { speed: new_speed, ..a }
}

/// Type-level tag for a vehicle in the midst of starting; no handle
/// with this tag is ever held, the transition being immediate.
pub struct Start;

/// Type-level tag for a stopped vehicle.
pub struct Stop;

/// Type-level tag for a running vehicle.
pub struct Running;

/// The states a vehicle handle can be tagged with.
pub trait VehicleState {}

impl VehicleState for Start {}

impl VehicleState for Stop {}

impl VehicleState for Running {}

/// A vehicle, tagged at the type level with its current state.  The
/// tag decides which operations the handle offers; it carries no data.
pub struct Vehicle<S: VehicleState> {
    speed: u32,
    aesthetics: CarAesthetics,
    running_time: Option<std::time::Instant>,
    distance: u64,
    _marker: core::marker::PhantomData<S>,
}

impl<S: VehicleState> View for Vehicle<S> {
    type V = VehicleView;

    closed spec fn view(&self) -> VehicleView {
        VehicleView {
            speed: self.speed,
            aesthetics: self.aesthetics,
            distance_raw: self.distance,
            timer_set: self.running_time is Some,
        }
    }
}

impl<S: VehicleState> Vehicle<S> {
    /// Current speed, readable in every state.
    pub fn speed(&self) -> (s: u32)
        ensures
            s == self@.speed,
    {
        self.speed
    }

    /// Current cleanliness, readable in every state.
    pub fn aesthetics(&self) -> (a: CarAesthetics)
        ensures
            a == self@.aesthetics,
    {
        self.aesthetics
    }

    /// Accumulated distance, readable in every state: the raw odometer
    /// converted to distance units.
    pub fn distance(&self) -> (d: u64)
        ensures
            d == self@.distance_raw / DISTANCE_UNIT_DIVISOR,
    {
        self.distance / DISTANCE_UNIT_DIVISOR
    }
}

/// A fresh vehicle: stopped, standing still, clean, odometer at zero,
/// no running-since instant recorded.
pub fn new_vehicle() -> (v: Vehicle<Stop>)
    ensures
        v@.speed == 0,
        v@.aesthetics == CarAesthetics::Clean,
        v@.distance_raw == 0,
        !v@.timer_set,
{
    Vehicle {
        speed: 0,
        aesthetics: CarAesthetics::Clean,
        running_time: None,
        distance: 0,
        _marker: core::marker::PhantomData,
    }
}

impl Vehicle<Stop> {
    /// Washing makes the vehicle clean; nothing else changes.  Only a
    /// stopped vehicle can be washed.
    pub fn wash(&mut self)
        ensures
            final(self)@ == spec_wash(old(self)@),
    {
        self.aesthetics = CarAesthetics::Clean;
    }

    /// Starting consumes the stopped handle and yields a running one,
    /// recording the current instant; speed, cleanliness and distance
    /// carry over unchanged.
    pub fn start(self) -> (r: Vehicle<Running>)
        ensures
            r@ == spec_start(self@),
    {
        Vehicle {
            speed: self.speed,
            aesthetics: self.aesthetics,
            running_time: Some(clock::instant_now()),
            distance: self.distance,
            _marker: core::marker::PhantomData,
        }
    }
}

impl Vehicle<Running> {
    /// Stopping consumes the running handle and yields a stopped one:
    /// speed drops to zero and the running-since instant is cleared.
    /// No final accrual step runs, so travel since the last speed
    /// change is never credited.
    pub fn stop(self) -> (r: Vehicle<Stop>)
        ensures
            r@ == spec_stop(self@),
    {
        Vehicle {
            speed: 0,
            aesthetics: self.aesthetics,
            running_time: None,
            distance: self.distance,
            _marker: core::marker::PhantomData,
        }
    }

    /// Credits `secs` whole seconds of travel at the current speed,
    /// saturating the raw odometer at its maximum.  This is the
    /// deterministic core of the accrual step; the speed-changing
    /// operations feed it the clock's reading.
    pub fn record_elapsed(&mut self, secs: u64)
        ensures
            final(self)@ == spec_add_travel(old(self)@, secs),
    {
        match secs.checked_mul(self.speed as u64) {
            Some(gain) => {
                self.distance = self.distance.saturating_add(gain);
            },
            None => {
                self.distance = u64::MAX;
            },
        }
    }

    /// One distance-accrual step: reads how long the current speed was
    /// held, records a fresh instant, and credits the elapsed whole
    /// seconds of travel.
    fn update_distance(&mut self)
        ensures
            exists|secs: u64| final(self)@ == spec_accrue(old(self)@, secs),
    {
        let elapsed: Option<u64> = match &self.running_time {
            Some(prev) => Some(clock::duration_whole_secs(clock::instant_elapsed(prev))),
            None => None,
        };
        self.running_time = Some(clock::instant_now());
        match elapsed {
            Some(secs) => {
                self.record_elapsed(secs);
                proof {
                    assert(self@ == spec_accrue(old(self)@, secs));
                }
            },
            None => {
                proof {
                    assert(self@ == spec_accrue(old(self)@, 0u64));
                }
            },
        }
    }

    /// Accelerating first runs the accrual step, then raises the speed
    /// by `delta`; if the new speed is strictly above the threshold,
    /// the vehicle becomes dirty.
    pub fn accelerate(&mut self, delta: u32)
        requires
            old(self)@.speed + delta <= u32::MAX,
        ensures
            exists|secs: u64| final(self)@ == spec_accelerate(old(self)@, delta, secs),
            final(self)@.speed == old(self)@.speed + delta,
            final(self)@.aesthetics == (if old(self)@.speed + delta > DIRT_THRESHOLD {
                CarAesthetics::Dirty
            } else {
                old(self)@.aesthetics
            }),
            final(self)@.distance_raw >= old(self)@.distance_raw,
            final(self)@.timer_set,
    {
        self.update_distance();
        let ghost secs: u64 = choose|s: u64| self@ == spec_accrue(old(self)@, s);
        self.speed = self.speed + delta;
        if self.speed > DIRT_THRESHOLD {
            self.aesthetics = CarAesthetics::Dirty;
        }
        proof {
            lemma_accrued_raw_monotonic(old(self)@.distance_raw, old(self)@.speed, secs);
            assert(self@ == spec_accelerate(old(self)@, delta, secs));
        }
    }

    /// Decelerating first runs the accrual step, then lowers the speed
    /// by `delta`, clamping at zero when `delta` exceeds the current
    /// speed; cleanliness never changes.
    pub fn decelerate(&mut self, delta: u32)
        ensures
            exists|secs: u64| final(self)@ == spec_decelerate(old(self)@, delta, secs),
            final(self)@.speed == (if delta <= old(self)@.speed {
                (old(self)@.speed - delta) as u32
            } else {
                0u32
            }),
            final(self)@.aesthetics == old(self)@.aesthetics,
            final(self)@.distance_raw >= old(self)@.distance_raw,
            final(self)@.timer_set,
    {
        self.update_distance();
        let ghost secs: u64 = choose|s: u64| self@ == spec_accrue(old(self)@, s);
        if delta <= self.speed {
            self.speed = self.speed - delta;
        } else {
            self.speed = 0;
        }
        proof {
            lemma_accrued_raw_monotonic(old(self)@.distance_raw, old(self)@.speed, secs);
            assert(self@ == spec_decelerate(old(self)@, delta, secs));
        }
    }
}

/// Crediting travel never decreases the raw odometer.
pub proof fn lemma_accrued_raw_monotonic(raw: u64, speed: u32, secs: u64)
    ensures
        accrued_raw(raw, speed, secs) >= raw,
{
    lemma_mul_nonnegative(secs as int, speed as int);
}

} // verus!

