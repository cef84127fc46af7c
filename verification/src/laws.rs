//! The laws of the vehicle state machine, stated over the spec-level
//! transitions that the operations' contracts are written against.

use vstd::prelude::*;

verus! {

use crate::{
    lemma_accrued_raw_monotonic, spec_accelerate, spec_add_travel, spec_decelerate, spec_start,
    spec_stop, spec_wash, CarAesthetics, VehicleView, DIRT_THRESHOLD, DISTANCE_UNIT_DIVISOR,
};

/// Washing always yields a clean vehicle, whatever its cleanliness was,
/// and washing twice is the same as washing once.
pub proof fn lemma_wash_idempotent(v: VehicleView)
    ensures
        spec_wash(v).aesthetics == CarAesthetics::Clean,
        spec_wash(spec_wash(v)) == spec_wash(v),
{
}

/// Cleanliness only ever changes in two ways: accelerating turns a
/// vehicle dirty exactly when the post-acceleration speed is strictly
/// above the threshold, and washing turns it clean.  Starting, stopping
/// and decelerating leave it as it was.
pub proof fn lemma_aesthetics_transitions(v: VehicleView, delta: u32, secs: u64)
    requires
        v.speed + delta <= u32::MAX,
    ensures
        spec_wash(v).aesthetics == CarAesthetics::Clean,
        spec_start(v).aesthetics == v.aesthetics,
        spec_stop(v).aesthetics == v.aesthetics,
        spec_add_travel(v, secs).aesthetics == v.aesthetics,
        spec_decelerate(v, delta, secs).aesthetics == v.aesthetics,
        spec_accelerate(v, delta, secs).aesthetics == (if v.speed + delta > DIRT_THRESHOLD {
            CarAesthetics::Dirty
        } else {
            v.aesthetics
        }),
{
}

/// Accelerating an already dirty vehicle keeps it dirty, however small
/// the increase.
pub proof fn lemma_accelerate_keeps_dirty(v: VehicleView, delta: u32, secs: u64)
    requires
        v.aesthetics == CarAesthetics::Dirty,
        v.speed + delta <= u32::MAX,
    ensures
        spec_accelerate(v, delta, secs).aesthetics == CarAesthetics::Dirty,
{
}

/// The dirt threshold is strict: accelerating to exactly the threshold
/// speed leaves cleanliness untouched, while any speed strictly above
/// it makes the vehicle dirty.
pub proof fn lemma_dirt_threshold_strict(v: VehicleView, delta: u32, secs: u64)
    requires
        v.speed + delta <= u32::MAX,
    ensures
        v.speed + delta == DIRT_THRESHOLD ==> spec_accelerate(
            v,
            delta,
            secs,
        ).aesthetics == v.aesthetics,
        v.speed + delta > DIRT_THRESHOLD ==> spec_accelerate(
            v,
            delta,
            secs,
        ).aesthetics == CarAesthetics::Dirty,
{
}

/// Decelerating follows one policy at every call site: the speed drops
/// by `delta` when that stays at or above zero, and clamps to zero when
/// `delta` exceeds the current speed.
pub proof fn lemma_decelerate_clamps(v: VehicleView, delta: u32, secs: u64)
    ensures
        delta <= v.speed ==> spec_decelerate(v, delta, secs).speed == v.speed - delta,
        delta > v.speed ==> spec_decelerate(v, delta, secs).speed == 0,
{
}

/// Starting and then stopping, with no speed change in between, leaves
/// the distance exactly as it was at the start, and returns the vehicle
/// to a stopped record with zero speed and unchanged cleanliness.
pub proof fn lemma_start_stop_round_trip(v: VehicleView)
    ensures
        spec_stop(spec_start(v)).distance_raw == v.distance_raw,
        spec_stop(spec_start(v)).distance_raw == spec_start(v).distance_raw,
        spec_stop(spec_start(v)).speed == 0,
        spec_stop(spec_start(v)).aesthetics == v.aesthetics,
{
}

/// One speed change while running: an acceleration or a deceleration,
/// together with the whole seconds the previous speed was held.
pub ghost enum SpeedStep {
    Accelerate { delta: u32, secs: u64 },
    Decelerate { delta: u32, secs: u64 },
}

/// The record after one speed change.
pub open spec fn apply_step(v: VehicleView, step: SpeedStep) -> VehicleView {
    match step {
        SpeedStep::Accelerate { delta, secs } => spec_accelerate(v, delta, secs),
        SpeedStep::Decelerate { delta, secs } => spec_decelerate(v, delta, secs),
    }
}

/// The record after a whole sequence of speed changes, applied in
/// order.
pub open spec fn apply_steps(v: VehicleView, steps: Seq<SpeedStep>) -> VehicleView
    decreases steps.len(),
{
    if steps.len() == 0 {
        v
    } else {
        apply_steps(apply_step(v, steps[0]), steps.skip(1))
    }
}

/// No single speed change decreases the raw odometer.
pub proof fn lemma_distance_monotonic_step(v: VehicleView, step: SpeedStep)
    ensures
        apply_step(v, step).distance_raw >= v.distance_raw,
{
    match step {
        SpeedStep::Accelerate { delta: _, secs } => {
            lemma_accrued_raw_monotonic(v.distance_raw, v.speed, secs);
        },
        SpeedStep::Decelerate { delta: _, secs } => {
            lemma_accrued_raw_monotonic(v.distance_raw, v.speed, secs);
        },
    }
}

/// Across any sequence of accelerations and decelerations while
/// running, the raw odometer never decreases.
pub proof fn lemma_distance_monotonic(v: VehicleView, steps: Seq<SpeedStep>)
    ensures
        apply_steps(v, steps).distance_raw >= v.distance_raw,
    decreases steps.len(),
{
    if steps.len() > 0 {
        lemma_distance_monotonic_step(v, steps[0]);
        lemma_distance_monotonic(apply_step(v, steps[0]), steps.skip(1));
    }
}

/// The reported distance never decreases either: it is the raw odometer
/// under a fixed, monotone unit conversion.
pub proof fn lemma_reported_distance_monotonic(v: VehicleView, steps: Seq<SpeedStep>)
    ensures
        apply_steps(v, steps).distance_raw / DISTANCE_UNIT_DIVISOR >= v.distance_raw
            / DISTANCE_UNIT_DIVISOR,
{
    lemma_distance_monotonic(v, steps);
    vstd::arithmetic::div_mod::lemma_div_is_ordered(
        v.distance_raw as int,
        apply_steps(v, steps).distance_raw as int,
        DISTANCE_UNIT_DIVISOR as int,
    );
}

} // verus!
