use vehicle_state::{new_vehicle, CarAesthetics, DISTANCE_UNIT_DIVISOR};

#[test]
fn test_vehicle_state() {
    let mut car = new_vehicle();

    assert_eq!(car.speed(), 0);

    car.wash();

    let mut car = car.start();

    for _ in 1..5 {
        car.accelerate(10);
    }

    assert_eq!(car.speed(), 40);
    car.decelerate(20);
    assert_eq!(car.speed(), 20);
    assert!(matches!(car.aesthetics(), CarAesthetics::Dirty));

    let car = car.stop();

    assert_eq!(car.speed(), 0);
    println!("distance traveled: {}", car.distance());
}

#[test]
fn fresh_vehicle_defaults() {
    let car = new_vehicle();
    assert_eq!(car.speed(), 0);
    assert!(matches!(car.aesthetics(), CarAesthetics::Clean));
    assert_eq!(car.distance(), 0);
}

#[test]
fn wash_cleans_and_is_idempotent() {
    let mut car = new_vehicle();
    car.wash();
    assert!(matches!(car.aesthetics(), CarAesthetics::Clean));

    let mut car = car.start();
    car.accelerate(30);
    assert!(matches!(car.aesthetics(), CarAesthetics::Dirty));

    let mut car = car.stop();
    car.wash();
    assert!(matches!(car.aesthetics(), CarAesthetics::Clean));
    car.wash();
    assert!(matches!(car.aesthetics(), CarAesthetics::Clean));
}

#[test]
fn dirt_threshold_is_strict() {
    let car = new_vehicle();
    let mut car = car.start();
    car.accelerate(20);
    assert_eq!(car.speed(), 20);
    assert!(matches!(car.aesthetics(), CarAesthetics::Clean));
    car.accelerate(1);
    assert_eq!(car.speed(), 21);
    assert!(matches!(car.aesthetics(), CarAesthetics::Dirty));
}

#[test]
fn decelerate_clamps_at_zero() {
    let car = new_vehicle();
    let mut car = car.start();
    car.accelerate(5);
    car.decelerate(9);
    assert_eq!(car.speed(), 0);
}

#[test]
fn decelerate_keeps_aesthetics() {
    let car = new_vehicle();
    let mut car = car.start();
    car.accelerate(30);
    assert!(matches!(car.aesthetics(), CarAesthetics::Dirty));
    car.decelerate(25);
    assert_eq!(car.speed(), 5);
    assert!(matches!(car.aesthetics(), CarAesthetics::Dirty));

    let car = new_vehicle();
    let mut car = car.start();
    car.accelerate(3);
    car.decelerate(2);
    assert!(matches!(car.aesthetics(), CarAesthetics::Clean));
}

#[test]
fn start_stop_keeps_distance() {
    let car = new_vehicle();
    let car = car.start();
    let car = car.stop();
    assert_eq!(car.distance(), 0);
    assert_eq!(car.speed(), 0);
}

#[test]
fn record_elapsed_accrues_exactly() {
    let car = new_vehicle();
    let mut car = car.start();
    // Acceleration from standstill credits the elapsed time at speed
    // zero, so the odometer is still exactly zero here.
    car.accelerate(10);
    car.record_elapsed(12);
    let car = car.stop();
    // 12 seconds at speed 10 is 120 raw units, reported as 120 / 60.
    assert_eq!(car.distance(), 2);
}

#[test]
fn record_elapsed_sub_unit_travel_reports_zero() {
    let car = new_vehicle();
    let mut car = car.start();
    car.accelerate(10);
    car.record_elapsed(5);
    // 50 raw units is under one reported distance unit.
    assert_eq!(car.distance(), 0);
}

#[test]
fn record_elapsed_saturates_at_odometer_maximum() {
    let car = new_vehicle();
    let mut car = car.start();
    car.accelerate(2);
    car.record_elapsed(u64::MAX);
    assert_eq!(car.distance(), u64::MAX / DISTANCE_UNIT_DIVISOR);
}

#[test]
fn distance_never_decreases_over_speed_changes() {
    let car = new_vehicle();
    let mut car = car.start();
    let mut last = car.distance();
    car.accelerate(10);
    assert!(car.distance() >= last);
    last = car.distance();
    car.record_elapsed(7);
    assert!(car.distance() >= last);
    last = car.distance();
    car.decelerate(4);
    assert!(car.distance() >= last);
    last = car.distance();
    car.accelerate(25);
    assert!(car.distance() >= last);
    last = car.distance();
    car.decelerate(100);
    assert!(car.distance() >= last);
}
