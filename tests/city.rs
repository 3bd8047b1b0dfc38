use proyecto1::threadcity::city::City;
use proyecto1::threadcity::entities::{BridgeType, VehicleType};

#[test]
fn new_city_has_three_free_bridges() {
    let c = City::new(5, 5);
    assert_eq!(c.bridges.len(), 3);
    assert_eq!(c.bridges[0].id, 1);
    assert_eq!(c.bridges[0].name, "Puente Norte");
    assert_eq!(c.bridges[0].bridge_type, BridgeType::TrafficLight);
    assert_eq!(c.bridges[1].name, "Puente Central");
    assert_eq!(c.bridges[1].bridge_type, BridgeType::YieldSign);
    assert_eq!(c.bridges[2].name, "Puente Sur");
    assert_eq!(c.bridges[2].bridge_type, BridgeType::TwoLanes);
    for b in &c.bridges {
        assert!(!b.mutex.is_locked());
        assert!(!b.is_blocked);
        assert!(b.green_light);
    }
    let (w, h, vs) = c.snapshot();
    assert_eq!((w, h), (5, 5));
    assert!(vs.is_empty());
}

#[test]
fn step_moves_vehicles_and_reports_crossings() {
    let mut c = City::new(5, 5);
    c.spawn_vehicle((0, 0), (4, 4), VehicleType::Car);
    c.spawn_vehicle((4, 0), (0, 4), VehicleType::Ambulance);
    c.spawn_vehicle((0, 2), (4, 2), VehicleType::Boat);
    let (done, crossings) = c.step();
    assert!(!done);
    assert_eq!(
        crossings,
        vec![(VehicleType::Car, 1), (VehicleType::Ambulance, 1), (VehicleType::Boat, 2)]
    );
    let (_, _, vs) = c.snapshot();
    assert_eq!(vs[0].pos, (1, 1));
    assert_eq!(vs[1].pos, (3, 1));
    assert_eq!(vs[2].pos, (1, 2));
    assert_eq!(vs.iter().map(|v| v.id).collect::<Vec<_>>(), vec![0, 1, 2]);
}

#[test]
fn step_reports_arrival() {
    let mut c = City::new(3, 3);
    c.spawn_vehicle((0, 0), (1, 0), VehicleType::SupplyTruck);
    let (done, crossings) = c.step();
    assert!(!done);
    assert!(crossings.is_empty());
    let (done, crossings) = c.step();
    assert!(done);
    assert!(crossings.is_empty());
    let (_, _, vs) = c.snapshot();
    assert_eq!(vs[0].pos, (1, 0));
}

#[test]
fn step_moves_down_and_past_bridge_rows() {
    let mut c = City::new(6, 6);
    c.spawn_vehicle((2, 5), (2, 0), VehicleType::Car);
    let mut rows = Vec::new();
    loop {
        let (done, crossings) = c.step();
        if done {
            break;
        }
        rows.extend(crossings.into_iter().map(|(_, b)| b));
    }
    assert_eq!(rows, vec![3, 2, 1]);
}
