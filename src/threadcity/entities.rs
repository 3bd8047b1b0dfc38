//! Vehicles and bridges of the city.
use vstd::prelude::*;

use crate::mypthreads::MyMutex;

verus! {

/// Kind of a vehicle.
#[derive(Debug, Clone, Copy, PartialEq, Eq, Structural)]
pub enum VehicleType {
    Car,
    Ambulance,
    Boat,
    SupplyTruck,
}

/// How a bridge regulates crossings.
#[derive(Debug, Clone, Copy, PartialEq, Eq, Structural)]
pub enum BridgeType {
    /// One lane behind a traffic light.
    TrafficLight,
    /// One lane behind a yield sign.
    YieldSign,
    /// Two lanes; a passing boat blocks the bridge.
    TwoLanes,
}

/// A vehicle at grid position `pos`, heading for `dest`.
#[derive(Debug, Clone, Copy)]
pub struct Vehicle {
    pub id: usize,
    pub vtype: VehicleType,
    pub pos: (usize, usize),
    pub dest: (usize, usize),
}

/// A bridge: its crossing mutex, whether a boat blocks it, and its light.
#[derive(Debug)]
pub struct Bridge {
    pub id: usize,
    pub name: String,
    pub bridge_type: BridgeType,
    pub mutex: MyMutex,
    pub is_blocked: bool,
    pub green_light: bool,
}

} // verus!
