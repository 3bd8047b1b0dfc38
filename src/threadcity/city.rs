//! The city grid and its movement rule.
use vstd::prelude::*;

use crate::mypthreads::MyMutex;
use crate::threadcity::entities::{Bridge, BridgeType, Vehicle, VehicleType};

verus! {

/// The city: a `width` by `height` grid, its vehicles and three bridges.
#[derive(Debug)]
pub struct City {
    width: usize,
    height: usize,
    vehicles: Vec<Vehicle>,
    next_id: usize,
    pub bridges: Vec<Bridge>,
}

/// One grid step from `a` toward `b`.
pub open spec fn step_toward(a: usize, b: usize) -> usize {
    if a < b {
        (a + 1) as usize
    } else if a > b {
        (a - 1) as usize
    } else {
        a
    }
}

/// `v` after one step: one cell closer to its destination on each axis.
pub open spec fn moved(v: Vehicle) -> Vehicle {
    Vehicle { pos: (step_toward(v.pos.0, v.dest.0), step_toward(v.pos.1, v.dest.1)), ..v }
}

/// The bridge, if any, on row `y`: rows 1, 2 and 3 hold bridges 1, 2 and 3.
pub open spec fn bridge_on_row(y: usize) -> Option<usize> {
    if 1 <= y <= 3 {
        Some(y)
    } else {
        None
    }
}

/// The crossings one step of `vs` calls for, in vehicle order: each vehicle
/// not yet at its destination whose new row holds a bridge.
pub open spec fn crossings_of(vs: Seq<Vehicle>) -> Seq<(VehicleType, usize)>
    decreases vs.len(),
{
    if vs.len() == 0 {
        seq![]
    } else {
        let p = crossings_of(vs.drop_last());
        let v = vs.last();
        if v.pos != v.dest && bridge_on_row(moved(v).pos.1) is Some {
            p.push((v.vtype, bridge_on_row(moved(v).pos.1).unwrap()))
        } else {
            p
        }
    }
}

/// A bridge with an unlocked mutex, unblocked and with a green light.
fn new_bridge(id: usize, name: &str, bridge_type: BridgeType) -> (r: Bridge)
    ensures
        r.id == id,
        r.name@ == name@,
        r.bridge_type == bridge_type,
        r.mutex@ is None,
        r.mutex.wf(),
        !r.is_blocked,
        r.green_light,
{
    Bridge {
        id,
        name: name.to_owned(),
        bridge_type,
        mutex: MyMutex::new(),
        is_blocked: false,
        green_light: true,
    }
}

impl City {
    pub closed spec fn width_spec(&self) -> usize {
        self.width
    }

    pub closed spec fn height_spec(&self) -> usize {
        self.height
    }

    /// The vehicles, in order of arrival.
    pub closed spec fn vehicles_spec(&self) -> Seq<Vehicle> {
        self.vehicles@
    }

    /// The bridges, in order of their ids.
    pub closed spec fn bridges_spec(&self) -> Seq<Bridge> {
        self.bridges@
    }

    /// The id the next vehicle gets.
    pub closed spec fn next_id_spec(&self) -> usize {
        self.next_id
    }

    /// An empty `width` by `height` city with its three bridges: a traffic
    /// light, a yield sign and a two-lane bridge, numbered 1 to 3.
    pub fn new(width: usize, height: usize) -> (r: Self)
        ensures
            r.width_spec() == width,
            r.height_spec() == height,
            r.vehicles_spec().len() == 0,
            r.next_id_spec() == 0,
            r.bridges_spec().len() == 3,
            r.bridges_spec()[0].id == 1 && r.bridges_spec()[0].bridge_type == BridgeType::TrafficLight
                && r.bridges_spec()[0].name@ == "Puente Norte"@,
            r.bridges_spec()[1].id == 2 && r.bridges_spec()[1].bridge_type == BridgeType::YieldSign
                && r.bridges_spec()[1].name@ == "Puente Central"@,
            r.bridges_spec()[2].id == 3 && r.bridges_spec()[2].bridge_type == BridgeType::TwoLanes
                && r.bridges_spec()[2].name@ == "Puente Sur"@,
            forall|i: int|
                0 <= i < 3 ==> (#[trigger] r.bridges_spec()[i]).mutex@ is None && r.bridges_spec()[i].mutex.wf()
                    && !r.bridges_spec()[i].is_blocked && r.bridges_spec()[i].green_light,
    {
        let mut bridges: Vec<Bridge> = Vec::new();
        bridges.push(new_bridge(1, "Puente Norte", BridgeType::TrafficLight));
        bridges.push(new_bridge(2, "Puente Central", BridgeType::YieldSign));
        bridges.push(new_bridge(3, "Puente Sur", BridgeType::TwoLanes));
        City { width, height, vehicles: Vec::new(), next_id: 0, bridges }
    }

    /// Adds a vehicle of type `vtype` at `start`, heading for `dest`, with the next id.
    pub fn spawn_vehicle(&mut self, start: (usize, usize), dest: (usize, usize), vtype: VehicleType)
        requires
            old(self).next_id_spec() < usize::MAX,
        ensures
            final(self).vehicles_spec() == old(self).vehicles_spec().push(
                Vehicle { id: old(self).next_id_spec(), vtype, pos: start, dest },
            ),
            final(self).next_id_spec() == old(self).next_id_spec() + 1,
            final(self).width_spec() == old(self).width_spec(),
            final(self).height_spec() == old(self).height_spec(),
            final(self).bridges_spec() == old(self).bridges_spec(),
    {
        let v = Vehicle { id: self.next_id, vtype, pos: start, dest };
        self.next_id = self.next_id + 1;
        self.vehicles.push(v);
    }

    /// Moves every vehicle one step toward its destination. Returns whether
    /// all vehicles had already arrived, and the bridge crossings that the
    /// moves call for, as `(vehicle type, bridge id)` in vehicle order.
    pub fn step(&mut self) -> (r: (bool, Vec<(VehicleType, usize)>))
        ensures
            r.0 == forall|i: int|
                0 <= i < old(self).vehicles_spec().len() ==> (#[trigger] old(
                    self,
                ).vehicles_spec()[i]).pos == old(self).vehicles_spec()[i].dest,
            final(self).vehicles_spec().len() == old(self).vehicles_spec().len(),
            forall|i: int|
                0 <= i < old(self).vehicles_spec().len() ==> #[trigger] final(self).vehicles_spec()[i]
                    == moved(old(self).vehicles_spec()[i]),
            r.1@ == crossings_of(old(self).vehicles_spec()),
            final(self).width_spec() == old(self).width_spec(),
            final(self).height_spec() == old(self).height_spec(),
            final(self).next_id_spec() == old(self).next_id_spec(),
            final(self).bridges_spec() == old(self).bridges_spec(),
    {
        let ghost vs = self.vehicles@;
        let mut all_arrived = true;
        let mut crossings: Vec<(VehicleType, usize)> = Vec::new();
        let mut i: usize = 0;
        while i < self.vehicles.len()
            invariant
                i <= vs.len(),
                self.vehicles@.len() == vs.len(),
                forall|j: int| 0 <= j < i ==> #[trigger] self.vehicles@[j] == moved(vs[j]),
                forall|j: int| i <= j < vs.len() ==> #[trigger] self.vehicles@[j] == vs[j],
                all_arrived == forall|j: int| 0 <= j < i ==> (#[trigger] vs[j]).pos == vs[j].dest,
                crossings@ == crossings_of(vs.take(i as int)),
                self.width == old(self).width,
                self.height == old(self).height,
                self.next_id == old(self).next_id,
                self.bridges == old(self).bridges,
            decreases vs.len() - i,
        {
            assert(vs.take(i + 1).drop_last() =~= vs.take(i as int));
            let v = self.vehicles[i];
            if v.pos.0 != v.dest.0 || v.pos.1 != v.dest.1 {
                all_arrived = false;
                let (x, y): (usize, usize) = v.pos;
                let (dx, dy): (usize, usize) = v.dest;
                let new_x: usize = if x < dx {
                    x + 1
                } else if x > dx {
                    x - 1
                } else {
                    x
                };
                let new_y: usize = if y < dy {
                    y + 1
                } else if y > dy {
                    y - 1
                } else {
                    y
                };
                self.vehicles[i].pos = (new_x, new_y);
                if 1 <= new_y && new_y <= 3 {
                    crossings.push((v.vtype, new_y));
                }
            }
            i = i + 1;
        }
        assert(vs.take(i as int) =~= vs);
        (all_arrived, crossings)
    }

    /// A copy of the grid size and the vehicles, for drawing.
    pub fn snapshot(&self) -> (r: (usize, usize, Vec<Vehicle>))
        ensures
            r.0 == self.width_spec(),
            r.1 == self.height_spec(),
            r.2@ == self.vehicles_spec(),
    {
        let mut vs: Vec<Vehicle> = Vec::new();
        let mut i: usize = 0;
        while i < self.vehicles.len()
            invariant
                i <= self.vehicles@.len(),
                vs@ == self.vehicles@.take(i as int),
            decreases self.vehicles@.len() - i,
        {
            vs.push(self.vehicles[i]);
            i = i + 1;
            assert(vs@ =~= self.vehicles@.take(i as int));
        }
        assert(self.vehicles@.take(i as int) =~= self.vehicles@);
        (self.width, self.height, vs)
    }
}

} // verus!
