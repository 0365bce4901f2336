use vstd::prelude::*;
use crate::geom::Rectangle;
use crate::view::{Id, RenderQueue, RenderData, UpdateMode};

verus! {

#[derive(Debug, Clone, Copy, PartialEq, Eq, Structural)]
pub enum BatteryStatus {
    Discharging,
    Charging,
    Charged,
}

/// A source of battery readings: capacity in whole percents. Hardware
/// drivers implement this outside the core; `FakeBattery` stands in for
/// them in tests.
pub trait Battery {
    fn capacity(&self) -> Option<u32>;

    fn status(&self) -> Option<BatteryStatus>;
}

/// A battery that always reports a full, discharging cell.
#[derive(Debug, Clone, Copy, PartialEq, Eq, Structural)]
pub struct FakeBattery {
    pub charge: u32,
}

impl FakeBattery {
    pub fn new() -> (r: FakeBattery)
        ensures
            r.charge == 100,
    {
        FakeBattery { charge: 100 }
    }
}

impl Battery for FakeBattery {
    fn capacity(&self) -> Option<u32> {
        Some(self.charge)
    }

    fn status(&self) -> Option<BatteryStatus> {
        Some(BatteryStatus::Discharging)
    }
}

/// The battery gauge widget.
#[derive(Debug, Clone, Copy, PartialEq, Eq, Structural)]
pub struct BatteryWidget {
    pub id: Id,
    pub rect: Rectangle,
    pub capacity: u32,
    pub status: BatteryStatus,
}

impl BatteryWidget {
    pub fn new(rect: Rectangle, capacity: u32, status: BatteryStatus) -> (r: BatteryWidget)
        ensures
            r == (BatteryWidget { id: 0u64, rect, capacity, status }),
    {
        BatteryWidget { id: 0, rect, capacity, status }
    }

    /// Takes a fresh reading and queues a redraw.
    pub fn update(&mut self, capacity: u32, status: BatteryStatus, rq: &mut RenderQueue)
        ensures
            *final(self) == (BatteryWidget { capacity, status, ..*old(self) }),
            final(rq).entries@ == old(rq).entries@.push(
                RenderData { id: old(self).id, rect: old(self).rect, mode: UpdateMode::Gui },
            ),
    {
        self.capacity = capacity;
        self.status = status;
        rq.add(RenderData::new(self.id, self.rect, UpdateMode::Gui));
    }
}

} // verus!
