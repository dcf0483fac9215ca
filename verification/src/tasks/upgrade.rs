use vstd::prelude::*;
use crate::traits::{FlagProcessor, Task};
use crate::world::{Creep, Failure, Intent, Room};

verus! {

/// What the objective task decides in a zone: advance the zone's objective
/// structure. A zone without one cannot be served at all.
pub open spec fn upgrade_outcome(room: Room) -> Result<Option<Intent>, Failure> {
    match room.controller {
        Some(controller) => Ok(Some(Intent::Upgrade { controller })),
        None => Err(Failure::CapabilityUnavailable),
    }
}

/// An agent advances the objective structure of its zone.
#[derive(Clone, Copy, Debug)]
pub struct TaskUpgrade;

impl TaskUpgrade {
    pub fn new() -> TaskUpgrade {
        TaskUpgrade {  }
    }
}

impl FlagProcessor for TaskUpgrade {

}

impl Task for TaskUpgrade {
    open spec fn ready(&self) -> bool {
        true
    }

    fn run(&mut self, creep: &mut Creep, room: &Room) -> (done: Result<Option<Intent>, Failure>)
        ensures
            done == upgrade_outcome(*room),
            *final(creep) == *old(creep),
    {
        match &room.controller {
            Some(controller) => Ok(Some(Intent::Upgrade { controller: controller.clone() })),
            None => Err(Failure::CapabilityUnavailable),
        }
    }

    fn name(&self) -> (name: &'static str)
        ensures
            name@ == "upgrade"@,
    {
        "upgrade"
    }
}

} // verus!
