use vstd::prelude::*;
use crate::traits::{FlagProcessor, Task};
use crate::world::{Creep, Failure, Intent, Room};

verus! {

/// What the construct task decides in a zone: build at the first site listed,
/// or nothing where there is none.
pub open spec fn build_outcome(room: Room) -> Result<Option<Intent>, Failure> {
    if room.construction_sites@.len() == 0 {
        Ok(None)
    } else {
        Ok(Some(Intent::Build { site: room.construction_sites@[0] }))
    }
}

/// An agent builds at the first construction site of its zone.
#[derive(Clone, Copy, Debug)]
pub struct TaskBuild;

impl TaskBuild {
    pub fn new() -> TaskBuild {
        TaskBuild {  }
    }
}

impl FlagProcessor for TaskBuild {

}

impl Task for TaskBuild {
    open spec fn ready(&self) -> bool {
        true
    }

    fn run(&mut self, creep: &mut Creep, room: &Room) -> (done: Result<Option<Intent>, Failure>)
        ensures
            done == build_outcome(*room),
            *final(creep) == *old(creep),
    {
        if room.construction_sites.len() == 0 {
            Ok(None)
        } else {
            Ok(Some(Intent::Build { site: room.construction_sites[0].clone() }))
        }
    }

    fn name(&self) -> (name: &'static str)
        ensures
            name@ == "build"@,
    {
        "build"
    }
}

} // verus!
