use vstd::prelude::*;
use crate::roles::engine::{creep_resolved, nodes_resolved, resolve, resolved, TaskKind};
use crate::tasks::harvest::TaskHarvest;
use crate::traits::{FlagProcessor, Part, Role};
use crate::world::{Creep, Failure, Intent, Room};

verus! {

/// A builder gathers when empty; otherwise it builds, and where nothing is
/// to be built it deposits, and else advances the objective.
#[derive(Debug)]
pub struct Builder {
    run_count: i32,
}

impl Builder {
    /// The tasks an acting builder tries, in this order.
    pub open spec fn chain() -> Seq<TaskKind> {
        seq![TaskKind::Build, TaskKind::Refill, TaskKind::Upgrade]
    }

    /// Makes the role for one tick, with nothing counted yet.
    pub fn new() -> (role: Builder)
        ensures
            role.census() == 0,
    {
        Builder { run_count: 0 }
    }
}

impl FlagProcessor for Builder {

}

impl Role for Builder {
    closed spec fn census(&self) -> int {
        self.run_count as int
    }

    fn name(&self) -> (name: &'static str)
        ensures
            name@ == "builder"@,
    {
        "builder"
    }

    fn limit(&self) -> (limit: i32)
        ensures
            limit == 2,
    {
        2
    }

    fn next_creep(&self) -> (body: Vec<Part>)
        ensures
            body@ == seq![Part::Work, Part::Carry, Part::Move],
    {
        vec![Part::Work, Part::Carry, Part::Move]
    }

    fn run_count(&self) -> (count: i32) {
        self.run_count
    }

    fn run(&mut self, creep: &mut Creep, room: &Room, harvest: &mut TaskHarvest) -> (done: Result<
        Option<Intent>,
        Failure,
    >)
        ensures
            final(harvest)@ == nodes_resolved(*old(creep), old(harvest)@),
            *final(creep) == creep_resolved(*old(creep), old(harvest)@),
            done == resolved(Self::chain(), *old(creep), *room, old(harvest)@),
    {
        let chain = vec![TaskKind::Build, TaskKind::Refill, TaskKind::Upgrade];
        resolve(&chain, &mut self.run_count, creep, room, harvest)
    }

    fn spawn_priority(&self) -> (weight: i32)
        ensures
            weight == 15,
    {
        15
    }
}

} // verus!
