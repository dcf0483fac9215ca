use vstd::prelude::*;
use crate::position::Position;
use crate::tasks::harvest::TaskHarvest;
use crate::world::{Creep, Failure, Intent, Room};

verus! {

/// A body part of an agent.
#[derive(Clone, Copy, Debug, PartialEq, Eq, Structural)]
pub enum Part {
    Work,
    Carry,
    Move,
}

/// Takes commands that are addressed to it by name.
pub trait FlagProcessor {
    /// Handles the words that followed the name, given at `pos`. `Ok(true)`
    /// says the command was carried out. Nothing takes commands so far, so
    /// every processor declines.
    fn flag(&self, cmd: &Vec<String>, pos: Position) -> (handled: Result<bool, Failure>)
        ensures
            handled == Ok::<bool, Failure>(false),
    {
        Ok(false)
    }
}

/// A role decides which task an agent carries out in a tick, and counts the
/// agents it was run for.
pub trait Role: FlagProcessor {
    /// How many agents this role was run for since it was made.
    spec fn census(&self) -> int;

    /// The name agents carry to say that they have this role.
    fn name(&self) -> (name: &'static str);

    /// How many agents of this role there should be at most.
    fn limit(&self) -> (limit: i32);

    /// The parts of the next agent to make for this role.
    fn next_creep(&self) -> (body: Vec<Part>);

    fn run_count(&self) -> (count: i32)
        ensures
            count == self.census(),
    ;

    /// Runs one agent for this tick and counts it.
    fn run(&mut self, creep: &mut Creep, room: &Room, harvest: &mut TaskHarvest) -> (done: Result<
        Option<Intent>,
        Failure,
    >)
        requires
            old(self).census() < i32::MAX,
            old(harvest).wf(),
            old(harvest).roomy(),
        ensures
            final(self).census() == old(self).census() + 1,
            final(harvest).wf(),
    ;

    /// The lower this number, the more agents of the role there will be
    /// overall. Usual range: 10 to 100.
    fn spawn_priority(&self) -> (weight: i32);
}

/// A task is one thing an agent can do in a tick.
pub trait Task: FlagProcessor {
    /// What the task needs of its own state to be run.
    spec fn ready(&self) -> bool;

    /// Runs the task for one agent. `Ok(Some(..))` carries what the agent
    /// does; `Ok(None)` says that the task had nothing to do.
    fn run(&mut self, creep: &mut Creep, room: &Room) -> (done: Result<Option<Intent>, Failure>)
        requires
            old(self).ready(),
    ;

    fn name(&self) -> (name: &'static str);
}

} // verus!
