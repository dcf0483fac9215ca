use vstd::prelude::*;
use crate::tasks::construct::{build_outcome, TaskBuild};
use crate::tasks::harvest::{creep_after, outcome, sources_after, TaskHarvest};
use crate::tasks::refill::{refill_outcome, TaskRefill};
use crate::tasks::upgrade::{upgrade_outcome, TaskUpgrade};
use crate::traits::Task;
use crate::world::{Creep, Failure, Intent, Room};

verus! {

/// The tasks an acting agent can be given.
#[derive(Clone, Copy, Debug, PartialEq, Eq, Structural)]
pub enum TaskKind {
    Build,
    Refill,
    Upgrade,
}

/// Whether an agent gathers this tick: an empty agent gathers, a full one
/// acts, and one in between goes on with what it did before.
pub open spec fn gathering_next(carried: u32, capacity: u32, previous: bool) -> bool {
    if carried == 0 {
        true
    } else if carried >= capacity {
        false
    } else {
        previous
    }
}

/// What one task decides in a zone.
pub open spec fn task_outcome(kind: TaskKind, room: Room) -> Result<Option<Intent>, Failure> {
    match kind {
        TaskKind::Build => build_outcome(room),
        TaskKind::Refill => refill_outcome(room),
        TaskKind::Upgrade => upgrade_outcome(room),
    }
}

/// What a chain of tasks decides in a zone: the action of the first task that
/// has something to do. A task that fails ends the chain with its failure; a
/// chain in which every task declines fails as a whole.
pub open spec fn chain_outcome(chain: Seq<TaskKind>, room: Room) -> Result<Intent, Failure>
    decreases chain.len(),
{
    if chain.len() == 0 {
        Err(Failure::AllTasksFailed)
    } else {
        match task_outcome(chain[0], room) {
            Ok(Some(intent)) => Ok(intent),
            Ok(None) => chain_outcome(chain.skip(1), room),
            Err(e) => Err(e),
        }
    }
}

/// The agent as the gather task gets it: with its mode settled.
pub open spec fn settled(creep: Creep) -> Creep {
    Creep {
        harvesting: gathering_next(creep.energy, creep.carry_capacity, creep.harvesting),
        ..creep
    }
}

/// What running an agent with this chain decides.
pub open spec fn resolved(chain: Seq<TaskKind>, creep: Creep, room: Room, nodes: Seq<
    crate::tasks::harvest::Source,
>) -> Result<Option<Intent>, Failure> {
    if settled(creep).harvesting {
        outcome(nodes, settled(creep))
    } else {
        match chain_outcome(chain, room) {
            Ok(intent) => Ok(Some(intent)),
            Err(e) => Err(e),
        }
    }
}

/// The agent after it was run.
pub open spec fn creep_resolved(creep: Creep, nodes: Seq<crate::tasks::harvest::Source>) -> Creep {
    if settled(creep).harvesting {
        creep_after(nodes, settled(creep))
    } else {
        settled(creep)
    }
}

/// The nodes after the agent was run.
pub open spec fn nodes_resolved(creep: Creep, nodes: Seq<crate::tasks::harvest::Source>) -> Seq<
    crate::tasks::harvest::Source,
> {
    if settled(creep).harvesting {
        sources_after(nodes, settled(creep))
    } else {
        nodes
    }
}

pub fn resolve_gathering(carried: u32, capacity: u32, previous: bool) -> (gathering: bool)
    ensures
        gathering == gathering_next(carried, capacity, previous),
{
    if carried == 0 {
        true
    } else if carried >= capacity {
        false
    } else {
        previous
    }
}

/// Runs one task of the given kind for an agent.
pub fn run_task(kind: TaskKind, creep: &mut Creep, room: &Room) -> (done: Result<
    Option<Intent>,
    Failure,
>)
    ensures
        done == task_outcome(kind, *room),
        *final(creep) == *old(creep),
{
    match kind {
        TaskKind::Build => {
            let mut task = TaskBuild::new();
            task.run(creep, room)
        },
        TaskKind::Refill => {
            let mut task = TaskRefill::new();
            task.run(creep, room)
        },
        TaskKind::Upgrade => {
            let mut task = TaskUpgrade::new();
            task.run(creep, room)
        },
    }
}

/// Runs one agent: settles whether it gathers, counts it, and then either
/// hands it to the gather task or tries the tasks of `chain` in order until
/// one has something to do.
pub fn resolve(
    chain: &Vec<TaskKind>,
    run_count: &mut i32,
    creep: &mut Creep,
    room: &Room,
    harvest: &mut TaskHarvest,
) -> (done: Result<Option<Intent>, Failure>)
    requires
        *old(run_count) < i32::MAX,
        old(harvest).wf(),
        old(harvest).roomy(),
    ensures
        *final(run_count) == *old(run_count) + 1,
        final(harvest).wf(),
        final(harvest)@ == nodes_resolved(*old(creep), old(harvest)@),
        *final(creep) == creep_resolved(*old(creep), old(harvest)@),
        done == resolved(chain@, *old(creep), *room, old(harvest)@),
{
    let harvesting = resolve_gathering(creep.energy, creep.carry_capacity, creep.harvesting);
    creep.harvesting = harvesting;
    *run_count = *run_count + 1;
    if harvesting {
        return harvest.run(creep, room);
    }
    let mut i: usize = 0;
    proof {
        assert(chain@.skip(0) =~= chain@);
    }
    while i < chain.len()
        invariant
            i <= chain.len(),
            *creep == settled(*old(creep)),
            *run_count == *old(run_count) + 1,
            *harvest == *old(harvest),
            harvest.wf(),
            !settled(*old(creep)).harvesting,
            chain_outcome(chain@, *room) == chain_outcome(chain@.skip(i as int), *room),
        decreases chain.len() - i,
    {
        proof {
            assert(chain@.skip(i as int).skip(1) =~= chain@.skip(i + 1));
        }
        match run_task(chain[i], creep, room) {
            Ok(Some(intent)) => {
                return Ok(Some(intent));
            },
            Ok(None) => {},
            Err(e) => {
                return Err(e);
            },
        }
        i += 1;
    }
    Err(Failure::AllTasksFailed)
}


/// An agent that carries something but is not full stays in the mode it was
/// in. The mode changes only for an agent that is empty, which gathers, or
/// full, which acts.
pub proof fn lemma_hysteresis(carried: u32, capacity: u32, previous: bool)
    ensures
        0 < carried < capacity ==> gathering_next(carried, capacity, previous) == previous,
        gathering_next(carried, capacity, previous) != previous ==> carried == 0 || carried
            >= capacity,
        carried == 0 ==> gathering_next(carried, capacity, previous),
        carried > 0 && carried >= capacity ==> !gathering_next(carried, capacity, previous),
{
}

} // verus!
