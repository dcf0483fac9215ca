use vstd::prelude::*;
use crate::position::Position;
use crate::roles::builder::Builder;
use crate::roles::engine::{creep_resolved, nodes_resolved, resolved, settled, TaskKind};
use crate::roles::harvester::Harvester;
use crate::roles::upgrader::Upgrader;
use crate::spawn::{Census, RoleKind};
use crate::tasks::harvest::{lemma_tally_step, Source, TaskHarvest};
use crate::traits::{FlagProcessor, Part, Role};
use crate::world::{Creep, Failure, Intent, Room};

verus! {

/// The reaper and the head-count report run once in this many ticks.
pub const REAP_PERIOD: u32 = 50;

/// The tick within each period on which they run.
pub const REAP_PHASE: u32 = 3;

/// More failures than this within one tick are reported to the operator.
pub const ERROR_LIMIT: u32 = 10;

/// The role that agents name by `name`, if there is one.
pub open spec fn kind_named(name: Seq<char>) -> Option<RoleKind> {
    if name == "builder"@ {
        Some(RoleKind::Builder)
    } else if name == "harvester"@ {
        Some(RoleKind::Harvester)
    } else if name == "upgrader"@ {
        Some(RoleKind::Upgrader)
    } else {
        None
    }
}

/// The tasks an acting agent of a role tries, in order.
pub open spec fn chain_of(kind: RoleKind) -> Seq<TaskKind> {
    match kind {
        RoleKind::Builder => Builder::chain(),
        RoleKind::Harvester => Harvester::chain(),
        RoleKind::Upgrader => Upgrader::chain(),
    }
}

/// What a command does, by its words: one addressed to a role is left to
/// that role, and no role takes commands so far; `ok` and `err` are spent
/// markers and are cleared; `error` fails on purpose; anything else is left
/// alone.
pub open spec fn routed(words: Seq<String>) -> Result<bool, Failure> {
    if words.len() == 0 {
        Ok(false)
    } else if kind_named(words[0]@) is Some {
        Ok(false)
    } else if words[0]@ == "ok"@ || words[0]@ == "err"@ {
        Ok(true)
    } else if words[0]@ == "error"@ {
        Err(Failure::Requested)
    } else {
        Ok(false)
    }
}

/// Some live agent has this name.
pub open spec fn is_live(live: Seq<String>, name: Seq<char>) -> bool {
    exists|i: int| 0 <= i < live.len() && (#[trigger] live[i])@ == name
}

/// The stored names that belong to no live agent, in their order.
pub open spec fn orphans(stored: Seq<String>, live: Seq<String>) -> Seq<String>
    decreases stored.len(),
{
    if stored.len() == 0 {
        Seq::empty()
    } else if is_live(live, stored.last()@) {
        orphans(stored.drop_last(), live)
    } else {
        orphans(stored.drop_last(), live).push(stored.last())
    }
}

/// A live agent together with the role it names and the zone it stands in.
#[derive(Clone, Debug, PartialEq, Eq)]
pub struct Member {
    /// The role name persisted for the agent.
    pub role: String,
    pub creep: Creep,
    pub room: Room,
}

impl Member {
    /// The nodes after this agent was run on `nodes`. An agent that names no
    /// role leaves them as they are.
    pub open spec fn nodes_after(self, nodes: Seq<Source>) -> Seq<Source> {
        match kind_named(self.role@) {
            Some(kind) => nodes_resolved(self.creep, nodes),
            None => nodes,
        }
    }

    /// The agent after it was run on `nodes`.
    pub open spec fn creep_after(self, nodes: Seq<Source>) -> Creep {
        match kind_named(self.role@) {
            Some(kind) => creep_resolved(self.creep, nodes),
            None => self.creep,
        }
    }

    /// What the agent does, run on `nodes`.
    pub open spec fn outcome(self, nodes: Seq<Source>) -> Result<Option<Intent>, Failure> {
        match kind_named(self.role@) {
            Some(kind) => resolved(chain_of(kind), self.creep, self.room, nodes),
            None => Err(Failure::UnknownRole),
        }
    }
}

/// The nodes after the first `n` agents of `crew` were run in order, starting
/// from `nodes`.
pub open spec fn nodes_at(nodes: Seq<Source>, crew: Seq<Member>, n: int) -> Seq<Source>
    decreases n,
{
    if n <= 0 {
        nodes
    } else {
        crew[n - 1].nodes_after(nodes_at(nodes, crew, n - 1))
    }
}

/// How many of the first `n` agents of `crew` name the role `kind`.
pub open spec fn headcount(crew: Seq<Member>, kind: RoleKind, n: int) -> int
    decreases n,
{
    if n <= 0 {
        0
    } else {
        headcount(crew, kind, n - 1) + if kind_named(crew[n - 1].role@) == Some(kind) {
            1int
        } else {
            0int
        }
    }
}

/// How many of the first `n` outcomes are failures.
pub open spec fn failures(done: Seq<Result<Option<Intent>, Failure>>, n: int) -> int
    decreases n,
{
    if n <= 0 {
        0
    } else {
        failures(done, n - 1) + if done[n - 1] is Err {
            1int
        } else {
            0int
        }
    }
}

/// The roles of one tick, each with its head count.
#[derive(Debug)]
pub struct Roles {
    pub builder: Builder,
    pub harvester: Harvester,
    pub upgrader: Upgrader,
}

impl Roles {
    /// The head count of a role.
    pub open spec fn census_of(self, kind: RoleKind) -> int {
        match kind {
            RoleKind::Builder => self.builder.census(),
            RoleKind::Harvester => self.harvester.census(),
            RoleKind::Upgrader => self.upgrader.census(),
        }
    }

    /// Every role can still count one more agent.
    pub open spec fn roomy(self) -> bool {
        &&& self.builder.census() < i32::MAX
        &&& self.harvester.census() < i32::MAX
        &&& self.upgrader.census() < i32::MAX
    }

    /// Every role can still count this many more agents.
    pub open spec fn roomy_for(self, agents: int) -> bool {
        forall|kind: RoleKind| self.census_of(kind) + agents < i32::MAX
    }

    /// Whether every role can still count `agents` more agents.
    pub fn can_count(&self, agents: usize) -> (roomy: bool)
        ensures
            roomy == self.roomy_for(agents as int),
    {
        let agents = agents as i128;
        let builders = self.builder.run_count() as i128;
        let harvesters = self.harvester.run_count() as i128;
        let upgraders = self.upgrader.run_count() as i128;
        let roomy = builders + agents < 0x7fff_ffff && harvesters + agents < 0x7fff_ffff
            && upgraders + agents < 0x7fff_ffff;
        proof {
            if roomy {
                assert forall|kind: RoleKind| self.census_of(kind) + agents < i32::MAX by {
                    match kind {
                        RoleKind::Builder => {},
                        RoleKind::Harvester => {},
                        RoleKind::Upgrader => {},
                    }
                }
            } else if builders + agents >= 0x7fff_ffff {
                assert(!(self.census_of(RoleKind::Builder) + agents < i32::MAX));
            } else if harvesters + agents >= 0x7fff_ffff {
                assert(!(self.census_of(RoleKind::Harvester) + agents < i32::MAX));
            } else {
                assert(!(self.census_of(RoleKind::Upgrader) + agents < i32::MAX));
            }
        }
        roomy
    }

    /// Makes the roles for one tick; nothing is counted yet.
    pub fn new() -> (roles: Roles)
        ensures
            forall|kind: RoleKind| roles.census_of(kind) == 0,
    {
        Roles { builder: Builder::new(), harvester: Harvester::new(), upgrader: Upgrader::new() }
    }

    /// The role named by `name`.
    pub fn kind_of(name: &str) -> (kind: Option<RoleKind>)
        ensures
            kind == kind_named(name@),
    {
        let name: String = name.to_owned();
        if name == "builder".to_owned() {
            Some(RoleKind::Builder)
        } else if name == "harvester".to_owned() {
            Some(RoleKind::Harvester)
        } else if name == "upgrader".to_owned() {
            Some(RoleKind::Upgrader)
        } else {
            None
        }
    }

    /// Runs one agent under the role it names. An agent that names no role
    /// fails, and nothing is counted or changed for it.
    pub fn run(
        &mut self,
        role: &str,
        creep: &mut Creep,
        room: &Room,
        harvest: &mut TaskHarvest,
    ) -> (done: Result<Option<Intent>, Failure>)
        requires
            old(self).roomy(),
            old(harvest).wf(),
            old(harvest).roomy(),
        ensures
            final(harvest).wf(),
            match kind_named(role@) {
                Some(kind) => {
                    &&& forall|other: RoleKind|
                        final(self).census_of(other) == old(self).census_of(other) + if other
                            == kind {
                            1int
                        } else {
                            0int
                        }
                    &&& final(harvest)@ == nodes_resolved(*old(creep), old(harvest)@)
                    &&& *final(creep) == creep_resolved(*old(creep), old(harvest)@)
                    &&& done == resolved(chain_of(kind), *old(creep), *room, old(harvest)@)
                },
                None => {
                    &&& forall|other: RoleKind|
                        final(self).census_of(other) == old(self).census_of(other)
                    &&& final(harvest)@ == old(harvest)@
                    &&& *final(creep) == *old(creep)
                    &&& done == Err::<Option<Intent>, Failure>(Failure::UnknownRole)
                },
            },
    {
        match Roles::kind_of(role) {
            Some(RoleKind::Builder) => self.builder.run(creep, room, harvest),
            Some(RoleKind::Harvester) => self.harvester.run(creep, room, harvest),
            Some(RoleKind::Upgrader) => self.upgrader.run(creep, room, harvest),
            None => Err(Failure::UnknownRole),
        }
    }

    /// Runs every live agent once, in the order given. Each agent is run on
    /// the nodes as the agents before it left them, so the order decides who
    /// gets a contested node. A failure is recorded for its agent and does
    /// not stop the others. Afterwards each role has counted the agents that
    /// name it.
    pub fn run_all(&mut self, crew: &mut Vec<Member>, harvest: &mut TaskHarvest) -> (done: Vec<
        Result<Option<Intent>, Failure>,
    >)
        requires
            old(harvest).wf(),
            old(crew).len() < i32::MAX,
            old(self).roomy_for(old(crew).len() as int),
            old(harvest).roomy_for(old(crew).len() as int),
        ensures
            final(harvest).wf(),
            final(harvest)@ == nodes_at(old(harvest)@, old(crew)@, old(crew).len() as int),
            forall|kind: RoleKind|
                final(self).census_of(kind) == old(self).census_of(kind) + headcount(
                    old(crew)@,
                    kind,
                    old(crew).len() as int,
                ),
            done.len() == old(crew).len(),
            final(crew).len() == old(crew).len(),
            forall|i: int|
                0 <= i < done.len() ==> #[trigger] done[i] == old(crew)[i].outcome(
                    nodes_at(old(harvest)@, old(crew)@, i),
                ),
            forall|i: int|
                0 <= i < done.len() ==> #[trigger] final(crew)[i] == (Member {
                    creep: old(crew)[i].creep_after(nodes_at(old(harvest)@, old(crew)@, i)),
                    ..old(crew)[i]
                }),
    {
        let mut done: Vec<Result<Option<Intent>, Failure>> = Vec::new();
        let ghost before = crew@;
        let ghost nodes = harvest@;
        let ghost start = *self;
        let mut i: usize = 0;
        while i < crew.len()
            invariant
                i <= crew.len(),
                crew.len() == before.len(),
                done.len() == i,
                before.len() < i32::MAX,
                harvest.wf(),
                harvest@ == nodes_at(nodes, before, i as int),
                forall|k: int|
                    0 <= k < harvest@.len() ==> (#[trigger] harvest@[k]).tally() + before.len() - i
                        < i32::MAX,
                forall|kind: RoleKind|
                    self.census_of(kind) == start.census_of(kind) + headcount(before, kind, i as int),
                forall|kind: RoleKind| start.census_of(kind) + before.len() < i32::MAX,
                forall|k: int| i <= k < crew.len() ==> #[trigger] crew[k] == before[k],
                forall|k: int|
                    0 <= k < i ==> #[trigger] done[k] == before[k].outcome(nodes_at(nodes, before, k)),
                forall|k: int|
                    0 <= k < i ==> #[trigger] crew[k] == (Member {
                        creep: before[k].creep_after(nodes_at(nodes, before, k)),
                        ..before[k]
                    }),
            decreases crew.len() - i,
        {
            proof {
                lemma_headcount_bound(before, RoleKind::Builder, i as int);
                lemma_headcount_bound(before, RoleKind::Harvester, i as int);
                lemma_headcount_bound(before, RoleKind::Upgrader, i as int);
                assert(start.census_of(RoleKind::Builder) + before.len() < i32::MAX);
                assert(start.census_of(RoleKind::Harvester) + before.len() < i32::MAX);
                assert(start.census_of(RoleKind::Upgrader) + before.len() < i32::MAX);
                assert(self.census_of(RoleKind::Builder) < i32::MAX);
                assert(self.census_of(RoleKind::Harvester) < i32::MAX);
                assert(self.census_of(RoleKind::Upgrader) < i32::MAX);
            }
            let ghost nodes_now = harvest@;
            let ghost member = crew[i as int];
            let member_ref = &mut crew[i];
            let outcome = self.run(
                member_ref.role.as_str(),
                &mut member_ref.creep,
                &member_ref.room,
                harvest,
            );
            proof {
                assert(harvest@ == member.nodes_after(nodes_now));
                assert forall|k: int| 0 <= k < harvest@.len() implies (#[trigger] harvest@[k]).tally()
                    + before.len() - (i + 1) < i32::MAX by {
                    if kind_named(member.role@) is Some && settled(member.creep).harvesting {
                        lemma_tally_step(nodes_now, settled(member.creep), k);
                    }
                }
            }
            done.push(outcome);
            i += 1;
        }
        done
    }

    /// The head counts as the spawn order needs them: builder, harvester,
    /// upgrader.
    pub fn census(&self) -> (counts: Vec<Census>)
        ensures
            counts@.len() == 3,
            counts@[0] == (Census {
                role: RoleKind::Builder,
                run_count: self.builder.census() as i32,
                limit: 2,
                weight: 15,
            }),
            counts@[1] == (Census {
                role: RoleKind::Harvester,
                run_count: self.harvester.census() as i32,
                limit: 2,
                weight: 10,
            }),
            counts@[2] == (Census {
                role: RoleKind::Upgrader,
                run_count: self.upgrader.census() as i32,
                limit: 2,
                weight: 15,
            }),
    {
        let mut counts: Vec<Census> = Vec::new();
        counts.push(
            Census {
                role: RoleKind::Builder,
                run_count: self.builder.run_count(),
                limit: self.builder.limit(),
                weight: self.builder.spawn_priority(),
            },
        );
        counts.push(
            Census {
                role: RoleKind::Harvester,
                run_count: self.harvester.run_count(),
                limit: self.harvester.limit(),
                weight: self.harvester.spawn_priority(),
            },
        );
        counts.push(
            Census {
                role: RoleKind::Upgrader,
                run_count: self.upgrader.run_count(),
                limit: self.upgrader.limit(),
                weight: self.upgrader.spawn_priority(),
            },
        );
        counts
    }

    /// The name agents of a role carry.
    pub fn name_of(&self, kind: RoleKind) -> (name: &'static str)
        ensures
            kind_named(name@) == Some(kind),
    {
        proof {
            reveal_strlit("builder");
            reveal_strlit("harvester");
            reveal_strlit("upgrader");
            assert("builder"@.len() == 7);
            assert("harvester"@.len() == 9);
            assert("upgrader"@.len() == 8);
        }
        match kind {
            RoleKind::Builder => self.builder.name(),
            RoleKind::Harvester => self.harvester.name(),
            RoleKind::Upgrader => self.upgrader.name(),
        }
    }

    /// The parts of the next agent of a role.
    pub fn body_of(&self, kind: RoleKind) -> (body: Vec<Part>)
        ensures
            body@ == seq![Part::Work, Part::Carry, Part::Move],
    {
        match kind {
            RoleKind::Builder => self.builder.next_creep(),
            RoleKind::Harvester => self.harvester.next_creep(),
            RoleKind::Upgrader => self.upgrader.next_creep(),
        }
    }

    /// Routes one command, given as its words and the place it was given at.
    /// `Ok(true)` says the command is spent and can be cleared.
    pub fn flag(&self, words: &Vec<String>, pos: Position) -> (handled: Result<bool, Failure>)
        ensures
            handled == routed(words@),
    {
        if words.len() == 0 {
            return Ok(false);
        }
        let mut rest: Vec<String> = Vec::new();
        let mut i: usize = 1;
        while i < words.len()
            invariant
                1 <= i <= words.len(),
                rest@ == words@.subrange(1, i as int),
            decreases words.len() - i,
        {
            rest.push(words[i].clone());
            assert(rest@ =~= words@.subrange(1, i + 1));
            i += 1;
        }
        match Roles::kind_of(words[0].as_str()) {
            Some(RoleKind::Builder) => self.builder.flag(&rest, pos),
            Some(RoleKind::Harvester) => self.harvester.flag(&rest, pos),
            Some(RoleKind::Upgrader) => self.upgrader.flag(&rest, pos),
            None => {
                if words[0] == "ok".to_owned() || words[0] == "err".to_owned() {
                    Ok(true)
                } else if words[0] == "error".to_owned() {
                    Err(Failure::Requested)
                } else {
                    Ok(false)
                }
            },
        }
    }
}

/// Of the first `n` agents, at most `n` name a given role.
pub proof fn lemma_headcount_bound(crew: Seq<Member>, kind: RoleKind, n: int)
    ensures
        0 <= headcount(crew, kind, n),
        n >= 0 ==> headcount(crew, kind, n) <= n,
        n < 0 ==> headcount(crew, kind, n) == 0,
    decreases n,
{
    if n > 0 {
        lemma_headcount_bound(crew, kind, n - 1);
    }
}

/// How many of the outcomes of a tick are failures.
pub fn count_failures(done: &Vec<Result<Option<Intent>, Failure>>) -> (errors: usize)
    ensures
        errors == failures(done@, done.len() as int),
{
    let mut errors: usize = 0;
    let mut i: usize = 0;
    while i < done.len()
        invariant
            i <= done.len(),
            errors == failures(done@, i as int),
            errors <= i,
        decreases done.len() - i,
    {
        if done[i].is_err() {
            errors += 1;
        }
        i += 1;
    }
    errors
}

/// Whether `name` is among `live`.
fn lives(live: &Vec<String>, name: &String) -> (found: bool)
    ensures
        found == is_live(live@, name@),
{
    let mut i: usize = 0;
    while i < live.len()
        invariant
            i <= live.len(),
            forall|j: int| 0 <= j < i ==> (#[trigger] live[j])@ != name@,
        decreases live.len() - i,
    {
        if live[i] == *name {
            return true;
        }
        i += 1;
    }
    false
}

/// The stored entries to delete: those whose name belongs to no live agent.
pub fn clear_deceased(stored: &Vec<String>, live: &Vec<String>) -> (gone: Vec<String>)
    ensures
        gone@ == orphans(stored@, live@),
{
    let mut gone: Vec<String> = Vec::new();
    let mut i: usize = 0;
    while i < stored.len()
        invariant
            i <= stored.len(),
            gone@ == orphans(stored@.take(i as int), live@),
        decreases stored.len() - i,
    {
        proof {
            assert(stored@.take(i + 1).drop_last() =~= stored@.take(i as int));
        }
        if !lives(live, &stored[i]) {
            gone.push(stored[i].clone());
        }
        i += 1;
    }
    proof {
        assert(stored@.take(i as int) =~= stored@);
    }
    gone
}

/// Whether the reaper and the head-count report run on this tick.
pub fn reaper_due(time: u32) -> (due: bool)
    ensures
        due == (time % REAP_PERIOD == REAP_PHASE),
{
    time % REAP_PERIOD == REAP_PHASE
}

/// Whether the failures of one tick are so many that the operator is told.
pub fn too_many_errors(errors: u32) -> (notify: bool)
    ensures
        notify == (errors > ERROR_LIMIT),
{
    errors > ERROR_LIMIT
}

} // verus!
