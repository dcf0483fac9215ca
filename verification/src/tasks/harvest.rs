use vstd::prelude::*;
use crate::position::{adjacent, Position};
use crate::traits::{FlagProcessor, Task};
use crate::world::{Creep, Failure, Intent, Room, Sight};

verus! {

/// How many agents may work one node at a time unless the node says otherwise.
pub const DEFAULT_CREEP_LIMIT: i32 = 4;

/// A resource node: what is persisted for it, and how it looked this tick.
#[derive(Clone, Debug, PartialEq, Eq)]
pub struct Source {
    pub id: String,
    /// The node as observed this tick.
    pub sight: Sight,
    /// Persisted limit of concurrent agents.
    pub creep_limit: Option<i32>,
    /// Persisted count of agents that gathered here this tick.
    pub counter: Option<i32>,
    /// Persisted count this tick's admissions are judged by: last tick's
    /// final `counter`, plus the reservations granted since.
    pub prev_counter: Option<i32>,
    /// Persisted position, known once an agent has gathered here.
    pub pos: Option<Position>,
}

impl Source {
    /// The limit in force.
    pub open spec fn limit(self) -> int {
        match self.creep_limit {
            Some(l) => l as int,
            None => DEFAULT_CREEP_LIMIT as int,
        }
    }

    /// Agents counted against the limit so far.
    pub open spec fn reserved(self) -> int {
        match self.prev_counter {
            Some(c) => c as int,
            None => 0,
        }
    }

    /// Agents that gathered here this tick.
    pub open spec fn tally(self) -> int {
        match self.counter {
            Some(c) => c as int,
            None => 0,
        }
    }

    /// Seen, and seen empty. A node that was not seen is not held to be empty.
    pub open spec fn depleted(self) -> bool {
        self.sight matches Sight::Seen { energy, .. } && energy == 0
    }

    /// Open to a new agent: not empty, and fewer agents reserved than the
    /// limit allows.
    pub open spec fn admits(self) -> bool {
        !self.depleted() && self.reserved() < self.limit()
    }

    /// The node at the start of the next tick: this tick's count becomes the
    /// count admissions are judged by, and counting starts again at zero.
    pub open spec fn rolled(self) -> Source {
        Source { prev_counter: Some(self.tally() as i32), counter: Some(0i32), ..self }
    }

    /// The node after one more agent gathered here.
    pub open spec fn tallied(self) -> Source {
        Source { counter: Some((self.tally() + 1) as i32), ..self }
    }

    /// The node after one more agent was admitted.
    pub open spec fn granted(self) -> Source {
        Source { prev_counter: Some((self.reserved() + 1) as i32), ..self }
    }

    /// The node with its position persisted, where none was and the node was
    /// seen.
    pub open spec fn placed(self) -> Source {
        match (self.pos, self.sight) {
            (None, Sight::Seen { energy, pos }) => Source { pos: Some(pos), ..self },
            _ => self,
        }
    }

    /// A node first heard of through an agent that already gathers from it.
    pub open spec fn adopted(id: String) -> Source {
        Source {
            id,
            sight: Sight::Unseen,
            creep_limit: None,
            counter: Some(1i32),
            prev_counter: None,
            pos: None,
        }
    }

    /// What an agent standing at `from` does about this node: gather when it
    /// is next to it, move toward it otherwise. The persisted position is
    /// used where there is one, so that the node need not be seen to be
    /// walked to.
    pub open spec fn approach(self, from: Position) -> Result<Intent, Failure> {
        match self.pos {
            Some(p) => if adjacent(from@, p@) {
                match self.sight {
                    Sight::Seen { .. } => Ok(Intent::Harvest { source: self.id }),
                    Sight::Unseen => Ok(Intent::Idle),
                    Sight::Fault => Err(Failure::CapabilityUnavailable),
                }
            } else {
                Ok(Intent::Travel { to: p })
            },
            None => match self.sight {
                Sight::Seen { energy, pos } => if adjacent(from@, pos@) {
                    Ok(Intent::Harvest { source: self.id })
                } else {
                    Ok(Intent::Travel { to: pos })
                },
                Sight::Unseen => Ok(Intent::Idle),
                Sight::Fault => Err(Failure::CapabilityUnavailable),
            },
        }
    }

    pub fn get_limit(&self) -> (limit: i32)
        ensures
            limit == self.limit(),
    {
        match self.creep_limit {
            Some(l) => l,
            None => DEFAULT_CREEP_LIMIT,
        }
    }

    pub fn get_counter(&self) -> (reserved: i32)
        ensures
            reserved == self.reserved(),
    {
        match self.prev_counter {
            Some(c) => c,
            None => 0,
        }
    }

    pub fn get_tally(&self) -> (tally: i32)
        ensures
            tally == self.tally(),
    {
        match self.counter {
            Some(c) => c,
            None => 0,
        }
    }

    pub fn is_depleted(&self) -> (depleted: bool)
        ensures
            depleted == self.depleted(),
    {
        match self.sight {
            Sight::Seen { energy, pos } => energy == 0,
            _ => false,
        }
    }

    pub fn is_admitting(&self) -> (admits: bool)
        ensures
            admits == self.admits(),
    {
        !self.is_depleted() && self.get_counter() < self.get_limit()
    }
}

/// No two nodes share an id.
pub open spec fn distinct_ids(s: Seq<Source>) -> bool {
    forall|i: int, j: int| 0 <= i < j < s.len() ==> (#[trigger] s[i]).id@ != (#[trigger] s[j]).id@
}

/// Some node has this id.
pub open spec fn known(s: Seq<Source>, id: Seq<char>) -> bool {
    exists|i: int| 0 <= i < s.len() && (#[trigger] s[i]).id@ == id
}

/// The place of the node with this id, where one is known.
pub open spec fn index_of(s: Seq<Source>, id: Seq<char>) -> int {
    choose|i: int| 0 <= i < s.len() && (#[trigger] s[i]).id@ == id
}

/// Start of a tick, for every node at once.
pub open spec fn rolled_over(s: Seq<Source>) -> Seq<Source> {
    Seq::new(s.len(), |i: int| s[i].rolled())
}

/// The places of the nodes open to a new agent, in the order of the nodes.
pub open spec fn candidates(s: Seq<Source>) -> Seq<int>
    decreases s.len(),
{
    if s.len() == 0 {
        Seq::empty()
    } else if s.last().admits() {
        candidates(s.drop_last()).push(s.len() - 1)
    } else {
        candidates(s.drop_last())
    }
}

/// The ids of the nodes open to a new agent, in the order of the nodes.
pub open spec fn candidate_ids(s: Seq<Source>) -> Seq<Seq<char>> {
    Seq::new(candidates(s).len(), |j: int| s[candidates(s)[j]].id@)
}

/// The slot of a non-empty list that an agent's stable id falls on.
pub open spec fn slot(id: int, len: int) -> int {
    id % len
}

/// The agent keeps the node it has: it has one, and that node was not seen
/// empty.
pub open spec fn keeps(s: Seq<Source>, creep: Creep) -> bool {
    creep.source matches Some(id) && !(known(s, id@) && s[index_of(s, id@)].depleted())
}

/// Which node an agent gathers from this tick.
pub enum Choice {
    /// The node it had, at this place.
    Kept(int),
    /// The node it had, which was not known before and is added.
    Adopted,
    /// A node newly assigned, at this place.
    Fresh(int),
    /// None is open.
    Nothing,
}

pub open spec fn choice(s: Seq<Source>, creep: Creep) -> Choice {
    if keeps(s, creep) {
        if known(s, creep.source->0@) {
            Choice::Kept(index_of(s, creep.source->0@))
        } else {
            Choice::Adopted
        }
    } else if candidates(s).len() == 0 {
        Choice::Nothing
    } else {
        Choice::Fresh(candidates(s)[slot(creep.id as int, candidates(s).len() as int)])
    }
}

/// The nodes after the agent was run.
pub open spec fn sources_after(s: Seq<Source>, creep: Creep) -> Seq<Source> {
    match choice(s, creep) {
        Choice::Kept(k) => s.update(k, s[k].tallied().placed()),
        Choice::Fresh(k) => s.update(k, s[k].granted().tallied().placed()),
        Choice::Adopted => s.push(Source::adopted(creep.source->0)),
        Choice::Nothing => s,
    }
}

/// The agent after it was run: a newly assigned node is remembered.
pub open spec fn creep_after(s: Seq<Source>, creep: Creep) -> Creep {
    match choice(s, creep) {
        Choice::Fresh(k) => Creep { source: Some(s[k].id), ..creep },
        _ => creep,
    }
}

/// What the agent does this tick; `Ok(None)` when no node is open to it.
pub open spec fn outcome(s: Seq<Source>, creep: Creep) -> Result<Option<Intent>, Failure> {
    match choice(s, creep) {
        Choice::Kept(k) | Choice::Fresh(k) => match s[k].approach(creep.pos) {
            Ok(intent) => Ok(Some(intent)),
            Err(e) => Err(e),
        },
        Choice::Adopted => Ok(Some(Intent::Idle)),
        Choice::Nothing => Ok(None),
    }
}

/// Every candidate is the place of a node that admits, and the places rise.
pub proof fn lemma_candidates(s: Seq<Source>)
    ensures
        candidates(s).len() <= s.len(),
        forall|j: int| 0 <= j < candidates(s).len() ==> 0 <= (#[trigger] candidates(s)[j]) < s.len()
            && s[candidates(s)[j]].admits(),
        forall|i: int| 0 <= i < s.len() && (#[trigger] s[i]).admits() ==> candidates(s).contains(i),
    decreases s.len(),
{
    if s.len() > 0 {
        let t = s.drop_last();
        lemma_candidates(t);
        assert forall|i: int| 0 <= i < s.len() && (#[trigger] s[i]).admits() implies candidates(
            s,
        ).contains(i) by {
            if i < s.len() - 1 {
                assert(t[i].admits());
                let j = choose|j: int| 0 <= j < candidates(t).len() && candidates(t)[j] == i;
                assert(candidates(s)[j] == i);
            } else {
                assert(candidates(s)[candidates(s).len() - 1] == i);
            }
        }
    }
}


/// The gather task: it spreads gathering agents over the known nodes.
#[derive(Debug)]
pub struct TaskHarvest {
    sources: Vec<Source>,
}

impl TaskHarvest {
    /// The known nodes, in the order in which they are considered.
    pub closed spec fn view(self) -> Seq<Source> {
        self.sources@
    }

    /// The nodes form a dictionary: no id occurs twice.
    pub open spec fn wf(self) -> bool {
        distinct_ids(self@)
    }

    /// Every node can still count one more agent.
    pub open spec fn roomy(self) -> bool {
        forall|i: int| 0 <= i < self@.len() ==> (#[trigger] self@[i]).tally() < i32::MAX
    }

    /// Takes the persisted nodes at the start of a tick and rolls every
    /// counter over: what was counted last tick becomes the count admissions
    /// are judged by, and counting starts again at zero. Fails exactly when
    /// two of the nodes share an id.
    pub fn new(stored: Vec<Source>) -> (task: Result<TaskHarvest, Failure>)
        ensures
            task is Ok <==> distinct_ids(stored@),
            task matches Ok(t) ==> t.wf() && t.roomy() && t@ == rolled_over(stored@),
            task matches Ok(t) ==> forall|i: int|
                0 <= i < stored.len() ==> (#[trigger] t@[i]).reserved() == stored[i].tally()
                    && t@[i].tally() == 0,
            task matches Err(e) ==> e == Failure::StoreAccessError,
    {
        if !all_distinct(&stored) {
            return Err(Failure::StoreAccessError);
        }
        let mut sources = stored;
        let ghost before = sources@;
        let mut i: usize = 0;
        while i < sources.len()
            invariant
                i <= sources.len(),
                sources.len() == before.len(),
                forall|j: int| 0 <= j < i ==> #[trigger] sources[j] == before[j].rolled(),
                forall|j: int| i <= j < sources.len() ==> #[trigger] sources[j] == before[j],
            decreases sources.len() - i,
        {
            let tally = sources[i].get_tally();
            sources[i].prev_counter = Some(tally);
            sources[i].counter = Some(0);
            i += 1;
        }
        assert(sources@ =~= rolled_over(before));
        Ok(TaskHarvest { sources })
    }

    /// Every node can still count this many more agents.
    pub open spec fn roomy_for(self, agents: int) -> bool {
        forall|i: int| 0 <= i < self@.len() ==> (#[trigger] self@[i]).tally() + agents < i32::MAX
    }

    /// Whether every node can still count `agents` more agents.
    pub fn can_count(&self, agents: usize) -> (roomy: bool)
        ensures
            roomy == self.roomy_for(agents as int),
            agents == 0 ==> roomy == self.roomy(),
    {
        let mut i: usize = 0;
        while i < self.sources.len()
            invariant
                i <= self.sources.len(),
                forall|j: int| 0 <= j < i ==> (#[trigger] self@[j]).tally() + agents < i32::MAX,
            decreases self.sources.len() - i,
        {
            let tally = self.sources[i].get_tally();
            if tally as i128 + agents as i128 >= 0x7fff_ffff {
                assert(!((#[trigger] self@[i as int]).tally() + agents < i32::MAX));
                return false;
            }
            i += 1;
        }
        true
    }

    /// The known nodes with their counters, for writing back to the store.
    pub fn sources(&self) -> (sources: &Vec<Source>)
        ensures
            sources@ == self@,
    {
        &self.sources
    }

    /// The place of the node with this id, if it is known.
    pub fn find(&self, id: &String) -> (place: Option<usize>)
        ensures
            place is Some <==> known(self@, id@),
            place matches Some(k) ==> k < self@.len() && self@[k as int].id@ == id@,
            self.wf() && place is Some ==> place->0 == index_of(self@, id@),
    {
        let mut i: usize = 0;
        while i < self.sources.len()
            invariant
                i <= self.sources.len(),
                forall|j: int| 0 <= j < i ==> (#[trigger] self.sources[j]).id@ != id@,
            decreases self.sources.len() - i,
        {
            if self.sources[i].id == *id {
                return Some(i);
            }
            i += 1;
        }
        None
    }

    /// The count that admissions to the node with this id are judged by; zero
    /// for a node that is not known.
    pub fn get_counter(&self, id: &String) -> (reserved: i32)
        ensures
            known(self@, id@) ==> exists|k: int|
                0 <= k < self@.len() && (#[trigger] self@[k]).id@ == id@ && reserved
                    == self@[k].reserved(),
            !known(self@, id@) ==> reserved == 0,
    {
        match self.find(id) {
            Some(k) => self.sources[k].get_counter(),
            None => 0,
        }
    }

    /// The limit of the node with this id; the default for a node that is not
    /// known.
    pub fn get_limit(&self, id: &String) -> (limit: i32)
        ensures
            known(self@, id@) ==> exists|k: int|
                0 <= k < self@.len() && (#[trigger] self@[k]).id@ == id@ && limit
                    == self@[k].limit(),
            !known(self@, id@) ==> limit == DEFAULT_CREEP_LIMIT,
    {
        match self.find(id) {
            Some(k) => self.sources[k].get_limit(),
            None => DEFAULT_CREEP_LIMIT,
        }
    }

    /// The places of the nodes open to a new agent.
    pub fn open_places(&self) -> (places: Vec<usize>)
        ensures
            places@.len() == candidates(self@).len(),
            forall|j: int| 0 <= j < places@.len() ==> #[trigger] places@[j] == candidates(self@)[j],
    {
        let mut places: Vec<usize> = Vec::new();
        let mut i: usize = 0;
        while i < self.sources.len()
            invariant
                i <= self.sources.len(),
                places@.len() == candidates(self@.take(i as int)).len(),
                forall|j: int|
                    0 <= j < places@.len() ==> #[trigger] places@[j] == candidates(
                        self@.take(i as int),
                    )[j],
            decreases self.sources.len() - i,
        {
            proof {
                assert(self@.take(i + 1).drop_last() =~= self@.take(i as int));
            }
            if self.sources[i].is_admitting() {
                places.push(i);
            }
            i += 1;
        }
        proof {
            assert(self@.take(i as int) =~= self@);
        }
        places
    }
}

impl FlagProcessor for TaskHarvest {

}

impl Task for TaskHarvest {
    open spec fn ready(&self) -> bool {
        self.wf() && self.roomy()
    }

    /// Runs the gather task for one agent. The agent keeps its node unless
    /// that node was seen empty; otherwise it is assigned the open node that
    /// its stable id falls on, and that node counts one more reservation at
    /// once. Either way the node counts one more agent for this tick, and the
    /// agent gathers when next to it or moves toward it. `Ok(None)` says that
    /// no node was open.
    fn run(&mut self, creep: &mut Creep, room: &Room) -> (done: Result<Option<Intent>, Failure>)
        ensures
            final(self).wf(),
            final(self)@ == sources_after(old(self)@, *old(creep)),
            *final(creep) == creep_after(old(self)@, *old(creep)),
            done == outcome(old(self)@, *old(creep)),
    {
        let ghost before = self@;
        let mut held: Option<usize> = None;
        match &creep.source {
            Some(id) => {
                match self.find(id) {
                    Some(k) => {
                        if !self.sources[k].is_depleted() {
                            held = Some(k);
                        }
                    },
                    None => {
                        self.sources.push(
                            Source {
                                id: id.clone(),
                                sight: Sight::Unseen,
                                creep_limit: None,
                                counter: Some(1),
                                prev_counter: None,
                                pos: None,
                            },
                        );
                        assert(self@ =~= before.push(Source::adopted(creep.source->0)));
                        return Ok(Some(Intent::Idle));
                    },
                }
            },
            None => {},
        }
        let place: usize = match held {
            Some(k) => k,
            None => {
                let places = self.open_places();
                if places.len() == 0 {
                    return Ok(None);
                }
                let k = places[stable_slot(creep.id, places.len())];
                proof {
                    lemma_candidates(before);
                }
                creep.source = Some(self.sources[k].id.clone());
                let reserved = self.sources[k].get_counter();
                self.sources[k].prev_counter = Some(reserved + 1);
                k
            },
        };
        let tally = self.sources[place].get_tally();
        self.sources[place].counter = Some(tally + 1);
        let done = match self.sources[place].pos {
            Some(p) => {
                if creep.pos.is_near_to(&p) {
                    match self.sources[place].sight {
                        Sight::Seen { energy, pos } => Ok(
                            Some(Intent::Harvest { source: self.sources[place].id.clone() }),
                        ),
                        Sight::Unseen => Ok(Some(Intent::Idle)),
                        Sight::Fault => Err(Failure::CapabilityUnavailable),
                    }
                } else {
                    Ok(Some(Intent::Travel { to: p }))
                }
            },
            None => {
                match self.sources[place].sight {
                    Sight::Seen { energy, pos } => {
                        self.sources[place].pos = Some(pos);
                        if creep.pos.is_near_to(&pos) {
                            Ok(Some(Intent::Harvest { source: self.sources[place].id.clone() }))
                        } else {
                            Ok(Some(Intent::Travel { to: pos }))
                        }
                    },
                    Sight::Unseen => Ok(Some(Intent::Idle)),
                    Sight::Fault => Err(Failure::CapabilityUnavailable),
                }
            },
        };
        assert(self@ =~= sources_after(before, *old(creep)));
        done
    }

    fn name(&self) -> (name: &'static str)
        ensures
            name@ == "harvest"@,
    {
        "harvest"
    }
}

/// Whether no id occurs twice among the nodes.
fn all_distinct(sources: &Vec<Source>) -> (distinct: bool)
    ensures
        distinct == distinct_ids(sources@),
{
    let mut j: usize = 0;
    while j < sources.len()
        invariant
            j <= sources.len(),
            forall|a: int, b: int| 0 <= a < b < j ==> (#[trigger] sources[a]).id@ != (#[trigger] sources[b]).id@,
        decreases sources.len() - j,
    {
        let mut i: usize = 0;
        while i < j
            invariant
                i <= j < sources.len(),
                forall|a: int| 0 <= a < i ==> (#[trigger] sources[a]).id@ != sources[j as int].id@,
            decreases j - i,
        {
            if sources[i].id == sources[j].id {
                return false;
            }
            i += 1;
        }
        j += 1;
    }
    true
}

/// The slot of a list of `len` entries that a stable id falls on: the id
/// modulo the length, counted from zero also for a negative id.
pub fn stable_slot(id: i32, len: usize) -> (at: usize)
    requires
        len > 0,
    ensures
        at == slot(id as int, len as int),
        at < len,
{
    if id >= 0 {
        (id as usize) % len
    } else {
        let back: usize = ((-(id as i64)) as usize) % len;
        proof {
            let a = id as int;
            let n = len as int;
            let q = (-a) / n;
            vstd::arithmetic::div_mod::lemma_fundamental_div_mod(-a, n);
            if back == 0 {
                assert(a == (-q) * n + 0) by (nonlinear_arith)
                    requires
                        -a == n * q + back,
                        back == 0,
                ;
                vstd::arithmetic::div_mod::lemma_fundamental_div_mod_converse(a, n, -q, 0);
            } else {
                assert(a == (-q - 1) * n + (n - back)) by (nonlinear_arith)
                    requires
                        -a == n * q + back,
                ;
                vstd::arithmetic::div_mod::lemma_fundamental_div_mod_converse(
                    a,
                    n,
                    -q - 1,
                    n - back,
                );
            }
        }
        if back == 0 {
            0
        } else {
            len - back
        }
    }
}


/// At the start of a tick, the count admissions to a node are judged by is
/// what the node counted in the tick before, and its own count is zero.
pub proof fn lemma_rollover(s: Seq<Source>, i: int)
    requires
        0 <= i < s.len(),
    ensures
        rolled_over(s).len() == s.len(),
        rolled_over(s)[i].reserved() == s[i].tally(),
        rolled_over(s)[i].tally() == 0,
        rolled_over(s)[i].id == s[i].id,
        rolled_over(s)[i].limit() == s[i].limit(),
{
}

/// Running one agent grants at most one reservation, and only on a node that
/// was below its limit: a node below its limit ends at most at its limit, and
/// a node at or above its limit is left as it was. Limits do not change.
pub proof fn lemma_reservation_step(s: Seq<Source>, creep: Creep, i: int)
    requires
        distinct_ids(s),
        0 <= i < s.len(),
    ensures
        sources_after(s, creep).len() >= s.len(),
        sources_after(s, creep)[i].limit() == s[i].limit(),
        s[i].reserved() <= sources_after(s, creep)[i].reserved() <= s[i].reserved() + 1,
        s[i].reserved() < s[i].limit() ==> sources_after(s, creep)[i].reserved() <= s[i].limit(),
        s[i].reserved() >= s[i].limit() ==> sources_after(s, creep)[i].reserved() == s[i].reserved(),
{
    lemma_candidates(s);
}

/// Running one agent counts at most one more agent on any node, and a node
/// first heard of through the agent counts exactly that agent.
pub proof fn lemma_tally_step(s: Seq<Source>, creep: Creep, i: int)
    requires
        distinct_ids(s),
        forall|k: int| 0 <= k < s.len() ==> (#[trigger] s[k]).tally() < i32::MAX,
        0 <= i < sources_after(s, creep).len(),
    ensures
        s.len() <= sources_after(s, creep).len() <= s.len() + 1,
        i < s.len() ==> s[i].tally() <= sources_after(s, creep)[i].tally() <= s[i].tally() + 1,
        i >= s.len() ==> sources_after(s, creep)[i].tally() == 1,
{
    lemma_candidates(s);
}

/// An agent that is assigned a node anew gets the open node that its stable
/// id falls on. Two sets of nodes whose open nodes are the same, in the same
/// order, give agents with the same stable id the same node.
pub proof fn lemma_assignment_deterministic(a: Seq<Source>, b: Seq<Source>, x: Creep, y: Creep)
    requires
        candidate_ids(a) == candidate_ids(b),
        candidate_ids(a).len() > 0,
        x.id == y.id,
        !keeps(a, x),
        !keeps(b, y),
    ensures
        choice(a, x) is Fresh,
        choice(b, y) is Fresh,
        a[choice(a, x)->Fresh_0].id@ == candidate_ids(a)[slot(x.id as int, candidate_ids(a).len() as int)],
        a[choice(a, x)->Fresh_0].id@ == b[choice(b, y)->Fresh_0].id@,
{
    let n = candidate_ids(a).len() as int;
    let at = slot(x.id as int, n);
    vstd::arithmetic::div_mod::lemma_mod_bound(x.id as int, n);
    assert(candidate_ids(a)[at] == a[candidates(a)[at]].id@);
    assert(candidate_ids(b)[at] == b[candidates(b)[at]].id@);
}

} // verus!
