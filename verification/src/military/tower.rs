use vstd::prelude::*;
use crate::world::{Failure, Gauge, Structure};

verus! {

/// What the world shows around one defense structure this tick.
#[derive(Clone, Debug, PartialEq, Eq)]
pub struct TowerSight {
    /// The remembered target still resolves to a live entity.
    pub target_alive: bool,
    /// The hostile entity nearest to the structure, if there is one.
    pub nearest_hostile: Option<String>,
    /// The durability of the remembered repair job, where the job still
    /// resolves to a structure that has durability.
    pub job_hits: Option<Gauge>,
    /// The structures of the zone, in the order the world lists them.
    pub structures: Vec<Structure>,
}

/// One tracked defense structure: what is persisted for it, and what was seen
/// around it this tick. A structure whose id no longer resolves has no sight.
#[derive(Clone, Debug, PartialEq, Eq)]
pub struct TowerMemory {
    pub id: String,
    /// Persisted id of the entity under attack.
    pub target: Option<String>,
    /// Persisted id of the structure under repair.
    pub job: Option<String>,
    pub sight: Option<TowerSight>,
}

/// What one defense structure does this tick.
#[derive(Clone, Debug, PartialEq, Eq)]
pub struct Orders {
    pub tower: String,
    pub attack: Option<String>,
    pub repair: Option<String>,
}

/// The place of the first damaged structure, or the length of the list where
/// none is damaged.
pub open spec fn first_damaged(s: Seq<Structure>) -> int
    decreases s.len(),
{
    if s.len() == 0 {
        0
    } else if s[0].damaged() {
        0
    } else {
        1 + first_damaged(s.skip(1))
    }
}

/// `first_damaged` is the least place of a damaged structure.
pub proof fn lemma_first_damaged(s: Seq<Structure>)
    ensures
        0 <= first_damaged(s) <= s.len(),
        first_damaged(s) < s.len() ==> s[first_damaged(s)].damaged(),
        forall|i: int| 0 <= i < first_damaged(s) ==> !(#[trigger] s[i]).damaged(),
    decreases s.len(),
{
    if s.len() > 0 && !s[0].damaged() {
        let t = s.skip(1);
        lemma_first_damaged(t);
        assert forall|i: int| 0 <= i < first_damaged(s) implies !(#[trigger] s[i]).damaged() by {
            if i > 0 {
                assert(s[i] == t[i - 1]);
            }
        }
    }
}

/// A place before which nothing is damaged, and which is damaged or ends the
/// list, is `first_damaged`.
pub proof fn lemma_first_damaged_is(s: Seq<Structure>, k: int)
    requires
        0 <= k <= s.len(),
        forall|i: int| 0 <= i < k ==> !(#[trigger] s[i]).damaged(),
        k < s.len() ==> s[k].damaged(),
    ensures
        first_damaged(s) == k,
{
    lemma_first_damaged(s);
    let f = first_damaged(s);
    if f < k {
        assert(!s[f].damaged());
    } else if k < f {
        assert(s[k].damaged());
    }
}

/// The target to attack: the remembered one while it lives, else the nearest
/// hostile entity, else none.
pub open spec fn target_next(target: Option<String>, sight: TowerSight) -> Option<String> {
    if target is Some && sight.target_alive {
        target
    } else {
        sight.nearest_hostile
    }
}

/// The remembered job is still worth repairing: it resolves and is below its
/// full durability.
pub open spec fn job_holds(job: Option<String>, sight: TowerSight) -> bool {
    &&& job is Some
    &&& sight.job_hits matches Some(g)
    &&& g.lacking()
}

/// The structure to repair: the remembered one while it is damaged, else the
/// first damaged structure of the zone, else none.
pub open spec fn job_next(job: Option<String>, sight: TowerSight) -> Option<String> {
    if job_holds(job, sight) {
        job
    } else if first_damaged(sight.structures@) < sight.structures@.len() {
        Some(sight.structures@[first_damaged(sight.structures@)].id)
    } else {
        None
    }
}

/// The structures that are still there, in their order.
pub open spec fn standing(s: Seq<TowerMemory>) -> Seq<TowerMemory>
    decreases s.len(),
{
    if s.len() == 0 {
        Seq::empty()
    } else if s.last().sight is Some {
        standing(s.drop_last()).push(s.last())
    } else {
        standing(s.drop_last())
    }
}

/// What is persisted for a structure after it was run.
pub open spec fn ran(t: TowerMemory) -> TowerMemory {
    TowerMemory {
        target: target_next(t.target, t.sight->0),
        job: job_next(t.job, t.sight->0),
        ..t
    }
}

/// What a structure does, given what is persisted for it after it was run.
pub open spec fn orders_of(t: TowerMemory) -> Orders {
    Orders { tower: t.id, attack: t.target, repair: t.job }
}

/// Handles all defense structures. For each it remembers whom to attack and
/// what to repair.
#[derive(Debug)]
pub struct Tower {
    towers: Vec<TowerMemory>,
}

impl Tower {
    /// The tracked structures.
    pub closed spec fn view(self) -> Seq<TowerMemory> {
        self.towers@
    }

    pub fn new(towers: Vec<TowerMemory>) -> (handler: Tower)
        ensures
            handler@ == towers@,
    {
        Tower { towers }
    }

    /// The tracked structures with what they remember, for writing back to
    /// the store.
    pub fn towers(&self) -> (towers: &Vec<TowerMemory>)
        ensures
            towers@ == self@,
    {
        &self.towers
    }

    /// The first damaged structure of a list.
    pub fn new_job(structures: &Vec<Structure>) -> (job: Option<usize>)
        ensures
            job is Some <==> first_damaged(structures@) < structures@.len(),
            job matches Some(k) ==> k == first_damaged(structures@),
    {
        let mut i: usize = 0;
        while i < structures.len()
            invariant
                i <= structures.len(),
                forall|j: int| 0 <= j < i ==> !(#[trigger] structures@[j]).damaged(),
            decreases structures.len() - i,
        {
            if structures[i].is_damaged() {
                proof {
                    lemma_first_damaged_is(structures@, i as int);
                }
                return Some(i);
            }
            i += 1;
        }
        proof {
            lemma_first_damaged_is(structures@, i as int);
        }
        None
    }

    /// Runs one structure that is still there: each of its two memories is
    /// kept while it holds and chosen anew when it does not, and the
    /// structure attacks and repairs what it then remembers.
    pub fn run_tower(memory: &mut TowerMemory) -> (orders: Orders)
        requires
            old(memory).sight is Some,
        ensures
            *final(memory) == ran(*old(memory)),
            orders == orders_of(ran(*old(memory))),
    {
        let mut target: Option<String> = None;
        let mut job: Option<String> = None;
        match &memory.sight {
            Some(sight) => {
                let keep_target = memory.target.is_some() && sight.target_alive;
                if !keep_target {
                    target = copy_id(&sight.nearest_hostile);
                }
                let keep_job = memory.job.is_some() && match &sight.job_hits {
                    Some(g) => g.is_lacking(),
                    None => false,
                };
                if !keep_job {
                    job = match Tower::new_job(&sight.structures) {
                        Some(k) => Some(sight.structures[k].id.clone()),
                        None => None,
                    };
                }
                if !keep_target {
                    memory.target = target;
                }
                if !keep_job {
                    memory.job = job;
                }
            },
            None => {},
        }
        Orders {
            tower: memory.id.clone(),
            attack: copy_id(&memory.target),
            repair: copy_id(&memory.job),
        }
    }

    /// Runs every tracked structure once. A structure whose id no longer
    /// resolves is dropped from the tracked set; the others are run in order.
    pub fn run(&mut self) -> (orders: Result<Vec<Orders>, Failure>)
        ensures
            final(self)@ == standing(old(self)@).map_values(|t: TowerMemory| ran(t)),
            orders is Ok,
            orders matches Ok(issued) ==> issued@ == final(self)@.map_values(
                |t: TowerMemory| orders_of(t),
            ),
    {
        let ghost before = self@;
        let mut issued: Vec<Orders> = Vec::new();
        let mut kept: Vec<TowerMemory> = Vec::new();
        let mut rest: Vec<TowerMemory> = Vec::new();
        std::mem::swap(&mut self.towers, &mut rest);
        let mut i: usize = 0;
        // Each structure is taken out of `rest` in turn; an empty entry stays behind.
        while i < rest.len()
            invariant
                i <= rest.len(),
                rest@.len() == before.len(),
                forall|j: int| i <= j < rest.len() ==> #[trigger] rest@[j] == before[j],
                kept@ == standing(before.take(i as int)).map_values(|t: TowerMemory| ran(t)),
                issued@ == kept@.map_values(|t: TowerMemory| orders_of(t)),
            decreases rest.len() - i,
        {
            proof {
                assert(before.take(i + 1).drop_last() =~= before.take(i as int));
            }
            let mut slot = TowerMemory { id: String::new(), target: None, job: None, sight: None };
            std::mem::swap(&mut rest[i], &mut slot);
            if slot.sight.is_some() {
                let orders = Tower::run_tower(&mut slot);
                issued.push(orders);
                kept.push(slot);
                assert(kept@ =~= standing(before.take(i + 1)).map_values(|t: TowerMemory| ran(t)));
                assert(issued@ =~= kept@.map_values(|t: TowerMemory| orders_of(t)));
            }
            i += 1;
        }
        proof {
            assert(before.take(i as int) =~= before);
        }
        self.towers = kept;
        Ok(issued)
    }
}

/// A copy of a remembered id.
fn copy_id(id: &Option<String>) -> (copy: Option<String>)
    ensures
        copy == *id,
{
    match id {
        Some(s) => Some(s.clone()),
        None => None,
    }
}

} // verus!
