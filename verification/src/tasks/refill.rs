use vstd::prelude::*;
use crate::traits::{FlagProcessor, Task};
use crate::world::{Creep, Failure, Intent, Room, Structure};

verus! {

/// The place of the first structure that accepts a deposit, or the length of
/// the list where none does.
pub open spec fn first_wanting(s: Seq<Structure>) -> int
    decreases s.len(),
{
    if s.len() == 0 {
        0
    } else if s[0].wants_energy() {
        0
    } else {
        1 + first_wanting(s.skip(1))
    }
}

/// What the deposit task decides in a zone: deposit into the first structure
/// listed that stores energy and is not full, or nothing where there is none.
pub open spec fn refill_outcome(room: Room) -> Result<Option<Intent>, Failure> {
    let k = first_wanting(room.structures@);
    if k < room.structures@.len() {
        Ok(Some(Intent::Transfer { target: room.structures@[k].id }))
    } else {
        Ok(None)
    }
}

/// `first_wanting` is the least place of a structure that accepts a deposit.
pub proof fn lemma_first_wanting(s: Seq<Structure>)
    ensures
        0 <= first_wanting(s) <= s.len(),
        first_wanting(s) < s.len() ==> s[first_wanting(s)].wants_energy(),
        forall|i: int| 0 <= i < first_wanting(s) ==> !(#[trigger] s[i]).wants_energy(),
    decreases s.len(),
{
    if s.len() > 0 && !s[0].wants_energy() {
        let t = s.skip(1);
        lemma_first_wanting(t);
        assert forall|i: int| 0 <= i < first_wanting(s) implies !(#[trigger] s[i]).wants_energy() by {
            if i > 0 {
                assert(s[i] == t[i - 1]);
            }
        }
    }
}

/// A place before which nothing accepts a deposit, and which does or ends the
/// list, is `first_wanting`.
pub proof fn lemma_first_wanting_is(s: Seq<Structure>, k: int)
    requires
        0 <= k <= s.len(),
        forall|i: int| 0 <= i < k ==> !(#[trigger] s[i]).wants_energy(),
        k < s.len() ==> s[k].wants_energy(),
    ensures
        first_wanting(s) == k,
{
    lemma_first_wanting(s);
    let f = first_wanting(s);
    if f < k {
        assert(!s[f].wants_energy());
    } else if k < f {
        assert(s[k].wants_energy());
    }
}

/// An agent deposits what it carries into the first structure that has room.
#[derive(Clone, Copy, Debug)]
pub struct TaskRefill;

impl TaskRefill {
    pub fn new() -> TaskRefill {
        TaskRefill {  }
    }
}

impl FlagProcessor for TaskRefill {

}

impl Task for TaskRefill {
    open spec fn ready(&self) -> bool {
        true
    }

    fn run(&mut self, creep: &mut Creep, room: &Room) -> (done: Result<Option<Intent>, Failure>)
        ensures
            done == refill_outcome(*room),
            *final(creep) == *old(creep),
    {
        let mut i: usize = 0;
        while i < room.structures.len()
            invariant
                i <= room.structures.len(),
                forall|j: int| 0 <= j < i ==> !(#[trigger] room.structures@[j]).wants_energy(),
            decreases room.structures.len() - i,
        {
            if room.structures[i].is_wanting_energy() {
                proof {
                    lemma_first_wanting_is(room.structures@, i as int);
                }
                return Ok(Some(Intent::Transfer { target: room.structures[i].id.clone() }));
            }
            i += 1;
        }
        proof {
            lemma_first_wanting_is(room.structures@, i as int);
        }
        Ok(None)
    }

    fn name(&self) -> (name: &'static str)
        ensures
            name@ == "refill"@,
    {
        "refill"
    }
}

} // verus!
