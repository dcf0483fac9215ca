use vstd::prelude::*;
use crate::traits::Part;

verus! {

/// The roles an agent can have.
#[derive(Clone, Copy, Debug, PartialEq, Eq, Structural)]
pub enum RoleKind {
    Builder,
    Harvester,
    Upgrader,
}

/// The head count of one role once every live agent was run.
#[derive(Clone, Copy, Debug, PartialEq, Eq)]
pub struct Census {
    pub role: RoleKind,
    /// Live agents of the role.
    pub run_count: i32,
    /// Most agents the role should have.
    pub limit: i32,
    /// Spawn weight: the lower, the more agents of the role overall.
    pub weight: i32,
}

impl Census {
    /// The role is short of agents.
    pub open spec fn eligible(self) -> bool {
        self.run_count < self.limit
    }

    /// The rank of the role's next agent; the lowest is made first.
    pub open spec fn priority(self) -> int {
        (self.run_count + 1) * self.weight
    }

    pub fn is_eligible(&self) -> (eligible: bool)
        ensures
            eligible == self.eligible(),
    {
        self.run_count < self.limit
    }

    pub fn spawn_priority(&self) -> (priority: i64)
        ensures
            priority == self.priority(),
    {
        let heads: i64 = self.run_count as i64 + 1;
        let weight: i64 = self.weight as i64;
        assert(-0x4000_0000_0000_0000 <= heads * weight <= 0x4000_0000_0000_0000)
            by (nonlinear_arith)
            requires
                -0x8000_0000 < heads <= 0x8000_0000,
                -0x8000_0000 <= weight < 0x8000_0000,
        ;
        heads * weight
    }
}

/// The role at place `a` is tried before the one at place `b`: it ranks
/// lower, or ranks the same and stands earlier.
pub open spec fn before(roles: Seq<Census>, a: int, b: int) -> bool {
    roles[a].priority() < roles[b].priority() || (roles[a].priority() == roles[b].priority() && a
        < b)
}

/// `order` lists the places of exactly the roles short of agents, each once,
/// by rising rank, and roles of equal rank in the order they stand in.
pub open spec fn is_spawn_order(roles: Seq<Census>, order: Seq<usize>) -> bool {
    &&& forall|j: int|
        0 <= j < order.len() ==> (#[trigger] order[j]) < roles.len() && roles[order[j] as int].eligible()
    &&& forall|i: int|
        0 <= i < roles.len() && (#[trigger] roles[i]).eligible() ==> exists|j: int|
            0 <= j < order.len() && #[trigger] order[j] == i
    &&& forall|j: int, k: int|
        0 <= j < k < order.len() ==> before(roles, (#[trigger] order[j]) as int, (#[trigger] order[k]) as int)
}

/// The order in which roles are tried for the next agent.
pub fn spawn_order(roles: &Vec<Census>) -> (order: Vec<usize>)
    ensures
        is_spawn_order(roles@, order@),
{
    let mut order: Vec<usize> = Vec::new();
    let mut i: usize = 0;
    while i < roles.len()
        invariant
            i <= roles.len(),
            forall|j: int|
                0 <= j < order.len() ==> (#[trigger] order[j]) < i && roles[order[j] as int].eligible(),
            forall|k: int|
                0 <= k < i && (#[trigger] roles[k]).eligible() ==> exists|j: int|
                    0 <= j < order.len() && #[trigger] order[j] == k,
            forall|j: int, k: int|
                0 <= j < k < order.len() ==> before(
                    roles@,
                    (#[trigger] order[j]) as int,
                    (#[trigger] order[k]) as int,
                ),
        decreases roles.len() - i,
    {
        if roles[i].is_eligible() {
            let rank = roles[i].spawn_priority();
            let mut at: usize = 0;
            while at < order.len() && roles[order[at]].spawn_priority() <= rank
                invariant
                    at <= order.len(),
                    i < roles.len(),
                    rank == roles[i as int].priority(),
                    forall|j: int| 0 <= j < order.len() ==> (#[trigger] order[j]) < i,
                    forall|j: int|
                        0 <= j < at ==> roles[(#[trigger] order[j]) as int].priority() <= rank,
                decreases order.len() - at,
            {
                at += 1;
            }
            let ghost old_order = order@;
            order.insert(at, i);
            proof {
                let new_order = order@;
                assert forall|j: int| 0 <= j < new_order.len() implies (#[trigger] new_order[j])
                    < i + 1 && roles[new_order[j] as int].eligible() by {
                    if j < at {
                        assert(new_order[j] == old_order[j]);
                    } else if j > at {
                        assert(new_order[j] == old_order[j - 1]);
                    }
                }
                assert forall|k: int| 0 <= k < i + 1 && (#[trigger] roles[k]).eligible() implies exists|
                    j: int,
                | 0 <= j < new_order.len() && #[trigger] new_order[j] == k by {
                    if k == i {
                        assert(new_order[at as int] == k);
                    } else {
                        let j0 = choose|j: int| 0 <= j < old_order.len() && #[trigger] old_order[j] == k;
                        if j0 < at {
                            assert(new_order[j0] == k);
                        } else {
                            assert(new_order[j0 + 1] == k);
                        }
                    }
                }
                assert forall|j: int, k: int| 0 <= j < k < new_order.len() implies before(
                    roles@,
                    (#[trigger] new_order[j]) as int,
                    (#[trigger] new_order[k]) as int,
                ) by {
                    let oj = if j < at { j } else { j - 1 };
                    let ok = if k < at { k } else { k - 1 };
                    if j != at {
                        assert(new_order[j] == old_order[oj]);
                    }
                    if k != at {
                        assert(new_order[k] == old_order[ok]);
                    }
                    if j != at && k != at {
                        assert(before(roles@, old_order[oj] as int, old_order[ok] as int));
                    } else if j == at {
                        // Everything from `at` on ranks above the newcomer.
                        if at < old_order.len() && ok > at {
                            assert(before(roles@, old_order[at as int] as int, old_order[ok] as int));
                        }
                    }
                }
            }
        }
        i += 1;
    }
    order
}


/// The walk over the spawn order within one tick. The factory makes one agent
/// at a time, so the walk ends with the first role whose agent it accepts.
#[derive(Debug)]
pub struct Spawner {
    order: Vec<usize>,
    cursor: usize,
    next_id: i32,
    done: bool,
}

impl Spawner {
    /// The places of the roles to try, in order.
    pub closed spec fn order(self) -> Seq<usize> {
        self.order@
    }

    /// How many roles were tried and refused so far.
    pub closed spec fn cursor(self) -> int {
        self.cursor as int
    }

    /// The stable id the next agent gets.
    pub closed spec fn next_id(self) -> int {
        self.next_id as int
    }

    /// An agent was made in this walk.
    pub closed spec fn done(self) -> bool {
        self.done
    }

    /// The place of the role to try now, if the walk goes on.
    pub open spec fn pending(self) -> Option<usize> {
        if !self.done() && 0 <= self.cursor() < self.order().len() {
            Some(self.order()[self.cursor()])
        } else {
            None
        }
    }

    /// Plans the walk for this tick from the head counts and the next free
    /// id. A factory that is busy is not asked for anything.
    pub fn plan(roles: &Vec<Census>, next_id: i32, idle: bool) -> (walk: Spawner)
        ensures
            walk.cursor() == 0,
            !walk.done(),
            walk.next_id() == next_id,
            idle ==> is_spawn_order(roles@, walk.order()),
            !idle ==> walk.order().len() == 0,
    {
        let order = if idle {
            spawn_order(roles)
        } else {
            Vec::new()
        };
        Spawner { order, cursor: 0, next_id, done: false }
    }

    pub fn current(&self) -> (place: Option<usize>)
        ensures
            place == self.pending(),
    {
        if !self.done && self.cursor < self.order.len() {
            Some(self.order[self.cursor])
        } else {
            None
        }
    }

    /// The id for the agent asked for now; after the walk, the next free id.
    pub fn id(&self) -> (id: i32)
        ensures
            id == self.next_id(),
    {
        self.next_id
    }

    pub fn is_done(&self) -> (done: bool)
        ensures
            done == self.done(),
    {
        self.done
    }

    /// Takes the factory's answer for the role tried now. An accepted agent
    /// uses up the id and ends the walk; a refused one moves the walk to the
    /// next role, and the refused role is not tried again.
    pub fn settle(&mut self, accepted: bool)
        requires
            old(self).pending() is Some,
            accepted ==> old(self).next_id() < i32::MAX,
        ensures
            final(self).order() == old(self).order(),
            accepted ==> final(self).done() && final(self).next_id() == old(self).next_id() + 1
                && final(self).cursor() == old(self).cursor() && final(self).pending() is None,
            !accepted ==> !final(self).done() && final(self).next_id() == old(self).next_id()
                && final(self).cursor() == old(self).cursor() + 1,
    {
        if accepted {
            self.next_id = self.next_id + 1;
            self.done = true;
        } else {
            let len = self.order.len();
            assert(self.cursor < len);
            self.cursor = self.cursor + 1;
        }
    }
}


/// Two spawn orders of the same head counts agree on their first `n` places.
proof fn lemma_orders_agree(roles: Seq<Census>, a: Seq<usize>, b: Seq<usize>, n: nat)
    requires
        is_spawn_order(roles, a),
        is_spawn_order(roles, b),
        n <= a.len(),
        n <= b.len(),
    ensures
        forall|i: int| 0 <= i < n ==> a[i] == b[i],
    decreases n,
{
    if n > 0 {
        lemma_orders_agree(roles, a, b, (n - 1) as nat);
        let j = n - 1;
        assert(roles[a[j] as int].eligible());
        let k = choose|k: int| 0 <= k < b.len() && #[trigger] b[k] == a[j];
        assert(roles[b[j] as int].eligible());
        let m = choose|m: int| 0 <= m < a.len() && #[trigger] a[m] == b[j];
        if k < j {
            assert(before(roles, a[k] as int, a[j] as int));
        } else if m < j {
            assert(before(roles, b[m] as int, b[j] as int));
        } else if k > j && m > j {
            assert(before(roles, b[j] as int, b[k] as int));
            assert(before(roles, a[j] as int, a[m] as int));
        }
    }
}

/// The head counts decide the spawn order: there is only one.
pub proof fn lemma_spawn_order_unique(roles: Seq<Census>, a: Seq<usize>, b: Seq<usize>)
    requires
        is_spawn_order(roles, a),
        is_spawn_order(roles, b),
    ensures
        a == b,
{
    let n = if a.len() <= b.len() { a.len() } else { b.len() };
    lemma_orders_agree(roles, a, b, n);
    if a.len() < b.len() {
        assert(roles[b[n as int] as int].eligible());
        let m = choose|m: int| 0 <= m < a.len() && #[trigger] a[m] == b[n as int];
        assert(before(roles, b[m] as int, b[n as int] as int));
    } else if b.len() < a.len() {
        assert(roles[a[n as int] as int].eligible());
        let m = choose|m: int| 0 <= m < b.len() && #[trigger] b[m] == a[n as int];
        assert(before(roles, a[m] as int, a[n as int] as int));
    }
    assert(a =~= b);
}

/// A role that is short of agents and ranks strictly lower than another is
/// tried before it.
pub proof fn lemma_lower_rank_first(roles: Seq<Census>, order: Seq<usize>, j: int, k: int)
    requires
        is_spawn_order(roles, order),
        0 <= j < order.len(),
        0 <= k < order.len(),
        roles[order[j] as int].priority() < roles[order[k] as int].priority(),
    ensures
        j < k,
{
    if k < j {
        assert(before(roles, order[k] as int, order[j] as int));
    }
}

} // verus!
