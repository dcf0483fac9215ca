use vstd::prelude::*;
use crate::position::Position;

verus! {

/// Why a decision could not be carried through for one agent, structure or
/// store entry. None of these ends the tick.
#[derive(Clone, Copy, Debug, PartialEq, Eq, Structural)]
pub enum Failure {
    /// Every task of an acting agent's chain declined.
    AllTasksFailed,
    /// Something the decision needed from the world could not be resolved.
    CapabilityUnavailable,
    /// The persisted state handed in does not form a usable dictionary.
    StoreAccessError,
    /// An agent names a role that does not exist.
    UnknownRole,
    /// A command asked for a failure.
    Requested,
}

/// What the world showed of an entity when it was looked up this tick.
#[derive(Clone, Copy, Debug, PartialEq, Eq)]
pub enum Sight {
    /// The entity is not observable right now.
    Unseen,
    /// The entity was resolved: what it holds and where it stands.
    Seen { energy: u32, pos: Position },
    /// The lookup itself failed.
    Fault,
}

/// A level together with the most it can reach.
#[derive(Clone, Copy, Debug, PartialEq, Eq, Structural)]
pub struct Gauge {
    pub level: u32,
    pub full: u32,
}

impl Gauge {
    /// Below its maximum.
    pub open spec fn lacking(self) -> bool {
        self.level < self.full
    }

    pub fn is_lacking(&self) -> (lacking: bool)
        ensures
            lacking == self.lacking(),
    {
        self.level < self.full
    }
}

/// A structure of a zone, as far as decisions read it.
#[derive(Clone, Debug, PartialEq, Eq)]
pub struct Structure {
    pub id: String,
    /// Durability, for structures that can be damaged.
    pub hits: Option<Gauge>,
    /// Stored energy, for structures that accept deposits.
    pub energy: Option<Gauge>,
}

impl Structure {
    /// Damaged: it has durability and that is below its maximum.
    pub open spec fn damaged(self) -> bool {
        self.hits matches Some(g) && g.lacking()
    }

    /// Accepts a deposit: it stores energy and is not full.
    pub open spec fn wants_energy(self) -> bool {
        self.energy matches Some(g) && g.lacking()
    }

    pub fn is_damaged(&self) -> (damaged: bool)
        ensures
            damaged == self.damaged(),
    {
        match &self.hits {
            Some(g) => g.is_lacking(),
            None => false,
        }
    }

    pub fn is_wanting_energy(&self) -> (wanting: bool)
        ensures
            wanting == self.wants_energy(),
    {
        match &self.energy {
            Some(g) => g.is_lacking(),
            None => false,
        }
    }
}

/// The zone an agent stands in, as observed this tick.
#[derive(Clone, Debug, PartialEq, Eq)]
pub struct Room {
    /// Construction sites, in the order the world lists them.
    pub construction_sites: Vec<String>,
    /// Structures, in the order the world lists them.
    pub structures: Vec<Structure>,
    /// The objective structure of the zone, if it has one.
    pub controller: Option<String>,
}

/// A live agent: what the world shows of it and what is persisted for it.
#[derive(Clone, Debug, PartialEq, Eq)]
pub struct Creep {
    pub name: String,
    /// Stable identifier, handed out once when the agent was made.
    pub id: i32,
    pub energy: u32,
    pub carry_capacity: u32,
    /// Persisted mode: gathering (`true`) or acting.
    pub harvesting: bool,
    /// Persisted id of the node this agent gathers from.
    pub source: Option<String>,
    pub pos: Position,
}

/// How the world answered an action.
#[derive(Clone, Copy, Debug, PartialEq, Eq, Structural)]
pub enum Status {
    Done,
    NotInRange,
    Refused,
}

/// The one action decided for an agent this tick.
#[derive(Clone, Debug, PartialEq, Eq)]
pub enum Intent {
    /// Gather from the node with this id.
    Harvest { source: String },
    /// Move toward a tile.
    Travel { to: Position },
    /// Construct at the site with this id.
    Build { site: String },
    /// Deposit everything carried into the structure with this id.
    Transfer { target: String },
    /// Advance the objective structure with this id.
    Upgrade { controller: String },
    /// Handled, with nothing to do this tick.
    Idle,
}

impl Intent {
    /// The entity an action is aimed at, for the actions that have one and
    /// can be out of range of it.
    pub open spec fn goal(self) -> Option<String> {
        match self {
            Intent::Build { site } => Some(site),
            Intent::Transfer { target } => Some(target),
            Intent::Upgrade { controller } => Some(controller),
            _ => None,
        }
    }

    /// Whom to move toward after the world answered `status`: the goal of the
    /// action, exactly when the answer was "not in range".
    pub open spec fn pursuit(self, status: Status) -> Option<String> {
        if status == Status::NotInRange {
            self.goal()
        } else {
            None
        }
    }

    pub fn follow_up(&self, status: Status) -> (target: Option<String>)
        ensures
            target == self.pursuit(status),
    {
        match status {
            Status::NotInRange => match self {
                Intent::Build { site } => Some(site.clone()),
                Intent::Transfer { target } => Some(target.clone()),
                Intent::Upgrade { controller } => Some(controller.clone()),
                _ => None,
            },
            _ => None,
        }
    }
}

} // verus!
