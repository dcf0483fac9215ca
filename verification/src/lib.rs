//! Decisions for a colony of agents that is run once per tick of a simulated
//! world: what each agent does, which agent is made next, and what each
//! defense structure attacks and repairs.
//!
//! The library reads and writes plain values only. Whoever calls it looks at
//! the world and at the persistent store, hands over what was seen, and
//! carries out what comes back.

pub mod military;
pub mod position;
pub mod roles;
pub mod spawn;
pub mod tasks;
pub mod tick;
pub mod traits;
pub mod world;
