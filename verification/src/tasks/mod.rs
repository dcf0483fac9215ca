pub mod construct;
pub mod harvest;
pub mod refill;
pub mod upgrade;
