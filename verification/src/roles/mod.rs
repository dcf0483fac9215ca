pub mod builder;
pub mod engine;
pub mod harvester;
pub mod upgrader;
