//! A persistent simulated world: a concurrent entity store for agents,
//! houses and consumable resources, a physics-body ledger, a derived
//! simulation clock with a day/night cycle, and a per-tick physiological
//! needs-decay pass.
//!
//! All scalar state is held in fixed-point integers: time in milliseconds,
//! world-space coordinates in thousandths of a unit, and need levels in
//! subunits of `NEED_POINT` per point, so that every decay step is exact.

pub mod agents;
pub mod clock;
pub mod objects;
pub mod physics;
pub mod space;
pub mod store;
pub mod world;

pub use agents::{Agent, AgentId, Inventory, Need, PhysiologicalNeeds};
pub use clock::SimulationClock;
pub use objects::{House, HouseId, Resource, ResourceAppearance, ResourceId, ResourceType};
pub use physics::{BodyTransform, PhysicsBodies};
pub use store::EntityStore;
pub use world::{World, WorldError};
