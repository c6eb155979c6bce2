//! A verified entity cache: a state-projection engine that consumes discrete
//! change events describing mutations to an entity graph (users, guilds,
//! channels, members, roles, emoji, presences, voice states, messages,
//! attachments) and projects each event into per-entity-kind repositories.
//!
//! The repositories form a uniform storage contract (`get`, `upsert`,
//! `upsert_bulk`, `remove`, plus relationship listings); the projector maps
//! each event variant to the repository calls that realize its effect,
//! including merge-before-write for partial updates and cascades for
//! structural deletes.

pub mod attr;
pub mod cache;
pub mod color;
pub mod entity;
pub mod events;
pub mod executor;
pub mod keyed;
pub mod laws;
pub mod project;
pub mod repo;
