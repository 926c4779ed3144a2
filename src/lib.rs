//! A preprocessor for map scripts: it strips comments, condenses whitespace,
//! expands macro directives and repeat blocks, duplicates per-player objects,
//! lifts inline random ranges into labelled random blocks and resolves
//! symbolic actor-area names.
//!
//! [`pipeline`] runs the passes in their order; each pass has a module of its
//! own, and the macro catalog lives in [`actorgen`], [`landgen`] and
//! [`circlegen`].

pub mod actor_areas;
pub mod actorgen;
pub mod circlegen;
pub mod comments;
pub mod error;
pub mod landgen;
pub mod macros;
pub mod objects;
pub mod pipeline;
pub mod random;
pub mod repeat;
pub mod template;
pub mod text;
pub mod whitespace;
