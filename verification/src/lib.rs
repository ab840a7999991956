//! Use case diagrams: actors, use cases and the associations between them,
//! and the rendering of a diagram as the source text of a portal.

pub mod code_generation;
pub mod decimal;
pub mod diagram;
pub mod entity;
pub mod error;
pub mod history;
pub mod identifier;
pub mod model;
pub mod portal;

pub use crate::diagram::UseCaseDiagram;
pub use crate::entity::{Actor, UseCase};
pub use crate::error::AssociationError;
pub use crate::identifier::{ActorId, UseCaseId};
