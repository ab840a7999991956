//! What can be wrong with an association.

use crate::identifier::{ActorId, UseCaseId};
use vstd::prelude::*;
use vstd::string::*;

verus! {

/// An error that describes an invalid association.
#[derive(Clone, Copy, Debug, PartialEq, Eq, Structural)]
pub enum AssociationError {
    /// The association refers to a nonexistent actor.
    NonexistentActor(ActorId),
    /// The association refers to a nonexistent use case.
    NonexistentUseCase(UseCaseId),
}

impl AssociationError {
    /// What is wrong, without the identifier.
    pub open spec fn description_text(self) -> Seq<char> {
        match self {
            AssociationError::NonexistentActor(_) => "invalid association: nonexistent actor"@,
            AssociationError::NonexistentUseCase(_) => "invalid association: nonexistent use case"@,
        }
    }

    /// The full message: the description, a space, and the identifier that
    /// names nothing.
    pub open spec fn message_text(self) -> Seq<char> {
        match self {
            AssociationError::NonexistentActor(actor_id) => self.description_text() + " "@
                + actor_id.text(),
            AssociationError::NonexistentUseCase(use_case_id) => self.description_text() + " "@
                + use_case_id.text(),
        }
    }

    /// A short description of the kind of error.
    pub fn description(&self) -> (text: &'static str)
        ensures
            text@ == self.description_text(),
    {
        match self {
            AssociationError::NonexistentActor(_) => "invalid association: nonexistent actor",
            AssociationError::NonexistentUseCase(_) => "invalid association: nonexistent use case",
        }
    }

    /// The message that displays this error.
    pub fn to_string(&self) -> (message: String)
        ensures
            message@ == self.message_text(),
    {
        let mut message = String::from_str(self.description());
        message.append(" ");
        match self {
            AssociationError::NonexistentActor(actor_id) => {
                let shown = actor_id.to_string();
                message.append(shown.as_str());
            },
            AssociationError::NonexistentUseCase(use_case_id) => {
                let shown = use_case_id.to_string();
                message.append(shown.as_str());
            },
        }
        message
    }
}

} // verus!
