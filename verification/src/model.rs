//! The mathematical model of a use case diagram.
//!
//! A diagram is three sequences. Actors and use cases stand in the order in
//! which they were inserted, so that the identifier of an entry is its
//! position; associations stand in the order in which they were first
//! inserted. Contracts of the executable diagram speak of this model.

use crate::error::AssociationError;
use crate::identifier::{ActorId, UseCaseId};
use vstd::prelude::*;

verus! {

/// What a diagram holds.
pub struct DiagramView {
    /// The actors' names; the actor with identifier `ActorId(i)` is `actors[i]`.
    pub actors: Seq<Seq<char>>,
    /// The use cases' titles; the use case with identifier `UseCaseId(i)` is
    /// `use_cases[i]`.
    pub use_cases: Seq<Seq<char>>,
    /// The associations, each pair once, oldest first.
    pub associations: Seq<(ActorId, UseCaseId)>,
}

impl DiagramView {
    /// The diagram without actors, use cases and associations.
    pub open spec fn empty() -> DiagramView {
        DiagramView { actors: Seq::empty(), use_cases: Seq::empty(), associations: Seq::empty() }
    }

    /// Whether `actor_id` names an actor of this diagram.
    pub open spec fn has_actor(self, actor_id: ActorId) -> bool {
        actor_id.0 < self.actors.len()
    }

    /// Whether `use_case_id` names a use case of this diagram.
    pub open spec fn has_use_case(self, use_case_id: UseCaseId) -> bool {
        use_case_id.0 < self.use_cases.len()
    }

    /// Whether the diagram associates `actor_id` with `use_case_id`.
    pub open spec fn has_association(self, actor_id: ActorId, use_case_id: UseCaseId) -> bool {
        self.associations.contains((actor_id, use_case_id))
    }

    /// The name of the actor that `actor_id` names.
    pub open spec fn actor_name(self, actor_id: ActorId) -> Seq<char>
        recommends
            self.has_actor(actor_id),
    {
        self.actors[actor_id.0 as int]
    }

    /// The title of the use case that `use_case_id` names.
    pub open spec fn use_case_title(self, use_case_id: UseCaseId) -> Seq<char>
        recommends
            self.has_use_case(use_case_id),
    {
        self.use_cases[use_case_id.0 as int]
    }

    /// The actors as a mapping from identifier to name.
    pub open spec fn actor_map(self) -> Map<ActorId, Seq<char>> {
        Map::new(|actor_id: ActorId| self.has_actor(actor_id), |actor_id: ActorId| self.actor_name(actor_id))
    }

    /// The use cases as a mapping from identifier to title.
    pub open spec fn use_case_map(self) -> Map<UseCaseId, Seq<char>> {
        Map::new(
            |use_case_id: UseCaseId| self.has_use_case(use_case_id),
            |use_case_id: UseCaseId| self.use_case_title(use_case_id),
        )
    }

    /// The associations as a set of pairs.
    pub open spec fn association_set(self) -> Set<(ActorId, UseCaseId)> {
        self.associations.to_set()
    }

    /// Every association refers to an actor of the diagram.
    pub open spec fn actors_resolve(self) -> bool {
        forall|actor_id: ActorId, use_case_id: UseCaseId| #[trigger]
            self.has_association(actor_id, use_case_id) ==> self.has_actor(actor_id)
    }

    /// Every association refers to a use case of the diagram.
    pub open spec fn use_cases_resolve(self) -> bool {
        forall|actor_id: ActorId, use_case_id: UseCaseId| #[trigger]
            self.has_association(actor_id, use_case_id) ==> self.has_use_case(use_case_id)
    }

    /// The invariant of a diagram: associations refer to what exists, and no
    /// association stands twice.
    pub open spec fn well_formed(self) -> bool {
        &&& self.actors_resolve()
        &&& self.use_cases_resolve()
        &&& self.associations.no_duplicates()
    }

    /// The diagram after `name` was inserted as a new actor. The new actor's
    /// identifier is the number of actors before.
    pub open spec fn with_actor(self, name: Seq<char>) -> DiagramView {
        DiagramView { actors: self.actors.push(name), ..self }
    }

    /// The diagram after `title` was inserted as a new use case. The new use
    /// case's identifier is the number of use cases before.
    pub open spec fn with_use_case(self, title: Seq<char>) -> DiagramView {
        DiagramView { use_cases: self.use_cases.push(title), ..self }
    }

    /// Why the pair cannot be associated, if it cannot. An unknown actor is
    /// reported before an unknown use case.
    pub open spec fn association_error(self, actor_id: ActorId, use_case_id: UseCaseId) -> Option<
        AssociationError,
    > {
        if !self.has_actor(actor_id) {
            Some(AssociationError::NonexistentActor(actor_id))
        } else if !self.has_use_case(use_case_id) {
            Some(AssociationError::NonexistentUseCase(use_case_id))
        } else {
            None
        }
    }

    /// The diagram after an attempt to associate the pair: unchanged where
    /// the pair is rejected or already there, else with the pair as its
    /// newest association.
    pub open spec fn with_association(self, actor_id: ActorId, use_case_id: UseCaseId) -> DiagramView {
        if self.association_error(actor_id, use_case_id) is Some || self.has_association(
            actor_id,
            use_case_id,
        ) {
            self
        } else {
            DiagramView { associations: self.associations.push((actor_id, use_case_id)), ..self }
        }
    }
}

/// The invariant read over the mappings and the set: every pair of the set
/// of associations has its actor among the keys of the actors and its use
/// case among the keys of the use cases, and the set has as many pairs as the
/// diagram lists associations.
pub proof fn lemma_associations_resolve(diagram: DiagramView)
    requires
        diagram.well_formed(),
    ensures
        forall|pair: (ActorId, UseCaseId)| #[trigger]
            diagram.association_set().contains(pair) ==> diagram.actor_map().dom().contains(pair.0)
                && diagram.use_case_map().dom().contains(pair.1),
        diagram.association_set().finite(),
        diagram.association_set().len() == diagram.associations.len(),
{
    assert forall|pair: (ActorId, UseCaseId)| #[trigger]
        diagram.association_set().contains(pair) implies diagram.actor_map().dom().contains(pair.0)
        && diagram.use_case_map().dom().contains(pair.1) by {
        assert(diagram.has_association(pair.0, pair.1));
    }
    diagram.associations.unique_seq_to_set();
    vstd::seq_lib::seq_to_set_is_finite(diagram.associations);
}

/// Inserting an actor keeps a diagram well formed and leaves every earlier
/// identifier with the name it had.
pub proof fn lemma_with_actor(diagram: DiagramView, name: Seq<char>)
    requires
        diagram.well_formed(),
    ensures
        diagram.with_actor(name).well_formed(),
        diagram.actors.is_prefix_of(diagram.with_actor(name).actors),
        diagram.with_actor(name).actors.len() == diagram.actors.len() + 1,
        diagram.with_actor(name).actors.last() == name,
{
    let after = diagram.with_actor(name);
    assert forall|actor_id: ActorId, use_case_id: UseCaseId| #[trigger]
        after.has_association(actor_id, use_case_id) implies after.has_actor(actor_id) by {
        assert(diagram.has_association(actor_id, use_case_id));
    }
    assert forall|actor_id: ActorId, use_case_id: UseCaseId| #[trigger]
        after.has_association(actor_id, use_case_id) implies after.has_use_case(use_case_id) by {
        assert(diagram.has_association(actor_id, use_case_id));
    }
}

/// Inserting a use case keeps a diagram well formed and leaves every earlier
/// identifier with the title it had.
pub proof fn lemma_with_use_case(diagram: DiagramView, title: Seq<char>)
    requires
        diagram.well_formed(),
    ensures
        diagram.with_use_case(title).well_formed(),
        diagram.use_cases.is_prefix_of(diagram.with_use_case(title).use_cases),
        diagram.with_use_case(title).use_cases.len() == diagram.use_cases.len() + 1,
        diagram.with_use_case(title).use_cases.last() == title,
{
    let after = diagram.with_use_case(title);
    assert forall|actor_id: ActorId, use_case_id: UseCaseId| #[trigger]
        after.has_association(actor_id, use_case_id) implies after.has_actor(actor_id) by {
        assert(diagram.has_association(actor_id, use_case_id));
    }
    assert forall|actor_id: ActorId, use_case_id: UseCaseId| #[trigger]
        after.has_association(actor_id, use_case_id) implies after.has_use_case(use_case_id) by {
        assert(diagram.has_association(actor_id, use_case_id));
    }
}

/// An attempt to associate a pair keeps a diagram well formed, whatever the
/// pair; afterwards the pair is associated exactly if it was accepted or was
/// there before, and every other pair is associated exactly if it was before.
pub proof fn lemma_with_association(diagram: DiagramView, actor_id: ActorId, use_case_id: UseCaseId)
    requires
        diagram.well_formed(),
    ensures
        diagram.with_association(actor_id, use_case_id).well_formed(),
        diagram.with_association(actor_id, use_case_id).has_association(actor_id, use_case_id) <==> (
        diagram.association_error(actor_id, use_case_id) is None),
        forall|a: ActorId, u: UseCaseId|
            (a, u) != (actor_id, use_case_id) ==> (#[trigger] diagram.with_association(
                actor_id,
                use_case_id,
            ).has_association(a, u) <==> diagram.has_association(a, u)),
{
    let after = diagram.with_association(actor_id, use_case_id);
    let pair = (actor_id, use_case_id);
    if diagram.association_error(actor_id, use_case_id) is None && !diagram.has_association(
        actor_id,
        use_case_id,
    ) {
        let n = diagram.associations.len() as int;
        assert(after.associations[n] == pair);
        assert(after.has_association(actor_id, use_case_id));
        assert forall|a: ActorId, u: UseCaseId| #[trigger] after.has_association(a, u) implies (a, u)
            == pair || diagram.has_association(a, u) by {
            let i = choose|i: int| 0 <= i < after.associations.len() && after.associations[i] == (a, u);
            if i < n {
                assert(diagram.associations[i] == (a, u));
            }
        }
        assert forall|a: ActorId, u: UseCaseId| diagram.has_association(a, u) implies #[trigger]
            after.has_association(a, u) by {
            let i = choose|i: int| 0 <= i < diagram.associations.len() && diagram.associations[i] == (
                a,
                u,
            );
            assert(after.associations[i] == (a, u));
        }
    } else if diagram.has_association(actor_id, use_case_id) {
        assert(diagram.has_actor(actor_id));
        assert(diagram.has_use_case(use_case_id));
    }
}

} // verus!
