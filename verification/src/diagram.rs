//! The diagram itself: the one owner of its actors, use cases and
//! associations, and the one place where they change.

use crate::entity::{Actor, UseCase};
use crate::error::AssociationError;
use crate::identifier::{ActorId, UseCaseId};
use crate::model::{lemma_with_actor, lemma_with_association, lemma_with_use_case, DiagramView};
use vstd::prelude::*;

verus! {

/// A use case diagram is a graph containing actors, use cases, and
/// associations.
///
/// Entries are kept in the order of their insertion, so that an identifier
/// is a position and every walk over the diagram takes the same course.
#[derive(Debug)]
pub struct UseCaseDiagram {
    actors: Vec<Actor>,
    use_cases: Vec<UseCase>,
    associations: Vec<(ActorId, UseCaseId)>,
}

impl View for UseCaseDiagram {
    type V = DiagramView;

    closed spec fn view(&self) -> DiagramView {
        DiagramView {
            actors: self.actors@.map_values(|actor: Actor| actor@),
            use_cases: self.use_cases@.map_values(|use_case: UseCase| use_case@),
            associations: self.associations@,
        }
    }
}

impl Clone for UseCaseDiagram {
    /// A diagram of its own with the same contents.
    fn clone(&self) -> (copy: Self)
        ensures
            copy@ == self@,
    {
        proof {
            use_type_invariant(self);
        }
        let mut actors: Vec<Actor> = Vec::new();
        let mut i: usize = 0;
        while i < self.actors.len()
            invariant
                i <= self.actors.len(),
                actors@.len() == i,
                forall|j: int| 0 <= j < i ==> (#[trigger] actors@[j])@ == self.actors@[j]@,
            decreases self.actors.len() - i,
        {
            actors.push(self.actors[i].clone());
            i += 1;
        }
        let mut use_cases: Vec<UseCase> = Vec::new();
        let mut i: usize = 0;
        while i < self.use_cases.len()
            invariant
                i <= self.use_cases.len(),
                use_cases@.len() == i,
                forall|j: int| 0 <= j < i ==> (#[trigger] use_cases@[j])@ == self.use_cases@[j]@,
            decreases self.use_cases.len() - i,
        {
            use_cases.push(self.use_cases[i].clone());
            i += 1;
        }
        let associations = self.associations();
        let ghost copy = UseCaseDiagram { actors, use_cases, associations };
        assert(copy@.actors =~= self@.actors);
        assert(copy@.use_cases =~= self@.use_cases);
        UseCaseDiagram { actors, use_cases, associations }
    }
}

impl UseCaseDiagram {
    /// Holds of every diagram at every moment: no function of this module
    /// can make or leave one of which it does not.
    #[verifier::type_invariant]
    spec fn valid(&self) -> bool {
        self@.well_formed()
    }

    /// A new use case diagram with no actors and no use cases.
    pub fn new() -> (diagram: Self)
        ensures
            diagram@ == DiagramView::empty(),
            diagram@.well_formed(),
    {
        let diagram = UseCaseDiagram {
            actors: Vec::new(),
            use_cases: Vec::new(),
            associations: Vec::new(),
        };
        assert(diagram@.actors =~= Seq::empty());
        assert(diagram@.use_cases =~= Seq::empty());
        diagram
    }

    /// The identifier that the next actor will get.
    fn next_actor_id(&self) -> (actor_id: ActorId)
        ensures
            actor_id.0 == self@.actors.len(),
            !self@.has_actor(actor_id),
    {
        ActorId(self.actors.len())
    }

    /// The identifier that the next use case will get.
    fn next_use_case_id(&self) -> (use_case_id: UseCaseId)
        ensures
            use_case_id.0 == self@.use_cases.len(),
            !self@.has_use_case(use_case_id),
    {
        UseCaseId(self.use_cases.len())
    }

    /// Get the actor with the given identifier.
    pub fn actor(&self, actor_id: ActorId) -> (found: Option<&Actor>)
        ensures
            match found {
                Some(actor) => self@.has_actor(actor_id) && actor@ == self@.actor_name(actor_id),
                None => !self@.has_actor(actor_id),
            },
    {
        if actor_id.0 < self.actors.len() {
            Some(&self.actors[actor_id.0])
        } else {
            None
        }
    }

    /// Get the use case with the given identifier.
    pub fn use_case(&self, use_case_id: UseCaseId) -> (found: Option<&UseCase>)
        ensures
            match found {
                Some(use_case) => self@.has_use_case(use_case_id) && use_case@
                    == self@.use_case_title(use_case_id),
                None => !self@.has_use_case(use_case_id),
            },
    {
        if use_case_id.0 < self.use_cases.len() {
            Some(&self.use_cases[use_case_id.0])
        } else {
            None
        }
    }

    /// All actors in this use case diagram, each with its identifier, in the
    /// order of the identifiers.
    pub fn actors(&self) -> (all: Vec<(ActorId, &Actor)>)
        ensures
            all@.len() == self@.actors.len(),
            forall|i: int|
                0 <= i < all@.len() ==> (#[trigger] all@[i]).0 == ActorId(i as usize) && all@[i].1@
                    == self@.actors[i],
    {
        let mut all: Vec<(ActorId, &Actor)> = Vec::new();
        let mut i: usize = 0;
        while i < self.actors.len()
            invariant
                i <= self.actors.len(),
                all@.len() == i,
                forall|j: int|
                    0 <= j < i ==> (#[trigger] all@[j]).0 == ActorId(j as usize) && *all@[j].1
                        == self.actors@[j],
            decreases self.actors.len() - i,
        {
            all.push((ActorId(i), &self.actors[i]));
            i += 1;
        }
        all
    }

    /// All use cases in this use case diagram, each with its identifier, in
    /// the order of the identifiers.
    pub fn use_cases(&self) -> (all: Vec<(UseCaseId, &UseCase)>)
        ensures
            all@.len() == self@.use_cases.len(),
            forall|i: int|
                0 <= i < all@.len() ==> (#[trigger] all@[i]).0 == UseCaseId(i as usize)
                    && all@[i].1@ == self@.use_cases[i],
    {
        let mut all: Vec<(UseCaseId, &UseCase)> = Vec::new();
        let mut i: usize = 0;
        while i < self.use_cases.len()
            invariant
                i <= self.use_cases.len(),
                all@.len() == i,
                forall|j: int|
                    0 <= j < i ==> (#[trigger] all@[j]).0 == UseCaseId(j as usize) && *all@[j].1
                        == self.use_cases@[j],
            decreases self.use_cases.len() - i,
        {
            all.push((UseCaseId(i), &self.use_cases[i]));
            i += 1;
        }
        all
    }

    /// All associations in this use case diagram, each once, oldest first.
    pub fn associations(&self) -> (all: Vec<(ActorId, UseCaseId)>)
        ensures
            all@ == self@.associations,
            all@.no_duplicates(),
    {
        proof {
            use_type_invariant(self);
        }
        let mut all: Vec<(ActorId, UseCaseId)> = Vec::new();
        let mut i: usize = 0;
        while i < self.associations.len()
            invariant
                i <= self.associations.len(),
                all@ == self.associations@.take(i as int),
            decreases self.associations.len() - i,
        {
            all.push(self.associations[i]);
            assert(self.associations@.take(i + 1) =~= self.associations@.take(i as int).push(
                self.associations@[i as int],
            ));
            i += 1;
        }
        assert(self.associations@.take(i as int) =~= self.associations@);
        all
    }

    /// Whether the pair is among the associations.
    fn is_associated(&self, actor_id: ActorId, use_case_id: UseCaseId) -> (found: bool)
        ensures
            found == self@.has_association(actor_id, use_case_id),
    {
        let mut i: usize = 0;
        while i < self.associations.len()
            invariant
                i <= self.associations.len(),
                forall|j: int| 0 <= j < i ==> self.associations@[j] != (actor_id, use_case_id),
            decreases self.associations.len() - i,
        {
            let (a, u) = self.associations[i];
            if a == actor_id && u == use_case_id {
                assert(self.associations@[i as int] == (actor_id, use_case_id));
                return true;
            }
            i += 1;
        }
        false
    }

    /// Insert a new actor, returning its identifier.
    ///
    /// The identifier is the number of actors inserted before, so it was
    /// never given out; nothing else in the diagram changes.
    pub fn insert_actor(&mut self, actor: Actor) -> (actor_id: ActorId)
        ensures
            actor_id.0 == old(self)@.actors.len(),
            !old(self)@.has_actor(actor_id),
            final(self)@ == old(self)@.with_actor(actor@),
            final(self)@.well_formed(),
    {
        proof {
            use_type_invariant(&*self);
            lemma_with_actor(self@, actor@);
        }
        let actor_id = self.next_actor_id();
        let mut taken = UseCaseDiagram::new();
        std::mem::swap(self, &mut taken);
        let UseCaseDiagram { mut actors, use_cases, associations } = taken;
        actors.push(actor);
        let ghost after = UseCaseDiagram { actors, use_cases, associations };
        assert(after@.actors =~= old(self)@.actors.push(actor@));
        *self = UseCaseDiagram { actors, use_cases, associations };
        self.assert_invariants();
        actor_id
    }

    /// Insert a new use case, returning its identifier.
    ///
    /// The identifier is the number of use cases inserted before, so it was
    /// never given out; nothing else in the diagram changes.
    pub fn insert_use_case(&mut self, use_case: UseCase) -> (use_case_id: UseCaseId)
        ensures
            use_case_id.0 == old(self)@.use_cases.len(),
            !old(self)@.has_use_case(use_case_id),
            final(self)@ == old(self)@.with_use_case(use_case@),
            final(self)@.well_formed(),
    {
        proof {
            use_type_invariant(&*self);
            lemma_with_use_case(self@, use_case@);
        }
        let use_case_id = self.next_use_case_id();
        let mut taken = UseCaseDiagram::new();
        std::mem::swap(self, &mut taken);
        let UseCaseDiagram { actors, mut use_cases, associations } = taken;
        use_cases.push(use_case);
        let ghost after = UseCaseDiagram { actors, use_cases, associations };
        assert(after@.use_cases =~= old(self)@.use_cases.push(use_case@));
        *self = UseCaseDiagram { actors, use_cases, associations };
        self.assert_invariants();
        use_case_id
    }

    /// Insert a new association. Return an error if either the actor or the
    /// use case does not exist; an unknown actor is reported first. On an
    /// error, and where the pair is associated already, the diagram stays as
    /// it is.
    pub fn insert_association(&mut self, actor_id: ActorId, use_case_id: UseCaseId) -> (result:
        Result<(), AssociationError>)
        ensures
            result == match old(self)@.association_error(actor_id, use_case_id) {
                Some(error) => Err::<(), AssociationError>(error),
                None => Ok(()),
            },
            result is Ok <==> old(self)@.has_actor(actor_id) && old(self)@.has_use_case(use_case_id),
            result is Ok <==> final(self)@.has_association(actor_id, use_case_id),
            result is Err ==> final(self)@ == old(self)@,
            final(self)@ == old(self)@.with_association(actor_id, use_case_id),
            final(self)@.well_formed(),
    {
        proof {
            use_type_invariant(&*self);
            lemma_with_association(self@, actor_id, use_case_id);
        }
        if actor_id.0 >= self.actors.len() {
            return Err(AssociationError::NonexistentActor(actor_id));
        }
        if use_case_id.0 >= self.use_cases.len() {
            return Err(AssociationError::NonexistentUseCase(use_case_id));
        }
        if !self.is_associated(actor_id, use_case_id) {
            let mut taken = UseCaseDiagram::new();
            std::mem::swap(self, &mut taken);
            let UseCaseDiagram { actors, use_cases, mut associations } = taken;
            associations.push((actor_id, use_case_id));
            *self = UseCaseDiagram { actors, use_cases, associations };
        }
        self.assert_invariants();
        Ok(())
    }

    /// Every association of a diagram refers to an actor and a use case of
    /// that diagram, and none stands twice. This holds of any diagram at any
    /// time, and needs no test when the program runs.
    pub fn assert_invariants(&self)
        ensures
            self@.well_formed(),
    {
        proof {
            use_type_invariant(self);
        }
    }
}

} // verus!
