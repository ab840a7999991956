//! Histories: what holds of a diagram after any sequence of insertions.
//!
//! A diagram is made empty and changes by insertions alone. A history is the
//! sequence of the insertions that were tried on it, the rejected ones
//! included; replaying it from the empty diagram gives the diagram's
//! contents. What is proved here holds of every history, and so of every
//! diagram that a program can build.

use crate::error::AssociationError;
use crate::identifier::{ActorId, UseCaseId};
use crate::model::{lemma_with_actor, lemma_with_association, lemma_with_use_case, DiagramView};
use vstd::prelude::*;

verus! {

/// One call of a mutating function of the diagram.
pub enum Mutation {
    /// `insert_actor` with an actor of this name.
    InsertActor(Seq<char>),
    /// `insert_use_case` with a use case of this title.
    InsertUseCase(Seq<char>),
    /// `insert_association` with this pair, accepted or not.
    InsertAssociation(ActorId, UseCaseId),
}

/// The diagram after one mutation.
pub open spec fn apply(diagram: DiagramView, mutation: Mutation) -> DiagramView {
    match mutation {
        Mutation::InsertActor(name) => diagram.with_actor(name),
        Mutation::InsertUseCase(title) => diagram.with_use_case(title),
        Mutation::InsertAssociation(actor_id, use_case_id) => diagram.with_association(
            actor_id,
            use_case_id,
        ),
    }
}

/// The diagram after the mutations of a history, made on the empty diagram
/// one after the other.
pub open spec fn replay(history: Seq<Mutation>) -> DiagramView
    decreases history.len(),
{
    if history.len() == 0 {
        DiagramView::empty()
    } else {
        apply(replay(history.drop_last()), history.last())
    }
}

/// The diagram as it was when the first `steps` mutations had been made.
pub open spec fn replay_until(history: Seq<Mutation>, steps: int) -> DiagramView {
    replay(history.take(steps))
}

/// Whether step `at` of the history inserted an actor and returned
/// `actor_id` for it: the identifier is the number of actors before the step.
pub open spec fn returned_actor_id(history: Seq<Mutation>, at: int, actor_id: ActorId) -> bool {
    &&& 0 <= at < history.len()
    &&& history[at] is InsertActor
    &&& replay_until(history, at).actors.len() == actor_id.0
}

/// Whether step `at` of the history inserted a use case and returned
/// `use_case_id` for it.
pub open spec fn returned_use_case_id(history: Seq<Mutation>, at: int, use_case_id: UseCaseId) -> bool {
    &&& 0 <= at < history.len()
    &&& history[at] is InsertUseCase
    &&& replay_until(history, at).use_cases.len() == use_case_id.0
}

/// Whether some insertion of an actor in the history returned `actor_id`.
pub open spec fn actor_id_was_returned(history: Seq<Mutation>, actor_id: ActorId) -> bool {
    exists|at: int| returned_actor_id(history, at, actor_id)
}

/// Whether some insertion of a use case in the history returned `use_case_id`.
pub open spec fn use_case_id_was_returned(history: Seq<Mutation>, use_case_id: UseCaseId) -> bool {
    exists|at: int| returned_use_case_id(history, at, use_case_id)
}

/// Whether the mutation, made on `diagram`, inserts an actor.
pub open spec fn inserts_actor() -> spec_fn(DiagramView, Mutation) -> bool {
    |diagram: DiagramView, mutation: Mutation| mutation is InsertActor
}

/// Whether the mutation, made on `diagram`, inserts a use case.
pub open spec fn inserts_use_case() -> spec_fn(DiagramView, Mutation) -> bool {
    |diagram: DiagramView, mutation: Mutation| mutation is InsertUseCase
}

/// Whether the mutation, made on `diagram`, is an insertion of an
/// association that succeeds.
pub open spec fn associates() -> spec_fn(DiagramView, Mutation) -> bool {
    |diagram: DiagramView, mutation: Mutation|
        mutation matches Mutation::InsertAssociation(actor_id, use_case_id)
            && diagram.association_error(actor_id, use_case_id) is None
}

/// Whether the mutation, made on `diagram`, is an insertion of an
/// association that succeeds and whose pair the diagram held already.
pub open spec fn associates_again() -> spec_fn(DiagramView, Mutation) -> bool {
    |diagram: DiagramView, mutation: Mutation|
        mutation matches Mutation::InsertAssociation(actor_id, use_case_id)
            && diagram.association_error(actor_id, use_case_id) is None && diagram.has_association(
            actor_id,
            use_case_id,
        )
}

/// The number of steps of the history that `counted` holds of, each step
/// judged on the diagram as it was before the step.
pub open spec fn count_steps(
    history: Seq<Mutation>,
    counted: spec_fn(DiagramView, Mutation) -> bool,
) -> nat
    decreases history.len(),
{
    if history.len() == 0 {
        0
    } else {
        count_steps(history.drop_last(), counted) + if counted(
            replay(history.drop_last()),
            history.last(),
        ) {
            1nat
        } else {
            0nat
        }
    }
}

/// One mutation keeps a diagram well formed.
pub proof fn lemma_apply_well_formed(diagram: DiagramView, mutation: Mutation)
    requires
        diagram.well_formed(),
    ensures
        apply(diagram, mutation).well_formed(),
{
    match mutation {
        Mutation::InsertActor(name) => lemma_with_actor(diagram, name),
        Mutation::InsertUseCase(title) => lemma_with_use_case(diagram, title),
        Mutation::InsertAssociation(actor_id, use_case_id) => lemma_with_association(
            diagram,
            actor_id,
            use_case_id,
        ),
    }
}

/// After any sequence of mutations every association refers to an actor and
/// to a use case of the diagram, and no association stands twice.
pub proof fn lemma_invariants_hold(history: Seq<Mutation>)
    ensures
        replay(history).well_formed(),
        replay(history).actors_resolve(),
        replay(history).use_cases_resolve(),
    decreases history.len(),
{
    if history.len() > 0 {
        lemma_invariants_hold(history.drop_last());
        lemma_apply_well_formed(replay(history.drop_last()), history.last());
    }
}

/// Nothing is taken from a diagram and nothing in it moves: what it held
/// after `earlier` steps it holds after `later` steps, at the same places.
/// So an identifier, once returned, names the same entry for ever.
pub proof fn lemma_entries_stay(history: Seq<Mutation>, earlier: int, later: int)
    requires
        0 <= earlier <= later <= history.len(),
    ensures
        replay_until(history, earlier).actors.is_prefix_of(replay_until(history, later).actors),
        replay_until(history, earlier).use_cases.is_prefix_of(
            replay_until(history, later).use_cases,
        ),
        replay_until(history, earlier).associations.is_prefix_of(
            replay_until(history, later).associations,
        ),
    decreases later - earlier,
{
    if earlier < later {
        lemma_entries_stay(history, earlier, later - 1);
        let before = replay_until(history, later - 1);
        let after = replay_until(history, later);
        assert(history.take(later).drop_last() =~= history.take(later - 1));
        assert(after == apply(before, history[later - 1]));
        assert(before.actors.is_prefix_of(after.actors));
        assert(before.use_cases.is_prefix_of(after.use_cases));
        assert(before.associations.is_prefix_of(after.associations));
    }
}

/// No identifier is returned twice: of two insertions of an actor the later
/// one returns the greater identifier, and so it is with use cases.
pub proof fn lemma_identifiers_are_fresh(history: Seq<Mutation>, first: int, second: int)
    requires
        0 <= first < second < history.len(),
    ensures
        history[first] is InsertActor ==> replay_until(history, first).actors.len() < replay_until(
            history,
            second,
        ).actors.len(),
        history[first] is InsertUseCase ==> replay_until(history, first).use_cases.len()
            < replay_until(history, second).use_cases.len(),
{
    lemma_entries_stay(history, first + 1, second);
    assert(history.take(first + 1).drop_last() =~= history.take(first));
    assert(replay_until(history, first + 1) == apply(replay_until(history, first), history[first]));
}

/// The diagram holds an actor under an identifier exactly if an insertion of
/// an actor returned that identifier, and so it is with use cases.
pub proof fn lemma_known_is_returned(history: Seq<Mutation>, actor_id: ActorId, use_case_id: UseCaseId)
    ensures
        replay(history).has_actor(actor_id) <==> actor_id_was_returned(history, actor_id),
        replay(history).has_use_case(use_case_id) <==> use_case_id_was_returned(
            history,
            use_case_id,
        ),
    decreases history.len(),
{
    let now = replay(history);
    assert(history.take(history.len() as int) =~= history);
    if actor_id_was_returned(history, actor_id) {
        let at = choose|at: int| returned_actor_id(history, at, actor_id);
        lemma_entries_stay(history, at + 1, history.len() as int);
        assert(history.take(at + 1).drop_last() =~= history.take(at));
    }
    if use_case_id_was_returned(history, use_case_id) {
        let at = choose|at: int| returned_use_case_id(history, at, use_case_id);
        lemma_entries_stay(history, at + 1, history.len() as int);
        assert(history.take(at + 1).drop_last() =~= history.take(at));
    }
    if history.len() > 0 {
        let init = history.drop_last();
        let last = history.len() - 1;
        lemma_known_is_returned(init, actor_id, use_case_id);
        assert(history.take(last) =~= init);
        if now.has_actor(actor_id) {
            if replay(init).has_actor(actor_id) {
                let at = choose|at: int| returned_actor_id(init, at, actor_id);
                assert(history.take(at) =~= init.take(at));
                assert(returned_actor_id(history, at, actor_id));
            } else {
                assert(returned_actor_id(history, last, actor_id));
            }
        }
        if now.has_use_case(use_case_id) {
            if replay(init).has_use_case(use_case_id) {
                let at = choose|at: int| returned_use_case_id(init, at, use_case_id);
                assert(history.take(at) =~= init.take(at));
                assert(returned_use_case_id(history, at, use_case_id));
            } else {
                assert(returned_use_case_id(history, last, use_case_id));
            }
        }
    }
}

/// An association is rejected for its actor exactly if no insertion of an
/// actor ever returned the actor's identifier; it is rejected for its use
/// case exactly if the actor's identifier was returned and the use case's
/// never was; and it is accepted exactly if both were returned.
pub proof fn lemma_rejected_is_never_returned(
    history: Seq<Mutation>,
    actor_id: ActorId,
    use_case_id: UseCaseId,
)
    ensures
        replay(history).association_error(actor_id, use_case_id) == Some(
            AssociationError::NonexistentActor(actor_id),
        ) <==> !actor_id_was_returned(history, actor_id),
        replay(history).association_error(actor_id, use_case_id) == Some(
            AssociationError::NonexistentUseCase(use_case_id),
        ) <==> actor_id_was_returned(history, actor_id) && !use_case_id_was_returned(
            history,
            use_case_id,
        ),
        replay(history).association_error(actor_id, use_case_id) is None <==> actor_id_was_returned(
            history,
            actor_id,
        ) && use_case_id_was_returned(history, use_case_id),
{
    lemma_known_is_returned(history, actor_id, use_case_id);
}

/// Inserting an association a second time changes nothing: the diagram
/// after two attempts is the diagram after one, and where the pair was
/// accepted the associations hold it exactly once.
pub proof fn lemma_association_is_idempotent(
    diagram: DiagramView,
    actor_id: ActorId,
    use_case_id: UseCaseId,
)
    requires
        diagram.well_formed(),
    ensures
        diagram.with_association(actor_id, use_case_id).with_association(actor_id, use_case_id)
            == diagram.with_association(actor_id, use_case_id),
        diagram.association_error(actor_id, use_case_id) is None ==> diagram.with_association(
            actor_id,
            use_case_id,
        ).associations.to_multiset().count((actor_id, use_case_id)) == 1,
{
    let once = diagram.with_association(actor_id, use_case_id);
    lemma_with_association(diagram, actor_id, use_case_id);
    if diagram.association_error(actor_id, use_case_id) is None {
        assert(once.has_association(actor_id, use_case_id));
        once.associations.lemma_multiset_has_no_duplicates();
        vstd::seq_lib::to_multiset_contains(once.associations, (actor_id, use_case_id));
    }
}

/// A diagram holds as many actors as there were insertions of an actor, as
/// many use cases as there were insertions of a use case, and as many
/// associations as there were successful insertions of an association, less
/// those whose pair was there already.
pub proof fn lemma_counts(history: Seq<Mutation>)
    ensures
        replay(history).actors.len() == count_steps(history, inserts_actor()),
        replay(history).use_cases.len() == count_steps(history, inserts_use_case()),
        replay(history).associations.len() == count_steps(history, associates()) - count_steps(
            history,
            associates_again(),
        ),
        count_steps(history, associates_again()) <= count_steps(history, associates()),
    decreases history.len(),
{
    if history.len() > 0 {
        lemma_counts(history.drop_last());
    }
}

} // verus!
