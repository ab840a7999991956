//! The portal of a diagram: one button for each use case, which names the
//! use case and the actors that may invoke it.

use crate::diagram::UseCaseDiagram;
use crate::identifier::{ActorId, UseCaseId};
use crate::model::DiagramView;
use vstd::prelude::*;
use vstd::string::*;

verus! {

/// One entry of a portal: a use case's title and the names of the actors that
/// are permitted to invoke it.
#[derive(Debug, PartialEq, Eq)]
pub struct Button {
    pub title: String,
    pub actors: Vec<String>,
}

/// What a button holds.
pub struct ButtonView {
    pub title: Seq<char>,
    pub actors: Seq<Seq<char>>,
}

/// The texts that a sequence of strings holds.
pub open spec fn texts(strings: Seq<String>) -> Seq<Seq<char>> {
    strings.map_values(|text: String| text@)
}

impl View for Button {
    type V = ButtonView;

    open spec fn view(&self) -> ButtonView {
        ButtonView { title: self.title@, actors: texts(self.actors@) }
    }
}

impl Clone for Button {
    /// A button of its own with the same title and the same actors.
    fn clone(&self) -> (copy: Self)
        ensures
            copy@ == self@,
    {
        let mut actors: Vec<String> = Vec::new();
        let mut i: usize = 0;
        while i < self.actors.len()
            invariant
                i <= self.actors.len(),
                actors@.len() == i,
                forall|j: int| 0 <= j < i ==> (#[trigger] actors@[j])@ == self.actors@[j]@,
            decreases self.actors.len() - i,
        {
            actors.push(self.actors[i].clone());
            i += 1;
        }
        assert(texts(actors@) =~= texts(self.actors@));
        Button { title: self.title.clone(), actors }
    }
}

/// What a sequence of buttons holds.
pub open spec fn button_views(buttons: Seq<Button>) -> Seq<ButtonView> {
    buttons.map_values(|button: Button| button@)
}

/// `items` without repetitions: of equal items the first one stays, and
/// those that stay keep their order.
pub open spec fn distinct<A>(items: Seq<A>) -> Seq<A>
    decreases items.len(),
{
    if items.len() == 0 {
        Seq::empty()
    } else {
        let before = distinct(items.drop_last());
        if before.contains(items.last()) {
            before
        } else {
            before.push(items.last())
        }
    }
}

/// The test that an association is one of the use case `use_case_id`.
pub open spec fn concerns(use_case_id: UseCaseId) -> spec_fn((ActorId, UseCaseId)) -> bool {
    |pair: (ActorId, UseCaseId)| pair.1 == use_case_id
}

/// The step from an association to the name of its actor.
pub open spec fn name_in(actors: Seq<Seq<char>>) -> spec_fn((ActorId, UseCaseId)) -> Seq<char> {
    |pair: (ActorId, UseCaseId)| actors[pair.0.0 as int]
}

/// The names of the actors behind those of `associations` that are of the
/// use case `use_case_id`, one name for each such association, in their order.
pub open spec fn associated_names(
    actors: Seq<Seq<char>>,
    associations: Seq<(ActorId, UseCaseId)>,
    use_case_id: UseCaseId,
) -> Seq<Seq<char>> {
    associations.filter(concerns(use_case_id)).map_values(name_in(actors))
}

/// The names of the actors that may invoke the use case `use_case_id`, each
/// name once, in the order in which the diagram first associated it.
pub open spec fn permitted_names(diagram: DiagramView, use_case_id: UseCaseId) -> Seq<Seq<char>> {
    distinct(associated_names(diagram.actors, diagram.associations, use_case_id))
}

/// The button of the use case `use_case_id`.
pub open spec fn button_for(diagram: DiagramView, use_case_id: UseCaseId) -> ButtonView {
    ButtonView {
        title: diagram.use_case_title(use_case_id),
        actors: permitted_names(diagram, use_case_id),
    }
}

/// The portal of a diagram: the buttons of its use cases, in the order of
/// their identifiers.
pub open spec fn portal(diagram: DiagramView) -> Seq<ButtonView> {
    Seq::new(diagram.use_cases.len(), |i: int| button_for(diagram, UseCaseId(i as usize)))
}

/// A sequence made distinct holds nothing twice, and holds exactly what the
/// sequence held.
pub proof fn lemma_distinct<A>(items: Seq<A>)
    ensures
        distinct(items).no_duplicates(),
        forall|item: A| #[trigger] distinct(items).contains(item) <==> items.contains(item),
        distinct(items).len() <= items.len(),
    decreases items.len(),
{
    if items.len() > 0 {
        let init = items.drop_last();
        let last = items.last();
        lemma_distinct(init);
        let before = distinct(init);
        assert forall|item: A| #[trigger] distinct(items).contains(item) <==> items.contains(
            item,
        ) by {
            if items.contains(item) {
                let i = choose|i: int| 0 <= i < items.len() && items[i] == item;
                if i < init.len() {
                    assert(init[i] == item);
                    assert(before.contains(item));
                    if !before.contains(last) {
                        let k = choose|k: int| 0 <= k < before.len() && before[k] == item;
                        assert(before.push(last)[k] == item);
                    }
                } else {
                    assert(item == last);
                    if !before.contains(last) {
                        assert(before.push(last)[before.len() as int] == last);
                    }
                }
            }
            if distinct(items).contains(item) {
                let k = choose|k: int| 0 <= k < distinct(items).len() && distinct(items)[k] == item;
                if k < before.len() {
                    assert(before[k] == item);
                    assert(before.contains(item));
                    let i = choose|i: int| 0 <= i < init.len() && init[i] == item;
                    assert(items[i] == item);
                } else {
                    assert(item == last);
                    assert(items[items.len() - 1] == item);
                }
            }
        }
    }
}

/// How making distinct goes on when one more item comes last.
pub proof fn lemma_distinct_push<A>(items: Seq<A>, item: A)
    ensures
        distinct(items.push(item)) == if distinct(items).contains(item) {
            distinct(items)
        } else {
            distinct(items).push(item)
        },
{
    assert(items.push(item).drop_last() =~= items);
}

/// How the associated names go on when one more association comes last.
pub proof fn lemma_associated_names_push(
    actors: Seq<Seq<char>>,
    associations: Seq<(ActorId, UseCaseId)>,
    use_case_id: UseCaseId,
    pair: (ActorId, UseCaseId),
)
    ensures
        associated_names(actors, associations.push(pair), use_case_id) == if pair.1 == use_case_id {
            associated_names(actors, associations, use_case_id).push(actors[pair.0.0 as int])
        } else {
            associated_names(actors, associations, use_case_id)
        },
{
    associations.lemma_filter_push(pair, concerns(use_case_id));
    if pair.1 == use_case_id {
        associations.filter(concerns(use_case_id)).lemma_push_map_commute(name_in(actors), pair);
    }
}

/// The permitted names of a use case hold no name twice, and hold exactly the
/// names of the actors that the diagram associates with the use case: none
/// is left out and none is added.
pub proof fn lemma_permitted_names(diagram: DiagramView, use_case_id: UseCaseId)
    ensures
        permitted_names(diagram, use_case_id).no_duplicates(),
        forall|name: Seq<char>| #[trigger]
            permitted_names(diagram, use_case_id).contains(name) <==> exists|actor_id: ActorId|
                #[trigger] diagram.has_association(actor_id, use_case_id) && diagram.actor_name(
                    actor_id,
                ) == name,
{
    let chosen = diagram.associations.filter(concerns(use_case_id));
    let names = associated_names(diagram.actors, diagram.associations, use_case_id);
    lemma_distinct(names);
    assert forall|name: Seq<char>| #[trigger]
        permitted_names(diagram, use_case_id).contains(name) <==> exists|actor_id: ActorId| #[trigger]
            diagram.has_association(actor_id, use_case_id) && diagram.actor_name(actor_id)
                == name by {
        if permitted_names(diagram, use_case_id).contains(name) {
            assert(names.contains(name));
            let k = choose|k: int| 0 <= k < names.len() && names[k] == name;
            let pair = chosen[k];
            diagram.associations.lemma_filter_pred(concerns(use_case_id), k);
            assert(chosen.contains(pair));
            diagram.associations.lemma_filter_contains_rev(concerns(use_case_id), pair);
            assert(diagram.has_association(pair.0, use_case_id));
        }
        if exists|actor_id: ActorId| #[trigger]
            diagram.has_association(actor_id, use_case_id) && diagram.actor_name(actor_id)
                == name {
            let actor_id = choose|actor_id: ActorId| #[trigger]
                diagram.has_association(actor_id, use_case_id) && diagram.actor_name(actor_id)
                    == name;
            let pair = (actor_id, use_case_id);
            let i = choose|i: int|
                0 <= i < diagram.associations.len() && diagram.associations[i] == pair;
            diagram.associations.lemma_filter_contains(concerns(use_case_id), i);
            let k = choose|k: int| 0 <= k < chosen.len() && chosen[k] == pair;
            assert(names[k] == name);
            assert(names.contains(name));
        }
    }
}

/// The portal has one button for each use case, at the place of the use
/// case's identifier and under its title; the button's actors hold no name
/// twice, and hold exactly the names of the actors that the diagram
/// associates with the use case.
pub proof fn lemma_portal(diagram: DiagramView, index: int)
    requires
        0 <= index < diagram.use_cases.len(),
        diagram.use_cases.len() <= usize::MAX,
    ensures
        portal(diagram).len() == diagram.use_cases.len(),
        portal(diagram)[index].title == diagram.use_cases[index],
        portal(diagram)[index].actors.no_duplicates(),
        forall|name: Seq<char>| #[trigger]
            portal(diagram)[index].actors.contains(name) <==> exists|actor_id: ActorId| #[trigger]
                diagram.has_association(actor_id, UseCaseId(index as usize))
                    && diagram.actor_name(actor_id) == name,
{
    lemma_permitted_names(diagram, UseCaseId(index as usize));
}

/// Whether one of `names` is the text `wanted`.
fn holds_name(names: &Vec<String>, wanted: &String) -> (found: bool)
    ensures
        found == texts(names@).contains(wanted@),
{
    let mut i: usize = 0;
    while i < names.len()
        invariant
            i <= names.len(),
            forall|j: int| 0 <= j < i ==> texts(names@)[j] != wanted@,
        decreases names.len() - i,
    {
        if names[i] == *wanted {
            assert(texts(names@)[i as int] == wanted@);
            return true;
        }
        i += 1;
    }
    false
}

/// The names of the actors that may invoke the use case `use_case_id`: for
/// each association of that use case the name of its actor, each name once.
///
/// Two actors of one name that are both associated with the use case give
/// one entry. For an identifier that names no use case the result is empty,
/// since nothing is associated with it.
pub fn permitted_actors(diagram: &UseCaseDiagram, use_case_id: UseCaseId) -> (names: Vec<String>)
    ensures
        texts(names@) == permitted_names(diagram@, use_case_id),
        texts(names@).no_duplicates(),
        forall|name: Seq<char>| #[trigger]
            texts(names@).contains(name) <==> exists|actor_id: ActorId| #[trigger]
                diagram@.has_association(actor_id, use_case_id) && diagram@.actor_name(actor_id)
                    == name,
{
    diagram.assert_invariants();
    let associations = diagram.associations();
    let mut names: Vec<String> = Vec::new();
    let mut i: usize = 0;
    assert(associations@.take(0) =~= Seq::empty());
    assert(texts(names@) =~= Seq::empty());
    while i < associations.len()
        invariant
            i <= associations.len(),
            associations@ == diagram@.associations,
            diagram@.well_formed(),
            texts(names@) == distinct(
                associated_names(diagram@.actors, associations@.take(i as int), use_case_id),
            ),
        decreases associations.len() - i,
    {
        let (actor_id, of_use_case) = associations[i];
        let ghost seen = associations@.take(i as int);
        proof {
            associations@.lemma_take_succ_push(i as int);
            lemma_associated_names_push(diagram@.actors, seen, use_case_id, (actor_id, of_use_case));
            lemma_distinct_push(
                associated_names(diagram@.actors, seen, use_case_id),
                diagram@.actor_name(actor_id),
            );
            assert(diagram@.has_association(actor_id, of_use_case));
        }
        if of_use_case == use_case_id {
            let actor = diagram.actor(actor_id).unwrap();
            let name = String::from_str(actor.name());
            if !holds_name(&names, &name) {
                let ghost before = names@;
                names.push(name);
                assert(texts(names@) =~= texts(before).push(name@));
            }
        }
        i += 1;
    }
    proof {
        assert(associations@.take(i as int) =~= associations@);
        lemma_permitted_names(diagram@, use_case_id);
    }
    names
}

/// The buttons of the diagram's portal: one for each use case, in the order
/// of `use_cases()`, each with the use case's title and its permitted actors.
pub fn portal_buttons(diagram: &UseCaseDiagram) -> (buttons: Vec<Button>)
    ensures
        button_views(buttons@) == portal(diagram@),
        buttons@.len() == diagram@.use_cases.len(),
{
    let use_cases = diagram.use_cases();
    let mut buttons: Vec<Button> = Vec::new();
    let mut i: usize = 0;
    while i < use_cases.len()
        invariant
            i <= use_cases.len(),
            use_cases@.len() == diagram@.use_cases.len(),
            forall|j: int|
                0 <= j < use_cases@.len() ==> (#[trigger] use_cases@[j]).0 == UseCaseId(j as usize)
                    && use_cases@[j].1@ == diagram@.use_cases[j],
            buttons@.len() == i,
            forall|j: int|
                0 <= j < i ==> (#[trigger] buttons@[j])@ == button_for(
                    diagram@,
                    UseCaseId(j as usize),
                ),
        decreases use_cases.len() - i,
    {
        let (use_case_id, use_case) = use_cases[i];
        let actors = permitted_actors(diagram, use_case_id);
        let title = String::from_str(use_case.title());
        buttons.push(Button { title, actors });
        i += 1;
    }
    assert(button_views(buttons@) =~= portal(diagram@));
    buttons
}

} // verus!
