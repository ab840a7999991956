use std::collections::HashMap;
use std::rc::Rc;

use use_case_diagram::decimal::decimal_string;
use use_case_diagram::{Actor, ActorId, AssociationError, UseCase, UseCaseDiagram, UseCaseId};

#[test]
fn test_new() {
    let diagram = UseCaseDiagram::new();

    assert_eq!(diagram.actors().len(), 0);
    assert_eq!(diagram.use_cases().len(), 0);
    assert_eq!(diagram.associations().len(), 0);
}

#[test]
fn test_insert_actor() {
    let mut diagram = UseCaseDiagram::new();
    let actor_1 = Actor{name: Rc::from("Actor 1")};
    let actor_2 = Actor{name: Rc::from("Actor 2")};

    let actor_id_1 = diagram.insert_actor(actor_1.clone());
    let actor_id_2 = diagram.insert_actor(actor_2.clone());

    assert_eq!(diagram.actors().into_iter().collect::<HashMap<_, _>>(),
               [(actor_id_1, &actor_1),
                (actor_id_2, &actor_2)].iter().cloned().collect());
    assert_eq!(diagram.use_cases().len(), 0);
    assert_eq!(diagram.associations().len(), 0);
}

#[test]
fn test_insert_use_case() {
    let mut diagram = UseCaseDiagram::new();
    let use_case_1 = UseCase{title: Rc::from("Use case 1")};
    let use_case_2 = UseCase{title: Rc::from("Use case 2")};

    let use_case_id_1 = diagram.insert_use_case(use_case_1.clone());
    let use_case_id_2 = diagram.insert_use_case(use_case_2.clone());

    assert_eq!(diagram.actors().len(), 0);
    assert_eq!(diagram.use_cases().into_iter().collect::<HashMap<_, _>>(),
               [(use_case_id_1, &use_case_1),
                (use_case_id_2, &use_case_2)].iter().cloned().collect());
    assert_eq!(diagram.associations().len(), 0);
}

#[test]
fn test_insert_association() {
    let mut diagram = UseCaseDiagram::new();
    let actor = Actor{name: Rc::from("Actor 1")};
    let use_case = UseCase{title: Rc::from("Use case 1")};

    let err = diagram.insert_association(ActorId(0), UseCaseId(0));
    assert!(err.is_err());

    let actor_id = diagram.insert_actor(actor.clone());
    let use_case_id = diagram.insert_use_case(use_case.clone());

    let ok = diagram.insert_association(actor_id, use_case_id);
    assert!(ok.is_ok());

    assert_eq!(diagram.actors().len(), 1);
    assert_eq!(diagram.use_cases().len(), 1);
    assert_eq!(diagram.associations().into_iter().collect::<Vec<_>>(),
               vec![(actor_id, use_case_id)]);
}

#[test]
fn new_diagram_knows_no_identifier() {
    let diagram = UseCaseDiagram::new();
    assert_eq!(diagram.actor(ActorId(0)), None);
    assert_eq!(diagram.use_case(UseCaseId(0)), None);
    diagram.assert_invariants();
}

#[test]
fn identifiers_count_up_from_zero() {
    let mut diagram = UseCaseDiagram::new();
    for expected in 0..5 {
        let actor_id = diagram.insert_actor(Actor{name: Rc::from("Actor")});
        assert_eq!(actor_id, ActorId(expected));
    }
    for expected in 0..3 {
        let use_case_id = diagram.insert_use_case(UseCase{title: Rc::from("Use case")});
        assert_eq!(use_case_id, UseCaseId(expected));
    }
    assert_eq!(diagram.actors().len(), 5);
    assert_eq!(diagram.use_cases().len(), 3);
}

#[test]
fn actors_may_share_a_name() {
    let mut diagram = UseCaseDiagram::new();
    let first = diagram.insert_actor(Actor{name: Rc::from("Guest")});
    let second = diagram.insert_actor(Actor{name: Rc::from("Guest")});
    assert_ne!(first, second);
    assert_eq!(diagram.actor(first), diagram.actor(second));
    assert_eq!(diagram.actors().len(), 2);
}

#[test]
fn lookup_finds_what_was_inserted() {
    let mut diagram = UseCaseDiagram::new();
    let a1 = diagram.insert_actor(Actor{name: Rc::from("Actor 1")});
    let a2 = diagram.insert_actor(Actor{name: Rc::from("Actor 2")});
    let u1 = diagram.insert_use_case(UseCase{title: Rc::from("Use case 1")});
    assert_eq!(diagram.actor(a1), Some(&Actor{name: Rc::from("Actor 1")}));
    assert_eq!(diagram.actor(a2), Some(&Actor{name: Rc::from("Actor 2")}));
    assert_eq!(diagram.actor(ActorId(2)), None);
    assert_eq!(diagram.use_case(u1), Some(&UseCase{title: Rc::from("Use case 1")}));
    assert_eq!(diagram.use_case(UseCaseId(1)), None);
    assert_eq!(diagram.actor(ActorId(usize::MAX)), None);
}

#[test]
fn earlier_identifiers_keep_their_entries() {
    let mut diagram = UseCaseDiagram::new();
    let a1 = diagram.insert_actor(Actor{name: Rc::from("Actor 1")});
    let before = diagram.actor(a1).cloned();
    diagram.insert_actor(Actor{name: Rc::from("Actor 2")});
    diagram.insert_use_case(UseCase{title: Rc::from("Use case 1")});
    diagram.insert_association(a1, UseCaseId(0)).unwrap();
    assert_eq!(diagram.actor(a1).cloned(), before);
}

#[test]
fn listings_come_in_the_order_of_identifiers() {
    let mut diagram = UseCaseDiagram::new();
    diagram.insert_actor(Actor{name: Rc::from("Actor 1")});
    diagram.insert_actor(Actor{name: Rc::from("Actor 2")});
    diagram.insert_use_case(UseCase{title: Rc::from("Use case 1")});
    assert_eq!(
        diagram.actors(),
        vec![
            (ActorId(0), &Actor{name: Rc::from("Actor 1")}),
            (ActorId(1), &Actor{name: Rc::from("Actor 2")}),
        ]
    );
    assert_eq!(diagram.use_cases(), vec![(UseCaseId(0), &UseCase{title: Rc::from("Use case 1")})]);
    assert_eq!(diagram.actors(), diagram.actors());
}

#[test]
fn unknown_actor_is_rejected() {
    let mut diagram = UseCaseDiagram::new();
    let use_case_id = diagram.insert_use_case(UseCase{title: Rc::from("Use case 1")});
    assert_eq!(
        diagram.insert_association(ActorId(0), use_case_id),
        Err(AssociationError::NonexistentActor(ActorId(0)))
    );
    assert_eq!(diagram.associations().len(), 0);
}

#[test]
fn unknown_use_case_is_rejected() {
    let mut diagram = UseCaseDiagram::new();
    let actor_id = diagram.insert_actor(Actor{name: Rc::from("Actor 1")});
    assert_eq!(
        diagram.insert_association(actor_id, UseCaseId(7)),
        Err(AssociationError::NonexistentUseCase(UseCaseId(7)))
    );
    assert_eq!(diagram.associations().len(), 0);
}

#[test]
fn unknown_actor_is_reported_before_unknown_use_case() {
    let mut diagram = UseCaseDiagram::new();
    assert_eq!(
        diagram.insert_association(ActorId(3), UseCaseId(4)),
        Err(AssociationError::NonexistentActor(ActorId(3)))
    );
}

#[test]
fn rejected_association_leaves_the_diagram_unchanged() {
    let mut diagram = UseCaseDiagram::new();
    let a = diagram.insert_actor(Actor{name: Rc::from("Actor 1")});
    let u = diagram.insert_use_case(UseCase{title: Rc::from("Use case 1")});
    diagram.insert_association(a, u).unwrap();
    assert!(diagram.insert_association(ActorId(1), u).is_err());
    assert!(diagram.insert_association(a, UseCaseId(1)).is_err());
    assert_eq!(diagram.actors().len(), 1);
    assert_eq!(diagram.use_cases().len(), 1);
    assert_eq!(diagram.associations(), vec![(a, u)]);
}

#[test]
fn identifier_of_the_next_insertion_is_not_yet_known() {
    let mut diagram = UseCaseDiagram::new();
    let u = diagram.insert_use_case(UseCase{title: Rc::from("Use case 1")});
    assert!(diagram.insert_association(ActorId(0), u).is_err());
    let a = diagram.insert_actor(Actor{name: Rc::from("Actor 1")});
    assert_eq!(a, ActorId(0));
    assert!(diagram.insert_association(ActorId(0), u).is_ok());
    assert!(diagram.insert_association(ActorId(1), u).is_err());
}

#[test]
fn same_association_twice_stands_once() {
    let mut diagram = UseCaseDiagram::new();
    let a = diagram.insert_actor(Actor{name: Rc::from("Actor 1")});
    let u = diagram.insert_use_case(UseCase{title: Rc::from("Use case 1")});
    assert_eq!(diagram.insert_association(a, u), Ok(()));
    assert_eq!(diagram.insert_association(a, u), Ok(()));
    assert_eq!(diagram.associations(), vec![(a, u)]);
    assert_eq!(diagram.associations().iter().filter(|&&pair| pair == (a, u)).count(), 1);
}

#[test]
fn counts_follow_the_insertions() {
    let mut diagram = UseCaseDiagram::new();
    let a1 = diagram.insert_actor(Actor{name: Rc::from("Actor 1")});
    let a2 = diagram.insert_actor(Actor{name: Rc::from("Actor 2")});
    let u1 = diagram.insert_use_case(UseCase{title: Rc::from("Use case 1")});
    let u2 = diagram.insert_use_case(UseCase{title: Rc::from("Use case 2")});
    let u3 = diagram.insert_use_case(UseCase{title: Rc::from("Use case 3")});
    let mut accepted = 0;
    for &(a, u) in &[(a1, u1), (a1, u2), (a2, u3), (a1, u1), (a2, u3), (a2, u1)] {
        if diagram.insert_association(a, u).is_ok() {
            accepted += 1;
        }
    }
    assert!(diagram.insert_association(ActorId(2), u1).is_err());
    assert_eq!(accepted, 6);
    assert_eq!(diagram.actors().len(), 2);
    assert_eq!(diagram.use_cases().len(), 3);
    assert_eq!(diagram.associations().len(), 6 - 2);
    assert_eq!(diagram.associations(), vec![(a1, u1), (a1, u2), (a2, u3), (a2, u1)]);
}

#[test]
fn associations_refer_to_what_exists() {
    let mut diagram = UseCaseDiagram::new();
    let a = diagram.insert_actor(Actor{name: Rc::from("Actor 1")});
    let u = diagram.insert_use_case(UseCase{title: Rc::from("Use case 1")});
    let _ = diagram.insert_association(a, u);
    let _ = diagram.insert_association(ActorId(5), u);
    let _ = diagram.insert_association(a, UseCaseId(5));
    diagram.assert_invariants();
    for (actor_id, use_case_id) in diagram.associations() {
        assert!(diagram.actor(actor_id).is_some());
        assert!(diagram.use_case(use_case_id).is_some());
    }
}

#[test]
fn clone_holds_the_same_and_is_its_own() {
    let mut diagram = UseCaseDiagram::new();
    let a = diagram.insert_actor(Actor{name: Rc::from("Actor 1")});
    let u = diagram.insert_use_case(UseCase{title: Rc::from("Use case 1")});
    diagram.insert_association(a, u).unwrap();
    let mut copy = diagram.clone();
    assert_eq!(copy.actors(), diagram.actors());
    assert_eq!(copy.use_cases(), diagram.use_cases());
    assert_eq!(copy.associations(), diagram.associations());
    copy.insert_actor(Actor{name: Rc::from("Actor 2")});
    assert_eq!(copy.actors().len(), 2);
    assert_eq!(diagram.actors().len(), 1);
}

#[test]
fn entities_clone_to_equal_entities() {
    let actor = Actor{name: Rc::from("Actor 1")};
    let use_case = UseCase{title: Rc::from("Use case 1")};
    assert_eq!(actor.clone(), actor);
    assert_eq!(use_case.clone(), use_case);
    assert_eq!(actor.name(), "Actor 1");
    assert_eq!(use_case.title(), "Use case 1");
}

#[test]
fn identifiers_are_ordered_by_their_number() {
    assert!(ActorId(1) < ActorId(2));
    assert!(UseCaseId(10) > UseCaseId(9));
    assert_eq!(ActorId(4), ActorId(4));
}

#[test]
fn identifiers_display_as_decimal_numbers() {
    assert_eq!(ActorId(0).to_string(), "0");
    assert_eq!(ActorId(7).to_string(), "7");
    assert_eq!(ActorId(10).to_string(), "10");
    assert_eq!(ActorId(1234567890).to_string(), "1234567890");
    assert_eq!(UseCaseId(42).to_string(), "42");
    assert_eq!(UseCaseId(usize::MAX).to_string(), format!("{}", usize::MAX));
}

#[test]
fn decimal_string_agrees_with_the_standard_formatting() {
    for n in [0usize, 1, 9, 10, 11, 99, 100, 101, 999, 1000, 65535, 65536, usize::MAX] {
        assert_eq!(decimal_string(n), format!("{}", n));
    }
}

#[test]
fn errors_display_their_message() {
    assert_eq!(
        AssociationError::NonexistentActor(ActorId(3)).to_string(),
        "invalid association: nonexistent actor 3"
    );
    assert_eq!(
        AssociationError::NonexistentUseCase(UseCaseId(12)).to_string(),
        "invalid association: nonexistent use case 12"
    );
}

#[test]
fn errors_describe_their_kind() {
    assert_eq!(
        AssociationError::NonexistentActor(ActorId(3)).description(),
        "invalid association: nonexistent actor"
    );
    assert_eq!(
        AssociationError::NonexistentUseCase(UseCaseId(12)).description(),
        "invalid association: nonexistent use case"
    );
}
