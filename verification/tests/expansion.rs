use state_enum::augment::augment;
use state_enum::augment::Capability;
use state_enum::cycle::shift;
use state_enum::declaration::Annotation;
use state_enum::declaration::EnumDeclaration;
use state_enum::declaration::Member;
use state_enum::declaration::MemberKind;
use state_enum::navigation::synthesize;
use state_enum::navigation::TraversalRule;
use state_enum::state_enum;

fn unit(identifier: &str) -> Member {
    Member { identifier: identifier.to_string(), kind: MemberKind::Unit, annotations: Vec::new() }
}

fn declaration(identifiers: &[&str]) -> EnumDeclaration<(u32, u32)> {
    EnumDeclaration {
        name: "Phase".to_string(),
        position: (3, 6),
        annotations: vec!["derive(Debug)".to_string(), "allow(dead_code)".to_string()],
        members: identifiers.iter().map(|identifier| unit(identifier)).collect(),
    }
}

#[test]
fn default_is_the_first_member() {
    let expansion = state_enum(declaration(&["Idle", "Running", "Done"])).unwrap();
    let default = expansion.default_value();
    assert_eq!(default, 0);
    assert_eq!(expansion.navigation.member(default), "Idle");
    let members = &expansion.declaration.declaration.members;
    assert_eq!(members[0].annotations, vec![Annotation::DefaultMarker]);
    assert_eq!(members[1].annotations, Vec::new());
    assert_eq!(members[2].annotations, Vec::new());
}

#[test]
fn default_marker_follows_the_authors_annotations() {
    let mut subject = declaration(&["Idle", "Running"]);
    subject.members[0].annotations.push(Annotation::Author("doc = \"at rest\"".to_string()));
    subject.members[1].annotations.push(Annotation::Author("doc = \"at work\"".to_string()));
    let augmented = augment(subject);
    let members = &augmented.declaration.members;
    assert_eq!(
        members[0].annotations,
        vec![Annotation::Author("doc = \"at rest\"".to_string()), Annotation::DefaultMarker]
    );
    assert_eq!(members[1].annotations, vec![Annotation::Author("doc = \"at work\"".to_string())]);
}

#[test]
fn augmentation_keeps_the_declaration() {
    let augmented = augment(declaration(&["Idle", "Running", "Done"]));
    let kept = &augmented.declaration;
    assert_eq!(kept.name, "Phase");
    assert_eq!(kept.position, (3, 6));
    assert_eq!(kept.annotations, vec!["derive(Debug)".to_string(), "allow(dead_code)".to_string()]);
    let identifiers: Vec<&str> = kept.members.iter().map(|m| m.identifier.as_str()).collect();
    assert_eq!(identifiers, vec!["Idle", "Running", "Done"]);
    assert!(kept.members.iter().all(|m| m.kind == MemberKind::Unit));
}

#[test]
fn baseline_capabilities_are_requested_in_order() {
    let augmented = augment(declaration(&["Idle"]));
    assert_eq!(
        augmented.capabilities,
        vec![
            Capability::ShallowCopy,
            Capability::Cloning,
            Capability::DefaultConstruction,
            Capability::StructuralEquality,
        ]
    );
}

#[test]
fn table_keeps_declaration_order() {
    let identifiers = ["Zulu", "Alpha", "Mike", "Bravo", "Yankee"];
    let expansion = state_enum(declaration(&identifiers)).unwrap();
    assert_eq!(expansion.navigation.len(), 5);
    assert_eq!(expansion.navigation.table, vec!["Zulu", "Alpha", "Mike", "Bravo", "Yankee"]);
    for (ordinal, identifier) in identifiers.iter().enumerate() {
        assert_eq!(expansion.navigation.member(ordinal), identifier);
    }
}

#[test]
fn navigation_is_attached_to_the_name() {
    let navigation = synthesize(&declaration(&["Idle", "Running"]));
    assert_eq!(navigation.owner, "Phase");
}

#[test]
fn rules_shift_by_one_and_by_one_less_than_the_count() {
    let navigation = synthesize(&declaration(&["A", "B", "C", "D"]));
    assert_eq!(navigation.next, TraversalRule { offset: 1, modulus: 4 });
    assert_eq!(navigation.previous, TraversalRule { offset: 3, modulus: 4 });
}

#[test]
fn rules_of_a_single_member() {
    let navigation = synthesize(&declaration(&["Only"]));
    assert_eq!(navigation.next, TraversalRule { offset: 1, modulus: 1 });
    assert_eq!(navigation.previous, TraversalRule { offset: 0, modulus: 1 });
}

#[test]
fn single_member_loops_to_itself() {
    let expansion = state_enum(declaration(&["Only"])).unwrap();
    let only = expansion.default_value();
    assert_eq!(expansion.navigation.next(only), only);
    assert_eq!(expansion.navigation.previous(only), only);
    assert_eq!(expansion.navigation.member(expansion.navigation.next(only)), "Only");
}

#[test]
fn next_and_previous_wrap_around() {
    let navigation = synthesize(&declaration(&["A", "B", "C", "D"]));
    assert_eq!(navigation.next(0), 1);
    assert_eq!(navigation.next(2), 3);
    assert_eq!(navigation.next(3), 0);
    assert_eq!(navigation.previous(0), 3);
    assert_eq!(navigation.previous(1), 0);
    assert_eq!(navigation.previous(3), 2);
}

#[test]
fn as_many_steps_as_members_come_back() {
    let navigation = synthesize(&declaration(&["A", "B", "C", "D", "E", "F", "G"]));
    for start in 0..navigation.len() {
        let mut forward = start;
        let mut backward = start;
        for _ in 0..navigation.len() {
            forward = navigation.next(forward);
            backward = navigation.previous(backward);
        }
        assert_eq!(forward, start);
        assert_eq!(backward, start);
    }
}

#[test]
fn next_and_previous_undo_each_other() {
    let navigation = synthesize(&declaration(&["A", "B", "C", "D", "E"]));
    for value in 0..navigation.len() {
        assert_eq!(navigation.previous(navigation.next(value)), value);
        assert_eq!(navigation.next(navigation.previous(value)), value);
    }
}

#[test]
fn rule_applies_its_offset_modulo_its_modulus() {
    let rule = TraversalRule { offset: 4, modulus: 6 };
    assert_eq!(rule.apply(0), 4);
    assert_eq!(rule.apply(1), 5);
    assert_eq!(rule.apply(2), 0);
    assert_eq!(rule.apply(5), 3);
}

#[test]
fn shift_is_exact_at_the_limits_of_the_machine() {
    assert_eq!(shift(2, 1, 3), 0);
    assert_eq!(shift(0, 2, 3), 2);
    assert_eq!(shift(0, 3, 3), 0);
    assert_eq!(shift(usize::MAX - 1, usize::MAX, usize::MAX), usize::MAX - 1);
    assert_eq!(shift(usize::MAX - 1, 1, usize::MAX), 0);
    assert_eq!(shift(0, usize::MAX - 1, usize::MAX), usize::MAX - 1);
}

#[test]
fn expansion_is_the_same_on_the_same_input() {
    let first = state_enum(declaration(&["Idle", "Running", "Done"]));
    let second = state_enum(declaration(&["Idle", "Running", "Done"]));
    assert_eq!(first, second);
    assert!(first.is_ok());
}

#[test]
fn capabilities_are_named_as_the_host_derives_them() {
    assert_eq!(Capability::ShallowCopy.name(), "Copy");
    assert_eq!(Capability::Cloning.name(), "Clone");
    assert_eq!(Capability::DefaultConstruction.name(), "Default");
    assert_eq!(Capability::StructuralEquality.name(), "PartialEq");
}
