use state_enum::declaration::Annotation;
use state_enum::declaration::EnumDeclaration;
use state_enum::declaration::Member;
use state_enum::declaration::MemberKind;
use state_enum::diagnostic::Diagnostic;
use state_enum::diagnostic::DiagnosticKind;
use state_enum::state_enum;
use state_enum::validate::validate;

fn member(identifier: &str, kind: MemberKind) -> Member {
    Member { identifier: identifier.to_string(), kind, annotations: Vec::new() }
}

fn declaration(members: Vec<Member>) -> EnumDeclaration<u32> {
    EnumDeclaration {
        name: "Light".to_string(),
        position: 17,
        annotations: Vec::new(),
        members,
    }
}

#[test]
fn empty_declaration_is_rejected() {
    let rejected = state_enum(declaration(Vec::new()));
    assert_eq!(rejected, Err(Diagnostic { kind: DiagnosticKind::EmptyEnum, position: 17 }));
}

#[test]
fn empty_declaration_fails_validation() {
    let rejected = validate(declaration(Vec::new()));
    assert_eq!(rejected, Err(Diagnostic { kind: DiagnosticKind::EmptyEnum, position: 17 }));
}

#[test]
fn positional_member_is_rejected_in_first_place() {
    let members = vec![
        member("Red", MemberKind::Positional),
        member("Amber", MemberKind::Unit),
        member("Green", MemberKind::Unit),
    ];
    let rejected = state_enum(declaration(members));
    assert_eq!(rejected, Err(Diagnostic { kind: DiagnosticKind::NonUnitVariant, position: 17 }));
}

#[test]
fn named_member_is_rejected_in_the_middle() {
    let members = vec![
        member("Red", MemberKind::Unit),
        member("Amber", MemberKind::Named),
        member("Green", MemberKind::Unit),
    ];
    let rejected = state_enum(declaration(members));
    assert_eq!(rejected, Err(Diagnostic { kind: DiagnosticKind::NonUnitVariant, position: 17 }));
}

#[test]
fn positional_member_is_rejected_in_last_place() {
    let members = vec![
        member("Red", MemberKind::Unit),
        member("Amber", MemberKind::Unit),
        member("Green", MemberKind::Positional),
    ];
    let rejected = state_enum(declaration(members));
    assert_eq!(rejected, Err(Diagnostic { kind: DiagnosticKind::NonUnitVariant, position: 17 }));
}

#[test]
fn sole_non_unit_member_is_rejected() {
    let rejected = validate(declaration(vec![member("Only", MemberKind::Named)]));
    assert_eq!(rejected, Err(Diagnostic { kind: DiagnosticKind::NonUnitVariant, position: 17 }));
}

#[test]
fn diagnostic_is_anchored_to_the_name() {
    let mut subject = declaration(vec![member("Red", MemberKind::Positional)]);
    subject.position = 4711;
    match state_enum(subject) {
        Err(diagnostic) => assert_eq!(diagnostic.position, 4711),
        Ok(_) => panic!("a member with associated data was accepted"),
    }
}

#[test]
fn messages_name_the_broken_rule() {
    let empty = Diagnostic { kind: DiagnosticKind::EmptyEnum, position: 0u8 };
    let non_unit = Diagnostic { kind: DiagnosticKind::NonUnitVariant, position: 0u8 };
    assert_eq!(empty.message(), "state enum must have at least one variant");
    assert_eq!(non_unit.message(), "only unit variants allowed in state enum");
}

#[test]
fn valid_declaration_comes_back_unchanged() {
    let mut annotated = member("Red", MemberKind::Unit);
    annotated.annotations.push(Annotation::Author("doc = \"stop\"".to_string()));
    let members = vec![annotated, member("Green", MemberKind::Unit)];
    let mut subject = declaration(members);
    subject.annotations.push("derive(Debug)".to_string());
    let expected = subject.clone();
    assert_eq!(validate(subject), Ok(expected));
}
