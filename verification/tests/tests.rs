use state_enum::declaration::EnumDeclaration;
use state_enum::declaration::Member;
use state_enum::declaration::MemberKind;
use state_enum::expand::Expansion;
use state_enum::state_enum;

fn unit(identifier: &str) -> Member {
    Member { identifier: identifier.to_string(), kind: MemberKind::Unit, annotations: Vec::new() }
}

fn state() -> Expansion<(usize, usize)> {
    let declaration = EnumDeclaration {
        name: "State".to_string(),
        position: (6, 5),
        annotations: vec!["derive(Debug)".to_string()],
        members: vec![unit("A"), unit("B"), unit("C")],
    };
    state_enum(declaration).unwrap()
}

#[test]
fn test() {
    let state = state();
    let all = &state.navigation;
    let s = state.default_value();

    assert_eq!(all.member(s), "A");
    assert_eq!(all.member(all.next(s)), "B");
    assert_eq!(all.member(all.next(all.next(s))), "C");
    assert_eq!(all.member(all.next(all.next(all.next(s)))), "A");

    assert_eq!(all.member(s), "A");
    assert_eq!(all.member(all.previous(s)), "C");
    assert_eq!(all.member(all.previous(all.previous(s))), "B");
    assert_eq!(all.member(all.previous(all.previous(all.previous(s)))), "A");
}
