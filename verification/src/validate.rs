//! Structural validation: which declarations can be expanded.

use vstd::prelude::*;
use crate::declaration::DeclarationModel;
use crate::declaration::EnumDeclaration;
use crate::declaration::MemberKind;
use crate::declaration::MemberModel;
use crate::diagnostic::Diagnostic;
use crate::diagnostic::DiagnosticKind;

verus! {

/// Every member is a bare tag.
pub open spec fn all_unit(members: Seq<MemberModel>) -> bool {
    forall|i: int| 0 <= i < members.len() ==> (#[trigger] members[i]).kind == MemberKind::Unit
}

/// The rule that a declaration breaks, if it breaks one. A declaration
/// without members breaks the first rule, whatever else holds of it; one
/// with a member that declares associated data, at any place among its
/// members, breaks the second.
pub open spec fn violation<P>(declaration: DeclarationModel<P>) -> Option<DiagnosticKind> {
    if declaration.members.len() == 0 {
        Some(DiagnosticKind::EmptyEnum)
    } else if !all_unit(declaration.members) {
        Some(DiagnosticKind::NonUnitVariant)
    } else {
        None
    }
}

/// A declaration that can be expanded: it has a member, and all its members
/// are bare tags.
pub open spec fn is_valid<P>(declaration: DeclarationModel<P>) -> bool {
    violation(declaration) is None
}

/// A declaration without members breaks the rule of non-emptiness.
pub proof fn lemma_empty_is_rejected<P>(declaration: DeclarationModel<P>)
    requires
        declaration.members.len() == 0,
    ensures
        violation(declaration) == Some(DiagnosticKind::EmptyEnum),
{
}

/// A member that declares associated data makes its declaration break the
/// rule of bare tags, at whatever place among the members it stands.
pub proof fn lemma_non_unit_is_rejected<P>(declaration: DeclarationModel<P>, place: int)
    requires
        0 <= place < declaration.members.len(),
        declaration.members[place].kind != MemberKind::Unit,
    ensures
        violation(declaration) == Some(DiagnosticKind::NonUnitVariant),
{
}

/// Decides whether a declaration can be expanded. A valid one comes back
/// as it was given; an invalid one is turned into the diagnostic of the first
/// rule that it breaks, anchored to the position of the enumeration's name.
pub fn validate<P>(declaration: EnumDeclaration<P>) -> (result: Result<
    EnumDeclaration<P>,
    Diagnostic<P>,
>)
    ensures
        match result {
            Ok(validated) => is_valid(declaration@) && validated == declaration,
            Err(diagnostic) => violation(declaration@) == Some(diagnostic.kind)
                && diagnostic.position == declaration.position,
        },
{
    let count: usize = declaration.members.len();
    if count == 0 {
        return Err(Diagnostic { kind: DiagnosticKind::EmptyEnum, position: declaration.position });
    }
    let mut checked: usize = 0;
    while checked < count
        invariant
            checked <= count,
            count == declaration.members@.len(),
            forall|i: int| 0 <= i < checked ==> declaration.members@[i].kind == MemberKind::Unit,
        decreases count - checked,
    {
        match declaration.members[checked].kind {
            MemberKind::Unit => {},
            _ => {
                assert(declaration@.members[checked as int].kind != MemberKind::Unit);
                return Err(
                    Diagnostic {
                        kind: DiagnosticKind::NonUnitVariant,
                        position: declaration.position,
                    },
                );
            },
        }
        checked += 1;
    }
    assert forall|i: int| 0 <= i < declaration@.members.len() implies (#[trigger] declaration@
        .members[i]).kind == MemberKind::Unit by {
        assert(declaration@.members[i] == declaration.members@[i]@);
    }
    Ok(declaration)
}

} // verus!
