//! The expansion of a state enum: validation, augmentation and navigation
//! synthesis, one after the other.

use vstd::prelude::*;
use crate::augment::augment;
use crate::augment::augmented;
use crate::augment::baseline_capabilities;
use crate::augment::AugmentedDeclaration;
use crate::augment::AugmentedModel;
use crate::declaration::AnnotationModel;
use crate::declaration::DeclarationModel;
use crate::declaration::EnumDeclaration;
use crate::declaration::MemberKind;
use crate::declaration::MemberModel;
use crate::diagnostic::Diagnostic;
use crate::navigation::synthesize;
use crate::navigation::synthesized;
use crate::navigation::Navigation;
use crate::navigation::NavigationModel;
use crate::validate::is_valid;
use crate::validate::validate;
use crate::validate::violation;

verus! {

/// What a valid declaration expands to: the augmented declaration and the
/// navigation attached to its name.
#[derive(Clone, Debug, PartialEq, Eq)]
pub struct Expansion<P> {
    pub declaration: AugmentedDeclaration<P>,
    pub navigation: Navigation,
}

/// Model of an [`Expansion`].
pub struct ExpansionModel<P> {
    pub declaration: AugmentedModel<P>,
    pub navigation: NavigationModel,
}

impl<P> View for Expansion<P> {
    type V = ExpansionModel<P>;

    open spec fn view(&self) -> ExpansionModel<P> {
        ExpansionModel { declaration: self.declaration@, navigation: self.navigation@ }
    }
}

/// The expansion of a declaration with at least one member: the declaration
/// augmented, and the navigation of what augmentation made of it.
pub open spec fn expanded<P>(declaration: DeclarationModel<P>) -> ExpansionModel<P> {
    ExpansionModel {
        declaration: augmented(declaration),
        navigation: synthesized(augmented(declaration).declaration),
    }
}

/// The member carries the default marker.
pub open spec fn carries_default(member: MemberModel) -> bool {
    member.annotations.contains(AnnotationModel::DefaultMarker)
}

/// `ordinal` is that of the first member that carries the default marker:
/// the value that default construction gives.
pub open spec fn is_default_ordinal(members: Seq<MemberModel>, ordinal: int) -> bool {
    &&& 0 <= ordinal < members.len()
    &&& carries_default(members[ordinal])
    &&& forall|earlier: int| 0 <= earlier < ordinal ==> !carries_default(#[trigger] members[earlier])
}

impl<P> Expansion<P> {
    /// The members of the expanded declaration.
    pub open spec fn members(&self) -> Seq<MemberModel> {
        self@.declaration.declaration.members
    }

    /// The expansion is one of a valid declaration: its members are bare
    /// tags, the first of them carries the default marker, the baseline
    /// capabilities are requested, and the navigation is that of its
    /// declaration.
    pub open spec fn well_formed(&self) -> bool {
        &&& is_valid(self@.declaration.declaration)
        &&& carries_default(self.members()[0])
        &&& self@.declaration.capabilities == baseline_capabilities()
        &&& self@.navigation == synthesized(self@.declaration.declaration)
        &&& self.navigation.well_formed()
    }

    /// The ordinal of the value that default construction gives: that of the
    /// first declared member.
    pub fn default_value(&self) -> (ordinal: usize)
        requires
            self.well_formed(),
        ensures
            ordinal == 0,
            is_default_ordinal(self.members(), ordinal as int),
            ordinal < self@.navigation.table.len(),
    {
        0
    }
}

/// The first member of an expansion is the first declared member, and it is
/// the one that default construction gives; every later member is as it
/// was declared.
pub proof fn lemma_default_is_first<P>(declaration: DeclarationModel<P>)
    requires
        is_valid(declaration),
    ensures
        is_default_ordinal(expanded(declaration).declaration.declaration.members, 0),
        expanded(declaration).declaration.declaration.members[0].identifier
            == declaration.members[0].identifier,
        expanded(declaration).navigation.table[0] == declaration.members[0].identifier,
        forall|later: int|
            0 < later < declaration.members.len() ==> #[trigger] expanded(
                declaration,
            ).declaration.declaration.members[later] == declaration.members[later],
{
    let marked = expanded(declaration).declaration.declaration.members[0];
    let last = declaration.members[0].annotations.len() as int;
    assert(marked.annotations[last] == AnnotationModel::DefaultMarker);
}

/// Augmentation keeps a valid declaration valid, with the same number of
/// members and the same identifiers in the same order.
pub proof fn lemma_expansion_keeps_members<P>(declaration: DeclarationModel<P>)
    requires
        is_valid(declaration),
    ensures
        is_valid(augmented(declaration).declaration),
        expanded(declaration).navigation.table.len() == declaration.members.len(),
        forall|ordinal: int|
            0 <= ordinal < declaration.members.len() ==> #[trigger] expanded(
                declaration,
            ).navigation.table[ordinal] == declaration.members[ordinal].identifier,
{
    let after = augmented(declaration).declaration.members;
    assert forall|i: int| 0 <= i < after.len() implies (#[trigger] after[i]).kind
        == MemberKind::Unit by {
        assert(declaration.members[i].kind == MemberKind::Unit);
    }
}

/// Expands the declaration of a state enum. A valid declaration gives its
/// expansion; an invalid one gives the diagnostic of the first rule that it
/// breaks, anchored to the position of the enumeration's name, and nothing
/// else.
pub fn state_enum<P>(declaration: EnumDeclaration<P>) -> (result: Result<
    Expansion<P>,
    Diagnostic<P>,
>)
    ensures
        match result {
            Ok(expansion) => is_valid(declaration@) && expansion@ == expanded(declaration@)
                && expansion.well_formed(),
            Err(diagnostic) => violation(declaration@) == Some(diagnostic.kind)
                && diagnostic.position == declaration.position,
        },
{
    match validate(declaration) {
        Err(diagnostic) => Err(diagnostic),
        Ok(validated) => {
            let augmented_declaration = augment(validated);
            proof {
                lemma_expansion_keeps_members(declaration@);
                lemma_default_is_first(declaration@);
            }
            let navigation = synthesize(&augmented_declaration.declaration);
            Ok(Expansion { declaration: augmented_declaration, navigation })
        },
    }
}

} // verus!
