//! Augmentation: the canonical default and the baseline capabilities.

use vstd::prelude::*;
use crate::declaration::Annotation;
use crate::declaration::AnnotationModel;
use crate::declaration::DeclarationModel;
use crate::declaration::EnumDeclaration;
use crate::declaration::MemberModel;
use crate::validate::is_valid;

verus! {

/// A capability that the host environment is asked to derive for the
/// declaration as a whole.
#[derive(Clone, Copy, Debug, PartialEq, Eq, Structural)]
pub enum Capability {
    /// Values are duplicated by a shallow copy.
    ShallowCopy,
    /// Values can be cloned.
    Cloning,
    /// Default construction gives the member that carries the default marker.
    DefaultConstruction,
    /// Values are compared by structure.
    StructuralEquality,
}

/// The name under which the host environment derives a capability.
pub open spec fn capability_name(capability: Capability) -> Seq<char> {
    match capability {
        Capability::ShallowCopy => "Copy"@,
        Capability::Cloning => "Clone"@,
        Capability::DefaultConstruction => "Default"@,
        Capability::StructuralEquality => "PartialEq"@,
    }
}

impl Capability {
    /// The name under which the host environment derives the capability.
    pub fn name(&self) -> (name: &'static str)
        ensures
            name@ == capability_name(*self),
    {
        match self {
            Capability::ShallowCopy => "Copy",
            Capability::Cloning => "Clone",
            Capability::DefaultConstruction => "Default",
            Capability::StructuralEquality => "PartialEq",
        }
    }
}

/// The four capabilities that every expanded declaration asks for, in the
/// order in which they are requested.
pub open spec fn baseline_capabilities() -> Seq<Capability> {
    seq![
        Capability::ShallowCopy,
        Capability::Cloning,
        Capability::DefaultConstruction,
        Capability::StructuralEquality,
    ]
}

/// A declaration together with the capabilities requested for it.
#[derive(Clone, Debug, PartialEq, Eq)]
pub struct AugmentedDeclaration<P> {
    pub declaration: EnumDeclaration<P>,
    pub capabilities: Vec<Capability>,
}

/// Model of an [`AugmentedDeclaration`].
pub struct AugmentedModel<P> {
    pub declaration: DeclarationModel<P>,
    pub capabilities: Seq<Capability>,
}

impl<P> View for AugmentedDeclaration<P> {
    type V = AugmentedModel<P>;

    open spec fn view(&self) -> AugmentedModel<P> {
        AugmentedModel { declaration: self.declaration@, capabilities: self.capabilities@ }
    }
}

/// The member with the default marker appended to its annotations.
pub open spec fn marked_default(member: MemberModel) -> MemberModel {
    MemberModel {
        identifier: member.identifier,
        kind: member.kind,
        annotations: member.annotations.push(AnnotationModel::DefaultMarker),
    }
}

/// What augmentation makes of a declaration with at least one member: the
/// first member is marked as the default, every other member, the order,
/// the name, the position and the author's annotations stay as they are, and
/// the baseline capabilities are requested.
pub open spec fn augmented<P>(declaration: DeclarationModel<P>) -> AugmentedModel<P> {
    AugmentedModel {
        declaration: DeclarationModel {
            name: declaration.name,
            position: declaration.position,
            annotations: declaration.annotations,
            members: declaration.members.update(0, marked_default(declaration.members[0])),
        },
        capabilities: baseline_capabilities(),
    }
}

/// Marks the first member as the canonical default and requests the
/// baseline capabilities.
pub fn augment<P>(declaration: EnumDeclaration<P>) -> (result: AugmentedDeclaration<P>)
    requires
        is_valid(declaration@),
    ensures
        result@ == augmented(declaration@),
{
    let mut marked = declaration;
    marked.members[0].annotations.push(Annotation::DefaultMarker);
    let mut capabilities: Vec<Capability> = Vec::new();
    capabilities.push(Capability::ShallowCopy);
    capabilities.push(Capability::Cloning);
    capabilities.push(Capability::DefaultConstruction);
    capabilities.push(Capability::StructuralEquality);
    proof {
        let before = declaration@.members;
        assert(marked.members@[0]@.annotations =~= before[0].annotations.push(
            AnnotationModel::DefaultMarker,
        ));
        assert(marked@.members =~= before.update(0, marked_default(before[0])));
        assert(capabilities@ =~= baseline_capabilities());
    }
    AugmentedDeclaration { declaration: marked, capabilities }
}

} // verus!
