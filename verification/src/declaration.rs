//! The declaration of an enumeration, as the expansion reads it, and its
//! mathematical model.

use vstd::prelude::*;

verus! {

/// What a member declares beside its identifier.
#[derive(Clone, Copy, Debug, PartialEq, Eq, Structural)]
pub enum MemberKind {
    /// A bare tag: no associated data.
    Unit,
    /// Associated data in positional fields.
    Positional,
    /// Associated data in named fields.
    Named,
}

/// An annotation on a member.
#[derive(Clone, Debug, PartialEq, Eq)]
pub enum Annotation {
    /// One that the author wrote, kept as its text.
    Author(String),
    /// The marker of the canonical default.
    DefaultMarker,
}

/// Model of an [`Annotation`].
pub enum AnnotationModel {
    Author(Seq<char>),
    DefaultMarker,
}

impl View for Annotation {
    type V = AnnotationModel;

    open spec fn view(&self) -> AnnotationModel {
        match self {
            Annotation::Author(text) => AnnotationModel::Author(text@),
            Annotation::DefaultMarker => AnnotationModel::DefaultMarker,
        }
    }
}

/// One member of an enumeration.
#[derive(Clone, Debug, PartialEq, Eq)]
pub struct Member {
    pub identifier: String,
    pub kind: MemberKind,
    pub annotations: Vec<Annotation>,
}

/// Model of a [`Member`].
pub struct MemberModel {
    pub identifier: Seq<char>,
    pub kind: MemberKind,
    pub annotations: Seq<AnnotationModel>,
}

impl View for Member {
    type V = MemberModel;

    open spec fn view(&self) -> MemberModel {
        MemberModel {
            identifier: self.identifier@,
            kind: self.kind,
            annotations: self.annotations@.map_values(|a: Annotation| a@),
        }
    }
}

/// The declaration of an enumeration: its name, the position of that name
/// in the source, the annotations that the author put on the whole
/// declaration, and its members in declaration order.
///
/// `P` is whatever the caller uses to say where in the source something
/// stands; the library only carries it.
#[derive(Clone, Debug, PartialEq, Eq)]
pub struct EnumDeclaration<P> {
    pub name: String,
    pub position: P,
    pub annotations: Vec<String>,
    pub members: Vec<Member>,
}

/// Model of an [`EnumDeclaration`].
pub struct DeclarationModel<P> {
    pub name: Seq<char>,
    pub position: P,
    pub annotations: Seq<Seq<char>>,
    pub members: Seq<MemberModel>,
}

impl<P> View for EnumDeclaration<P> {
    type V = DeclarationModel<P>;

    open spec fn view(&self) -> DeclarationModel<P> {
        DeclarationModel {
            name: self.name@,
            position: self.position,
            annotations: self.annotations@.map_values(|a: String| a@),
            members: self.members@.map_values(|m: Member| m@),
        }
    }
}

/// The identifiers of the members, in declaration order.
pub open spec fn identifiers(members: Seq<MemberModel>) -> Seq<Seq<char>> {
    members.map_values(|m: MemberModel| m.identifier)
}

} // verus!
