//! The diagnostics with which a declaration is rejected.

use vstd::prelude::*;

verus! {

/// Why a declaration is rejected.
#[derive(Clone, Copy, Debug, PartialEq, Eq, Structural)]
pub enum DiagnosticKind {
    /// The declaration has no member.
    EmptyEnum,
    /// Some member declares associated data.
    NonUnitVariant,
}

/// The message that goes with a kind of diagnostic.
pub open spec fn message_text(kind: DiagnosticKind) -> Seq<char> {
    match kind {
        DiagnosticKind::EmptyEnum => "state enum must have at least one variant"@,
        DiagnosticKind::NonUnitVariant => "only unit variants allowed in state enum"@,
    }
}

/// A rejection, anchored to a position in the source.
#[derive(Clone, Debug, PartialEq, Eq)]
pub struct Diagnostic<P> {
    pub kind: DiagnosticKind,
    pub position: P,
}

impl<P> Diagnostic<P> {
    /// The message to show to the author at the diagnostic's position.
    pub fn message(&self) -> (text: &'static str)
        ensures
            text@ == message_text(self.kind),
    {
        match self.kind {
            DiagnosticKind::EmptyEnum => "state enum must have at least one variant",
            DiagnosticKind::NonUnitVariant => "only unit variants allowed in state enum",
        }
    }
}

} // verus!
