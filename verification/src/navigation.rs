//! Navigation synthesis: the table of all members in declaration order and
//! the two traversal rules that step through it with wraparound.

use vstd::prelude::*;
use crate::cycle::predecessor;
use crate::cycle::shift;
use crate::cycle::shifted;
use crate::cycle::successor;
use crate::declaration::identifiers;
use crate::declaration::DeclarationModel;
use crate::declaration::EnumDeclaration;

verus! {

/// A traversal operation of the expanded enumeration: the value with ordinal
/// `i` is taken to the table's entry at `(i + offset) mod modulus`.
#[derive(Clone, Copy, Debug, PartialEq, Eq, Structural)]
pub struct TraversalRule {
    pub offset: usize,
    pub modulus: usize,
}

/// Model of a [`TraversalRule`].
pub struct RuleModel {
    pub offset: nat,
    pub modulus: nat,
}

impl View for TraversalRule {
    type V = RuleModel;

    open spec fn view(&self) -> RuleModel {
        RuleModel { offset: self.offset as nat, modulus: self.modulus as nat }
    }
}

impl TraversalRule {
    /// The rule shifts by at most one turn through a cycle that has a
    /// position.
    pub open spec fn well_formed(&self) -> bool {
        0 < self.modulus && self.offset <= self.modulus
    }

    /// The ordinal that the rule takes `ordinal` to.
    pub open spec fn landing(&self, ordinal: int) -> int {
        shifted(ordinal, self.offset as int, self.modulus as int)
    }

    /// Applies the rule to the ordinal of a value.
    pub fn apply(&self, ordinal: usize) -> (landing: usize)
        requires
            self.well_formed(),
            ordinal < self.modulus,
        ensures
            landing == self.landing(ordinal as int),
            landing < self.modulus,
    {
        shift(ordinal, self.offset, self.modulus)
    }
}

/// The rule of `next` for an enumeration of `count` members.
pub open spec fn forward_rule(count: nat) -> RuleModel {
    RuleModel { offset: 1, modulus: count }
}

/// The rule of `previous` for an enumeration of `count` members: a shift by
/// `count - 1`, which is one step back without a negative number.
pub open spec fn backward_rule(count: nat) -> RuleModel {
    RuleModel { offset: (count - 1) as nat, modulus: count }
}

/// What is synthesized for an enumeration: the table of its members and the
/// rules of its two traversal operations.
#[derive(Clone, Debug, PartialEq, Eq)]
pub struct Navigation {
    /// The name of the enumeration that the operations are attached to.
    pub owner: String,
    /// The identifiers of all members, in declaration order.
    pub table: Vec<String>,
    /// The rule of `next`.
    pub next: TraversalRule,
    /// The rule of `previous`.
    pub previous: TraversalRule,
}

/// Model of a [`Navigation`].
pub struct NavigationModel {
    pub owner: Seq<char>,
    pub table: Seq<Seq<char>>,
    pub next: RuleModel,
    pub previous: RuleModel,
}

/// The navigation of a declaration: the table holds the members' identifiers
/// in declaration order, `next` shifts by one and `previous` by one less than
/// the number of members, both modulo that number.
pub open spec fn synthesized<P>(declaration: DeclarationModel<P>) -> NavigationModel {
    NavigationModel {
        owner: declaration.name,
        table: identifiers(declaration.members),
        next: forward_rule(declaration.members.len()),
        previous: backward_rule(declaration.members.len()),
    }
}

impl View for Navigation {
    type V = NavigationModel;

    open spec fn view(&self) -> NavigationModel {
        NavigationModel {
            owner: self.owner@,
            table: self.table@.map_values(|entry: String| entry@),
            next: self.next@,
            previous: self.previous@,
        }
    }
}

impl Navigation {
    /// The table has an entry, and the two rules are those of a table of its
    /// length.
    pub open spec fn well_formed(&self) -> bool {
        &&& self.table@.len() > 0
        &&& self.next@ == forward_rule(self.table@.len())
        &&& self.previous@ == backward_rule(self.table@.len())
    }

    /// The number of values, which is the length of the table.
    pub fn len(&self) -> (count: usize)
        ensures
            count == self@.table.len(),
    {
        self.table.len()
    }

    /// The identifier of the member with the given ordinal.
    pub fn member(&self, ordinal: usize) -> (identifier: &String)
        requires
            ordinal < self@.table.len(),
        ensures
            identifier@ == self@.table[ordinal as int],
    {
        &self.table[ordinal]
    }

    /// The ordinal of the value after the one with the given ordinal; after
    /// the last comes the first.
    pub fn next(&self, ordinal: usize) -> (following: usize)
        requires
            self.well_formed(),
            ordinal < self@.table.len(),
        ensures
            following == successor(self@.table.len() as int, ordinal as int),
            following < self@.table.len(),
    {
        self.next.apply(ordinal)
    }

    /// The ordinal of the value before the one with the given ordinal;
    /// before the first comes the last.
    pub fn previous(&self, ordinal: usize) -> (preceding: usize)
        requires
            self.well_formed(),
            ordinal < self@.table.len(),
        ensures
            preceding == predecessor(self@.table.len() as int, ordinal as int),
            preceding < self@.table.len(),
    {
        self.previous.apply(ordinal)
    }
}

/// Builds the navigation of a declaration that has at least one member.
pub fn synthesize<P>(declaration: &EnumDeclaration<P>) -> (navigation: Navigation)
    requires
        declaration@.members.len() > 0,
    ensures
        navigation@ == synthesized(declaration@),
        navigation.well_formed(),
{
    let count: usize = declaration.members.len();
    let mut table: Vec<String> = Vec::new();
    let mut entered: usize = 0;
    while entered < count
        invariant
            entered <= count,
            count == declaration.members@.len(),
            table@.len() == entered,
            forall|i: int| 0 <= i < entered ==> table@[i]@ == declaration.members@[i].identifier@,
        decreases count - entered,
    {
        table.push(declaration.members[entered].identifier.clone());
        entered += 1;
    }
    let navigation = Navigation {
        owner: declaration.name.clone(),
        table,
        next: TraversalRule { offset: 1, modulus: count },
        previous: TraversalRule { offset: count - 1, modulus: count },
    };
    proof {
        assert(navigation@.table =~= identifiers(declaration@.members));
    }
    navigation
}

/// The table's entry at each ordinal is the identifier of the member that
/// was declared at that place.
pub proof fn lemma_order_preserved<P>(declaration: DeclarationModel<P>, ordinal: int)
    requires
        0 <= ordinal < declaration.members.len(),
    ensures
        synthesized(declaration).table.len() == declaration.members.len(),
        synthesized(declaration).table[ordinal] == declaration.members[ordinal].identifier,
{
}

} // verus!
