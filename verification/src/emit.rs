//! Emission: the source text of the block that attaches the table and the
//! two traversal operations to the enumeration's name.

use vstd::prelude::*;
use vstd::string::StringExecFns;
use crate::navigation::Navigation;
use crate::navigation::NavigationModel;
use crate::navigation::RuleModel;
use crate::navigation::TraversalRule;

verus! {

/// The numeral of a digit.
pub open spec fn digit_text(digit: nat) -> Seq<char> {
    if digit == 0 {
        "0"@
    } else if digit == 1 {
        "1"@
    } else if digit == 2 {
        "2"@
    } else if digit == 3 {
        "3"@
    } else if digit == 4 {
        "4"@
    } else if digit == 5 {
        "5"@
    } else if digit == 6 {
        "6"@
    } else if digit == 7 {
        "7"@
    } else if digit == 8 {
        "8"@
    } else {
        "9"@
    }
}

/// The decimal numeral of a number, without leading zeros.
pub open spec fn decimal(number: nat) -> Seq<char>
    decreases number,
{
    if number < 10 {
        digit_text(number)
    } else {
        decimal(number / 10) + digit_text(number % 10)
    }
}

/// The entries of the table as they are written between the brackets: each
/// identifier qualified by `Self`, in order, separated by commas.
pub open spec fn entries_source(table: Seq<Seq<char>>) -> Seq<char>
    decreases table.len(),
{
    if table.len() == 0 {
        Seq::empty()
    } else if table.len() == 1 {
        "Self::"@ + table[0]
    } else {
        entries_source(table.drop_last()) + ", "@ + "Self::"@ + table.last()
    }
}

/// The source of one traversal operation: a method of the given name that
/// takes a value to the table's entry at its ordinal shifted by the rule.
pub open spec fn operation_source(name: Seq<char>, rule: RuleModel) -> Seq<char> {
    "    pub fn "@ + name + "(self) -> Self {\n        Self::ALL[(self as usize + "@ + decimal(
        rule.offset,
    ) + ") % "@ + decimal(rule.modulus) + "]\n    }\n"@
}

/// The source of the whole block: the table `ALL` of all members, then
/// `next` and `previous`.
pub open spec fn navigation_source(navigation: NavigationModel) -> Seq<char> {
    "impl "@ + navigation.owner + " {\n    const ALL: [Self; "@ + decimal(navigation.table.len())
        + "] = ["@ + entries_source(navigation.table) + "];\n\n"@ + operation_source(
        "next"@,
        navigation.next,
    ) + "\n"@ + operation_source("previous"@, navigation.previous) + "}\n"@
}

fn digit(value: usize) -> (text: &'static str)
    requires
        value < 10,
    ensures
        text@ == digit_text(value as nat),
{
    if value == 0 {
        "0"
    } else if value == 1 {
        "1"
    } else if value == 2 {
        "2"
    } else if value == 3 {
        "3"
    } else if value == 4 {
        "4"
    } else if value == 5 {
        "5"
    } else if value == 6 {
        "6"
    } else if value == 7 {
        "7"
    } else if value == 8 {
        "8"
    } else {
        "9"
    }
}

/// Writes a number as its decimal numeral.
pub fn decimal_text(number: usize) -> (text: String)
    ensures
        text@ == decimal(number as nat),
    decreases number,
{
    if number < 10 {
        String::from_str(digit(number))
    } else {
        let mut text = decimal_text(number / 10);
        text.append(digit(number % 10));
        text
    }
}

fn entries_text(table: &Vec<String>) -> (text: String)
    ensures
        text@ == entries_source(table@.map_values(|entry: String| entry@)),
{
    let ghost entries = table@.map_values(|entry: String| entry@);
    let mut text = String::new();
    let mut written: usize = 0;
    while written < table.len()
        invariant
            written <= table@.len(),
            entries == table@.map_values(|entry: String| entry@),
            text@ == entries_source(entries.take(written as int)),
        decreases table@.len() - written,
    {
        proof {
            let until = entries.take(written + 1);
            assert(until.drop_last() =~= entries.take(written as int));
            assert(until.last() == table@[written as int]@);
        }
        if written > 0 {
            text.append(", ");
        }
        text.append("Self::");
        text.append(table[written].as_str());
        written += 1;
    }
    proof {
        assert(entries.take(written as int) =~= entries);
    }
    text
}

fn operation_text(name: &str, rule: &TraversalRule) -> (text: String)
    ensures
        text@ == operation_source(name@, rule@),
{
    let mut text = String::from_str("    pub fn ");
    text.append(name);
    text.append("(self) -> Self {\n        Self::ALL[(self as usize + ");
    text.append(decimal_text(rule.offset).as_str());
    text.append(") % ");
    text.append(decimal_text(rule.modulus).as_str());
    text.append("]\n    }\n");
    text
}

impl Navigation {
    /// Emits the block that attaches the table and the two traversal
    /// operations to the enumeration's name, as source text.
    pub fn emit(&self) -> (text: String)
        ensures
            text@ == navigation_source(self@),
    {
        let mut text = String::from_str("impl ");
        text.append(self.owner.as_str());
        text.append(" {\n    const ALL: [Self; ");
        text.append(decimal_text(self.table.len()).as_str());
        text.append("] = [");
        text.append(entries_text(&self.table).as_str());
        text.append("];\n\n");
        text.append(operation_text("next", &self.next).as_str());
        text.append("\n");
        text.append(operation_text("previous", &self.previous).as_str());
        text.append("}\n");
        text
    }
}

} // verus!
