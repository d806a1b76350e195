//! Human-readable labels of the transactions that commands produce.

use vstd::prelude::*;
use vstd::string::*;
use crate::util::{decimal, push_decimal};

verus! {

/// "`verb` `n` entity" or "`verb` `n` entities".
pub open spec fn entity_label(verb: Seq<char>, n: nat) -> Seq<char> {
    verb + " "@ + decimal(n) + " entit"@ + (if n == 1 { "y"@ } else { "ies"@ })
}

/// "`noun` (`n` `unit`)" with `unit` plural unless `n` is 1: "Line (1 segment)",
/// "Spline (3 points)".
pub open spec fn counted_label(noun: Seq<char>, n: nat, unit: Seq<char>) -> Seq<char> {
    noun + " ("@ + decimal(n) + " "@ + unit + (if n == 1 { ""@ } else { "s"@ }) + ")"@
}

/// The label of a transaction touching `n` entities, e.g. "Move 3 entities".
pub fn make_entity_label(verb: &str, n: usize) -> (s: String)
    ensures
        s@ == entity_label(verb@, n as nat),
{
    let mut s = String::from_str(verb);
    s.append(" ");
    push_decimal(&mut s, n as u64);
    s.append(" entit");
    if n == 1 {
        s.append("y");
    } else {
        s.append("ies");
    }
    s
}

/// The label of a transaction counting `n` parts, e.g. "Line (2 segments)".
pub fn make_counted_label(noun: &str, n: usize, unit: &str) -> (s: String)
    ensures
        s@ == counted_label(noun@, n as nat, unit@),
{
    let mut s = String::from_str(noun);
    s.append(" (");
    push_decimal(&mut s, n as u64);
    s.append(" ");
    s.append(unit);
    if n == 1 {
        s.append("");
    } else {
        s.append("s");
    }
    s.append(")");
    s
}

} // verus!
