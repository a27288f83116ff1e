use crate::syntax::{SpecExpr, SpecPart};
use vstd::prelude::*;

verus! {

/// How many `?` the expression holds.
pub open spec fn tries(expr: SpecExpr) -> nat
    decreases expr,
{
    match expr {
        SpecExpr::Try(inner) => 1 + tries(*inner),
        SpecExpr::Index(base, index) => tries(*base) + tries(*index),
        SpecExpr::Other(parts) => parts_tries(parts),
    }
}

/// How many `?` one part holds.
pub open spec fn part_tries(part: SpecPart) -> nat
    decreases part,
{
    match part {
        SpecPart::Tokens(_) => 0,
        SpecPart::Sub(expr) => tries(expr),
    }
}

/// How many `?` a run of parts holds.
pub open spec fn parts_tries(parts: Seq<SpecPart>) -> nat
    decreases parts,
{
    if parts.len() == 0 {
        0
    } else {
        parts_tries(parts.drop_last()) + part_tries(parts.last())
    }
}

/// How many indexings the expression holds.
pub open spec fn indexings(expr: SpecExpr) -> nat
    decreases expr,
{
    match expr {
        SpecExpr::Try(inner) => indexings(*inner),
        SpecExpr::Index(base, index) => 1 + indexings(*base) + indexings(*index),
        SpecExpr::Other(parts) => parts_indexings(parts),
    }
}

/// How many indexings one part holds.
pub open spec fn part_indexings(part: SpecPart) -> nat
    decreases part,
{
    match part {
        SpecPart::Tokens(_) => 0,
        SpecPart::Sub(expr) => indexings(expr),
    }
}

/// How many indexings a run of parts holds.
pub open spec fn parts_indexings(parts: Seq<SpecPart>) -> nat
    decreases parts,
{
    if parts.len() == 0 {
        0
    } else {
        parts_indexings(parts.drop_last()) + part_indexings(parts.last())
    }
}

/// A run holds at least what any one of its parts holds.
pub proof fn lemma_part_counts_in_run(parts: Seq<SpecPart>, i: int)
    requires
        0 <= i < parts.len(),
    ensures
        part_tries(parts[i]) <= parts_tries(parts),
        part_indexings(parts[i]) <= parts_indexings(parts),
    decreases parts.len(),
{
    if i < parts.len() - 1 {
        lemma_part_counts_in_run(parts.drop_last(), i);
    }
}

} // verus!
