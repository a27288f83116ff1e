use crate::coverage::is_try_block;
use crate::dispatch::{
    index_arms, index_close, index_comma, index_dispatch, index_get, index_open,
    lemma_index_dispatch_text, lemma_try_dispatch_text, try_arms, try_block, try_dispatch,
    try_open,
};
use crate::literal::quoted;
use crate::rewrite::{rewritten, rewritten_part, rewritten_parts};
use crate::sites::{
    indexings, part_indexings, part_tries, parts_indexings, parts_tries, tries,
};
use crate::syntax::{SpecExpr, SpecPart};
use crate::text::render;
use vstd::prelude::*;

verus! {

/// How many guard blocks the expression holds: nodes of the shape that a
/// guarded `?` applies to.
pub open spec fn guards(expr: SpecExpr) -> nat
    decreases expr,
{
    match expr {
        SpecExpr::Try(inner) => guards(*inner),
        SpecExpr::Index(base, index) => guards(*base) + guards(*index),
        SpecExpr::Other(parts) => if is_try_block(expr) {
            1 + parts_guards(parts)
        } else {
            parts_guards(parts)
        },
    }
}

/// How many guard blocks one part holds.
pub open spec fn part_guards(part: SpecPart) -> nat
    decreases part,
{
    match part {
        SpecPart::Tokens(_) => 0,
        SpecPart::Sub(expr) => guards(expr),
    }
}

/// How many guard blocks a run of parts holds.
pub open spec fn parts_guards(parts: Seq<SpecPart>) -> nat
    decreases parts,
{
    if parts.len() == 0 {
        0
    } else {
        parts_guards(parts.drop_last()) + part_guards(parts.last())
    }
}

/// One more part at the end of a run adds what it holds to each count.
proof fn lemma_counts_of_push(parts: Seq<SpecPart>, part: SpecPart)
    ensures
        parts_tries(parts.push(part)) == parts_tries(parts) + part_tries(part),
        parts_indexings(parts.push(part)) == parts_indexings(parts) + part_indexings(part),
        parts_guards(parts.push(part)) == parts_guards(parts) + part_guards(part),
{
    assert(parts.push(part).drop_last() =~= parts);
}

/// A guard block holds what its operand holds, and is one guard more.
proof fn lemma_counts_of_try_block(inner: SpecExpr)
    ensures
        tries(try_block(inner)) == tries(inner),
        indexings(try_block(inner)) == indexings(inner),
        guards(try_block(inner)) == 1 + guards(inner),
{
    let parts = try_block(inner)->Other_0;
    let none = Seq::<SpecPart>::empty();
    assert(parts =~= none.push(parts[0]).push(parts[1]).push(parts[2]));
    lemma_counts_of_push(none, parts[0]);
    lemma_counts_of_push(none.push(parts[0]), parts[1]);
    lemma_counts_of_push(none.push(parts[0]).push(parts[1]), parts[2]);
}

/// A lookup holds what its two operands hold: the texts in its message
/// are tokens and count for nothing.
proof fn lemma_counts_of_index_dispatch(
    base: SpecExpr,
    index: SpecExpr,
    index_text: Seq<char>,
    base_text: Seq<char>,
)
    ensures
        tries(index_dispatch(base, index, index_text, base_text)) == tries(base) + tries(index),
        indexings(index_dispatch(base, index, index_text, base_text)) == indexings(base)
            + indexings(index),
        guards(index_dispatch(base, index, index_text, base_text)) == guards(base) + guards(
            index,
        ),
{
    let parts = index_dispatch(base, index, index_text, base_text)->Other_0;
    let s0 = Seq::<SpecPart>::empty();
    let s1 = s0.push(parts[0]);
    let s2 = s1.push(parts[1]);
    let s3 = s2.push(parts[2]);
    let s4 = s3.push(parts[3]);
    let s5 = s4.push(parts[4]);
    let s6 = s5.push(parts[5]);
    let s7 = s6.push(parts[6]);
    let s8 = s7.push(parts[7]);
    let s9 = s8.push(parts[8]);
    assert(parts =~= s9);
    lemma_counts_of_push(s0, parts[0]);
    lemma_counts_of_push(s1, parts[1]);
    lemma_counts_of_push(s2, parts[2]);
    lemma_counts_of_push(s3, parts[3]);
    lemma_counts_of_push(s4, parts[4]);
    lemma_counts_of_push(s5, parts[5]);
    lemma_counts_of_push(s6, parts[6]);
    lemma_counts_of_push(s7, parts[7]);
    lemma_counts_of_push(s8, parts[8]);
}

/// The pass adds no `?`, leaves no indexing, and builds one guard block for
/// each `?` that it was given: none is guarded twice.
pub proof fn lemma_rewritten_counts(expr: SpecExpr)
    ensures
        tries(rewritten(expr)) == tries(expr),
        indexings(rewritten(expr)) == 0,
        guards(rewritten(expr)) == guards(expr) + tries(expr),
    decreases expr,
{
    match expr {
        SpecExpr::Try(inner) => {
            lemma_rewritten_counts(*inner);
            lemma_counts_of_try_block(rewritten(*inner));
        },
        SpecExpr::Index(base, index) => {
            lemma_rewritten_counts(*base);
            lemma_rewritten_counts(*index);
            lemma_counts_of_index_dispatch(
                rewritten(*base),
                rewritten(*index),
                crate::text::render(*index),
                crate::text::render(*base),
            );
        },
        SpecExpr::Other(parts) => {
            lemma_rewritten_parts_counts(parts);
            let after = rewritten_parts(parts);
            if parts.len() == 3 {
                assert(after[0] == rewritten_part(parts[0]));
                assert(after[1] == rewritten_part(parts[1]));
                assert(after[2] == rewritten_part(parts[2]));
            }
            assert(is_try_block(SpecExpr::Other(after)) == is_try_block(expr));
        },
    }
}

/// The same, of a run of parts.
pub proof fn lemma_rewritten_parts_counts(parts: Seq<SpecPart>)
    ensures
        parts_tries(rewritten_parts(parts)) == parts_tries(parts),
        parts_indexings(rewritten_parts(parts)) == 0,
        parts_guards(rewritten_parts(parts)) == parts_guards(parts) + parts_tries(parts),
    decreases parts,
{
    if parts.len() > 0 {
        let after = rewritten_parts(parts);
        assert(after.drop_last() =~= rewritten_parts(parts.drop_last()));
        assert(after.last() == rewritten_part(parts.last()));
        lemma_rewritten_parts_counts(parts.drop_last());
        match parts.last() {
            SpecPart::Tokens(_) => {},
            SpecPart::Sub(expr) => {
                lemma_rewritten_counts(expr);
            },
        }
        assert(part_tries(after.last()) == part_tries(parts.last()));
        assert(part_indexings(after.last()) == 0);
        assert(parts_tries(after) == parts_tries(after.drop_last()) + part_tries(after.last()));
        assert(parts_indexings(after) == parts_indexings(after.drop_last()) + part_indexings(
            after.last(),
        ));
        assert(part_guards(after.last()) == part_guards(parts.last()) + part_tries(parts.last()));
        assert(parts_guards(after) == parts_guards(after.drop_last()) + part_guards(after.last()));
    } else {
        assert(rewritten_parts(parts) =~= parts);
    }
}

/// A tree without `?` and without indexing comes back as it was.
pub proof fn lemma_nothing_to_rewrite(expr: SpecExpr)
    requires
        tries(expr) == 0,
        indexings(expr) == 0,
    ensures
        rewritten(expr) == expr,
    decreases expr,
{
    match expr {
        SpecExpr::Try(_) => {},
        SpecExpr::Index(_, _) => {},
        SpecExpr::Other(parts) => {
            lemma_nothing_to_rewrite_in_parts(parts);
        },
    }
}

/// The same, of a run of parts.
pub proof fn lemma_nothing_to_rewrite_in_parts(parts: Seq<SpecPart>)
    requires
        parts_tries(parts) == 0,
        parts_indexings(parts) == 0,
    ensures
        rewritten_parts(parts) == parts,
    decreases parts,
{
    if parts.len() > 0 {
        assert(rewritten_parts(parts).drop_last() =~= rewritten_parts(parts.drop_last()));
        assert(parts_tries(parts) == parts_tries(parts.drop_last()) + part_tries(parts.last()));
        assert(parts_indexings(parts) == parts_indexings(parts.drop_last()) + part_indexings(
            parts.last(),
        ));
        lemma_nothing_to_rewrite_in_parts(parts.drop_last());
        match parts.last() {
            SpecPart::Tokens(_) => {},
            SpecPart::Sub(expr) => {
                lemma_nothing_to_rewrite(expr);
            },
        }
        assert(rewritten_part(parts.last()) == parts.last());
        assert(rewritten_parts(parts) =~= rewritten_parts(parts).drop_last().push(
            rewritten_part(parts.last()),
        ));
        assert(parts =~= parts.drop_last().push(parts.last()));
    } else {
        assert(rewritten_parts(parts) =~= parts);
    }
}

/// What is written for `inner?`: the opening of the guard, the rewritten
/// operand, the two arms, and the `?`.
pub proof fn lemma_rewritten_try_text(inner: SpecExpr)
    ensures
        render(rewritten(SpecExpr::Try(Box::new(inner)))) == try_open() + " "@ + render(
            rewritten(inner),
        ) + " "@ + try_arms() + "?"@,
{
    lemma_try_dispatch_text(rewritten(inner));
}

/// What is written for `base[index]`: a lookup with the rewritten operands,
/// whose message for a missing element has as its arguments the literal of
/// the text of `index`, then the literal of the text of `base`, both as
/// they were written.
pub proof fn lemma_rewritten_index_text(base: SpecExpr, index: SpecExpr)
    ensures
        render(rewritten(SpecExpr::Index(Box::new(base), Box::new(index)))) == index_open()
            + " "@ + render(rewritten(base)) + " "@ + index_get() + " "@ + render(
            rewritten(index),
        ) + " "@ + index_arms() + " "@ + quoted(render(index)) + " "@ + index_comma() + " "@
            + quoted(render(base)) + " "@ + index_close(),
{
    lemma_index_dispatch_text(rewritten(base), rewritten(index), render(index), render(base));
}

/// A `?` on an indexing is wrapped twice: the lookup inside, the guard
/// around it.
pub proof fn lemma_try_of_index(base: SpecExpr, index: SpecExpr)
    ensures
        rewritten(SpecExpr::Try(Box::new(SpecExpr::Index(Box::new(base), Box::new(index)))))
            == try_dispatch(
            index_dispatch(rewritten(base), rewritten(index), render(index), render(base)),
        ),
{
    let indexing = SpecExpr::Index(Box::new(base), Box::new(index));
    assert(rewritten(indexing) == index_dispatch(
        rewritten(base),
        rewritten(index),
        render(index),
        render(base),
    ));
}

} // verus!
