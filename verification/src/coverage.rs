use crate::dispatch::{try_arms, try_arms_text, try_block, try_open, try_open_text};
use crate::rewrite::{rewritten, rewritten_parts};
use crate::syntax::{parts_view, Expr, Part, SpecExpr, SpecPart};
use vstd::prelude::*;

verus! {

/// Whether `expr` has the shape of the block that a guarded `?` applies to:
/// the opening tokens, one sub-expression, the two arms.
pub open spec fn is_try_block(expr: SpecExpr) -> bool {
    &&& expr matches SpecExpr::Other(parts)
    &&& parts.len() == 3
    &&& parts[0] == SpecPart::Tokens(try_open())
    &&& parts[1] is Sub
    &&& parts[2] == SpecPart::Tokens(try_arms())
}

/// Whether nothing is left to rewrite in `expr`: every `?` in it applies to
/// such a block, and it holds no indexing.
pub open spec fn wrapped(expr: SpecExpr) -> bool
    decreases expr,
{
    match expr {
        SpecExpr::Try(operand) => is_try_block(*operand) && wrapped(*operand),
        SpecExpr::Index(_, _) => false,
        SpecExpr::Other(parts) => parts_wrapped(parts),
    }
}

/// Whether nothing is left to rewrite in one part.
pub open spec fn part_wrapped(part: SpecPart) -> bool
    decreases part,
{
    match part {
        SpecPart::Tokens(_) => true,
        SpecPart::Sub(expr) => wrapped(expr),
    }
}

/// Whether nothing is left to rewrite in a run of parts.
pub open spec fn parts_wrapped(parts: Seq<SpecPart>) -> bool
    decreases parts,
{
    forall|i: int| 0 <= i < parts.len() ==> part_wrapped(#[trigger] parts[i])
}

fn holds_tokens(part: &Part, text: &str) -> (yes: bool)
    ensures
        yes == (part@ == SpecPart::Tokens(text@)),
{
    match part {
        Part::Tokens(tokens) => {
            let wanted = String::from_str(text);
            tokens.eq(&wanted)
        },
        Part::Sub(_) => false,
    }
}

fn holds_sub(part: &Part) -> (yes: bool)
    ensures
        yes == (part@ is Sub),
{
    match part {
        Part::Tokens(_) => false,
        Part::Sub(_) => true,
    }
}

impl Expr {
    /// Says whether the expression has the shape of the block that a
    /// guarded `?` applies to.
    pub fn is_try_block(&self) -> (yes: bool)
        ensures
            yes == is_try_block(self@),
    {
        match self {
            Expr::Other(parts) => {
                assert(self@->Other_0 == parts_view(parts@));
                if parts.len() != 3 {
                    return false;
                }
                let opens = holds_tokens(&parts[0], try_open_text());
                let holds = holds_sub(&parts[1]);
                let closes = holds_tokens(&parts[2], try_arms_text());
                opens && holds && closes
            },
            _ => false,
        }
    }

    /// Says whether nothing is left to rewrite in the expression.
    pub fn is_wrapped(&self) -> (yes: bool)
        ensures
            yes == wrapped(self@),
        decreases self,
    {
        match self {
            Expr::Try(operand) => operand.is_try_block() && operand.is_wrapped(),
            Expr::Index(_, _) => false,
            Expr::Other(parts) => parts_are_wrapped(parts),
        }
    }
}

impl Part {
    /// Says whether nothing is left to rewrite in the part.
    pub fn is_wrapped(&self) -> (yes: bool)
        ensures
            yes == part_wrapped(self@),
        decreases self,
    {
        match self {
            Part::Tokens(_) => true,
            Part::Sub(expr) => expr.is_wrapped(),
        }
    }
}

/// Says whether nothing is left to rewrite in a run of parts.
pub fn parts_are_wrapped(parts: &Vec<Part>) -> (yes: bool)
    ensures
        yes == parts_wrapped(parts_view(parts@)),
    decreases parts,
{
    let mut i: usize = 0;
    while i < parts.len()
        invariant
            i <= parts.len(),
            forall|j: int| 0 <= j < i ==> part_wrapped(#[trigger] parts_view(parts@)[j]),
        decreases parts.len() - i,
    {
        if !parts[i].is_wrapped() {
            assert(!part_wrapped(parts_view(parts@)[i as int]));
            return false;
        }
        i += 1;
    }
    true
}

/// One pass leaves nothing to rewrite: in the tree that it gives, every `?`
/// is a guarded one and no indexing is left.
pub proof fn lemma_rewritten_is_wrapped(expr: SpecExpr)
    ensures
        wrapped(rewritten(expr)),
    decreases expr,
{
    match expr {
        SpecExpr::Try(inner) => {
            lemma_rewritten_is_wrapped(*inner);
            let block = try_block(rewritten(*inner));
            assert(parts_wrapped(block->Other_0));
            assert(wrapped(block));
        },
        SpecExpr::Index(base, index) => {
            lemma_rewritten_is_wrapped(*base);
            lemma_rewritten_is_wrapped(*index);
            assert(parts_wrapped(rewritten(expr)->Other_0));
        },
        SpecExpr::Other(parts) => {
            lemma_rewritten_parts_are_wrapped(parts);
        },
    }
}

/// The same, of a run of parts.
pub proof fn lemma_rewritten_parts_are_wrapped(parts: Seq<SpecPart>)
    ensures
        parts_wrapped(rewritten_parts(parts)),
    decreases parts,
{
    assert forall|i: int| 0 <= i < parts.len() implies part_wrapped(
        #[trigger] rewritten_parts(parts)[i],
    ) by {
        match parts[i] {
            SpecPart::Tokens(_) => {},
            SpecPart::Sub(expr) => {
                lemma_rewritten_is_wrapped(expr);
            },
        }
    }
}

} // verus!
