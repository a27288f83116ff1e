use crate::coverage::{
    lemma_rewritten_is_wrapped, lemma_rewritten_parts_are_wrapped, part_wrapped, parts_wrapped,
    wrapped,
};
use crate::dispatch::{index_dispatch, try_dispatch};
use crate::parser::is_expression;
use crate::sites::{
    indexings, lemma_part_counts_in_run, part_indexings, part_tries, parts_indexings,
    parts_tries, tries,
};
use crate::syntax::{parts_view, Expr, Part, SpecExpr, SpecPart};
use crate::text::render;
use vstd::prelude::*;

verus! {

/// Why a rewrite stopped: the parser did not take what was built for one
/// node as an expression. The operands stand in parentheses there, so this
/// tells of an operand whose tokens are no expression.
#[derive(Debug, PartialEq, Eq, Structural, Clone, Copy)]
pub enum RewriteError {
    /// The dispatch built for a `?` does not parse.
    TryDispatch,
    /// The lookup built for an indexing does not parse.
    IndexDispatch,
}

/// The tree after the pass. Every `?` and every indexing is replaced by its
/// dispatch, innermost first: what a dispatch holds as sub-expressions are
/// the rewritten operands, and the message of a lookup names the operands
/// by their text as they were written. Every other node keeps its tokens
/// and has its sub-expressions rewritten.
pub open spec fn rewritten(expr: SpecExpr) -> SpecExpr
    decreases expr,
{
    match expr {
        SpecExpr::Try(inner) => try_dispatch(rewritten(*inner)),
        SpecExpr::Index(base, index) => index_dispatch(
            rewritten(*base),
            rewritten(*index),
            render(*index),
            render(*base),
        ),
        SpecExpr::Other(parts) => SpecExpr::Other(rewritten_parts(parts)),
    }
}

/// One part after the pass: tokens stay, a sub-expression is rewritten.
pub open spec fn rewritten_part(part: SpecPart) -> SpecPart
    decreases part,
{
    match part {
        SpecPart::Tokens(text) => SpecPart::Tokens(text),
        SpecPart::Sub(expr) => SpecPart::Sub(rewritten(expr)),
    }
}

/// A run of parts after the pass: as many parts, each rewritten in place.
pub open spec fn rewritten_parts(parts: Seq<SpecPart>) -> Seq<SpecPart>
    decreases parts,
{
    Seq::new(
        parts.len(),
        |i: int|
            if 0 <= i < parts.len() {
                rewritten_part(parts[i])
            } else {
                SpecPart::Tokens(Seq::empty())
            },
    )
}

/// Decides on one replacement, given what the parser said of its text: the
/// replacement where it parsed, `otherwise` where it did not.
pub fn settle(replacement: Expr, parsed: bool, otherwise: RewriteError) -> (outcome: Result<
    Expr,
    RewriteError,
>)
    ensures
        parsed ==> outcome == Ok::<Expr, RewriteError>(replacement),
        !parsed ==> outcome == Err::<Expr, RewriteError>(otherwise),
{
    if parsed {
        Ok(replacement)
    } else {
        Err(otherwise)
    }
}

impl Expr {
    /// Rewrites the expression. Each replacement is shown to the parser as
    /// it is built, operands first and from left to right, and the first
    /// that it refuses ends the pass with the error of its kind.
    ///
    /// Whatever the parser answers: what comes back on success is the tree
    /// of [`rewritten`], in which nothing is left to rewrite; a refused
    /// guard is reported only of a tree that holds a `?`, a refused lookup
    /// only of one that holds an indexing; and a tree that holds neither
    /// always comes back.
    pub fn rewrite(&self) -> (outcome: Result<Expr, RewriteError>)
        ensures
            match outcome {
                Ok(expr) => expr@ == rewritten(self@) && wrapped(expr@),
                Err(RewriteError::TryDispatch) => tries(self@) > 0,
                Err(RewriteError::IndexDispatch) => indexings(self@) > 0,
            },
            tries(self@) == 0 && indexings(self@) == 0 ==> outcome is Ok,
        decreases self,
    {
        proof {
            lemma_rewritten_is_wrapped(self@);
        }
        match self {
            Expr::Try(inner) => {
                let inner = match inner.rewrite() {
                    Ok(inner) => inner,
                    Err(error) => {
                        return Err(error);
                    },
                };
                let replacement = Expr::try_dispatch(inner);
                let text = replacement.to_text();
                let parsed = is_expression(text.as_str());
                settle(replacement, parsed, RewriteError::TryDispatch)
            },
            Expr::Index(base, index) => {
                let base_text = base.to_text();
                let index_text = index.to_text();
                let base = match base.rewrite() {
                    Ok(base) => base,
                    Err(error) => {
                        return Err(error);
                    },
                };
                let index = match index.rewrite() {
                    Ok(index) => index,
                    Err(error) => {
                        return Err(error);
                    },
                };
                let replacement = Expr::index_dispatch(
                    base,
                    index,
                    index_text.as_str(),
                    base_text.as_str(),
                );
                let text = replacement.to_text();
                let parsed = is_expression(text.as_str());
                settle(replacement, parsed, RewriteError::IndexDispatch)
            },
            Expr::Other(parts) => match rewrite_parts(parts) {
                Ok(parts) => Ok(Expr::Other(parts)),
                Err(error) => Err(error),
            },
        }
    }
}

impl Part {
    /// Rewrites the sub-expression of a part; tokens are copied.
    pub fn rewrite(&self) -> (outcome: Result<Part, RewriteError>)
        ensures
            match outcome {
                Ok(part) => part@ == rewritten_part(self@) && part_wrapped(part@),
                Err(RewriteError::TryDispatch) => part_tries(self@) > 0,
                Err(RewriteError::IndexDispatch) => part_indexings(self@) > 0,
            },
            part_tries(self@) == 0 && part_indexings(self@) == 0 ==> outcome is Ok,
        decreases self,
    {
        match self {
            Part::Tokens(text) => Ok(Part::Tokens(text.clone())),
            Part::Sub(expr) => match expr.rewrite() {
                Ok(expr) => Ok(Part::Sub(expr)),
                Err(error) => Err(error),
            },
        }
    }
}

/// Rewrites a run of parts from left to right, and stops at the first
/// replacement that the parser refuses. What holds of the outcome is what
/// holds of [`Expr::rewrite`].
pub fn rewrite_parts(parts: &Vec<Part>) -> (outcome: Result<Vec<Part>, RewriteError>)
    ensures
        match outcome {
            Ok(out) => parts_view(out@) == rewritten_parts(parts_view(parts@)) && parts_wrapped(
                parts_view(out@),
            ),
            Err(RewriteError::TryDispatch) => parts_tries(parts_view(parts@)) > 0,
            Err(RewriteError::IndexDispatch) => parts_indexings(parts_view(parts@)) > 0,
        },
        parts_tries(parts_view(parts@)) == 0 && parts_indexings(parts_view(parts@)) == 0
            ==> outcome is Ok,
    decreases parts,
{
    let ghost all = parts_view(parts@);
    proof {
        lemma_rewritten_parts_are_wrapped(all);
    }
    let mut out: Vec<Part> = Vec::new();
    let mut i: usize = 0;
    while i < parts.len()
        invariant
            i <= parts.len(),
            all == parts_view(parts@),
            out@.len() == i,
            parts_view(out@) == rewritten_parts(all).take(i as int),
        decreases parts.len() - i,
    {
        proof {
            assert(all[i as int] == parts@[i as int]@);
            lemma_part_counts_in_run(all, i as int);
        }
        match parts[i].rewrite() {
            Ok(part) => {
                out.push(part);
                proof {
                    assert(parts_view(out@) =~= rewritten_parts(all).take(i + 1));
                }
            },
            Err(error) => {
                return Err(error);
            },
        }
        i += 1;
    }
    proof {
        assert(rewritten_parts(all).take(parts.len() as int) =~= rewritten_parts(all));
    }
    Ok(out)
}

} // verus!
