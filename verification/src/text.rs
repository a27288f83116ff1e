use crate::syntax::{Expr, Part, SpecExpr, SpecPart};
use vstd::prelude::*;

verus! {

/// The text of an expression: `inner?` for a short-circuit, `base[index]`
/// for indexing, and for any other shape its parts with one space between
/// neighbours.
pub open spec fn render(expr: SpecExpr) -> Seq<char>
    decreases expr,
{
    match expr {
        SpecExpr::Try(inner) => render(*inner) + "?"@,
        SpecExpr::Index(base, index) => render(*base) + "["@ + render(*index) + "]"@,
        SpecExpr::Other(parts) => render_parts(parts),
    }
}

/// The text of one part: the tokens as they stand, or the text of the
/// sub-expression.
pub open spec fn render_part(part: SpecPart) -> Seq<char>
    decreases part,
{
    match part {
        SpecPart::Tokens(text) => text,
        SpecPart::Sub(expr) => render(expr),
    }
}

/// The text of a run of parts: each part's text, with one space between two
/// neighbours and none at either end.
pub open spec fn render_parts(parts: Seq<SpecPart>) -> Seq<char>
    decreases parts,
{
    if parts.len() == 0 {
        Seq::empty()
    } else if parts.len() == 1 {
        render_part(parts.last())
    } else {
        render_parts(parts.drop_last()) + " "@ + render_part(parts.last())
    }
}

/// One more part at the end of a run adds a space and the part's text; the
/// first part of a run stands without a space.
pub proof fn lemma_render_push(parts: Seq<SpecPart>, part: SpecPart)
    ensures
        parts.len() == 0 ==> render_parts(parts.push(part)) == render_part(part),
        parts.len() > 0 ==> render_parts(parts.push(part)) == render_parts(parts) + " "@
            + render_part(part),
{
    assert(parts.push(part).drop_last() =~= parts);
}

impl Expr {
    /// Writes the expression out as text.
    pub fn to_text(&self) -> (text: String)
        ensures
            text@ == render(self@),
        decreases self,
    {
        match self {
            Expr::Try(inner) => {
                let mut text = inner.to_text();
                text.append("?");
                text
            },
            Expr::Index(base, index) => {
                let mut text = base.to_text();
                text.append("[");
                let index_text = index.to_text();
                text.append(index_text.as_str());
                text.append("]");
                text
            },
            Expr::Other(parts) => parts_to_text(parts),
        }
    }
}

impl Part {
    /// Writes the part out as text.
    pub fn to_text(&self) -> (text: String)
        ensures
            text@ == render_part(self@),
        decreases self,
    {
        match self {
            Part::Tokens(tokens) => tokens.clone(),
            Part::Sub(expr) => expr.to_text(),
        }
    }
}

/// Writes a run of parts out as text, with one space between neighbours.
pub fn parts_to_text(parts: &Vec<Part>) -> (text: String)
    ensures
        text@ == render_parts(crate::syntax::parts_view(parts@)),
    decreases parts,
{
    let mut text = String::new();
    let mut i: usize = 0;
    while i < parts.len()
        invariant
            i <= parts.len(),
            text@ == render_parts(crate::syntax::parts_view(parts@).take(i as int)),
        decreases parts.len() - i,
    {
        if i > 0 {
            text.append(" ");
        }
        let piece = parts[i].to_text();
        text.append(piece.as_str());
        proof {
            let all = crate::syntax::parts_view(parts@);
            assert(all.take(i + 1).drop_last() =~= all.take(i as int));
            assert(all.take(i + 1).last() == parts@[i as int]@);
        }
        i += 1;
    }
    proof {
        let all = crate::syntax::parts_view(parts@);
        assert(all.take(parts.len() as int) =~= all);
    }
    text
}

} // verus!
