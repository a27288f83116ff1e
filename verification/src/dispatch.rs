use crate::literal::{quote, quoted};
use crate::syntax::{parts_view, Expr, Part, SpecExpr, SpecPart};
use crate::text::{lemma_render_push, render};
use vstd::prelude::*;

verus! {

/// What opens the block that takes the place of the operand of a `?`, up to
/// the parenthesis that holds the operand as one unit.
pub open spec fn try_open() -> Seq<char> {
    "{ match ("@
}

/// The two arms of that block: success passes the value on as it is, failure
/// hands the error to `traceback!` before it goes on to the `?`.
pub open spec fn try_arms() -> Seq<char> {
    ") { Ok(val) => Ok(val), Err(e) => Err(traceback!(err e)) } }"@
}

/// What opens the lookup that takes the place of an indexing: the
/// dereference of a match, up to the parenthesis that holds the collection
/// as one unit.
pub open spec fn index_open() -> Seq<char> {
    "(*match ("@
}

/// The call of the accessor that reports a missing element, up to the key.
pub open spec fn index_get() -> Seq<char> {
    ").get("@
}

/// The arm for an element that is there, and the arm for one that is not, up
/// to the first argument of the message.
pub open spec fn index_arms() -> Seq<char> {
    ") { Some(value) => value, None => { return Err(traceback!(format!(\"Error while indexing into {} in variable {:?}\","@
}

/// What parts the two arguments of the message.
pub open spec fn index_comma() -> Seq<char> {
    ","@
}

/// What closes the message, the early return and the lookup.
pub open spec fn index_close() -> Seq<char> {
    "))); }, })"@
}

/// The block around `inner` that a guarded `?` applies to.
pub open spec fn try_block(inner: SpecExpr) -> SpecExpr {
    SpecExpr::Other(
        seq![
            SpecPart::Tokens(try_open()),
            SpecPart::Sub(inner),
            SpecPart::Tokens(try_arms()),
        ],
    )
}

/// What takes the place of `inner?`: the same `?`, applied to a block that
/// matches on `inner` and wraps a failure in one more layer of context.
pub open spec fn try_dispatch(inner: SpecExpr) -> SpecExpr {
    SpecExpr::Try(Box::new(try_block(inner)))
}

/// What takes the place of `base[index]`: the dereference of a match on
/// `(base).get(index)` that yields the element, or returns early with an
/// error whose message names `index_text` and `base_text`. The two texts
/// stand in the message as string literals: none of it is code.
pub open spec fn index_dispatch(
    base: SpecExpr,
    index: SpecExpr,
    index_text: Seq<char>,
    base_text: Seq<char>,
) -> SpecExpr {
    SpecExpr::Other(
        seq![
            SpecPart::Tokens(index_open()),
            SpecPart::Sub(base),
            SpecPart::Tokens(index_get()),
            SpecPart::Sub(index),
            SpecPart::Tokens(index_arms()),
            SpecPart::Tokens(quoted(index_text)),
            SpecPart::Tokens(index_comma()),
            SpecPart::Tokens(quoted(base_text)),
            SpecPart::Tokens(index_close()),
        ],
    )
}

/// The text of a guarded `?`: the block opens, matches on the operand in
/// its parentheses, has its two arms, and the `?` follows the block.
pub proof fn lemma_try_dispatch_text(inner: SpecExpr)
    ensures
        render(try_dispatch(inner)) == try_open() + " "@ + render(inner) + " "@ + try_arms()
            + "?"@,
{
    let parts = try_block(inner)->Other_0;
    let s0 = Seq::<SpecPart>::empty();
    let s1 = s0.push(parts[0]);
    let s2 = s1.push(parts[1]);
    assert(parts =~= s2.push(parts[2]));
    lemma_render_push(s0, parts[0]);
    lemma_render_push(s1, parts[1]);
    lemma_render_push(s2, parts[2]);
    assert(render(try_block(inner)) == try_open() + " "@ + render(inner) + " "@ + try_arms());
}

/// The text of a lookup: it matches on `( base ).get( index )`, and the
/// message of its `None` arm has the literal of `index_text`, then the
/// literal of `base_text`, as its arguments.
pub proof fn lemma_index_dispatch_text(
    base: SpecExpr,
    index: SpecExpr,
    index_text: Seq<char>,
    base_text: Seq<char>,
)
    ensures
        render(index_dispatch(base, index, index_text, base_text)) == index_open() + " "@
            + render(base) + " "@ + index_get() + " "@ + render(index) + " "@ + index_arms()
            + " "@ + quoted(index_text) + " "@ + index_comma() + " "@ + quoted(base_text)
            + " "@ + index_close(),
{
    let parts = index_dispatch(base, index, index_text, base_text)->Other_0;
    let s0 = Seq::<SpecPart>::empty();
    let s1 = s0.push(parts[0]);
    let s2 = s1.push(parts[1]);
    let s3 = s2.push(parts[2]);
    let s4 = s3.push(parts[3]);
    let s5 = s4.push(parts[4]);
    let s6 = s5.push(parts[5]);
    let s7 = s6.push(parts[6]);
    let s8 = s7.push(parts[7]);
    assert(parts =~= s8.push(parts[8]));
    lemma_render_push(s0, parts[0]);
    lemma_render_push(s1, parts[1]);
    lemma_render_push(s2, parts[2]);
    lemma_render_push(s3, parts[3]);
    lemma_render_push(s4, parts[4]);
    lemma_render_push(s5, parts[5]);
    lemma_render_push(s6, parts[6]);
    lemma_render_push(s7, parts[7]);
    lemma_render_push(s8, parts[8]);
}

/// The opening of the guard block, as text.
pub fn try_open_text() -> (text: &'static str)
    ensures
        text@ == try_open(),
{
    "{ match ("
}

/// The two arms of the guard block, as text.
pub fn try_arms_text() -> (text: &'static str)
    ensures
        text@ == try_arms(),
{
    ") { Ok(val) => Ok(val), Err(e) => Err(traceback!(err e)) } }"
}

fn tokens(text: &str) -> (part: Part)
    ensures
        part@ == SpecPart::Tokens(text@),
{
    Part::Tokens(String::from_str(text))
}

impl Expr {
    /// Builds what takes the place of `inner?`.
    pub fn try_dispatch(inner: Expr) -> (expr: Expr)
        ensures
            expr@ == try_dispatch(inner@),
    {
        let mut parts: Vec<Part> = Vec::new();
        parts.push(tokens(try_open_text()));
        parts.push(Part::Sub(inner));
        parts.push(tokens(try_arms_text()));
        proof {
            assert(parts_view(parts@) =~= try_block(inner@)->Other_0);
        }
        let block = Expr::Other(parts);
        assert(block@ == try_block(inner@));
        Expr::Try(Box::new(block))
    }

    /// Builds what takes the place of `base[index]`, with `index_text` and
    /// `base_text` written as string literals into its message.
    pub fn index_dispatch(base: Expr, index: Expr, index_text: &str, base_text: &str) -> (expr:
        Expr)
        ensures
            expr@ == index_dispatch(base@, index@, index_text@, base_text@),
    {
        let mut parts: Vec<Part> = Vec::new();
        parts.push(tokens("(*match ("));
        parts.push(Part::Sub(base));
        parts.push(tokens(").get("));
        parts.push(Part::Sub(index));
        parts.push(
            tokens(
                ") { Some(value) => value, None => { return Err(traceback!(format!(\"Error while indexing into {} in variable {:?}\",",
            ),
        );
        parts.push(Part::Tokens(quote(index_text)));
        parts.push(tokens(","));
        parts.push(Part::Tokens(quote(base_text)));
        parts.push(tokens("))); }, })"));
        proof {
            assert(parts_view(parts@) =~= index_dispatch(
                base@,
                index@,
                index_text@,
                base_text@,
            )->Other_0);
        }
        Expr::Other(parts)
    }
}

} // verus!
