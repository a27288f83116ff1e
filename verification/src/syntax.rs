use vstd::prelude::*;

verus! {

/// The mathematical value of an [`Expr`]: the same tree, with every token
/// text as a sequence of characters.
pub enum SpecExpr {
    Try(Box<SpecExpr>),
    Index(Box<SpecExpr>, Box<SpecExpr>),
    Other(Seq<SpecPart>),
}

/// The mathematical value of a [`Part`].
pub enum SpecPart {
    Tokens(Seq<char>),
    Sub(SpecExpr),
}

/// One expression of a function body.
#[derive(Debug, PartialEq, Eq)]
pub enum Expr {
    /// `inner ?`
    Try(Box<Expr>),
    /// `base [ index ]`
    Index(Box<Expr>, Box<Expr>),
    /// Any other shape: its tokens, and between them its sub-expressions.
    Other(Vec<Part>),
}

/// One piece of a syntax node that is neither `?` nor indexing.
#[derive(Debug, PartialEq, Eq)]
pub enum Part {
    Tokens(String),
    Sub(Expr),
}

/// The value of an expression, by recursion on the tree.
pub open spec fn expr_view(expr: Expr) -> SpecExpr
    decreases expr,
{
    match expr {
        Expr::Try(inner) => SpecExpr::Try(Box::new(expr_view(*inner))),
        Expr::Index(base, index) => SpecExpr::Index(
            Box::new(expr_view(*base)),
            Box::new(expr_view(*index)),
        ),
        Expr::Other(parts) => SpecExpr::Other(parts_view(parts@)),
    }
}

/// The value of one part.
pub open spec fn part_view(part: Part) -> SpecPart
    decreases part,
{
    match part {
        Part::Tokens(text) => SpecPart::Tokens(text@),
        Part::Sub(expr) => SpecPart::Sub(expr_view(expr)),
    }
}

/// The values of a run of parts, in order.
pub open spec fn parts_view(parts: Seq<Part>) -> Seq<SpecPart>
    decreases parts,
{
    Seq::new(
        parts.len(),
        |i: int|
            if 0 <= i < parts.len() {
                part_view(parts[i])
            } else {
                SpecPart::Tokens(Seq::empty())
            },
    )
}

impl View for Part {
    type V = SpecPart;

    open spec fn view(&self) -> SpecPart {
        part_view(*self)
    }
}

impl View for Expr {
    type V = SpecExpr;

    open spec fn view(&self) -> SpecExpr {
        expr_view(*self)
    }
}

impl Clone for Expr {
    /// Copies the tree.
    fn clone(&self) -> (copy: Expr)
        ensures
            copy@ == self@,
        decreases self,
    {
        match self {
            Expr::Try(inner) => Expr::Try(Box::new((**inner).clone())),
            Expr::Index(base, index) => Expr::Index(
                Box::new((**base).clone()),
                Box::new((**index).clone()),
            ),
            Expr::Other(parts) => Expr::Other(clone_parts(parts)),
        }
    }
}

impl Clone for Part {
    /// Copies the part.
    fn clone(&self) -> (copy: Part)
        ensures
            copy@ == self@,
        decreases self,
    {
        match self {
            Part::Tokens(text) => Part::Tokens(text.clone()),
            Part::Sub(expr) => Part::Sub(expr.clone()),
        }
    }
}

/// Copies a run of parts.
pub fn clone_parts(parts: &Vec<Part>) -> (copy: Vec<Part>)
    ensures
        parts_view(copy@) == parts_view(parts@),
    decreases parts,
{
    let mut copy: Vec<Part> = Vec::new();
    let mut i: usize = 0;
    while i < parts.len()
        invariant
            i <= parts.len(),
            copy@.len() == i,
            forall|j: int| 0 <= j < i ==> copy@[j]@ == parts@[j]@,
        decreases parts.len() - i,
    {
        copy.push(parts[i].clone());
        i += 1;
    }
    assert(parts_view(copy@) =~= parts_view(parts@));
    copy
}

} // verus!
