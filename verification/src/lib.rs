//! A rewriter for function bodies that makes errors carry their way.
//!
//! Given a function as a tree of tokens and expressions, [`traceback`]
//! replaces every `?` by a guarded `?` that wraps a failure in one more
//! layer of context, and every indexing by a lookup that returns an error
//! where the element is missing. The text that it builds names the macro
//! `traceback!`, which the rewritten function must have in scope.
//!
//! The tree is in [`syntax`], its text in [`text`], the two replacements in
//! [`dispatch`], the pass in [`rewrite`] and, for a whole function, in
//! [`function`]. What holds of every pass is proved in [`coverage`],
//! [`sites`] and [`laws`]. Two things are not proved: the parser that is
//! asked of every replacement, in [`parser`], of whose answer nothing is
//! claimed, and that `String::push` appends, in [`literal`].

pub mod coverage;
pub mod dispatch;
pub mod function;
pub mod laws;
pub mod literal;
pub mod parser;
pub mod rewrite;
pub mod sites;
pub mod syntax;
pub mod text;

pub use function::traceback;
