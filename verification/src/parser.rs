use vstd::prelude::*;

verus! {

/// Calls `syn::parse_str::<syn::Expr>` on `text` and says whether it
/// returned `Ok`.
///
/// Nothing is claimed of the answer. The parser reads its tokens through
/// `proc_macro2`, which lexes with the compiler inside a procedural macro
/// and by itself elsewhere, so one text need not get one answer in every
/// process. Text with very deep brackets can take more stack than there is.
#[verifier::external_body]
pub(crate) fn is_expression(text: &str) -> (accepted: bool) {
    syn::parse_str::<syn::Expr>(text).is_ok()
}

} // verus!
