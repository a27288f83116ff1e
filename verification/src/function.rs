use crate::coverage::parts_wrapped;
use crate::rewrite::{rewrite_parts, rewritten_parts, RewriteError};
use crate::sites::{parts_indexings, parts_tries};
use crate::syntax::{clone_parts, parts_view, Part, SpecPart};
use crate::text::{parts_to_text, render_parts};
use vstd::prelude::*;

verus! {

/// The mathematical value of a [`Function`].
pub struct SpecFunction {
    pub head: Seq<char>,
    pub name: Seq<char>,
    pub params: Seq<char>,
    pub output: Seq<char>,
    pub body: Seq<SpecPart>,
}

/// One function definition.
#[derive(Debug, PartialEq, Eq)]
pub struct Function {
    /// What stands before the name: attributes, visibility, qualifiers and
    /// the keyword `fn`.
    pub head: String,
    /// The function's name.
    pub name: String,
    /// The generics and the parameter list in its parentheses.
    pub params: String,
    /// The arrow with the return type, and the `where` clause.
    pub output: String,
    /// What stands between the braces of the body: the tokens of its
    /// statements, and the expressions among them.
    pub body: Vec<Part>,
}

impl View for Function {
    type V = SpecFunction;

    open spec fn view(&self) -> SpecFunction {
        SpecFunction {
            head: self.head@,
            name: self.name@,
            params: self.params@,
            output: self.output@,
            body: parts_view(self.body@),
        }
    }
}

impl Clone for Function {
    /// Copies the function.
    fn clone(&self) -> (copy: Function)
        ensures
            copy@ == self@,
    {
        Function {
            head: self.head.clone(),
            name: self.name.clone(),
            params: self.params.clone(),
            output: self.output.clone(),
            body: clone_parts(&self.body),
        }
    }
}

/// The function after the pass: the same signature, and the body with
/// every `?` and every indexing replaced.
pub open spec fn rewritten_function(function: SpecFunction) -> SpecFunction {
    SpecFunction {
        head: function.head,
        name: function.name,
        params: function.params,
        output: function.output,
        body: rewritten_parts(function.body),
    }
}

/// The text of a function: its signature, then its body in braces.
pub open spec fn render_function(function: SpecFunction) -> Seq<char> {
    function.head + " "@ + function.name + function.params + " "@ + function.output + " { "@
        + render_parts(function.body) + " }"@
}

impl Function {
    /// Writes the function out as text.
    pub fn to_text(&self) -> (text: String)
        ensures
            text@ == render_function(self@),
    {
        let mut text = self.head.clone();
        text.append(" ");
        text.append(self.name.as_str());
        text.append(self.params.as_str());
        text.append(" ");
        text.append(self.output.as_str());
        text.append(" { ");
        let body = parts_to_text(&self.body);
        text.append(body.as_str());
        text.append(" }");
        text
    }
}

/// Rewrites one function. `_attrs` is what the attribute was given; it has
/// no say in the result. The signature comes back character for character,
/// the body with every `?` and every indexing replaced by its dispatch, so
/// that nothing is left in it to rewrite.
///
/// The pass fails as a whole where the parser refuses a replacement: with
/// `TryDispatch` only for a body that holds a `?`, with `IndexDispatch` only
/// for one that holds an indexing. A body that holds neither comes back as
/// it was.
pub fn traceback(_attrs: &str, input: &Function) -> (outcome: Result<Function, RewriteError>)
    ensures
        match outcome {
            Ok(function) => {
                &&& function@ == rewritten_function(input@)
                &&& parts_wrapped(function@.body)
                &&& function@.head == input@.head
                &&& function@.name == input@.name
                &&& function@.params == input@.params
                &&& function@.output == input@.output
            },
            Err(RewriteError::TryDispatch) => parts_tries(input@.body) > 0,
            Err(RewriteError::IndexDispatch) => parts_indexings(input@.body) > 0,
        },
        parts_tries(input@.body) == 0 && parts_indexings(input@.body) == 0 ==> outcome is Ok,
{
    match rewrite_parts(&input.body) {
        Ok(body) => Ok(
            Function {
                head: input.head.clone(),
                name: input.name.clone(),
                params: input.params.clone(),
                output: input.output.clone(),
                body,
            },
        ),
        Err(error) => Err(error),
    }
}

} // verus!
