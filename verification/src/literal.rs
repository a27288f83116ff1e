use vstd::prelude::*;

verus! {

/// `String::push` appends the given character to the end of the string, as
/// std documents it. Taken on trust: vstd says nothing of this method.
pub assume_specification[ String::push ](text: &mut String, ch: char)
    ensures
        final(text)@ == old(text)@.push(ch),
;

/// How one character stands inside a string literal: a quote and a
/// backslash behind a backslash, every other character as it is.
pub open spec fn escaped_char(ch: char) -> Seq<char> {
    if ch == '"' || ch == '\\' {
        seq!['\\', ch]
    } else {
        seq![ch]
    }
}

/// How a text stands inside a string literal: character by character.
pub open spec fn escaped(text: Seq<char>) -> Seq<char>
    decreases text.len(),
{
    if text.len() == 0 {
        Seq::empty()
    } else {
        escaped_char(text.first()) + escaped(text.drop_first())
    }
}

/// The string literal that denotes `text`: the escaped text between two
/// quotes.
pub open spec fn quoted(text: Seq<char>) -> Seq<char> {
    seq!['"'] + escaped(text) + seq!['"']
}

/// What the body of a string literal denotes, where it holds no escape but
/// those of a quote and of a backslash, and no bare quote.
pub open spec fn unescaped(body: Seq<char>) -> Option<Seq<char>>
    decreases body.len(),
{
    if body.len() == 0 {
        Some(Seq::empty())
    } else if body[0] == '"' {
        None
    } else if body[0] == '\\' {
        if body.len() >= 2 && (body[1] == '"' || body[1] == '\\') {
            match unescaped(body.skip(2)) {
                Some(rest) => Some(seq![body[1]] + rest),
                None => None,
            }
        } else {
            None
        }
    } else {
        match unescaped(body.skip(1)) {
            Some(rest) => Some(seq![body[0]] + rest),
            None => None,
        }
    }
}

/// Escaping goes character by character from either end.
pub proof fn lemma_escaped_push(text: Seq<char>, ch: char)
    ensures
        escaped(text.push(ch)) == escaped(text) + escaped_char(ch),
    decreases text.len(),
{
    if text.len() == 0 {
        let one = text.push(ch);
        assert(one.drop_first() =~= Seq::<char>::empty());
        assert(escaped(one.drop_first()) =~= Seq::<char>::empty());
        assert(escaped(one) =~= escaped_char(ch));
        assert(escaped(one) =~= escaped(text) + escaped_char(ch));
    } else {
        assert(text.push(ch).drop_first() =~= text.drop_first().push(ch));
        lemma_escaped_push(text.drop_first(), ch);
        assert(escaped(text.push(ch)) =~= escaped(text) + escaped_char(ch));
    }
}

/// An escaped text holds no bare quote, and reads back as the text it was
/// made from.
pub proof fn lemma_escaped_reads_back(text: Seq<char>)
    ensures
        unescaped(escaped(text)) == Some(text),
    decreases text.len(),
{
    if text.len() > 0 {
        let ch = text.first();
        let rest = text.drop_first();
        lemma_escaped_reads_back(rest);
        let body = escaped(text);
        if ch == '"' || ch == '\\' {
            assert(body.skip(2) =~= escaped(rest));
        } else {
            assert(body.skip(1) =~= escaped(rest));
        }
        assert(seq![ch] + rest =~= text);
    }
}

/// Writes `text` as a string literal.
pub fn quote(text: &str) -> (literal: String)
    ensures
        literal@ == quoted(text@),
{
    let mut literal = String::new();
    literal.push('"');
    for ch in it: text.chars()
        invariant
            it.seq() == text@,
            literal@ == seq!['"'] + escaped(text@.take(it.index() as int)),
    {
        proof {
            lemma_escaped_push(text@.take(it.index() as int), ch);
            assert(text@.take(it.index() + 1) =~= text@.take(it.index() as int).push(ch));
        }
        if ch == '"' || ch == '\\' {
            literal.push('\\');
        }
        literal.push(ch);
    }
    proof {
        assert(text@.take(text@.len() as int) =~= text@);
    }
    literal.push('"');
    literal
}

} // verus!
