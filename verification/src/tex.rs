//! Escaping of TeX source for a markdown documentation comment.

use vstd::prelude::*;

verus! {

/// What one character of the source becomes: a backslash is doubled, any
/// other character stands for itself.
pub open spec fn escaped_char(c: char) -> Seq<char> {
    if c == '\\' {
        seq!['\\', '\\']
    } else {
        seq![c]
    }
}

/// The source with every backslash doubled.
pub open spec fn escaped(source: Seq<char>) -> Seq<char>
    decreases source.len(),
{
    if source.len() == 0 {
        Seq::empty()
    } else {
        escaped(source.drop_last()) + escaped_char(source.last())
    }
}

/// The display-math delimiter that opens and closes the output.
pub open spec fn delimiter() -> Seq<char> {
    seq!['$', '$']
}

/// The escaped source between two delimiters.
pub open spec fn markdown_text(source: Seq<char>) -> Seq<char> {
    delimiter() + escaped(source) + delimiter()
}

/// The text with every pair of backslashes halved: read from the left, two
/// backslashes in a row give one, and any other character stands for itself.
pub open spec fn unescaped(text: Seq<char>) -> Seq<char>
    decreases text.len(),
{
    if text.len() == 0 {
        Seq::empty()
    } else if text.len() >= 2 && text[0] == '\\' && text[1] == '\\' {
        seq!['\\'] + unescaped(text.skip(2))
    } else {
        seq![text[0]] + unescaped(text.skip(1))
    }
}

/// How many backslashes the source holds.
pub open spec fn backslashes(source: Seq<char>) -> nat
    decreases source.len(),
{
    if source.len() == 0 {
        0
    } else if source.last() == '\\' {
        backslashes(source.drop_last()) + 1
    } else {
        backslashes(source.drop_last())
    }
}

/// What stands between the two delimiters of `markdown`.
pub open spec fn between_delimiters(markdown: Seq<char>) -> Seq<char> {
    markdown.subrange(2, markdown.len() - 2)
}

/// `String::push` appends one character to the end of the string.
pub assume_specification[ String::push ](s: &mut String, ch: char)
    ensures
        final(s)@ == old(s)@.push(ch),
;

/// Text read from a TeX file.
#[derive(Debug, PartialEq, Eq)]
pub struct TexFileContents(pub String);

/// TeX source ready to stand in a markdown documentation comment.
#[derive(Debug, PartialEq, Eq)]
pub struct MarkdownTex(pub String);

impl View for TexFileContents {
    type V = Seq<char>;

    open spec fn view(&self) -> Seq<char> {
        self.0@
    }
}

impl View for MarkdownTex {
    type V = Seq<char>;

    open spec fn view(&self) -> Seq<char> {
        self.0@
    }
}

impl TexFileContents {
    /// Doubles every backslash and wraps the result in `$$`.
    pub fn into_markdown_tex(self) -> (markdown: MarkdownTex)
        ensures
            markdown@ == markdown_text(self@),
    {
        let mut buffer = String::new();
        buffer.append("$$");
        proof {
            reveal_strlit("$$");
            assert(buffer@ =~= delimiter());
        }
        let source = self.0.as_str();
        for c in it: source.chars()
            invariant
                it.seq() == source@,
                buffer@ == delimiter() + escaped(source@.take(it.index())),
        {
            proof {
                let prefix = source@.take(it.index() + 1);
                assert(prefix.drop_last() =~= source@.take(it.index()));
                assert(prefix.last() == c);
            }
            if c == '\\' {
                buffer.push(c);
            }
            buffer.push(c);
            assert(buffer@ =~= delimiter() + escaped(source@.take(it.index() + 1)));
        }
        assert(source@.take(source@.len() as int) =~= source@);
        buffer.append("$$");
        MarkdownTex(buffer)
    }
}

/// Escaping goes through the source piece by piece.
pub proof fn lemma_escaped_concat(front: Seq<char>, back: Seq<char>)
    ensures
        escaped(front + back) == escaped(front) + escaped(back),
    decreases back.len(),
{
    if back.len() == 0 {
        assert(front + back =~= front);
        assert(escaped(front) + escaped(back) =~= escaped(front));
    } else {
        lemma_escaped_concat(front, back.drop_last());
        assert((front + back).drop_last() =~= front + back.drop_last());
        assert((front + back).last() == back.last());
        assert(escaped(front + back) =~= escaped(front) + escaped(back));
    }
}

/// Every character of the source is in the escaped source once, and every
/// backslash once more.
pub proof fn escaped_len(source: Seq<char>)
    ensures
        escaped(source).len() == source.len() + backslashes(source),
    decreases source.len(),
{
    if source.len() > 0 {
        escaped_len(source.drop_last());
    }
}

/// Halving the backslashes of an escaped source gives the source back.
pub proof fn unescaped_inverts_escaped(source: Seq<char>)
    ensures
        unescaped(escaped(source)) == source,
    decreases source.len(),
{
    if source.len() > 0 {
        let first = seq![source[0]];
        let rest = source.skip(1);
        assert(source =~= first + rest);
        lemma_escaped_concat(first, rest);
        assert(escaped(first) =~= escaped_char(source[0])) by {
            assert(first.drop_last().len() == 0);
            assert(escaped(first.drop_last()) =~= Seq::<char>::empty());
            assert(first.last() == source[0]);
        }
        unescaped_inverts_escaped(rest);
        let text = escaped(source);
        if source[0] == '\\' {
            assert(text.skip(2) =~= escaped(rest));
        } else {
            assert(text.skip(1) =~= escaped(rest));
        }
        assert(unescaped(text) =~= source);
    }
}

/// The output is the escaped source between one `$$` and another, and
/// halving the backslashes of what stands between them recovers the source
/// exactly.
pub proof fn markdown_text_round_trip(source: Seq<char>)
    ensures
        markdown_text(source).len() == escaped(source).len() + 4,
        markdown_text(source).take(2) == delimiter(),
        markdown_text(source).skip(markdown_text(source).len() - 2) == delimiter(),
        between_delimiters(markdown_text(source)) == escaped(source),
        unescaped(between_delimiters(markdown_text(source))) == source,
{
    let markdown = markdown_text(source);
    assert(markdown.take(2) =~= delimiter());
    assert(markdown.skip(markdown.len() - 2) =~= delimiter());
    assert(between_delimiters(markdown) =~= escaped(source));
    unescaped_inverts_escaped(source);
}

/// A source without a backslash is its own escaped form: the output is the
/// source itself between the delimiters.
pub proof fn escaped_without_backslash(source: Seq<char>)
    requires
        !source.contains('\\'),
    ensures
        escaped(source) == source,
        markdown_text(source) == delimiter() + source + delimiter(),
    decreases source.len(),
{
    if source.len() > 0 {
        let front = source.drop_last();
        assert forall|c: char| front.contains(c) implies source.contains(c) by {
            let i = choose|i: int| 0 <= i < front.len() && front[i] == c;
            assert(source[i] == c);
        }
        escaped_without_backslash(front);
        assert(source.contains(source.last())) by {
            assert(source[source.len() - 1] == source.last());
        }
        assert(escaped(source) =~= source);
    }
}

} // verus!
