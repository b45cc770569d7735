//! Text building blocks: comparing, joining and quoting strings.

use vstd::prelude::*;
use vstd::string::*;

verus! {

/// `str`'s `==` compares the two strings character by character.
pub assume_specification[ <str as PartialEq>::eq ](a: &str, b: &str) -> (same: bool)
    ensures
        same == (a@ == b@),
;

/// `String::push` appends one character at the end.
pub assume_specification[ std::string::String::push ](text: &mut std::string::String, c: char)
    ensures
        final(text)@ == old(text)@.push(c),
;

/// Whether two strings hold the same text.
pub fn same_text(a: &str, b: &str) -> (same: bool)
    ensures
        same == (a@ == b@),
{
    *a == *b
}

/// Every part in order, each one after the first preceded by `sep`.
pub open spec fn join(parts: Seq<Seq<char>>, sep: Seq<char>) -> Seq<char>
    decreases parts.len(),
{
    if parts.len() == 0 {
        Seq::empty()
    } else if parts.len() == 1 {
        parts[0]
    } else {
        join(parts.drop_last(), sep) + sep + parts.last()
    }
}

/// Every part in order, with nothing in between.
pub open spec fn concat(parts: Seq<Seq<char>>) -> Seq<char>
    decreases parts.len(),
{
    if parts.len() == 0 {
        Seq::empty()
    } else {
        concat(parts.drop_last()) + parts.last()
    }
}

/// The texts that a vector of strings holds.
pub open spec fn texts(parts: Seq<String>) -> Seq<Seq<char>> {
    Seq::new(parts.len(), |i: int| parts[i]@)
}

/// Joins `parts` with `sep` between neighbours.
pub fn join_strings(parts: &Vec<String>, sep: &str) -> (out: String)
    ensures
        out@ == join(texts(parts@), sep@),
{
    let mut out = String::new();
    let mut i: usize = 0;
    while i < parts.len()
        invariant
            i <= parts.len(),
            out@ == join(texts(parts@).take(i as int), sep@),
        decreases parts.len() - i,
    {
        proof {
            let next = texts(parts@).take(i + 1);
            assert(next.drop_last() =~= texts(parts@).take(i as int));
            assert(next.last() == parts@[i as int]@);
            if i == 0 {
                assert(out@ + parts@[0]@ =~= parts@[0]@);
            }
        }
        if i > 0 {
            out.append(sep);
        }
        out.append(parts[i].as_str());
        i += 1;
    }
    proof {
        assert(texts(parts@).take(parts.len() as int) =~= texts(parts@));
    }
    out
}

/// Puts `parts` one after the other.
pub fn concat_strings(parts: &Vec<String>) -> (out: String)
    ensures
        out@ == concat(texts(parts@)),
{
    let mut out = String::new();
    let mut i: usize = 0;
    while i < parts.len()
        invariant
            i <= parts.len(),
            out@ == concat(texts(parts@).take(i as int)),
        decreases parts.len() - i,
    {
        proof {
            let next = texts(parts@).take(i + 1);
            assert(next.drop_last() =~= texts(parts@).take(i as int));
            assert(next.last() == parts@[i as int]@);
        }
        out.append(parts[i].as_str());
        i += 1;
    }
    proof {
        assert(texts(parts@).take(parts.len() as int) =~= texts(parts@));
    }
    out
}

/// How one character is written inside a double-quoted string literal of
/// the emitted text: the quote, the backslash and the line-control
/// characters are escaped with a backslash, every other character stands
/// for itself.
pub open spec fn escape_char(c: char) -> Seq<char> {
    if c == '"' {
        seq!['\\', '"']
    } else if c == '\\' {
        seq!['\\', '\\']
    } else if c == '\n' {
        seq!['\\', 'n']
    } else if c == '\r' {
        seq!['\\', 'r']
    } else if c == '\t' {
        seq!['\\', 't']
    } else {
        seq![c]
    }
}

/// The contents of a double-quoted string literal that denotes `text`.
pub open spec fn escape(text: Seq<char>) -> Seq<char>
    decreases text.len(),
{
    if text.len() == 0 {
        Seq::empty()
    } else {
        escape(text.drop_last()) + escape_char(text.last())
    }
}

/// Reads a string literal's contents back: the inverse of [`escape`] on
/// everything that `escape` produces.
pub open spec fn unescape(quoted: Seq<char>) -> Seq<char>
    decreases quoted.len(),
{
    if quoted.len() == 0 {
        Seq::empty()
    } else if quoted[0] == '\\' && quoted.len() >= 2 {
        let c = if quoted[1] == 'n' {
            '\n'
        } else if quoted[1] == 'r' {
            '\r'
        } else if quoted[1] == 't' {
            '\t'
        } else {
            quoted[1]
        };
        seq![c] + unescape(quoted.skip(2))
    } else {
        seq![quoted[0]] + unescape(quoted.skip(1))
    }
}

/// Writes `text` as the contents of a double-quoted string literal.
pub fn escape_string(text: &str) -> (out: String)
    ensures
        out@ == escape(text@),
{
    let mut out = String::new();
    for c in iter: text.chars()
        invariant
            iter.seq() == text@,
            out@ == escape(text@.take(iter.index() as int)),
    {
        proof {
            let next = text@.take(iter.index() + 1);
            assert(next.drop_last() =~= text@.take(iter.index() as int));
            assert(next.last() == c);
        }
        let ghost before = out@;
        if c == '"' {
            out.push('\\');
            out.push('"');
        } else if c == '\\' {
            out.push('\\');
            out.push('\\');
        } else if c == '\n' {
            out.push('\\');
            out.push('n');
        } else if c == '\r' {
            out.push('\\');
            out.push('r');
        } else if c == '\t' {
            out.push('\\');
            out.push('t');
        } else {
            out.push(c);
        }
        assert(out@ =~= before + escape_char(c));
    }
    proof {
        assert(text@.take(text@.len() as int) =~= text@);
    }
    out
}

/// Escaping goes character by character, from the front as from the back.
proof fn lemma_escape_from_front(c: char, rest: Seq<char>)
    ensures
        escape(seq![c] + rest) == escape_char(c) + escape(rest),
    decreases rest.len(),
{
    let whole = seq![c] + rest;
    if rest.len() == 0 {
        assert(whole.drop_last() =~= Seq::<char>::empty());
        assert(whole.last() == c);
        assert(escape(whole.drop_last()) =~= Seq::<char>::empty());
        assert(escape(rest) =~= Seq::<char>::empty());
        assert(escape(whole) =~= escape_char(c) + escape(rest));
    } else {
        lemma_escape_from_front(c, rest.drop_last());
        assert(whole.drop_last() =~= seq![c] + rest.drop_last());
        assert(whole.last() == rest.last());
        assert(escape(whole) =~= escape_char(c) + escape(rest));
    }
}

/// Reading back what one escaped character and more quoted text make.
proof fn lemma_unescape_one(c: char, quoted: Seq<char>)
    ensures
        unescape(escape_char(c) + quoted) == seq![c] + unescape(quoted),
{
    let whole = escape_char(c) + quoted;
    if c == '"' || c == '\\' || c == '\n' || c == '\r' || c == '\t' {
        assert(whole.skip(2) =~= quoted);
    } else {
        assert(whole.skip(1) =~= quoted);
    }
}

/// What was escaped reads back as it was: the emitted string literal
/// denotes the text it was made for.
pub proof fn law_unescape_escape(text: Seq<char>)
    ensures
        unescape(escape(text)) == text,
    decreases text.len(),
{
    if text.len() > 0 {
        let rest = text.skip(1);
        assert(text =~= seq![text[0]] + rest);
        lemma_escape_from_front(text[0], rest);
        lemma_unescape_one(text[0], escape(rest));
        law_unescape_escape(rest);
    }
}

} // verus!
