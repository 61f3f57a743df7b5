//! White space, trimming and suffixes, on text seen as a sequence of characters.

use vstd::prelude::*;

verus! {

/// The characters with Unicode's `White_Space` property.
pub open spec fn is_white_space(c: char) -> bool {
    ||| '\u{9}' <= c <= '\u{d}'
    ||| c == '\u{20}'
    ||| c == '\u{85}'
    ||| c == '\u{a0}'
    ||| c == '\u{1680}'
    ||| '\u{2000}' <= c <= '\u{200a}'
    ||| c == '\u{2028}'
    ||| c == '\u{2029}'
    ||| c == '\u{202f}'
    ||| c == '\u{205f}'
    ||| c == '\u{3000}'
}

/// `s` without its longest prefix of white space.
pub open spec fn trim_start(s: Seq<char>) -> Seq<char>
    decreases s.len(),
{
    if s.len() > 0 && is_white_space(s.first()) {
        trim_start(s.drop_first())
    } else {
        s
    }
}

/// `s` without its longest suffix of white space.
pub open spec fn trim_end(s: Seq<char>) -> Seq<char>
    decreases s.len(),
{
    if s.len() > 0 && is_white_space(s.last()) {
        trim_end(s.drop_last())
    } else {
        s
    }
}

/// `s` without leading and trailing white space.
pub open spec fn trimmed(s: Seq<char>) -> Seq<char> {
    trim_end(trim_start(s))
}

/// `s` without its longest suffix made of `c` alone.
pub open spec fn without_trailing(s: Seq<char>, c: char) -> Seq<char>
    decreases s.len(),
{
    if s.len() > 0 && s.last() == c {
        without_trailing(s.drop_last(), c)
    } else {
        s
    }
}

/// Whether `s` holds white space only, or nothing at all.
pub open spec fn is_blank(s: Seq<char>) -> bool {
    forall|i: int| 0 <= i < s.len() ==> is_white_space(#[trigger] s[i])
}

/// Whether `c` has Unicode's `White_Space` property.
pub fn is_white_space_char(c: char) -> (b: bool)
    ensures
        b == is_white_space(c),
{
    ('\u{9}' <= c && c <= '\u{d}') || c == '\u{20}' || c == '\u{85}' || c == '\u{a0}' || c
        == '\u{1680}' || ('\u{2000}' <= c && c <= '\u{200a}') || c == '\u{2028}' || c == '\u{2029}'
        || c == '\u{202f}' || c == '\u{205f}' || c == '\u{3000}'
}

/// The characters of `s`, in order.
fn chars_of(s: &str) -> (chars: Vec<char>)
    ensures
        chars@ == s@,
{
    let mut chars: Vec<char> = Vec::new();
    for c in it: s.chars()
        invariant
            it.seq() == s@,
            chars@ == s@.take(it.index() as int),
    {
        chars.push(c);
    }
    chars
}

/// `s` without leading and trailing white space.
pub fn trim(s: &str) -> (r: &str)
    ensures
        r@ == trimmed(s@),
{
    let chars = chars_of(s);
    let mut from: usize = 0;
    proof {
        assert(s@.skip(0) == s@);
    }
    while from < chars.len() && is_white_space_char(chars[from])
        invariant
            from <= chars.len(),
            chars@ == s@,
            trim_start(s@) == trim_start(s@.skip(from as int)),
        decreases chars.len() - from,
    {
        proof {
            assert(s@.skip(from as int).drop_first() == s@.skip(from + 1));
        }
        from = from + 1;
    }
    let mut to: usize = chars.len();
    proof {
        assert(trim_start(s@) == s@.skip(from as int));
        assert(s@.subrange(from as int, to as int) == s@.skip(from as int));
    }
    while to > from && is_white_space_char(chars[to - 1])
        invariant
            from <= to <= chars.len(),
            chars@ == s@,
            trimmed(s@) == trim_end(s@.subrange(from as int, to as int)),
        decreases to,
    {
        proof {
            assert(s@.subrange(from as int, to as int).drop_last() == s@.subrange(
                from as int,
                to - 1,
            ));
        }
        to = to - 1;
    }
    s.substring_char(from, to)
}

/// `s` without its longest suffix made of `c` alone.
pub fn trim_trailing(s: &str, c: char) -> (r: &str)
    ensures
        r@ == without_trailing(s@, c),
{
    let chars = chars_of(s);
    let mut to: usize = chars.len();
    proof {
        assert(s@.take(to as int) == s@);
    }
    while to > 0 && chars[to - 1] == c
        invariant
            to <= chars.len(),
            chars@ == s@,
            without_trailing(s@, c) == without_trailing(s@.take(to as int), c),
        decreases to,
    {
        proof {
            assert(s@.take(to as int).drop_last() == s@.take(to - 1));
        }
        to = to - 1;
    }
    s.substring_char(0, to)
}

/// Whether `s` ends with `suffix`.
pub fn ends_with(s: &str, suffix: &str) -> (b: bool)
    ensures
        b == suffix@.is_suffix_of(s@),
{
    let text = chars_of(s);
    let tail = chars_of(suffix);
    if tail.len() > text.len() {
        return false;
    }
    let offset: usize = text.len() - tail.len();
    let mut i: usize = 0;
    while i < tail.len()
        invariant
            i <= tail.len(),
            text@ == s@,
            tail@ == suffix@,
            offset + tail.len() == text.len(),
            forall|j: int| 0 <= j < i ==> tail@[j] == text@[offset + j],
        decreases tail.len() - i,
    {
        if text[offset + i] != tail[i] {
            proof {
                assert(s@.subrange(offset as int, s@.len() as int)[i as int] == s@[offset + i]);
            }
            return false;
        }
        i = i + 1;
    }
    true
}

/// `head` followed by `tail`.
pub fn joined(head: &str, tail: &str) -> (r: String)
    ensures
        r@ == head@ + tail@,
{
    let mut text = head.to_string();
    text.append(tail);
    text
}

/// What is left of `s` at its front after trimming is `s` itself or begins later, and the part
/// that went is white space.
proof fn lemma_trim_start(s: Seq<char>)
    ensures
        trim_start(s).len() <= s.len(),
        trim_start(s) == s.skip(s.len() - trim_start(s).len()),
        is_blank(s.take(s.len() - trim_start(s).len())),
        trim_start(s).len() > 0 ==> !is_white_space(trim_start(s).first()),
    decreases s.len(),
{
    if s.len() > 0 && is_white_space(s.first()) {
        let rest = s.drop_first();
        lemma_trim_start(rest);
        let gone = rest.len() - trim_start(rest).len();
        assert(rest.skip(gone) == s.skip(gone + 1));
        assert forall|i: int| 0 <= i < gone + 1 implies is_white_space(
            #[trigger] s.take(gone + 1)[i],
        ) by {
            if i > 0 {
                assert(rest.take(gone)[i - 1] == s[i]);
            }
        }
    } else {
        assert(s.skip(0) == s);
    }
}

/// What is left of `s` after trimming its end is a prefix of `s`, and the part that went is white
/// space.
proof fn lemma_trim_end(s: Seq<char>)
    ensures
        trim_end(s).len() <= s.len(),
        trim_end(s) == s.take(trim_end(s).len() as int),
        is_blank(s.skip(trim_end(s).len() as int)),
        trim_end(s).len() > 0 ==> !is_white_space(trim_end(s).last()),
    decreases s.len(),
{
    if s.len() > 0 && is_white_space(s.last()) {
        let rest = s.drop_last();
        lemma_trim_end(rest);
        let kept = trim_end(rest).len() as int;
        assert(rest.take(kept) == s.take(kept));
        assert forall|i: int| 0 <= i < s.len() - kept implies is_white_space(
            #[trigger] s.skip(kept)[i],
        ) by {
            if i < rest.len() - kept {
                assert(rest.skip(kept)[i] == s[kept + i]);
            }
        }
    } else {
        assert(s.take(s.len() as int) == s);
    }
}

/// Nothing is left of a text after trimming if and only if it is blank.
pub proof fn lemma_trimmed_is_empty(s: Seq<char>)
    ensures
        (trimmed(s).len() == 0) == is_blank(s),
{
    lemma_trim_start(s);
    lemma_trim_end(trim_start(s));
    let rest = trim_start(s);
    let gone = s.len() - rest.len();
    if trimmed(s).len() == 0 {
        assert forall|i: int| 0 <= i < s.len() implies is_white_space(#[trigger] s[i]) by {
            if i < gone {
                assert(s.take(gone)[i] == s[i]);
            } else {
                assert(rest.skip(0)[i - gone] == s[i]);
            }
        }
    } else if rest.len() > 0 {
        assert(rest.first() == s[gone]);
    }
}

/// A text neither begins nor ends with white space after trimming.
pub proof fn lemma_trimmed_ends(s: Seq<char>)
    ensures
        trimmed(s).len() > 0 ==> !is_white_space(trimmed(s).first()) && !is_white_space(
            trimmed(s).last(),
        ),
{
    lemma_trim_start(s);
    lemma_trim_end(trim_start(s));
}

/// What is left of `s` without its trailing `c` is a prefix of `s` that does not end with `c`.
pub proof fn lemma_without_trailing(s: Seq<char>, c: char)
    ensures
        without_trailing(s, c).len() <= s.len(),
        without_trailing(s, c) == s.take(without_trailing(s, c).len() as int),
        without_trailing(s, c).len() > 0 ==> without_trailing(s, c).last() != c,
    decreases s.len(),
{
    if s.len() > 0 && s.last() == c {
        lemma_without_trailing(s.drop_last(), c);
        let kept = without_trailing(s, c).len() as int;
        assert(s.drop_last().take(kept) == s.take(kept));
    } else {
        assert(s.take(s.len() as int) == s);
    }
}

/// Trimming the front takes white space in front of a text along.
proof fn lemma_trim_start_padding(before: Seq<char>, s: Seq<char>)
    requires
        is_blank(before),
    ensures
        trim_start(before + s) == trim_start(s),
    decreases before.len(),
{
    if before.len() == 0 {
        assert(before + s == s);
    } else {
        assert(is_white_space(before[0]));
        let rest = before.drop_first();
        assert forall|i: int| 0 <= i < rest.len() implies is_white_space(#[trigger] rest[i]) by {
            assert(rest[i] == before[i + 1]);
        }
        lemma_trim_start_padding(rest, s);
        assert((before + s).drop_first() == rest + s);
    }
}

/// Trimming the end takes white space behind a text along.
proof fn lemma_trim_end_padding(s: Seq<char>, after: Seq<char>)
    requires
        is_blank(after),
    ensures
        trim_end(s + after) == trim_end(s),
    decreases after.len(),
{
    if after.len() == 0 {
        assert(s + after == s);
    } else {
        assert(is_white_space(after[after.len() - 1]));
        let rest = after.drop_last();
        assert forall|i: int| 0 <= i < rest.len() implies is_white_space(#[trigger] rest[i]) by {
            assert(rest[i] == after[i]);
        }
        lemma_trim_end_padding(s, rest);
        assert((s + after).drop_last() == s + rest);
    }
}

/// Trimming the front leaves what follows a text that is not blank.
proof fn lemma_trim_start_tail(s: Seq<char>, tail: Seq<char>)
    requires
        !is_blank(s),
    ensures
        trim_start(s + tail) == trim_start(s) + tail,
    decreases s.len(),
{
    if is_white_space(s.first()) {
        let rest = s.drop_first();
        if is_blank(rest) {
            assert forall|i: int| 0 <= i < s.len() implies is_white_space(#[trigger] s[i]) by {
                if i > 0 {
                    assert(rest[i - 1] == s[i]);
                }
            }
        }
        lemma_trim_start_tail(rest, tail);
        assert((s + tail).drop_first() == rest + tail);
    }
}

/// White space around a text makes no difference once it is trimmed.
pub proof fn lemma_trimmed_padding(before: Seq<char>, s: Seq<char>, after: Seq<char>)
    requires
        is_blank(before),
        is_blank(after),
    ensures
        trimmed(before + s + after) == trimmed(s),
{
    assert(before + s + after == before + (s + after));
    lemma_trim_start_padding(before, s + after);
    if is_blank(s) {
        lemma_trimmed_is_empty(s);
        assert(is_blank(s + after));
        lemma_trimmed_is_empty(s + after);
        assert(trimmed(s + after) == trimmed(s));
    } else {
        lemma_trim_start_tail(s, after);
        lemma_trim_end_padding(trim_start(s), after);
    }
}

/// A character that is not white space stays at the end of a text that does not end with white
/// space.
pub proof fn lemma_trimmed_push(s: Seq<char>, c: char)
    requires
        !is_white_space(c),
        s.len() > 0 ==> !is_white_space(s.last()),
    ensures
        trimmed(s.push(c)) == trimmed(s).push(c),
{
    if s.len() == 0 {
        assert(s.push(c) == seq![c]);
        assert(trimmed(s.push(c)) == seq![c]);
        assert(trimmed(s) == Seq::<char>::empty());
    } else {
        assert(!is_white_space(s[s.len() - 1]));
        assert(s.push(c) == s + seq![c]);
        lemma_trim_start_tail(s, seq![c]);
        lemma_trim_start(s);
        lemma_trimmed_is_empty(s);
        assert(trim_start(s).last() == s.last());
        assert(trim_start(s) + seq![c] == trim_start(s).push(c));
    }
}

} // verus!
