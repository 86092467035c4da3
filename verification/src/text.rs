//! Strings as sequences of characters: their length in bytes, comparison,
//! and the removal of surrounding white space.

use vstd::prelude::*;
use vstd::std_specs::iter::IteratorSpec;
use vstd::string::*;
use vstd::utf8::*;

verus! {

/// The number of bytes that `s` occupies in UTF-8.
pub open spec fn utf8_len(s: Seq<char>) -> nat {
    encode_utf8(s).len()
}

/// A character is a number that UTF-8 can encode.
proof fn lemma_char_is_scalar(c: char)
    ensures
        c as u32 == c as int,
        is_scalar(c as u32),
{
}

/// Every character takes at least one byte, and a string takes no more
/// bytes than it has characters only if it is ASCII.
pub proof fn lemma_utf8_len_and_chars(s: Seq<char>)
    ensures
        s.len() <= utf8_len(s),
        utf8_len(s) == s.len() <==> is_ascii_chars(s),
    decreases s.len(),
{
    if s.len() > 0 {
        let rest = s.drop_first();
        let head = encode_scalar(s[0] as u32);
        lemma_utf8_len_and_chars(rest);
        assert(encode_utf8(s) == head + encode_utf8(rest));
        lemma_char_is_scalar(s[0]);
        assert(head.len() >= 1);
        assert(head.len() == 1 <==> s[0] <= '\u{7f}');
        assert(is_ascii_chars(s) <==> s[0] <= '\u{7f}' && is_ascii_chars(rest)) by {
            if is_ascii_chars(s) {
                assert(s[0] <= '\u{7f}');
                assert forall|i: int| 0 <= i < rest.len() implies '\0' <= #[trigger] rest[i]
                    <= '\u{7f}' by {
                    assert(rest[i] == s[i + 1]);
                }
            }
            if s[0] <= '\u{7f}' && is_ascii_chars(rest) {
                assert forall|i: int| 0 <= i < s.len() implies '\0' <= #[trigger] s[i]
                    <= '\u{7f}' by {
                    if i > 0 {
                        assert(s[i] == rest[i - 1]);
                    }
                }
            }
        }
    }
}

/// The bytes of two strings set one after the other are the bytes of the
/// first and then those of the second.
pub proof fn lemma_utf8_len_of_joined(a: Seq<char>, b: Seq<char>)
    ensures
        utf8_len(a + b) == utf8_len(a) + utf8_len(b),
    decreases a.len(),
{
    if a.len() == 0 {
        assert(a + b =~= b);
    } else {
        lemma_utf8_len_of_joined(a.drop_first(), b);
        assert((a + b).drop_first() =~= a.drop_first() + b);
    }
}

/// An ASCII string has as many bytes as characters.
pub proof fn lemma_utf8_len_ascii(s: Seq<char>)
    requires
        is_ascii_chars(s),
    ensures
        utf8_len(s) == s.len(),
{
    lemma_utf8_len_and_chars(s);
}

/// The length of `s` in bytes.
pub fn byte_len(s: &str) -> (n: usize)
    ensures
        n == utf8_len(s@),
{
    s.as_bytes().len()
}

/// Whether `a` and `b` hold the same characters.
pub fn same_text(a: &str, b: &str) -> (same: bool)
    ensures
        same == (a@ == b@),
{
    let x = a.as_bytes();
    let y = b.as_bytes();
    if x.len() != y.len() {
        return false;
    }
    let mut i: usize = 0;
    while i < x.len()
        invariant
            i <= x@.len(),
            x@.len() == y@.len(),
            x@ == encode_utf8(a@),
            y@ == encode_utf8(b@),
            forall|j: int| 0 <= j < i ==> x@[j] == y@[j],
        decreases x@.len() - i,
    {
        if x[i] != y[i] {
            return false;
        }
        i += 1;
    }
    proof {
        assert(x@ =~= y@);
        encode_utf8_decode_utf8(a@);
        encode_utf8_decode_utf8(b@);
    }
    true
}

/// Whether `c` is white space: the answer of `char::is_whitespace`, which
/// tells whether a character has the Unicode property `White_Space`.
pub uninterp spec fn white_space(c: char) -> bool;

/// `char::is_whitespace` depends on the character alone; its answer is what
/// [`white_space`] stands for.
pub assume_specification[ char::is_whitespace ](c: char) -> (b: bool)
    ensures
        b == white_space(c),
;

/// `s` without the white space it begins with.
pub open spec fn trim_start(s: Seq<char>) -> Seq<char>
    decreases s.len(),
{
    if s.len() > 0 && white_space(s.first()) {
        trim_start(s.drop_first())
    } else {
        s
    }
}

/// `s` without the white space it ends with.
pub open spec fn trim_end(s: Seq<char>) -> Seq<char>
    decreases s.len(),
{
    if s.len() > 0 && white_space(s.last()) {
        trim_end(s.drop_last())
    } else {
        s
    }
}

/// `s` without the white space around it.
pub open spec fn trimmed(s: Seq<char>) -> Seq<char> {
    trim_end(trim_start(s))
}

/// Where `s` holds only white space before `from`, `trim_start` drops
/// exactly those characters, provided that it must stop at `from`.
proof fn lemma_trim_start_at(s: Seq<char>, from: int)
    requires
        0 <= from <= s.len(),
        forall|j: int| 0 <= j < from ==> white_space(#[trigger] s[j]),
        from < s.len() ==> !white_space(s[from]),
    ensures
        trim_start(s) == s.skip(from),
    decreases from,
{
    if from == 0 {
        assert(s.skip(0) =~= s);
    } else {
        let rest = s.drop_first();
        assert forall|j: int| 0 <= j < from - 1 implies white_space(#[trigger] rest[j]) by {
            assert(rest[j] == s[j + 1]);
        }
        lemma_trim_start_at(rest, from - 1);
        assert(rest.skip(from - 1) =~= s.skip(from));
    }
}

/// Where `s` holds only white space from `to` on, `trim_end` drops exactly
/// those characters, provided that it must stop at `to`.
proof fn lemma_trim_end_at(s: Seq<char>, to: int)
    requires
        0 <= to <= s.len(),
        forall|j: int| to <= j < s.len() ==> white_space(#[trigger] s[j]),
        0 < to ==> !white_space(s[to - 1]),
    ensures
        trim_end(s) == s.take(to),
    decreases s.len() - to,
{
    if to == s.len() {
        assert(s.take(to) =~= s);
    } else {
        let rest = s.drop_last();
        lemma_trim_end_at(rest, to);
        assert(rest.take(to) =~= s.take(to));
    }
}

/// The part of `s` between a first and a last character that are not white
/// space, with nothing but white space outside, is `trimmed(s)`.
pub proof fn lemma_trimmed_is_subrange(s: Seq<char>, from: int, to: int)
    requires
        0 <= from <= to <= s.len(),
        forall|j: int| 0 <= j < from ==> white_space(#[trigger] s[j]),
        forall|j: int| to <= j < s.len() ==> white_space(#[trigger] s[j]),
        from < to ==> !white_space(s[from]) && !white_space(s[to - 1]),
    ensures
        trimmed(s) == s.subrange(from, to),
{
    if from < to {
        lemma_trim_start_at(s, from);
        let rest = s.skip(from);
        assert forall|j: int| to - from <= j < rest.len() implies white_space(
            #[trigger] rest[j],
        ) by {
            assert(rest[j] == s[j + from]);
        }
        lemma_trim_end_at(rest, to - from);
        assert(rest.take(to - from) =~= s.subrange(from, to));
    } else {
        lemma_trim_start_at(s, s.len() as int);
        assert(s.skip(s.len() as int) =~= Seq::<char>::empty());
        assert(s.subrange(from, to) =~= Seq::<char>::empty());
    }
}

/// `text` without the white space around it.
pub fn trim(text: &str) -> (inner: &str)
    ensures
        inner@ == trimmed(text@),
{
    // A text has no more characters than bytes, so the positions fit.
    let bytes = byte_len(text);
    proof {
        lemma_utf8_len_and_chars(text@);
    }
    let mut chars = text.chars();
    let mut index: usize = 0;
    let mut from: usize = 0;
    let mut to: usize = 0;
    loop
        invariant
            text@.len() <= bytes,
            index <= text@.len(),
            chars.remaining() == text@.skip(index as int),
            from <= to <= index,
            forall|j: int| 0 <= j < from ==> white_space(#[trigger] text@[j]),
            forall|j: int| to <= j < index ==> white_space(#[trigger] text@[j]),
            from < to ==> !white_space(text@[from as int]) && !white_space(text@[to - 1]),
            from == to ==> from == 0 && to == 0,
        ensures
            index == text@.len(),
        decreases text@.len() - index,
    {
        match chars.next() {
            None => {
                break;
            },
            Some(c) => {
                assert(c == text@[index as int]);
                if !c.is_whitespace() {
                    if from == to {
                        from = index;
                    }
                    to = index + 1;
                }
                index = index + 1;
            },
        }
    }
    proof {
        lemma_trimmed_is_subrange(text@, from as int, to as int);
    }
    text.substring_char(from, to)
}

} // verus!
