//! Rendering one banner line from a pair of delimiters, a width and a text.
//!
//! Two measures are in play. Whether the text leaves room for decoration is
//! a matter of bytes: the delimiters, a space beside each and the text are
//! held against the width by the bytes they take. The decoration itself is a
//! matter of characters: the text is centred in a field of as many
//! characters as the width leaves. For ASCII the two are one.

use vstd::prelude::*;
use vstd::string::*;
use vstd::utf8::is_ascii_chars;

use crate::language::{lemma_resolved_delimiters_are_ascii, resolved, CommentSyntax, DelimiterPair};
use crate::text::{
    byte_len, lemma_trimmed_is_subrange, lemma_utf8_len_and_chars, lemma_utf8_len_ascii,
    lemma_utf8_len_of_joined, trim, trimmed, utf8_len, white_space,
};

verus! {

/// A run of `n` dashes.
pub open spec fn dashes(n: nat) -> Seq<char> {
    Seq::new(n, |i: int| '-')
}

/// The text as it stands inside a banner: nothing if it holds only white
/// space, else its trimmed form with one space on either side.
pub open spec fn padded_text(text: Seq<char>) -> Seq<char> {
    let inner = trimmed(text);
    if inner.len() == 0 {
        Seq::empty()
    } else {
        seq![' '] + inner + seq![' ']
    }
}

/// `body` centred in a field of `field` characters that is filled up with
/// dashes; where the fill is odd, the right side gets the dash more. A body
/// that is as long as the field or longer is left as it is.
pub open spec fn centered(body: Seq<char>, field: nat) -> Seq<char> {
    if body.len() >= field {
        body
    } else {
        let fill = (field - body.len()) as nat;
        dashes(fill / 2) + body + dashes(((fill + 1) / 2) as nat)
    }
}

/// The bytes that the delimiters take, and one for a space beside each.
pub open spec fn frame_len(pair: DelimiterPair) -> nat {
    utf8_len(pair.start) + utf8_len(pair.end) + 2
}

/// Whether `body` and the frame leave room for decoration in `width`.
pub open spec fn fits(pair: DelimiterPair, width: nat, body: Seq<char>) -> bool {
    frame_len(pair) + utf8_len(body) < width
}

/// `body` between the delimiters: centred in dashes where it fits, bare
/// where it does not.
pub open spec fn framed(pair: DelimiterPair, width: nat, body: Seq<char>) -> Seq<char> {
    if fits(pair, width, body) {
        pair.start + seq![' '] + centered(body, (width - frame_len(pair)) as nat) + seq![' ']
            + pair.end
    } else {
        pair.start + body + pair.end
    }
}

/// The banner line for `text` in a comment of `pair`, `width` wide.
pub open spec fn banner(pair: DelimiterPair, width: nat, text: Seq<char>) -> Seq<char> {
    framed(pair, width, padded_text(text))
}

/// Trims `text` and, unless nothing is left, sets it between two spaces.
pub fn pad_text(text: &str) -> (body: String)
    ensures
        body@ == padded_text(text@),
{
    let inner = trim(text);
    let mut body = String::new();
    if !inner.is_empty() {
        proof {
            reveal_strlit(" ");
            assert(" "@ =~= seq![' ']);
        }
        body.append(" ");
        body.append(inner);
        body.append(" ");
    }
    body
}

/// Appends `n` dashes to `line`.
fn push_dashes(line: &mut String, n: usize)
    ensures
        final(line)@ == old(line)@ + dashes(n as nat),
{
    let mut i: usize = 0;
    proof {
        assert(line@ =~= old(line)@ + dashes(0));
    }
    while i < n
        invariant
            i <= n,
            line@ == old(line)@ + dashes(i as nat),
        decreases n - i,
    {
        proof {
            reveal_strlit("-");
            assert(dashes(i as nat) + "-"@ =~= dashes((i + 1) as nat));
        }
        line.append("-");
        i += 1;
        assert(line@ =~= old(line)@ + dashes(i as nat));
    }
}

/// Centres `body` in a field of `field` characters, filled up with dashes.
pub fn center(body: &str, field: usize) -> (line: String)
    ensures
        line@ == centered(body@, field as nat),
{
    let len = body.unicode_len();
    let mut line = String::new();
    if len >= field {
        line.append(body);
        assert(line@ =~= body@);
    } else {
        let fill = field - len;
        let left = fill / 2;
        let right = fill - left;
        push_dashes(&mut line, left);
        line.append(body);
        push_dashes(&mut line, right);
        assert(line@ =~= dashes(left as nat) + body@ + dashes(right as nat));
    }
    line
}

/// The width that is left for the centred field, if `body` fits.
fn field_width(syntax: &CommentSyntax, length: usize, body: &str) -> (field: Option<usize>)
    ensures
        fits(syntax@, length as nat, body@) <==> field is Some,
        field matches Some(n) ==> n == length - frame_len(syntax@),
{
    let start = byte_len(syntax.start.as_str());
    if length <= start {
        return None;
    }
    let end = byte_len(syntax.end.as_str());
    if length - start <= end {
        return None;
    }
    let room = length - start - end;
    if room <= 2 {
        return None;
    }
    if room - 2 <= byte_len(body) {
        return None;
    }
    Some(room - 2)
}

/// Sets `body` between the delimiters of `syntax`: centred in dashes, with a
/// space beside each delimiter, where that fits in `length`; bare otherwise.
pub fn frame(syntax: &CommentSyntax, length: usize, body: &str) -> (line: String)
    ensures
        line@ == framed(syntax@, length as nat, body@),
{
    let mut line = String::new();
    line.append(syntax.start.as_str());
    match field_width(syntax, length, body) {
        Some(field) => {
            let middle = center(body, field);
            proof {
                reveal_strlit(" ");
                assert(" "@ =~= seq![' ']);
            }
            line.append(" ");
            line.append(middle.as_str());
            line.append(" ");
            line.append(syntax.end.as_str());
            assert(line@ =~= syntax@.start + seq![' '] + middle@ + seq![' '] + syntax@.end);
        },
        None => {
            line.append(body);
            line.append(syntax.end.as_str());
            assert(line@ =~= syntax@.start + body@ + syntax@.end);
        },
    }
    line
}

/// The banner line for `comment` in the comment syntax `syntax`, `length`
/// wide where the text leaves room for that.
pub fn get_comment(syntax: CommentSyntax, length: usize, comment: &str) -> (line: String)
    ensures
        line@ == banner(syntax@, length as nat, comment@),
{
    let body = pad_text(comment);
    frame(&syntax, length, body.as_str())
}

/// A body that is shorter than the field fills the field exactly when it is
/// centred; the fill on the left is half of what is missing, rounded down.
pub proof fn lemma_centered_fills_field(body: Seq<char>, field: nat)
    requires
        body.len() < field,
    ensures
        centered(body, field).len() == field,
        centered(body, field) == dashes(((field - body.len()) / 2) as nat) + body + dashes(
            ((field - body.len()) - (field - body.len()) / 2) as nat,
        ),
{
}

/// Centring nothing gives a solid run of dashes.
pub proof fn lemma_centered_nothing(field: nat)
    ensures
        centered(Seq::empty(), field) == dashes(field),
{
    assert(centered(Seq::empty(), field) =~= dashes(field));
}

/// A text that holds nothing but white space leaves no body.
pub proof fn lemma_blank_text_has_no_body(text: Seq<char>)
    requires
        forall|i: int| 0 <= i < text.len() ==> white_space(#[trigger] text[i]),
    ensures
        padded_text(text) == Seq::<char>::empty(),
{
    lemma_trimmed_is_subrange(text, 0, 0);
}

/// Where the frame and the body leave no room, the banner is the body between
/// the bare delimiters, however long that is.
pub proof fn lemma_banner_without_room(pair: DelimiterPair, width: nat, text: Seq<char>)
    requires
        width <= frame_len(pair) + utf8_len(padded_text(text)),
    ensures
        banner(pair, width, text) == pair.start + padded_text(text) + pair.end,
{
}

/// A width below the length of the frame leaves no room, whatever the text.
pub proof fn lemma_banner_narrower_than_frame(pair: DelimiterPair, width: nat, text: Seq<char>)
    requires
        width < frame_len(pair),
    ensures
        banner(pair, width, text) == pair.start + padded_text(text) + pair.end,
{
}

/// Where there is room, the banner has `width` characters less those bytes
/// of the delimiters that are not the first of a character. So it has
/// `width` characters if and only if both delimiters are ASCII.
pub proof fn lemma_banner_with_room_len(pair: DelimiterPair, width: nat, text: Seq<char>)
    requires
        frame_len(pair) + utf8_len(padded_text(text)) < width,
    ensures
        banner(pair, width, text).len() == width - (utf8_len(pair.start) - pair.start.len()) - (
        utf8_len(pair.end) - pair.end.len()),
        banner(pair, width, text).len() == width <==> is_ascii_chars(pair.start) && is_ascii_chars(
            pair.end,
        ),
{
    let body = padded_text(text);
    lemma_utf8_len_and_chars(body);
    lemma_utf8_len_and_chars(pair.start);
    lemma_utf8_len_and_chars(pair.end);
    lemma_centered_fills_field(body, (width - frame_len(pair)) as nat);
}

/// Where there is room, the banner takes `width` bytes and one more for
/// each byte of the body that is not the first of a character. So it takes
/// `width` bytes if and only if the body is ASCII.
pub proof fn lemma_banner_with_room_byte_len(pair: DelimiterPair, width: nat, text: Seq<char>)
    requires
        frame_len(pair) + utf8_len(padded_text(text)) < width,
    ensures
        utf8_len(banner(pair, width, text)) == width + (utf8_len(padded_text(text)) - padded_text(
            text,
        ).len()),
        utf8_len(banner(pair, width, text)) == width <==> is_ascii_chars(padded_text(text)),
{
    let body = padded_text(text);
    let field = (width - frame_len(pair)) as nat;
    let fill = (field - body.len()) as nat;
    let left = dashes(fill / 2);
    let right = dashes(((fill + 1) / 2) as nat);
    let space = seq![' '];
    lemma_utf8_len_and_chars(body);
    lemma_utf8_len_ascii(left);
    lemma_utf8_len_ascii(right);
    lemma_utf8_len_ascii(space);
    lemma_utf8_len_of_joined(left, body);
    lemma_utf8_len_of_joined(left + body, right);
    lemma_utf8_len_of_joined(pair.start, space);
    lemma_utf8_len_of_joined(pair.start + space, left + body + right);
    lemma_utf8_len_of_joined(pair.start + space + (left + body + right), space);
    lemma_utf8_len_of_joined(pair.start + space + (left + body + right) + space, pair.end);
}

/// Where there is room and the delimiters are ASCII, the banner is exactly
/// `width` characters long.
pub proof fn lemma_banner_with_room_has_width(pair: DelimiterPair, width: nat, text: Seq<char>)
    requires
        frame_len(pair) + utf8_len(padded_text(text)) < width,
        is_ascii_chars(pair.start),
        is_ascii_chars(pair.end),
    ensures
        banner(pair, width, text).len() == width,
{
    lemma_banner_with_room_len(pair, width, text);
}

/// In the syntax that a language resolves to, known or not, a banner with
/// room is exactly `width` characters long.
pub proof fn lemma_banner_of_language_has_width(id: Seq<char>, width: nat, text: Seq<char>)
    requires
        frame_len(resolved(id)) + utf8_len(padded_text(text)) < width,
    ensures
        banner(resolved(id), width, text).len() == width,
{
    lemma_resolved_delimiters_are_ascii(id);
    lemma_banner_with_room_has_width(resolved(id), width, text);
}

} // verus!
