//! Geography points in well-known text: `POINT(lon lat)`.
//!
//! Only the framing is dealt with here: which part of the text is the
//! longitude and which the latitude. Reading the two as numbers, and writing
//! numbers as text, is left to the caller.

use crate::double::Double;
use crate::message::text_of;
use vstd::prelude::*;
use vstd::string::{StrSliceExecFns, StringExecFns};
use vstd::utf8::{decode_utf8, valid_utf8};

verus! {

/// A position on the globe.
#[derive(Clone, Copy, Debug, PartialEq, Eq, Structural)]
pub struct Geography {
    pub lon: Double,
    pub lat: Double,
}

/// Why a stored value is no geography point.
#[derive(Clone, Copy, Debug, PartialEq, Eq, Structural)]
pub enum GeographyError {
    /// The value is not UTF-8 text.
    NotText,
    /// The text is not `POINT(`, two fields and `)`.
    InvalidFormat,
}

/// Whether a character is white space in the sense of Unicode's
/// `White_Space` property.
pub open spec fn is_space(c: char) -> bool {
    ||| '\u{9}' <= c <= '\u{d}'
    ||| c == ' '
    ||| c == '\u{85}'
    ||| c == '\u{a0}'
    ||| c == '\u{1680}'
    ||| '\u{2000}' <= c <= '\u{200a}'
    ||| c == '\u{2028}'
    ||| c == '\u{2029}'
    ||| c == '\u{202f}'
    ||| c == '\u{205f}'
    ||| c == '\u{3000}'
}

/// `pending`, if it holds anything, as a completed word.
pub open spec fn completed(pending: Seq<char>) -> Seq<Seq<char>> {
    if pending.len() > 0 {
        seq![pending]
    } else {
        Seq::empty()
    }
}

/// The words of `pending` followed by `rest`, where `pending` holds no white
/// space: reading `rest` from the left, a character that is not white space
/// extends the pending word and white space completes it.
pub open spec fn words_after(pending: Seq<char>, rest: Seq<char>) -> Seq<Seq<char>>
    decreases rest.len(),
{
    if rest.len() == 0 {
        completed(pending)
    } else if is_space(rest[0]) {
        completed(pending) + words_after(Seq::empty(), rest.drop_first())
    } else {
        words_after(pending.push(rest[0]), rest.drop_first())
    }
}

/// The words of a text: its maximal runs of characters that are not white
/// space, from left to right.
pub open spec fn words(text: Seq<char>) -> Seq<Seq<char>> {
    words_after(Seq::empty(), text)
}

/// What stands between `POINT(` and the closing `)`, if the text has that
/// frame.
pub open spec fn framed(text: Seq<char>) -> Option<Seq<char>> {
    if text.len() >= 7 && text.take(6) == "POINT("@ && text.last() == ')' {
        Some(text.subrange(6, text.len() - 1))
    } else {
        None
    }
}

/// The longitude and latitude fields of a point in well-known text: the two
/// words inside the frame, if the text has the frame and exactly two words
/// stand in it.
pub open spec fn point_fields(text: Seq<char>) -> Option<(Seq<char>, Seq<char>)> {
    match framed(text) {
        Some(inner) => if words(inner).len() == 2 {
            Some((words(inner)[0], words(inner)[1]))
        } else {
            None
        },
        None => None,
    }
}

/// The well-known text of a point whose fields are `lon` and `lat`.
pub open spec fn point_text(lon: Seq<char>, lat: Seq<char>) -> Seq<char> {
    "POINT("@ + lon + " "@ + lat + ")"@
}

/// Whether `c` is white space.
pub fn is_whitespace(c: char) -> (space: bool)
    ensures
        space == is_space(c),
{
    (c >= '\u{9}' && c <= '\u{d}') || c == ' ' || c == '\u{85}' || c == '\u{a0}' || c
        == '\u{1680}' || (c >= '\u{2000}' && c <= '\u{200a}') || c == '\u{2028}' || c
        == '\u{2029}' || c == '\u{202f}' || c == '\u{205f}' || c == '\u{3000}'
}

/// Splits a text into its words.
pub fn split_words(text: &str) -> (found: Vec<String>)
    ensures
        found.deep_view() == words(text@),
{
    let len = text.unicode_len();
    let mut found: Vec<String> = Vec::new();
    let mut start: usize = 0;
    let mut i: usize = 0;
    assert(text@.skip(0) =~= text@);
    assert(text@.subrange(0, 0) =~= Seq::empty());
    while i < len
        invariant
            start <= i <= len,
            len == text@.len(),
            words(text@) == found.deep_view() + words_after(
                text@.subrange(start as int, i as int),
                text@.skip(i as int),
            ),
        decreases len - i,
    {
        let ghost before = found.deep_view();
        let ghost pending = text@.subrange(start as int, i as int);
        let ghost rest = text@.skip(i as int);
        let c = text.get_char(i);
        assert(rest.drop_first() =~= text@.skip(i as int + 1));
        if is_whitespace(c) {
            if start < i {
                let word = text.substring_char(start, i);
                found.push(String::from_str(word));
            }
            assert(found.deep_view() =~= before + completed(pending));
            start = i + 1;
            assert(text@.subrange(start as int, i as int + 1) =~= Seq::empty());
        } else {
            assert(text@.subrange(start as int, i as int + 1) =~= pending.push(c));
        }
        i += 1;
    }
    if start < len {
        let word = text.substring_char(start, len);
        found.push(String::from_str(word));
    }
    found
}

impl Geography {
    /// Reads the longitude and latitude fields of a stored point. The value must
    /// be text of the form `POINT(lon lat)`, with white space between the two
    /// fields and optionally around them.
    pub fn from_sql(value: &[u8]) -> (fields: Result<(String, String), GeographyError>)
        ensures
            match fields {
                Ok((lon, lat)) => valid_utf8(value@) && point_fields(decode_utf8(value@)) == Some(
                    (lon@, lat@),
                ),
                Err(GeographyError::NotText) => !valid_utf8(value@),
                Err(GeographyError::InvalidFormat) => valid_utf8(value@) && point_fields(
                    decode_utf8(value@),
                ) is None,
            },
    {
        let text = match text_of(value) {
            Some(text) => text,
            None => {
                return Err(GeographyError::NotText);
            },
        };
        let len = text.unicode_len();
        proof {
            reveal_strlit("POINT(");
        }
        if len < 7 {
            return Err(GeographyError::InvalidFormat);
        }
        if text.get_char(0) != 'P' || text.get_char(1) != 'O' || text.get_char(2) != 'I'
            || text.get_char(3) != 'N' || text.get_char(4) != 'T' || text.get_char(5) != '('
            || text.get_char(len - 1) != ')' {
            assert(!(text@.take(6) =~= "POINT("@) || text@.last() != ')') by {
                if text@.take(6) =~= "POINT("@ {
                    assert(text@.take(6)[0] == 'P');
                    assert(text@.take(6)[1] == 'O');
                    assert(text@.take(6)[2] == 'I');
                    assert(text@.take(6)[3] == 'N');
                    assert(text@.take(6)[4] == 'T');
                    assert(text@.take(6)[5] == '(');
                }
            }
            return Err(GeographyError::InvalidFormat);
        }
        assert(text@.take(6) =~= "POINT("@);
        let inner = text.substring_char(6, len - 1);
        let mut found = split_words(inner);
        if found.len() != 2 {
            return Err(GeographyError::InvalidFormat);
        }
        let lat = found.pop().unwrap();
        let lon = found.pop().unwrap();
        Ok((lon, lat))
    }

    /// Writes a point as well-known text, from the text of its two fields.
    pub fn to_sql(lon: &str, lat: &str) -> (text: String)
        ensures
            text@ == point_text(lon@, lat@),
    {
        let mut text = String::from_str("POINT(");
        text.append(lon);
        text.append(" ");
        text.append(lat);
        text.append(")");
        text
    }
}

/// Whether no character of `word` is white space.
pub open spec fn free_of_space(word: Seq<char>) -> bool {
    forall|i: int| 0 <= i < word.len() ==> !is_space(#[trigger] word[i])
}

/// Reading on through characters that are not white space only extends the
/// pending word.
proof fn word_extends_pending(pending: Seq<char>, word: Seq<char>, rest: Seq<char>)
    requires
        free_of_space(word),
    ensures
        words_after(pending, word + rest) == words_after(pending + word, rest),
    decreases word.len(),
{
    if word.len() > 0 {
        let text = word + rest;
        assert(text.drop_first() =~= word.drop_first() + rest);
        assert forall|i: int| 0 <= i < word.drop_first().len() implies !is_space(
            #[trigger] word.drop_first()[i],
        ) by {
            assert(word.drop_first()[i] == word[i + 1]);
        }
        word_extends_pending(pending.push(word[0]), word.drop_first(), rest);
        assert(pending.push(word[0]) + word.drop_first() =~= pending + word);
    }
}

/// A point that is written from two fields reads back as those fields,
/// provided that each field holds something and no white space.
pub proof fn written_point_reads_back(lon: Seq<char>, lat: Seq<char>)
    requires
        lon.len() > 0,
        lat.len() > 0,
        free_of_space(lon),
        free_of_space(lat),
    ensures
        point_fields(point_text(lon, lat)) == Some((lon, lat)),
{
    reveal_strlit("POINT(");
    reveal_strlit(" ");
    reveal_strlit(")");
    let text = point_text(lon, lat);
    let inner = lon + seq![' '] + lat;
    assert(text.take(6) =~= "POINT("@);
    assert(text.subrange(6, text.len() - 1) =~= inner);
    assert(framed(text) == Some(inner));

    let tail = seq![' '] + lat;
    assert(inner =~= lon + tail);
    word_extends_pending(Seq::empty(), lon, tail);
    assert(tail.drop_first() =~= lat);
    word_extends_pending(Seq::empty(), lat, Seq::empty());
    assert(words(inner) =~= seq![lon, lat]);
}

} // verus!
