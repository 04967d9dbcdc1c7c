//! The password, which `secret-tool` keeps.
use crate::config::{HOST, USER};
use crate::error::ClientError;
use vstd::prelude::*;
use vstd::string::*;
use vstd::utf8::*;

verus! {

/// The arguments with which `secret-tool` is asked for the password.
pub fn secret_tool_arguments() -> (arguments: [&'static str; 7])
    ensures
        arguments[0]@ == "lookup"@,
        arguments[1]@ == "service"@,
        arguments[2]@ == "freerdp"@,
        arguments[3]@ == "host"@,
        arguments[4]@ == HOST@,
        arguments[5]@ == "user"@,
        arguments[6]@ == USER@,
{
    ["lookup", "service", "freerdp", "host", HOST, "user", USER]
}

/// What `String::from_utf8_lossy` makes of bytes: their decoding, with a replacement character
/// for what is not UTF-8.
pub uninterp spec fn lossy_text(bytes: Seq<u8>) -> Seq<char>;

/// `String::from_utf8_lossy`: bytes that are UTF-8 are decoded as they stand.
#[verifier::external_body]
fn decode_lossy(bytes: &[u8]) -> (text: String)
    ensures
        text@ == lossy_text(bytes@),
        valid_utf8(bytes@) ==> text@ == decode_utf8(bytes@),
{
    String::from_utf8_lossy(bytes).into_owned()
}

/// The characters that have the Unicode property `White_Space`.
pub open spec fn is_white_space(c: char) -> bool {
    ||| '\u{9}' <= c <= '\u{d}'
    ||| c == '\u{20}'
    ||| c == '\u{85}'
    ||| c == '\u{a0}'
    ||| c == '\u{1680}'
    ||| '\u{2000}' <= c <= '\u{200a}'
    ||| c == '\u{2028}'
    ||| c == '\u{2029}'
    ||| c == '\u{202f}'
    ||| c == '\u{205f}'
    ||| c == '\u{3000}'
}

/// `char::is_whitespace`: whether a character has the Unicode property `White_Space`.
#[verifier::external_body]
fn white_space(c: char) -> (white: bool)
    ensures
        white == is_white_space(c),
{
    c.is_whitespace()
}

/// Text without the white space at its start.
pub open spec fn without_leading(text: Seq<char>) -> Seq<char>
    decreases text.len(),
{
    if text.len() > 0 && is_white_space(text[0]) {
        without_leading(text.drop_first())
    } else {
        text
    }
}

/// Text without the white space at its end.
pub open spec fn without_trailing(text: Seq<char>) -> Seq<char>
    decreases text.len(),
{
    if text.len() > 0 && is_white_space(text.last()) {
        without_trailing(text.drop_last())
    } else {
        text
    }
}

/// Text without the white space at its start and at its end.
pub open spec fn trimmed(text: Seq<char>) -> Seq<char> {
    without_trailing(without_leading(text))
}

/// Text without the white space at its start and at its end.
pub fn trim(text: &str) -> (inner: String)
    ensures
        inner@ == trimmed(text@),
{
    let len: usize = text.unicode_len();
    let mut start: usize = 0;
    assert(text@.skip(0) =~= text@);
    while start < len && white_space(text.get_char(start))
        invariant
            start <= len == text@.len(),
            without_leading(text@.skip(start as int)) == without_leading(text@),
        decreases len - start,
    {
        assert(text@.skip(start as int).drop_first() =~= text@.skip(start + 1));
        start = start + 1;
    }
    let ghost inner = text@.skip(start as int);
    assert(without_leading(text@) == inner);
    let mut end: usize = len;
    assert(text@.subrange(start as int, end as int) =~= inner);
    while end > start && white_space(text.get_char(end - 1))
        invariant
            start <= end <= len == text@.len(),
            without_trailing(text@.subrange(start as int, end as int)) == without_trailing(inner),
        decreases end - start,
    {
        assert(text@.subrange(start as int, end as int).drop_last() =~= text@.subrange(
            start as int,
            end - 1,
        ));
        end = end - 1;
    }
    text.substring_char(start, end).to_owned()
}

/// The password in what `secret-tool` has printed.
pub fn password_from_output(output: &[u8]) -> (password: Result<String, ClientError>)
    ensures
        trimmed(lossy_text(output@)).len() == 0 ==> password matches Err(
            ClientError::PasswordMissing,
        ),
        trimmed(lossy_text(output@)).len() > 0 ==> (password matches Ok(text) && text@ == trimmed(
            lossy_text(output@),
        )),
        valid_utf8(output@) ==> lossy_text(output@) == decode_utf8(output@),
{
    let text = decode_lossy(output);
    let password = trim(text.as_str());
    if password.as_str().is_empty() {
        Err(ClientError::PasswordMissing)
    } else {
        Ok(password)
    }
}

/// What is left of a text without leading white space starts with none and keeps its end.
proof fn lemma_without_leading(text: Seq<char>)
    ensures
        without_leading(text).len() > 0 ==> !is_white_space(without_leading(text)[0]),
        without_leading(text).len() <= text.len(),
        without_leading(text) == text.skip(text.len() - without_leading(text).len()),
    decreases text.len(),
{
    if text.len() > 0 && is_white_space(text[0]) {
        let rest = text.drop_first();
        lemma_without_leading(rest);
        let kept = without_leading(text).len();
        assert(rest.skip(rest.len() - kept) =~= text.skip(text.len() - kept));
    } else {
        assert(text.skip(0) =~= text);
    }
}

/// What is left of a text without trailing white space ends with none and keeps its start.
proof fn lemma_without_trailing(text: Seq<char>)
    ensures
        without_trailing(text).len() > 0 ==> !is_white_space(without_trailing(text).last()),
        without_trailing(text).len() <= text.len(),
        without_trailing(text) == text.take(without_trailing(text).len() as int),
    decreases text.len(),
{
    if text.len() > 0 && is_white_space(text.last()) {
        let rest = text.drop_last();
        lemma_without_trailing(rest);
        let kept = without_trailing(text).len() as int;
        assert(rest.take(kept) =~= text.take(kept));
    } else {
        assert(text.take(text.len() as int) =~= text);
    }
}

/// A trimmed text neither starts nor ends with white space, and trimming it again changes nothing.
pub proof fn trimming_is_done_once(text: Seq<char>)
    ensures
        trimmed(text).len() > 0 ==> !is_white_space(trimmed(text)[0]) && !is_white_space(
            trimmed(text).last(),
        ),
        trimmed(trimmed(text)) == trimmed(text),
{
    lemma_without_leading(text);
    lemma_without_trailing(without_leading(text));
}

/// Trimming takes away white space and nothing else: the text is some white space, then what is
/// left, then some white space.
pub proof fn trimming_takes_only_white_space(text: Seq<char>)
    ensures
        exists|start: int, end: int|
            0 <= start <= end <= text.len() && trimmed(text) == #[trigger] text.subrange(start, end)
                && (forall|i: int| 0 <= i < start ==> is_white_space(#[trigger] text[i])) && (
            forall|i: int| end <= i < text.len() ==> is_white_space(#[trigger] text[i])),
{
    lemma_without_leading(text);
    lemma_leading_is_white(text);
    let inner = without_leading(text);
    lemma_without_trailing(inner);
    lemma_trailing_is_white(inner);
    let start = text.len() - inner.len();
    let end = start + trimmed(text).len();
    assert(trimmed(text) =~= text.subrange(start, end));
    assert forall|i: int| end <= i < text.len() implies is_white_space(#[trigger] text[i]) by {
        assert(inner[i - start] == text[i]);
    }
}

/// What comes before a text without leading white space is white space.
proof fn lemma_leading_is_white(text: Seq<char>)
    ensures
        forall|i: int|
            0 <= i < text.len() - without_leading(text).len() ==> is_white_space(
                #[trigger] text[i],
            ),
    decreases text.len(),
{
    if text.len() > 0 && is_white_space(text[0]) {
        let rest = text.drop_first();
        lemma_leading_is_white(rest);
        assert forall|i: int| 0 <= i < text.len() - without_leading(text).len() implies
            is_white_space(#[trigger] text[i]) by {
            if i > 0 {
                assert(rest[i - 1] == text[i]);
            }
        }
    }
}

/// What comes after a text without trailing white space is white space.
proof fn lemma_trailing_is_white(text: Seq<char>)
    ensures
        forall|i: int|
            without_trailing(text).len() <= i < text.len() ==> is_white_space(#[trigger] text[i]),
    decreases text.len(),
{
    if text.len() > 0 && is_white_space(text.last()) {
        let rest = text.drop_last();
        lemma_trailing_is_white(rest);
        assert forall|i: int| without_trailing(text).len() <= i < text.len() implies is_white_space(
            #[trigger] text[i],
        ) by {
            if i < rest.len() {
                assert(rest[i] == text[i]);
            }
        }
    }
}

/// Nothing is left of a text exactly when all of it is white space.
pub proof fn only_white_space_is_trimmed_to_nothing(text: Seq<char>)
    ensures
        trimmed(text).len() == 0 <==> forall|i: int|
            0 <= i < text.len() ==> is_white_space(#[trigger] text[i]),
{
    trimming_takes_only_white_space(text);
    trimming_is_done_once(text);
    let (start, end) = choose|start: int, end: int|
        0 <= start <= end <= text.len() && trimmed(text) == #[trigger] text.subrange(start, end)
            && (forall|i: int| 0 <= i < start ==> is_white_space(#[trigger] text[i])) && (
        forall|i: int| end <= i < text.len() ==> is_white_space(#[trigger] text[i]));
    if trimmed(text).len() > 0 {
        assert(text[start] == trimmed(text)[0]);
    } else {
        assert forall|i: int| 0 <= i < text.len() implies is_white_space(#[trigger] text[i]) by {
            assert(i < start || end <= i);
        }
    }
}

} // verus!
