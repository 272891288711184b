//! The `Authorization` header that carries the bearer token.

use vstd::prelude::*;
use vstd::string::*;
use crate::text::plain_text;

verus! {

/// A character that no header value may hold: a control character other
/// than the tab, or the delete character.
pub open spec fn is_refused_char(c: char) -> bool {
    (c < ' ' && c != '\t') || c == '\u{7f}'
}

/// The text holds a character that no header value may hold.
pub open spec fn holds_refused_char(s: Seq<char>) -> bool {
    exists|i: int| 0 <= i < s.len() && is_refused_char(#[trigger] s[i])
}

/// What makes a text unusable as a header value, if anything: a text that
/// holds a refused character fails to parse; every other text is accepted.
pub open spec fn header_value_error(value: Seq<char>) -> Option<Seq<char>> {
    if holds_refused_char(value) {
        Some("failed to parse header value"@)
    } else {
        None
    }
}

/// Trusted: `reqwest::header::HeaderValue::from_str` refuses a value
/// exactly where one of its bytes is below 32 and no tab, or is 127; such a
/// byte is a character of its own in the text. The refusal's text is one
/// fixed sentence, which is handed back.
#[verifier::external_body]
fn header_error(value: &str) -> (r: Option<String>)
    ensures
        plain_text(r) == header_value_error(value@),
{
    reqwest::header::HeaderValue::from_str(value).err().map(|e| e.to_string())
}

/// The header value that presents `api_key` as a bearer token.
pub open spec fn bearer_text(api_key: Seq<char>) -> Seq<char> {
    "Bearer "@ + api_key
}

/// The header value that presents `api_key` as a bearer token, or what
/// makes it unusable as a header value.
pub fn bearer(api_key: &str) -> (r: Result<String, String>)
    ensures
        match r {
            Ok(v) => header_value_error(bearer_text(api_key@)) is None && v@ == bearer_text(api_key@),
            Err(why) => header_value_error(bearer_text(api_key@)) == Some(why@),
        },
{
    let mut value = String::from_str("Bearer ");
    value.append(api_key);
    match header_error(value.as_str()) {
        Some(why) => Err(why),
        None => Ok(value),
    }
}

/// A token is refused as a bearer exactly where the token itself holds a
/// refused character: the word before it holds none.
pub proof fn lemma_bearer_refusal(api_key: Seq<char>)
    ensures
        header_value_error(bearer_text(api_key)) is Some <==> holds_refused_char(api_key),
{
    reveal_strlit("Bearer ");
    let whole = bearer_text(api_key);
    let word = "Bearer "@;
    assert(word.len() == 7);
    if holds_refused_char(api_key) {
        let i = choose|i: int| 0 <= i < api_key.len() && is_refused_char(#[trigger] api_key[i]);
        assert(whole[i + 7] == api_key[i]);
        assert(is_refused_char(whole[i + 7]));
    }
    if holds_refused_char(whole) {
        let j = choose|j: int| 0 <= j < whole.len() && is_refused_char(#[trigger] whole[j]);
        if j < 7 {
            assert(whole[j] == word[j]);
            assert(!is_refused_char(word[0]));
            assert(!is_refused_char(word[1]));
            assert(!is_refused_char(word[2]));
            assert(!is_refused_char(word[3]));
            assert(!is_refused_char(word[4]));
            assert(!is_refused_char(word[5]));
            assert(!is_refused_char(word[6]));
        } else {
            assert(whole[j] == api_key[j - 7]);
            assert(is_refused_char(api_key[j - 7]));
        }
    }
}

} // verus!
