//! The two requests of the client: how a value is encoded for a URL's query, the
//! text that each request is written as, and the URL that the text denotes.

use vstd::prelude::*;
use vstd::utf8::{encode_utf8, is_ascii_chars, is_ascii_chars_encode_utf8};

use crate::error::NewsError;
use crate::section::NYTSectionEnum;

verus! {

/// Whether the byte `b` stands for itself in a query value: a letter of the
/// English alphabet, a digit, or one of `-`, `.`, `_` and `~`.
pub open spec fn is_unreserved(b: u8) -> bool {
    ||| 'A' as u8 <= b <= 'Z' as u8
    ||| 'a' as u8 <= b <= 'z' as u8
    ||| '0' as u8 <= b <= '9' as u8
    ||| b == '-' as u8
    ||| b == '.' as u8
    ||| b == '_' as u8
    ||| b == '~' as u8
}

/// The hexadecimal digit of `n`, in upper case.
pub open spec fn hex_digit(n: u8) -> char
    recommends
        n < 16,
{
    if n < 10 {
        ('0' as u8 + n) as char
    } else {
        ('A' as u8 + n - 10) as char
    }
}

/// One byte as it stands in a query value: itself where it is unreserved, else
/// `%` and its two hexadecimal digits.
pub open spec fn encoded_byte(b: u8) -> Seq<char> {
    if is_unreserved(b) {
        seq![b as char]
    } else {
        seq!['%', hex_digit(b / 16), hex_digit(b % 16)]
    }
}

/// The bytes of `bytes` as they stand in a query value, one after the other.
pub open spec fn encoded_bytes(bytes: Seq<u8>) -> Seq<char>
    decreases bytes.len(),
{
    if bytes.len() == 0 {
        Seq::empty()
    } else {
        encoded_bytes(bytes.drop_last()) + encoded_byte(bytes.last())
    }
}

/// `value` as the value of a parameter in a URL's query: each byte of its UTF-8
/// form, percent-encoded unless it is unreserved.
pub open spec fn query_value(value: Seq<char>) -> Seq<char> {
    encoded_bytes(encode_utf8(value))
}

/// Whether `c` may stand in an encoded query value: an unreserved character or
/// the percent sign.
pub open spec fn is_query_char(c: char) -> bool {
    ||| 'A' <= c <= 'Z'
    ||| 'a' <= c <= 'z'
    ||| '0' <= c <= '9'
    ||| c == '-'
    ||| c == '.'
    ||| c == '_'
    ||| c == '~'
    ||| c == '%'
}

/// The text of a top-stories request: the feed's address with the section's
/// token as the last segment of its path, and the key, encoded, as its one
/// parameter.
pub open spec fn top_stories_text(token: Seq<char>, key: Seq<char>) -> Seq<char> {
    "https://api.nytimes.com/svc/topstories/v2/"@ + token + ".json?api-key="@ + query_value(key)
}

/// The text of an article-search request: the search's address with the query,
/// encoded, newest hits first, and the key, encoded. The filter has no part in
/// it.
pub open spec fn article_search_text(query: Seq<char>, filter: Seq<char>, key: Seq<char>) -> Seq<
    char,
> {
    "https://api.nytimes.com/svc/search/v2/articlesearch.json?query="@ + query_value(query)
        + "&sort=newest&api-key="@ + query_value(key)
}

/// The URL that `text` denotes, in the form in which it is sent, or `None` where
/// `text` denotes no URL. This is the serialization of what `url::Url::parse`
/// makes of `text`.
pub uninterp spec fn parsed_url(text: Seq<char>) -> Option<Seq<char>>;

/// Calls `url::Url::parse` (by its name in `reqwest`) on `text`. Not proved: that
/// what comes back is `parsed_url(text)`, the URL's serialization where the parse
/// succeeds and nothing where it fails. A failure comes with the parser's message,
/// of which nothing is claimed.
#[verifier::external_body]
fn parse_url(text: &str) -> (parsed: Result<String, String>)
    ensures
        match parsed {
            Ok(url) => parsed_url(text@) == Some(url@),
            Err(_) => parsed_url(text@) is None,
        },
{
    match reqwest::Url::parse(text) {
        Ok(url) => Ok(String::from(url)),
        Err(error) => Err(error.to_string()),
    }
}

/// Calls `String::push`. Not proved: that it puts `c` at the end of `text` and
/// leaves the rest as it was.
#[verifier::external_body]
fn push_char(text: &mut String, c: char)
    ensures
        final(text)@ == old(text)@.push(c),
{
    text.push(c)
}

fn unreserved(b: u8) -> (yes: bool)
    ensures
        yes == is_unreserved(b),
{
    (0x41 <= b && b <= 0x5a) || (0x61 <= b && b <= 0x7a) || (0x30 <= b && b <= 0x39) || b == 0x2d
        || b == 0x2e || b == 0x5f || b == 0x7e
}

fn hex_char(n: u8) -> (digit: char)
    requires
        n < 16,
    ensures
        digit == hex_digit(n),
{
    if n < 10 {
        (0x30 + n) as char
    } else {
        (0x41 + n - 10) as char
    }
}

/// Encodes `value` for use as the value of a parameter in a URL's query.
pub fn encode_query_value(value: &str) -> (encoded: String)
    ensures
        encoded@ == query_value(value@),
{
    let bytes = value.as_bytes();
    let mut encoded = String::new();
    let mut i: usize = 0;
    assert(bytes@.take(0) =~= Seq::<u8>::empty());
    while i < bytes.len()
        invariant
            i <= bytes@.len(),
            bytes@ == encode_utf8(value@),
            encoded@ == encoded_bytes(bytes@.take(i as int)),
        decreases bytes@.len() - i,
    {
        let b = bytes[i];
        proof {
            let next = bytes@.take(i + 1);
            assert(next.drop_last() =~= bytes@.take(i as int));
            assert(next.last() == b);
        }
        if unreserved(b) {
            push_char(&mut encoded, b as char);
            assert(encoded@ =~= encoded_bytes(bytes@.take(i as int)) + encoded_byte(b));
        } else {
            push_char(&mut encoded, '%');
            push_char(&mut encoded, hex_char(b / 16));
            push_char(&mut encoded, hex_char(b % 16));
            assert(encoded@ =~= encoded_bytes(bytes@.take(i as int)) + encoded_byte(b));
        }
        i += 1;
    }
    assert(bytes@.take(i as int) =~= bytes@);
    encoded
}

/// Writes the text of a top-stories request for `section` with the key `api_key`.
pub fn write_top_stories(section: NYTSectionEnum, api_key: &str) -> (text: String)
    ensures
        text@ == top_stories_text(section.token(), api_key@),
{
    let key = encode_query_value(api_key);
    let mut text = String::from_str("https://api.nytimes.com/svc/topstories/v2/");
    text.append(section.as_str());
    text.append(".json?api-key=");
    text.append(key.as_str());
    text
}

/// Writes the text of an article-search request for `query` with the key
/// `api_key`. The filter is accepted and left out.
pub fn write_article_search(query: &str, filter: &str, api_key: &str) -> (text: String)
    ensures
        text@ == article_search_text(query@, filter@, api_key@),
{
    let query = encode_query_value(query);
    let key = encode_query_value(api_key);
    let mut text = String::from_str(
        "https://api.nytimes.com/svc/search/v2/articlesearch.json?query=",
    );
    text.append(query.as_str());
    text.append("&sort=newest&api-key=");
    text.append(key.as_str());
    text
}

/// What the outcome of reading a request's text means for the request: a URL is
/// the one to send it to; a refusal means that the request cannot be made, which
/// is a failure of the exchange, with the same words.
pub fn url_or_failure(parsed: Result<String, String>) -> (url: Result<String, NewsError>)
    ensures
        match parsed {
            Ok(address) => url == Ok::<String, NewsError>(address),
            Err(detail) => url == Err::<String, NewsError>(NewsError::Transport(detail)),
        },
{
    match parsed {
        Ok(address) => Ok(address),
        Err(detail) => Err(NewsError::Transport(detail)),
    }
}

/// Turns the text of a request into the URL to send it to. Where the text
/// denotes a URL, that URL comes back; where it denotes none, a transport
/// failure does.
pub fn request_url(text: &str) -> (url: Result<String, NewsError>)
    ensures
        match url {
            Ok(address) => parsed_url(text@) == Some(address@),
            Err(error) => parsed_url(text@) is None && error is Transport,
        },
{
    url_or_failure(parse_url(text))
}

/// Whether every character of `text` is an unreserved one: a letter of the
/// English alphabet, a digit, or one of `-`, `.`, `_` and `~`.
pub open spec fn is_plain_text(text: Seq<char>) -> bool {
    forall|i: int| 0 <= i < text.len() ==> is_query_char(#[trigger] text[i]) && text[i] != '%'
}

proof fn lemma_encoded_byte_chars(b: u8)
    ensures
        1 <= encoded_byte(b).len() <= 3,
        forall|i: int| 0 <= i < encoded_byte(b).len() ==> is_query_char(#[trigger] encoded_byte(b)[i]),
{
    assert(b / 16 < 16 && b % 16 < 16);
}

proof fn lemma_encoded_bytes_chars(bytes: Seq<u8>)
    ensures
        forall|i: int|
            0 <= i < encoded_bytes(bytes).len() ==> is_query_char(#[trigger] encoded_bytes(bytes)[i]),
    decreases bytes.len(),
{
    if bytes.len() > 0 {
        lemma_encoded_bytes_chars(bytes.drop_last());
        lemma_encoded_byte_chars(bytes.last());
        let front = encoded_bytes(bytes.drop_last());
        let back = encoded_byte(bytes.last());
        assert forall|i: int| 0 <= i < encoded_bytes(bytes).len() implies is_query_char(
            #[trigger] encoded_bytes(bytes)[i],
        ) by {
            if i < front.len() {
                assert(encoded_bytes(bytes)[i] == front[i]);
            } else {
                assert(encoded_bytes(bytes)[i] == back[i - front.len()]);
            }
        }
    }
}

/// An encoded query value is made of unreserved characters and percent signs
/// alone. So nothing in it ends the value or the query, or starts another
/// parameter: it holds no `&`, `=`, `#`, `?`, `+` or space, no control character
/// and nothing beyond ASCII.
pub proof fn lemma_query_value_is_safe(value: Seq<char>)
    ensures
        forall|i: int|
            0 <= i < query_value(value).len() ==> {
                let c = #[trigger] query_value(value)[i];
                &&& is_query_char(c)
                &&& c != '&' && c != '=' && c != '#' && c != '?' && c != '+'
                &&& ' ' < c < '\u{7f}'
            },
{
    lemma_encoded_bytes_chars(encode_utf8(value));
}

proof fn lemma_encoded_bytes_plain(bytes: Seq<u8>)
    requires
        forall|i: int| 0 <= i < bytes.len() ==> is_unreserved(#[trigger] bytes[i]),
    ensures
        encoded_bytes(bytes).len() == bytes.len(),
        forall|i: int| 0 <= i < bytes.len() ==> #[trigger] encoded_bytes(bytes)[i] == bytes[i] as char,
    decreases bytes.len(),
{
    if bytes.len() > 0 {
        lemma_encoded_bytes_plain(bytes.drop_last());
    }
}

/// A value made of unreserved characters alone is its own encoding.
pub proof fn lemma_plain_value_unchanged(value: Seq<char>)
    requires
        is_plain_text(value),
    ensures
        query_value(value) == value,
{
    assert(is_ascii_chars(value));
    is_ascii_chars_encode_utf8(value);
    let bytes = encode_utf8(value);
    assert forall|i: int| 0 <= i < bytes.len() implies is_unreserved(#[trigger] bytes[i]) by {
        assert(is_query_char(value[i]));
        assert(value[i] as u8 == bytes[i]);
    }
    lemma_encoded_bytes_plain(bytes);
    assert forall|i: int| 0 <= i < value.len() implies query_value(value)[i] == value[i] by {
        assert(is_query_char(value[i]));
        assert(value[i] as u8 == bytes[i]);
    }
    assert(query_value(value) =~= value);
}

/// The filter of an article search has no effect on the request: two searches
/// that differ in nothing but the filter are written as one text, and so are
/// sent to one URL.
pub proof fn lemma_filter_ignored(
    query: Seq<char>,
    filter: Seq<char>,
    other_filter: Seq<char>,
    key: Seq<char>,
)
    ensures
        article_search_text(query, filter, key) == article_search_text(query, other_filter, key),
        parsed_url(article_search_text(query, filter, key)) == parsed_url(
            article_search_text(query, other_filter, key),
        ),
{
}

} // verus!
