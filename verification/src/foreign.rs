//! The calls that leave this crate: URL parsing and form encoding (`url`),
//! JSON parsing (`serde_json`), identifiers (`uuid`) and the clock
//! (`chrono`). Their contracts are taken on trust; everything else in the
//! crate is proved from them.

use vstd::prelude::*;

verus! {

/// The text of an absolute URL up to the end of its path, in the normal form
/// that `url::Url` keeps; `None` for a text that is no absolute URL.
pub uninterp spec fn url_through_path(text: Seq<char>) -> Option<Seq<char>>;

/// The `application/x-www-form-urlencoded` serialization of name/value pairs.
pub uninterp spec fn form_encoded(pairs: Seq<(Seq<char>, Seq<char>)>) -> Seq<char>;

/// The name/value pairs that an `application/x-www-form-urlencoded` text
/// holds, percent-decoded, in the order in which they stand.
pub uninterp spec fn form_decoded(query: Seq<char>) -> Seq<(Seq<char>, Seq<char>)>;

/// Whether a text is a JSON document whose value is an object.
pub uninterp spec fn json_object(text: Seq<char>) -> bool;

/// The views of a list of name/value pairs.
pub open spec fn pair_views(pairs: Seq<(String, String)>) -> Seq<(Seq<char>, Seq<char>)> {
    pairs.map_values(|p: (String, String)| (p.0@, p.1@))
}

pub open spec fn is_lower_hex(c: char) -> bool {
    ('0' <= c <= '9') || ('a' <= c <= 'f')
}

/// The hyphenated lower-case form of a random (version 4) UUID:
/// `xxxxxxxx-xxxx-4xxx-Nxxx-xxxxxxxxxxxx`, with `N` one of `8`, `9`, `a`, `b`.
pub open spec fn is_random_uuid(s: Seq<char>) -> bool {
    &&& s.len() == 36
    &&& forall|i: int|
        0 <= i < 36 ==> if i == 8 || i == 13 || i == 18 || i == 23 {
            #[trigger] s[i] == '-'
        } else {
            is_lower_hex(s[i])
        }
    &&& s[14] == '4'
    &&& (s[19] == '8' || s[19] == '9' || s[19] == 'a' || s[19] == 'b')
}

/// `url::Url::parse`, then the slice of the URL up to `Position::AfterPath`.
/// The contract names the outcome: the same text always gives the same
/// result, and nothing more is claimed of it.
#[verifier::external_body]
pub(crate) fn canonical_url(text: &str) -> (r: Option<String>)
    ensures
        match r {
            Some(s) => url_through_path(text@) == Some(s@),
            None => url_through_path(text@) is None,
        },
{
    match url::Url::parse(text) {
        Ok(parsed) => Some(parsed[..url::Position::AfterPath].to_string()),
        Err(_) => None,
    }
}

/// `url::form_urlencoded::Serializer`: a fresh serializer, `extend_pairs`
/// with the given pairs, `finish`. The contract names the text it yields.
#[verifier::external_body]
pub(crate) fn encode_pairs(pairs: &Vec<(String, String)>) -> (r: String)
    ensures
        r@ == form_encoded(pair_views(pairs@)),
{
    url::form_urlencoded::Serializer::new(String::new()).extend_pairs(pairs.iter()).finish()
}

/// `url::form_urlencoded::parse` on the bytes of the text, each pair turned
/// into owned strings. The contract names the list it yields.
#[verifier::external_body]
pub(crate) fn decode_pairs(query: &str) -> (r: Vec<(String, String)>)
    ensures
        pair_views(r@) == form_decoded(query@),
{
    url::form_urlencoded::parse(query.as_bytes()).into_owned().collect()
}

/// `serde_json::from_str` into a `serde_json::Value`, then `is_object` on
/// the value. A text that does not parse is no object.
#[verifier::external_body]
pub(crate) fn is_json_object(text: &str) -> (r: bool)
    ensures
        r == json_object(text@),
{
    match serde_json::from_str::<serde_json::Value>(text) {
        Ok(value) => value.is_object(),
        Err(_) => false,
    }
}

/// `uuid::Uuid::new_v4`, written out by its `Display` impl. The value is
/// random, so the contract states only the shape that every outcome has.
/// The call aborts where the operating system yields no random bytes.
#[verifier::external_body]
pub(crate) fn random_uuid() -> (r: String)
    ensures
        is_random_uuid(r@),
{
    uuid::Uuid::new_v4().to_string()
}

/// `chrono::Utc::now`, as milliseconds since the Unix epoch. Nothing is
/// claimed of the value: the clock may stand still or step back.
#[verifier::external_body]
pub(crate) fn now_millis() -> (r: i64) {
    chrono::Utc::now().timestamp_millis()
}

} // verus!
