//! The head of a request, and the handler's view of its headers.

use http::header::HeaderValue;
use http::HeaderMap;
use vstd::prelude::*;

verus! {

/// `http::HeaderMap`, the transport's collection of headers. What a map
/// holds is known through `stored_names` and `stored_values` alone.
#[verifier::external_type_specification]
#[verifier::external_body]
#[verifier::reject_recursive_types(T)]
pub struct ExHeaderMap<T>(HeaderMap<T>);

/// `http::header::HeaderValue`, the bytes of one header value.
#[verifier::external_type_specification]
#[verifier::external_body]
pub struct ExHeaderValue(HeaderValue);

/// The length in bytes from which on the `http` crate takes no header name.
pub const NAME_LIMIT: usize = 65536;

/// Whether `key`, encoded as UTF-8, is short enough to be a header name.
pub open spec fn is_short(key: Seq<char>) -> bool {
    vstd::utf8::encode_utf8(key).len() < NAME_LIMIT
}

/// Whether a byte of `key`, encoded as UTF-8, is an ASCII capital letter.
pub open spec fn has_capital(key: Seq<char>) -> bool {
    exists|i: int|
        0 <= i < vstd::utf8::encode_utf8(key).len() && 65 <= (
        #[trigger] vstd::utf8::encode_utf8(key)[i]) <= 90
}

/// Whether `key` can be the name of a stored header: header names are held
/// in lower case and are short.
pub open spec fn is_stored_form(key: Seq<char>) -> bool {
    is_short(key) && !has_capital(key)
}

/// The bytes of a header value.
pub uninterp spec fn value_bytes(value: HeaderValue) -> Seq<u8>;

/// The values that a header map holds for the name that a short `key`
/// spells, oldest first. Empty where the map holds none.
pub uninterp spec fn stored_values(map: HeaderMap<HeaderValue>, key: Seq<char>) -> Seq<Seq<u8>>;

/// The header names of a map, in the order in which the map walks them.
pub uninterp spec fn stored_names(map: HeaderMap<HeaderValue>) -> Seq<Seq<char>>;

/// Whether `b` is a horizontal tab or a printable ASCII character.
pub open spec fn is_visible_ascii(b: u8) -> bool {
    b == 9 || (32 <= b && b < 127)
}

/// Whether every byte of `bytes` is visible ASCII, so that the bytes have a
/// text form.
pub open spec fn has_text(bytes: Seq<u8>) -> bool {
    forall|i: int| 0 <= i < bytes.len() ==> is_visible_ascii(#[trigger] bytes[i])
}

/// The characters that ASCII bytes spell.
pub open spec fn ascii_text(bytes: Seq<u8>) -> Seq<char> {
    Seq::new(bytes.len(), |i: int| bytes[i] as char)
}

/// What a handler reads for a header value: its text where it has one, the
/// empty string where it has none.
pub open spec fn value_text(bytes: Seq<u8>) -> Seq<char> {
    if has_text(bytes) {
        ascii_text(bytes)
    } else {
        Seq::empty()
    }
}

/// Calls `HeaderMap::get_all` and collects what its iterator yields. Trusted:
/// the values come out in the order in which they were added under `key`.
/// The call panics on a key of `NAME_LIMIT` bytes or more.
#[verifier::external_body]
fn values_under<'a>(map: &'a HeaderMap<HeaderValue>, key: &str) -> (values: Vec<&'a HeaderValue>)
    requires
        is_short(key@),
    ensures
        values@.len() == stored_values(*map, key@).len(),
        forall|i: int|
            0 <= i < values@.len() ==> value_bytes(*#[trigger] values@[i]) == stored_values(
                *map,
                key@,
            )[i],
{
    map.get_all(key).iter().collect()
}

/// Calls `HeaderMap::get`. Trusted: the call gives the oldest value under
/// `key`, where there is one. It panics on a key of `NAME_LIMIT` bytes or
/// more.
#[verifier::external_body]
fn first_under<'a>(map: &'a HeaderMap<HeaderValue>, key: &str) -> (first: Option<&'a HeaderValue>)
    requires
        is_short(key@),
    ensures
        first is Some <==> stored_values(*map, key@).len() > 0,
        first matches Some(value) ==> value_bytes(*value) == stored_values(*map, key@)[0],
{
    map.get(key)
}

/// Calls `HeaderMap::contains_key`. Trusted: a map contains a key exactly
/// when it holds at least one value under it. The call panics on a key of
/// `NAME_LIMIT` bytes or more.
#[verifier::external_body]
fn holds_key(map: &HeaderMap<HeaderValue>, key: &str) -> (found: bool)
    requires
        is_short(key@),
    ensures
        found == (stored_values(*map, key@).len() > 0),
{
    map.contains_key(key)
}

/// Calls `HeaderMap::keys` and takes each name as text. Trusted: a map walks
/// each name once, always in the same order; every name it walks is short
/// and in lower case, and it holds a value under each; and it walks every
/// name under which it holds a value.
#[verifier::external_body]
fn names_of<'a>(map: &'a HeaderMap<HeaderValue>) -> (names: Vec<&'a str>)
    ensures
        texts(names@) == stored_names(*map),
        texts(names@).no_duplicates(),
        forall|i: int|
            0 <= i < names@.len() ==> {
                &&& is_stored_form((#[trigger] names@[i])@)
                &&& stored_values(*map, names@[i]@).len() > 0
            },
        forall|key: Seq<char>|
            is_stored_form(key) && (#[trigger] stored_values(*map, key)).len() > 0 ==> texts(
                names@,
            ).contains(key),
{
    map.keys().map(|name| name.as_str()).collect()
}

/// Calls `HeaderValue::to_str`. Trusted: the call succeeds exactly when every
/// byte is visible ASCII, and then yields those bytes as text.
#[verifier::external_body]
fn text_of<'a>(value: &'a HeaderValue) -> (text: Option<&'a str>)
    ensures
        text is Some <==> has_text(value_bytes(*value)),
        text matches Some(s) ==> s@ == ascii_text(value_bytes(*value)),
{
    value.to_str().ok()
}

/// The version of HTTP that a request was made in.
#[derive(Clone, Copy, Debug, PartialEq, Eq, Structural)]
pub enum HttpVersion {
    Http09,
    Http10,
    Http11,
    H2,
}

/// The head of a request as the transport received it.
#[derive(Debug)]
pub struct Parts {
    /// The request's verb, as it was sent.
    pub method: String,
    /// The path of the requested URI.
    pub path: String,
    /// What follows the `?` of the requested URI, where it has one.
    pub query: Option<String>,
    pub version: HttpVersion,
    pub headers: HeaderMap<HeaderValue>,
}

/// Whether `key` is written with an ASCII capital letter.
fn written_with_capital(key: &str) -> (found: bool)
    ensures
        found == has_capital(key@),
{
    let bytes = key.as_bytes();
    let mut i: usize = 0;
    while i < bytes.len()
        invariant
            i <= bytes.len(),
            bytes@ == vstd::utf8::encode_utf8(key@),
            forall|j: int| 0 <= j < i ==> !(65 <= #[trigger] bytes@[j] <= 90),
        decreases bytes.len() - i,
    {
        if 65 <= bytes[i] && bytes[i] <= 90 {
            return true;
        }
        i += 1;
    }
    false
}

/// The texts of a list of string slices.
pub open spec fn texts(values: Seq<&str>) -> Seq<Seq<char>> {
    values.map_values(|s: &str| s@)
}

impl Parts {
    /// What a handler reads under `key`: one text for each value stored, in
    /// the order in which the values were added. Keys are taken as they are
    /// written: nothing is read under a key that no stored name can equal.
    pub open spec fn values(&self, key: Seq<char>) -> Seq<Seq<char>> {
        if is_stored_form(key) {
            stored_values(self.headers, key).map_values(|bytes: Seq<u8>| value_text(bytes))
        } else {
            Seq::empty()
        }
    }

    /// What `find` gives for `key`.
    pub open spec fn found(&self, key: Seq<char>) -> Option<Seq<Seq<char>>> {
        if self.values(key).len() == 0 {
            None
        } else {
            Some(self.values(key))
        }
    }

    /// What `has` gives for `key`.
    pub open spec fn holds(&self, key: Seq<char>) -> bool {
        is_stored_form(key) && stored_values(self.headers, key).len() > 0
    }

    /// What `host` gives: the text of the oldest `Host` value, empty where
    /// the request has none.
    pub open spec fn host_text(&self) -> Seq<char> {
        if self.values("host"@).len() == 0 {
            Seq::empty()
        } else {
            self.values("host"@)[0]
        }
    }

    /// Find all values associated with a header, or `None`.
    ///
    /// The key is compared as it is written, and header names are held in
    /// lower case: a key with a capital letter names no header. A value that
    /// has no text form is replaced with the empty string.
    pub fn find(&self, key: &str) -> (found: Option<Vec<&str>>)
        ensures
            match found {
                Some(values) => self.found(key@) == Some(texts(values@)),
                None => self.found(key@) is None,
            },
    {
        if key.as_bytes().len() >= NAME_LIMIT || written_with_capital(key) {
            return None;
        }
        let stored = values_under(&self.headers, key);
        let mut values: Vec<&str> = Vec::new();
        let mut i: usize = 0;
        while i < stored.len()
            invariant
                i <= stored.len(),
                is_stored_form(key@),
                stored@.len() == stored_values(self.headers, key@).len(),
                forall|j: int|
                    0 <= j < stored@.len() ==> value_bytes(*#[trigger] stored@[j])
                        == stored_values(self.headers, key@)[j],
                values@.len() == i,
                forall|j: int| 0 <= j < i ==> (#[trigger] values@[j])@ == self.values(key@)[j],
            decreases stored.len() - i,
        {
            let text = match text_of(stored[i]) {
                Some(s) => s,
                None => "",
            };
            proof {
                reveal_strlit("");
            }
            values.push(text);
            i += 1;
        }
        assert(texts(values@) =~= self.values(key@));
        if values.is_empty() {
            None
        } else {
            Some(values)
        }
    }

    /// Whether at least one value is stored under `key`.
    pub fn has(&self, key: &str) -> (found: bool)
        ensures
            found == self.holds(key@),
    {
        key.as_bytes().len() < NAME_LIMIT && !written_with_capital(key) && holds_key(
            &self.headers,
            key,
        )
    }

    /// Every header name with what `find` gives for it, in the order in which
    /// the map walks its names.
    ///
    /// The values of a name are grouped: each name is listed once, with all
    /// its values, and no name that `has` reports is left out.
    pub fn all(&self) -> (all: Vec<(&str, Vec<&str>)>)
        ensures
            all@.len() == stored_names(self.headers).len(),
            forall|key: Seq<char>| #[trigger]
                self.holds(key) ==> stored_names(self.headers).contains(key),
            forall|i: int|
                0 <= i < all@.len() ==> {
                    &&& (#[trigger] all@[i]).0@ == stored_names(self.headers)[i]
                    &&& self.found(stored_names(self.headers)[i]) == Some(texts(all@[i].1@))
                },
            forall|i: int, j: int|
                0 <= i < j < all@.len() ==> (#[trigger] all@[i]).0@ != (#[trigger] all@[j]).0@,
    {
        let names = names_of(&self.headers);
        let mut all: Vec<(&str, Vec<&str>)> = Vec::new();
        let mut i: usize = 0;
        while i < names.len()
            invariant
                i <= names.len(),
                texts(names@) == stored_names(self.headers),
                forall|j: int|
                    0 <= j < names@.len() ==> {
                        &&& is_stored_form((#[trigger] names@[j])@)
                        &&& stored_values(self.headers, names@[j]@).len() > 0
                    },
                all@.len() == i,
                forall|j: int|
                    0 <= j < i ==> {
                        &&& (#[trigger] all@[j]).0@ == stored_names(self.headers)[j]
                        &&& self.found(stored_names(self.headers)[j]) == Some(texts(all@[j].1@))
                    },
            decreases names.len() - i,
        {
            let key = names[i];
            assert(texts(names@)[i as int] == key@);
            match self.find(key) {
                Some(values) => {
                    all.push((key, values));
                },
                None => {
                    assert(false);
                },
            }
            i += 1;
        }
        assert forall|i: int, j: int| 0 <= i < j < all@.len() implies (#[trigger] all@[i]).0@ != (
        #[trigger] all@[j]).0@ by {
            assert(texts(names@)[i] == all@[i].0@);
            assert(texts(names@)[j] == all@[j].0@);
        }
        all
    }

    /// The value of the `Host` header as text.
    ///
    /// Where the header is absent or its value has no text form, the empty
    /// string is returned.
    pub fn host(&self) -> (name: &str)
        ensures
            name@ == self.host_text(),
    {
        proof {
            lemma_host_is_stored_form();
            reveal_strlit("");
        }
        match first_under(&self.headers, "host") {
            Some(value) => match text_of(value) {
                Some(text) => text,
                None => "",
            },
            None => "",
        }
    }

    pub fn headers(&self) -> (map: &HeaderMap<HeaderValue>)
        ensures
            *map == self.headers,
    {
        &self.headers
    }
}

/// The key under which `host` looks can be the name of a stored header.
proof fn lemma_host_is_stored_form()
    ensures
        is_stored_form("host"@),
{
    reveal_strlit("host");
    let key = "host";
    assert(vstd::string::is_ascii(key));
    vstd::string::is_ascii_spec_bytes(key);
}

/// `has` and `find` agree: `find` gives values exactly under the keys that
/// `has` reports. What it gives is never an empty list: it is one text for
/// each value stored, in the order in which they were added.
pub proof fn lemma_find_agrees_with_has(parts: Parts, key: Seq<char>)
    ensures
        parts.holds(key) <==> parts.found(key) is Some,
        parts.found(key) matches Some(values) ==> {
            &&& values.len() > 0
            &&& values.len() == stored_values(parts.headers, key).len()
            &&& forall|i: int|
                0 <= i < values.len() ==> #[trigger] values[i] == value_text(
                    stored_values(parts.headers, key)[i],
                )
        },
{
}

/// A value that has no text form reads as the empty string, and the lookup
/// still succeeds.
pub proof fn lemma_value_without_text_reads_empty(parts: Parts, key: Seq<char>, i: int)
    requires
        is_stored_form(key),
        0 <= i < stored_values(parts.headers, key).len(),
        !has_text(stored_values(parts.headers, key)[i]),
    ensures
        parts.found(key) matches Some(values) && values[i] == Seq::<char>::empty(),
{
}

} // verus!
