//! The request as a handler sees it.

use crate::body::{lemma_reads_in_full_from_start, Body};
use crate::parts::{HttpVersion, Parts};
use conduit::TypeMap;
use vstd::prelude::*;

verus! {

/// `conduit::TypeMap`, the store that a handler keeps its own values in.
/// Nothing is known of what a store holds but how many values there are.
#[verifier::external_type_specification]
#[verifier::external_body]
pub struct ExTypeMap(TypeMap);

/// How many values an extension store holds.
pub uninterp spec fn extension_count(store: TypeMap) -> nat;

/// `TypeMap::new` makes a store that holds nothing.
pub assume_specification[ TypeMap::new ]() -> (store: TypeMap)
    ensures
        extension_count(store) == 0,
;

/// `str`'s `==`. Trusted: two string slices are equal exactly when they
/// spell the same characters.
#[verifier::external_body]
fn same_text(a: &str, b: &str) -> (same: bool)
    ensures
        same == (a@ == b@),
{
    a == b
}

/// A version number of three parts.
#[derive(Clone, Copy, Debug, PartialEq, Eq, Structural)]
pub struct Version {
    pub major: u64,
    pub minor: u64,
    pub patch: u64,
}

/// The version `major.minor.0`.
pub fn version(major: u64, minor: u64) -> (v: Version)
    ensures
        v == (Version { major, minor, patch: 0 }),
{
    Version { major, minor, patch: 0 }
}

/// The version number under which a handler knows a version of HTTP.
pub open spec fn version_number(version: HttpVersion) -> Version {
    match version {
        HttpVersion::Http09 => Version { major: 0, minor: 9, patch: 0 },
        HttpVersion::Http10 => Version { major: 1, minor: 0, patch: 0 },
        HttpVersion::Http11 => Version { major: 1, minor: 1, patch: 0 },
        HttpVersion::H2 => Version { major: 2, minor: 0, patch: 0 },
    }
}

/// The scheme of a requested URL.
#[derive(Clone, Copy, Debug, PartialEq, Eq, Structural)]
pub enum Scheme {
    Http,
    Https,
}

/// An IPv4 address with a port.
#[derive(Clone, Copy, Debug, PartialEq, Eq)]
pub struct RemoteAddr {
    pub ip: [u8; 4],
    pub port: u16,
}

/// A request method.
#[derive(Debug, PartialEq, Eq)]
pub enum Method {
    Get,
    Post,
    Put,
    Delete,
    Head,
    Connect,
    Options,
    Trace,
    Patch,
    /// Any other verb, as it was sent.
    Other(String),
}

/// A request method, with a verb that is none of the standard ones as a
/// sequence of characters.
pub enum MethodView {
    Get,
    Post,
    Put,
    Delete,
    Head,
    Connect,
    Options,
    Trace,
    Patch,
    Other(Seq<char>),
}

impl View for Method {
    type V = MethodView;

    open spec fn view(&self) -> MethodView {
        match self {
            Method::Get => MethodView::Get,
            Method::Post => MethodView::Post,
            Method::Put => MethodView::Put,
            Method::Delete => MethodView::Delete,
            Method::Head => MethodView::Head,
            Method::Connect => MethodView::Connect,
            Method::Options => MethodView::Options,
            Method::Trace => MethodView::Trace,
            Method::Patch => MethodView::Patch,
            Method::Other(verb) => MethodView::Other(verb@),
        }
    }
}

impl MethodView {
    /// The verb that a method is sent as.
    pub open spec fn verb(self) -> Seq<char> {
        match self {
            MethodView::Get => "GET"@,
            MethodView::Post => "POST"@,
            MethodView::Put => "PUT"@,
            MethodView::Delete => "DELETE"@,
            MethodView::Head => "HEAD"@,
            MethodView::Connect => "CONNECT"@,
            MethodView::Options => "OPTIONS"@,
            MethodView::Trace => "TRACE"@,
            MethodView::Patch => "PATCH"@,
            MethodView::Other(verb) => verb,
        }
    }
}

/// The method that a verb names: one of the nine standard methods for its
/// verb in capitals, and `Other` with the verb itself for anything else.
pub open spec fn method_named(verb: Seq<char>) -> MethodView {
    if verb == "CONNECT"@ {
        MethodView::Connect
    } else if verb == "DELETE"@ {
        MethodView::Delete
    } else if verb == "GET"@ {
        MethodView::Get
    } else if verb == "HEAD"@ {
        MethodView::Head
    } else if verb == "OPTIONS"@ {
        MethodView::Options
    } else if verb == "PATCH"@ {
        MethodView::Patch
    } else if verb == "POST"@ {
        MethodView::Post
    } else if verb == "PUT"@ {
        MethodView::Put
    } else if verb == "TRACE"@ {
        MethodView::Trace
    } else {
        MethodView::Other(verb)
    }
}

/// Whatever verb a request was sent with, the method it is mapped to is sent
/// as that same verb: a standard verb names its own method, and any other
/// verb is kept unchanged in `Other`.
pub proof fn lemma_method_keeps_verb(verb: Seq<char>)
    ensures
        method_named(verb).verb() == verb,
        method_named(verb) is Other ==> method_named(verb) == MethodView::Other(verb),
{
}

/// Each of the nine standard verbs names the method of its own.
pub proof fn lemma_standard_verbs()
    ensures
        method_named("GET"@) == MethodView::Get,
        method_named("POST"@) == MethodView::Post,
        method_named("PUT"@) == MethodView::Put,
        method_named("DELETE"@) == MethodView::Delete,
        method_named("HEAD"@) == MethodView::Head,
        method_named("OPTIONS"@) == MethodView::Options,
        method_named("PATCH"@) == MethodView::Patch,
        method_named("TRACE"@) == MethodView::Trace,
        method_named("CONNECT"@) == MethodView::Connect,
{
    reveal_strlit("GET");
    reveal_strlit("POST");
    reveal_strlit("PUT");
    reveal_strlit("DELETE");
    reveal_strlit("HEAD");
    reveal_strlit("OPTIONS");
    reveal_strlit("PATCH");
    reveal_strlit("TRACE");
    reveal_strlit("CONNECT");
    assert("GET"@.len() == 3 && "GET"@[0] == 'G');
    assert("PUT"@.len() == 3 && "PUT"@[0] == 'P');
    assert("POST"@.len() == 4 && "POST"@[0] == 'P');
    assert("HEAD"@.len() == 4 && "HEAD"@[0] == 'H');
    assert("PATCH"@.len() == 5 && "PATCH"@[0] == 'P');
    assert("TRACE"@.len() == 5 && "TRACE"@[0] == 'T');
    assert("DELETE"@.len() == 6);
    assert("OPTIONS"@.len() == 7 && "OPTIONS"@[0] == 'O');
    assert("CONNECT"@.len() == 7 && "CONNECT"@[0] == 'C');
}

/// What a request holds.
pub struct RequestView {
    pub parts: Parts,
    pub body: Body,
    pub extensions: TypeMap,
}

/// A buffered request in the shape that a handler works on.
pub struct ConduitRequest {
    parts: Parts,
    body: Body,
    extensions: TypeMap,
}

impl View for ConduitRequest {
    type V = RequestView;

    closed spec fn view(&self) -> RequestView {
        RequestView { parts: self.parts, body: self.body, extensions: self.extensions }
    }
}

impl ConduitRequest {
    /// A request with the given head, a cursor at the start of `body`, and an
    /// extension store that holds nothing.
    pub fn new(parts: Parts, body: Vec<u8>) -> (request: ConduitRequest)
        ensures
            request@.parts == parts,
            request@.body.content() == body@,
            request@.body.offset() == 0,
            extension_count(request@.extensions) == 0,
    {
        ConduitRequest { parts, body: Body::new(body), extensions: TypeMap::new() }
    }

    /// The version of HTTP that the request was made in.
    pub fn http_version(&self) -> (v: Version)
        ensures
            v == version_number(self@.parts.version),
    {
        match self.parts.version {
            HttpVersion::Http09 => version(0, 9),
            HttpVersion::Http10 => version(1, 0),
            HttpVersion::Http11 => version(1, 1),
            HttpVersion::H2 => version(2, 0),
        }
    }

    /// The version of the handler interface.
    pub fn conduit_version(&self) -> (v: Version)
        ensures
            v == (Version { major: 0, minor: 1, patch: 0 }),
    {
        version(0, 1)
    }

    /// The request's method.
    pub fn method(&self) -> (method: Method)
        ensures
            method@ == method_named(self@.parts.method@),
    {
        let verb = self.parts.method.as_str();
        if same_text(verb, "CONNECT") {
            Method::Connect
        } else if same_text(verb, "DELETE") {
            Method::Delete
        } else if same_text(verb, "GET") {
            Method::Get
        } else if same_text(verb, "HEAD") {
            Method::Head
        } else if same_text(verb, "OPTIONS") {
            Method::Options
        } else if same_text(verb, "PATCH") {
            Method::Patch
        } else if same_text(verb, "POST") {
            Method::Post
        } else if same_text(verb, "PUT") {
            Method::Put
        } else if same_text(verb, "TRACE") {
            Method::Trace
        } else {
            Method::Other(verb.to_owned())
        }
    }

    /// Always `Http`: the transport does not tell whether it ran over TLS.
    pub fn scheme(&self) -> (scheme: Scheme)
        ensures
            scheme == Scheme::Http,
    {
        Scheme::Http
    }

    /// The request's head, which answers for its headers.
    pub fn headers(&self) -> (parts: &Parts)
        ensures
            *parts == self@.parts,
    {
        &self.parts
    }

    /// The length of the buffered body.
    pub fn content_length(&self) -> (length: Option<u64>)
        ensures
            length == Some(self@.body.content().len() as u64),
            self@.body.content().len() <= u64::MAX,
    {
        Some(self.body.get_ref().len() as u64)
    }

    /// Always the address `0.0.0.0:0`: the transport does not tell the
    /// peer's address.
    pub fn remote_addr(&self) -> (addr: RemoteAddr)
        ensures
            addr.ip@ == seq![0u8, 0u8, 0u8, 0u8],
            addr.port == 0,
    {
        RemoteAddr { ip: [0, 0, 0, 0], port: 0 }
    }

    /// Always `None`.
    pub fn virtual_root(&self) -> (root: Option<&str>)
        ensures
            root is None,
    {
        None
    }

    /// The path of the requested URI.
    pub fn path(&self) -> (path: &str)
        ensures
            path@ == self@.parts.path@,
    {
        self.parts.path.as_str()
    }

    /// What follows the `?` of the requested URI, where it has one.
    pub fn query_string(&self) -> (query: Option<&str>)
        ensures
            match query {
                Some(text) => self@.parts.query matches Some(q) && text@ == q@,
                None => self@.parts.query is None,
            },
    {
        match &self.parts.query {
            Some(query) => Some(query.as_str()),
            None => None,
        }
    }

    /// The value of the `Host` header, or the empty string where it is
    /// absent or has no text form.
    pub fn host(&self) -> (name: &str)
        ensures
            name@ == self@.parts.host_text(),
    {
        self.parts.host()
    }

    /// The extension store, for the handler's own use.
    pub fn extensions(&self) -> (store: &TypeMap)
        ensures
            *store == self@.extensions,
    {
        &self.extensions
    }

    /// The extension store, to be changed. Nothing else of the request
    /// changes with it.
    pub fn mut_extensions(&mut self) -> (store: &mut TypeMap)
        ensures
            *store == old(self)@.extensions,
            final(self)@ == (RequestView { extensions: *final(store), ..old(self)@ }),
    {
        &mut self.extensions
    }

    /// The body, to be read from its start: every call moves the cursor back
    /// to the first byte.
    pub fn body(&mut self) -> (body: &mut Body)
        ensures
            *body == old(self)@.body.at(0),
            body.content() == old(self)@.body.content(),
            body.offset() == 0,
            body.remaining() == old(self)@.body.content(),
            final(self)@ == (RequestView { body: *final(body), ..old(self)@ }),
    {
        proof {
            lemma_reads_in_full_from_start(self.body);
        }
        self.body.set_position(0);
        &mut self.body
    }

    /// Reads on from where the cursor of the body stands, as `Body::read`
    /// does.
    pub fn read(&mut self, buf: &mut [u8]) -> (n: usize)
        ensures
            n == vstd::math::min(
                old(buf)@.len() as int,
                old(self)@.body.remaining().len() as int,
            ),
            final(buf)@ == old(self)@.body.remaining().take(n as int) + old(buf)@.skip(n as int),
            final(self)@ == (RequestView {
                body: old(self)@.body.at((old(self)@.body.offset() + n) as u64),
                ..old(self)@
            }),
            final(self)@.body.content() == old(self)@.body.content(),
            final(self)@.body.offset() == old(self)@.body.offset() + n,
    {
        self.body.read(buf)
    }
}

} // verus!
