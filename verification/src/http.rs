//! The parts of an HTTP exchange that the dispatch layer reads and writes:
//! method, version, header fields, request and response.

use crate::text::{bytes_eq_ignore_case, eq_ignore_case, str_eq};
use std::sync::Arc;
use vstd::prelude::*;
use vstd::slice::slice_to_vec;
use vstd::std_specs::cmp::PartialEqSpecImpl;

verus! {

/// A request method. `Extension` holds the name of a method that has no
/// variant of its own.
#[derive(Debug)]
pub enum Method {
    Options,
    Get,
    Post,
    Put,
    Delete,
    Head,
    Trace,
    Connect,
    Patch,
    Extension(String),
}

impl View for Method {
    type V = Seq<char>;

    /// The method's name as it stands in a request line.
    open spec fn view(&self) -> Seq<char> {
        match *self {
            Method::Options => "OPTIONS"@,
            Method::Get => "GET"@,
            Method::Post => "POST"@,
            Method::Put => "PUT"@,
            Method::Delete => "DELETE"@,
            Method::Head => "HEAD"@,
            Method::Trace => "TRACE"@,
            Method::Connect => "CONNECT"@,
            Method::Patch => "PATCH"@,
            Method::Extension(name) => name@,
        }
    }
}

/// The name has a variant of its own.
pub open spec fn is_standard_method(name: Seq<char>) -> bool {
    ||| name == "OPTIONS"@
    ||| name == "GET"@
    ||| name == "POST"@
    ||| name == "PUT"@
    ||| name == "DELETE"@
    ||| name == "HEAD"@
    ||| name == "TRACE"@
    ||| name == "CONNECT"@
    ||| name == "PATCH"@
}

impl Method {
    /// The method's name.
    pub fn as_str(&self) -> (name: &str)
        ensures
            name@ == self@,
    {
        match self {
            Method::Options => "OPTIONS",
            Method::Get => "GET",
            Method::Post => "POST",
            Method::Put => "PUT",
            Method::Delete => "DELETE",
            Method::Head => "HEAD",
            Method::Trace => "TRACE",
            Method::Connect => "CONNECT",
            Method::Patch => "PATCH",
            Method::Extension(name) => name.as_str(),
        }
    }

    /// The method named `name`; a standard name gives the standard variant.
    pub fn from_name(name: &str) -> (method: Method)
        ensures
            method@ == name@,
            method is Extension <==> !is_standard_method(name@),
    {
        if str_eq(name, "OPTIONS") {
            Method::Options
        } else if str_eq(name, "GET") {
            Method::Get
        } else if str_eq(name, "POST") {
            Method::Post
        } else if str_eq(name, "PUT") {
            Method::Put
        } else if str_eq(name, "DELETE") {
            Method::Delete
        } else if str_eq(name, "HEAD") {
            Method::Head
        } else if str_eq(name, "TRACE") {
            Method::Trace
        } else if str_eq(name, "CONNECT") {
            Method::Connect
        } else if str_eq(name, "PATCH") {
            Method::Patch
        } else {
            Method::Extension(name.to_owned())
        }
    }

    /// Tells whether this is the method GET.
    pub fn is_get(&self) -> (r: bool)
        ensures
            r == (self@ == "GET"@),
    {
        str_eq(self.as_str(), "GET")
    }
}

impl Clone for Method {
    /// A method of the same name.
    fn clone(&self) -> (copy: Method)
        ensures
            copy@ == self@,
    {
        Method::from_name(self.as_str())
    }
}

impl PartialEq for Method {
    /// Methods are equal when their names are.
    fn eq(&self, other: &Method) -> (r: bool) {
        str_eq(self.as_str(), other.as_str())
    }
}

impl PartialEqSpecImpl for Method {
    open spec fn obeys_eq_spec() -> bool {
        true
    }

    open spec fn eq_spec(&self, other: &Method) -> bool {
        self@ == other@
    }
}

/// The protocol version of a request, oldest first.
#[derive(Clone, Copy, Debug, PartialEq, Eq, Structural)]
pub enum Version {
    Http09,
    Http10,
    Http11,
    Http2,
    Http3,
}

impl Version {
    /// The place of the version in the order of the protocol's history.
    pub open spec fn rank(self) -> nat {
        match self {
            Version::Http09 => 0,
            Version::Http10 => 1,
            Version::Http11 => 2,
            Version::Http2 => 3,
            Version::Http3 => 4,
        }
    }

    /// Tells whether the version is HTTP/1.1 or a later one.
    pub fn is_at_least_11(self) -> (r: bool)
        ensures
            r == (self.rank() >= Version::Http11.rank()),
    {
        match self {
            Version::Http09 => false,
            Version::Http10 => false,
            _ => true,
        }
    }
}

/// One header field.
#[derive(Debug, PartialEq, Eq)]
pub struct Header {
    pub name: Vec<u8>,
    pub value: Vec<u8>,
}

impl View for Header {
    type V = (Seq<u8>, Seq<u8>);

    open spec fn view(&self) -> (Seq<u8>, Seq<u8>) {
        (self.name@, self.value@)
    }
}

/// The value of the first of `fields` whose name is `name`, letters in either
/// case.
pub open spec fn field_value(fields: Seq<(Seq<u8>, Seq<u8>)>, name: Seq<u8>) -> Option<Seq<u8>>
    decreases fields.len(),
{
    if fields.len() == 0 {
        None
    } else if eq_ignore_case(fields[0].0, name) {
        Some(fields[0].1)
    } else {
        field_value(fields.drop_first(), name)
    }
}

/// A lookup does not see the case of the name that is asked for.
pub proof fn law_lookup_ignores_case(
    fields: Seq<(Seq<u8>, Seq<u8>)>,
    name: Seq<u8>,
    other: Seq<u8>,
)
    requires
        eq_ignore_case(name, other),
    ensures
        field_value(fields, name) == field_value(fields, other),
    decreases fields.len(),
{
    if fields.len() > 0 {
        let first = fields[0].0;
        if eq_ignore_case(first, name) {
            assert(eq_ignore_case(first, other));
        }
        if eq_ignore_case(first, other) {
            assert(eq_ignore_case(first, name));
        }
        law_lookup_ignores_case(fields.drop_first(), name, other);
    }
}

/// The first field of a name counts: a field that is added after it does
/// not change what a lookup of the name finds. A field that is added where
/// the name has none is what a lookup finds from then on.
pub proof fn law_first_field_counts(
    fields: Seq<(Seq<u8>, Seq<u8>)>,
    added: (Seq<u8>, Seq<u8>),
    name: Seq<u8>,
)
    ensures
        field_value(fields, name) is Some ==> field_value(fields.push(added), name) == field_value(
            fields,
            name,
        ),
        field_value(fields, name) is None ==> field_value(fields.push(added), name) == if eq_ignore_case(
            added.0,
            name,
        ) {
            Some(added.1)
        } else {
            None
        },
    decreases fields.len(),
{
    if fields.len() > 0 {
        assert(fields.push(added).drop_first() =~= fields.drop_first().push(added));
        law_first_field_counts(fields.drop_first(), added, name);
    } else {
        assert(fields.push(added).drop_first() =~= fields);
    }
}

/// The header fields of a message, in the order in which they were added.
/// A name may occur more than once; a lookup finds its first field.
#[derive(Debug, PartialEq, Eq)]
pub struct HeaderMap {
    pub entries: Vec<Header>,
}

impl View for HeaderMap {
    type V = Seq<(Seq<u8>, Seq<u8>)>;

    open spec fn view(&self) -> Seq<(Seq<u8>, Seq<u8>)> {
        Seq::new(self.entries@.len(), |i: int| self.entries@[i]@)
    }
}

impl HeaderMap {
    /// No fields.
    pub fn new() -> (headers: HeaderMap)
        ensures
            headers@ == Seq::<(Seq<u8>, Seq<u8>)>::empty(),
    {
        let headers = HeaderMap { entries: Vec::new() };
        assert(headers@ =~= Seq::<(Seq<u8>, Seq<u8>)>::empty());
        headers
    }

    /// The number of fields.
    pub fn len(&self) -> (n: usize)
        ensures
            n == self@.len(),
    {
        self.entries.len()
    }

    /// Adds a field after those that are there.
    pub fn append(&mut self, name: &[u8], value: &[u8])
        ensures
            final(self)@ == old(self)@.push((name@, value@)),
    {
        self.entries.push(Header { name: slice_to_vec(name), value: slice_to_vec(value) });
        assert(self@ =~= old(self)@.push((name@, value@)));
    }

    /// The value of the first field named `name`, letters in either case.
    pub fn get(&self, name: &[u8]) -> (found: Option<&Vec<u8>>)
        ensures
            match found {
                Some(value) => field_value(self@, name@) == Some(value@),
                None => field_value(self@, name@) is None,
            },
    {
        let mut i: usize = 0;
        assert(self@.skip(0) =~= self@);
        while i < self.entries.len()
            invariant
                i <= self.entries.len(),
                field_value(self@, name@) == field_value(self@.skip(i as int), name@),
            decreases self.entries.len() - i,
        {
            assert(self@.skip(i as int).drop_first() =~= self@.skip(i + 1));
            assert(self@.skip(i as int)[0] == self.entries@[i as int]@);
            if bytes_eq_ignore_case(self.entries[i].name.as_slice(), name) {
                return Some(&self.entries[i].value);
            }
            i += 1;
        }
        None
    }

    /// Tells whether there is a field named `name`, letters in either case.
    pub fn contains(&self, name: &[u8]) -> (r: bool)
        ensures
            r == field_value(self@, name@).is_some(),
    {
        self.get(name).is_some()
    }
}

/// The address of the peer of a connection.
#[derive(Clone, Copy, Debug, PartialEq, Eq, Structural)]
#[allow(inconsistent_fields)]
pub enum RemoteAddr {
    /// A peer at an IPv4 address, given as its 32 bits.
    V4 { ip: u32, port: u16 },
    /// A peer at an IPv6 address, given as its 128 bits, with the flow
    /// information and the scope of the address.
    V6 { ip: u128, port: u16, flowinfo: u32, scope_id: u32 },
}

impl RemoteAddr {
    /// The port of the peer.
    pub open spec fn spec_port(self) -> u16 {
        match self {
            RemoteAddr::V4 { port, .. } => port,
            RemoteAddr::V6 { port, .. } => port,
        }
    }

    /// The port of the peer.
    #[verifier::when_used_as_spec(spec_port)]
    pub fn port(self) -> (port: u16)
        ensures
            port == self.spec_port(),
    {
        match self {
            RemoteAddr::V4 { port, .. } => port,
            RemoteAddr::V6 { port, .. } => port,
        }
    }
}

/// A request as it came over the wire. `B` is whatever the transport hands
/// over for the body.
pub struct HttpRequest<B> {
    pub method: Method,
    pub version: Version,
    pub path: String,
    pub query: Option<String>,
    pub headers: HeaderMap,
    pub body: B,
}

/// An inbound request: what came over the wire, the address of the peer, and
/// the bag of data that the application shares with its handlers.
pub struct Request<B, E> {
    pub remote_addr: RemoteAddr,
    pub extensions: Arc<E>,
    pub http: HttpRequest<B>,
}

/// The request was served.
pub const OK: u16 = 200;

/// The connection changes to the protocol that was asked for.
pub const SWITCHING_PROTOCOLS: u16 = 101;

/// The request is not one that can be served.
pub const BAD_REQUEST: u16 = 400;

/// The server failed.
pub const INTERNAL_SERVER_ERROR: u16 = 500;

/// What a response says, as plain values.
pub ghost struct ResponseView {
    pub status: u16,
    pub headers: Seq<(Seq<u8>, Seq<u8>)>,
    pub body: Seq<u8>,
}

/// An outbound response.
#[derive(Debug, PartialEq, Eq)]
pub struct Response {
    pub status: u16,
    pub headers: HeaderMap,
    pub body: Vec<u8>,
}

impl View for Response {
    type V = ResponseView;

    open spec fn view(&self) -> ResponseView {
        ResponseView { status: self.status, headers: self.headers@, body: self.body@ }
    }
}

impl Response {
    /// A response with the given status, no header field and an empty body.
    pub fn empty(status: u16) -> (response: Response)
        ensures
            response@ == (ResponseView {
                status,
                headers: Seq::<(Seq<u8>, Seq<u8>)>::empty(),
                body: Seq::<u8>::empty(),
            }),
    {
        Response { status, headers: HeaderMap::new(), body: Vec::new() }
    }
}

} // verus!
