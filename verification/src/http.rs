//! The HTTP values that the router reads and writes: requests, responses,
//! their header lists, and the result of asking an origin.
//!
//! Every executable type has a mathematical model, reached with `@`, over
//! which the contracts of the router are stated.

use crate::text::{eq_ignore_ascii_case, eq_ignoring_ascii_case};
use vstd::prelude::*;

verus! {

/// The network address of a client.
#[derive(Clone, Copy, Debug, PartialEq, Eq, Structural)]
pub enum IpAddress {
    /// An IPv4 address as one number: the first octet is the highest byte.
    V4(u32),
    /// An IPv6 address as one number: the first segment holds the highest
    /// bits.
    V6(u128),
}

/// The model of a header list: names and values in the order of the list.
pub type HeaderSeq = Seq<(Seq<char>, Seq<char>)>;

/// The value of the first header called `name`, if there is one. Names are
/// compared without regard to ASCII case.
pub open spec fn header_value(headers: HeaderSeq, name: Seq<char>) -> Option<Seq<char>>
    decreases headers.len(),
{
    if headers.len() == 0 {
        None
    } else if eq_ignoring_ascii_case(headers[0].0, name) {
        Some(headers[0].1)
    } else {
        header_value(headers.drop_first(), name)
    }
}

/// The list without the headers called `name`.
pub open spec fn without_header(headers: HeaderSeq, name: Seq<char>) -> HeaderSeq {
    headers.filter(|h: (Seq<char>, Seq<char>)| !eq_ignoring_ascii_case(h.0, name))
}

/// The list in which `name` has the single value `value`: earlier values of
/// that name are dropped and the new header stands last.
pub open spec fn with_header(headers: HeaderSeq, name: Seq<char>, value: Seq<char>) -> HeaderSeq {
    without_header(headers, name).push((name, value))
}

/// An ordered list of HTTP headers.
#[derive(Debug, PartialEq, Eq)]
pub struct Headers {
    pub entries: Vec<(String, String)>,
}

impl View for Headers {
    type V = HeaderSeq;

    open spec fn view(&self) -> HeaderSeq {
        self.entries.deep_view()
    }
}

impl Clone for Headers {
    fn clone(&self) -> (copy: Self)
        ensures
            copy@ == self@,
    {
        let mut entries: Vec<(String, String)> = Vec::new();
        let mut i: usize = 0;
        while i < self.entries.len()
            invariant
                i <= self.entries.len(),
                entries.deep_view() == self.entries.deep_view().take(i as int),
            decreases self.entries.len() - i,
        {
            let entry = &self.entries[i];
            let ghost before = entries.deep_view();
            entries.push((entry.0.clone(), entry.1.clone()));
            assert(entries.deep_view() =~= before.push(self@[i as int]));
            i = i + 1;
        }
        assert(self.entries.deep_view().take(i as int) =~= self.entries.deep_view());
        Headers { entries }
    }
}

impl Headers {
    /// The empty list.
    pub fn new() -> (headers: Self)
        ensures
            headers@ == HeaderSeq::empty(),
    {
        let headers = Headers { entries: Vec::new() };
        assert(headers@ =~= HeaderSeq::empty());
        headers
    }

    /// Adds a header at the end of the list, beside any other of its name.
    pub fn append(&mut self, name: &str, value: &str)
        ensures
            final(self)@ == old(self)@.push((name@, value@)),
    {
        self.entries.push((name.to_owned(), value.to_owned()));
        assert(self@ =~= old(self)@.push((name@, value@)));
    }

    /// The value of the first header called `name`.
    pub fn get(&self, name: &str) -> (value: Option<&String>)
        ensures
            match value {
                Some(v) => header_value(self@, name@) == Some(v@),
                None => header_value(self@, name@) is None,
            },
    {
        let mut i: usize = 0;
        assert(self@.skip(0) =~= self@);
        while i < self.entries.len()
            invariant
                i <= self.entries.len(),
                header_value(self@, name@) == header_value(self@.skip(i as int), name@),
            decreases self.entries.len() - i,
        {
            let entry = &self.entries[i];
            proof {
                assert(self@.skip(i as int)[0] == self@[i as int]);
                assert(self@.skip(i as int).drop_first() =~= self@.skip(i + 1));
            }
            if eq_ignore_ascii_case(entry.0.as_str(), name) {
                return Some(&entry.1);
            }
            i = i + 1;
        }
        None
    }

    /// Whether a header called `name` is present.
    pub fn contains(&self, name: &str) -> (present: bool)
        ensures
            present == (header_value(self@, name@) is Some),
    {
        self.get(name).is_some()
    }

    /// Gives `name` the single value `value`, discarding any earlier values
    /// of that name.
    pub fn set(&mut self, name: &str, value: &str)
        ensures
            final(self)@ == with_header(old(self)@, name@, value@),
    {
        let ghost keep = |h: (Seq<char>, Seq<char>)| !eq_ignoring_ascii_case(h.0, name@);
        let mut entries: Vec<(String, String)> = Vec::new();
        let mut i: usize = 0;
        while i < self.entries.len()
            invariant
                i <= self.entries.len(),
                keep == |h: (Seq<char>, Seq<char>)| !eq_ignoring_ascii_case(h.0, name@),
                entries.deep_view() == self@.take(i as int).filter(keep),
            decreases self.entries.len() - i,
        {
            let entry = &self.entries[i];
            proof {
                assert(self@.take(i + 1).drop_last() =~= self@.take(i as int));
                assert(self@.take(i + 1).last() == self@[i as int]);
                reveal(Seq::filter);
            }
            if !eq_ignore_ascii_case(entry.0.as_str(), name) {
                entries.push((entry.0.clone(), entry.1.clone()));
                assert(entries.deep_view() =~= self@.take(i as int).filter(keep).push(
                    self@[i as int],
                ));
            }
            i = i + 1;
        }
        assert(self@.take(i as int) =~= self@);
        entries.push((name.to_owned(), value.to_owned()));
        assert(entries.deep_view() =~= with_header(self@, name@, value@));
        self.entries = entries;
    }
}

/// The model of a URL: its parts as texts.
pub struct UrlModel {
    pub scheme: Seq<char>,
    pub authority: Seq<char>,
    pub path: Seq<char>,
    pub query: Option<Seq<char>>,
}

impl UrlModel {
    /// The URL written out: scheme, `://`, authority and path, followed by
    /// `?` and the query where there is one.
    pub open spec fn text(self) -> Seq<char> {
        let head = self.scheme + "://"@ + self.authority + self.path;
        match self.query {
            Some(query) => head + "?"@ + query,
            None => head,
        }
    }
}

/// An absolute URL, held by its parts. The path is the part that the router
/// rewrites.
#[derive(Debug, PartialEq, Eq)]
pub struct Url {
    pub scheme: String,
    /// Host and, where given, port.
    pub authority: String,
    pub path: String,
    /// The query without its leading `?`.
    pub query: Option<String>,
}

impl View for Url {
    type V = UrlModel;

    open spec fn view(&self) -> UrlModel {
        UrlModel {
            scheme: self.scheme@,
            authority: self.authority@,
            path: self.path@,
            query: match self.query {
                Some(query) => Some(query@),
                None => None,
            },
        }
    }
}

impl Clone for Url {
    fn clone(&self) -> (copy: Self)
        ensures
            copy@ == self@,
    {
        Url {
            scheme: self.scheme.clone(),
            authority: self.authority.clone(),
            path: self.path.clone(),
            query: match &self.query {
                Some(query) => Some(query.clone()),
                None => None,
            },
        }
    }
}

impl Url {
    /// Writes the URL out as one string.
    pub fn as_text(&self) -> (text: String)
        ensures
            text@ == self@.text(),
    {
        let mut text = self.scheme.clone();
        text.append("://");
        text.append(self.authority.as_str());
        text.append(self.path.as_str());
        match &self.query {
            Some(query) => {
                text.append("?");
                text.append(query.as_str());
            },
            None => {},
        }
        text
    }
}

/// The model of a request.
pub struct RequestModel {
    pub method: Seq<char>,
    pub url: UrlModel,
    pub client_ip: Option<IpAddress>,
    pub headers: HeaderSeq,
    pub ttl: Option<u32>,
    pub body: Option<Seq<u8>>,
}

/// An HTTP request: the one that a client sent, or one that goes to an
/// origin.
#[derive(Debug, PartialEq, Eq)]
pub struct Request {
    pub method: String,
    pub url: Url,
    /// The address of the client, where the request came from one.
    pub client_ip: Option<IpAddress>,
    pub headers: Headers,
    /// For how many seconds intermediaries are asked to cache the response.
    pub ttl: Option<u32>,
    pub body: Option<Vec<u8>>,
}

impl View for Request {
    type V = RequestModel;

    open spec fn view(&self) -> RequestModel {
        RequestModel {
            method: self.method@,
            url: self.url@,
            client_ip: self.client_ip,
            headers: self.headers@,
            ttl: self.ttl,
            body: match self.body {
                Some(body) => Some(body@),
                None => None,
            },
        }
    }
}

impl Clone for Request {
    fn clone(&self) -> (copy: Self)
        ensures
            copy@ == self@,
    {
        let mut copy = self.clone_without_body();
        copy.body = match &self.body {
            Some(body) => Some(body.clone()),
            None => None,
        };
        copy
    }
}

impl Request {
    /// A request with the method, URL, client address, headers and cache
    /// lifetime of this one, and no body.
    pub fn clone_without_body(&self) -> (copy: Request)
        ensures
            copy@ == (RequestModel { body: None, ..self@ }),
    {
        Request {
            method: self.method.clone(),
            url: self.url.clone(),
            client_ip: self.client_ip,
            headers: self.headers.clone(),
            ttl: self.ttl,
            body: None,
        }
    }
}

/// The model of a response.
pub struct ResponseModel {
    pub status: u16,
    pub headers: HeaderSeq,
    pub content_length: Option<usize>,
    pub body: Seq<u8>,
}

/// The status of a response that was made without naming one.
pub const OK: u16 = 200;

/// The status of a temporary redirect.
pub const TEMPORARY_REDIRECT: u16 = 307;

/// The name of the header that carries the target of a redirect.
pub open spec fn location() -> Seq<char> {
    "Location"@
}

/// The response that consists of a body: status 200, no headers, no declared
/// length, and the text in UTF-8 as its body.
pub open spec fn response_from_body(body: Seq<char>) -> ResponseModel {
    ResponseModel {
        status: OK,
        headers: HeaderSeq::empty(),
        content_length: None,
        body: vstd::utf8::encode_utf8(body),
    }
}

/// The temporary redirect to `destination`: status 307, `destination` as the
/// only header, `Location`, and an empty body of undeclared length.
pub open spec fn temporary_redirect_to(destination: Seq<char>) -> ResponseModel {
    ResponseModel {
        status: TEMPORARY_REDIRECT,
        headers: seq![(location(), destination)],
        content_length: None,
        body: Seq::empty(),
    }
}

/// An HTTP response: one that an origin gave, or one that the router made
/// itself.
#[derive(Debug, PartialEq, Eq)]
pub struct Response {
    pub status: u16,
    pub headers: Headers,
    /// The length that the response declares for its body, where it does.
    pub content_length: Option<usize>,
    pub body: Vec<u8>,
}

impl View for Response {
    type V = ResponseModel;

    open spec fn view(&self) -> ResponseModel {
        ResponseModel {
            status: self.status,
            headers: self.headers@,
            content_length: self.content_length,
            body: self.body@,
        }
    }
}

impl Clone for Response {
    fn clone(&self) -> (copy: Self)
        ensures
            copy@ == self@,
    {
        Response {
            status: self.status,
            headers: self.headers.clone(),
            content_length: self.content_length,
            body: self.body.clone(),
        }
    }
}

impl Response {
    /// A response with status 200 and the given text as its body.
    pub fn from_body(body: &str) -> (response: Response)
        ensures
            response@ == response_from_body(body@),
    {
        Response {
            status: OK,
            headers: Headers::new(),
            content_length: None,
            body: body.as_bytes_vec(),
        }
    }

    /// The same response under another status.
    pub fn with_status(self, status: u16) -> (response: Response)
        ensures
            response@ == (ResponseModel { status, ..self@ }),
    {
        let mut response = self;
        response.status = status;
        response
    }

    /// A temporary redirect to `destination`.
    pub fn temporary_redirect(destination: &str) -> (response: Response)
        ensures
            response@ == temporary_redirect_to(destination@),
    {
        let mut headers = Headers::new();
        headers.set("Location", destination);
        assert(headers@ =~= seq![(location(), destination@)]) by {
            reveal(Seq::filter);
        }
        Response { status: TEMPORARY_REDIRECT, headers, content_length: None, body: Vec::new() }
    }

    /// Gives the header `name` the single value `value`. Status, declared
    /// length and body stay as they are.
    pub fn set_header(&mut self, name: &str, value: &str)
        ensures
            final(self)@ == (ResponseModel {
                headers: with_header(old(self)@.headers, name@, value@),
                ..old(self)@
            }),
    {
        self.headers.set(name, value);
    }
}

/// The failure to get a response from an origin.
#[derive(Debug, PartialEq, Eq)]
pub struct TransportError {
    /// What the transport reported.
    pub message: String,
}

impl View for TransportError {
    type V = Seq<char>;

    open spec fn view(&self) -> Seq<char> {
        self.message@
    }
}

impl Clone for TransportError {
    fn clone(&self) -> (copy: Self)
        ensures
            copy@ == self@,
    {
        TransportError { message: self.message.clone() }
    }
}

/// The model of what asking an origin gave: a response, or what the
/// transport reported instead.
pub type ReplyModel = Result<ResponseModel, Seq<char>>;

/// The model of the result of asking an origin.
pub open spec fn reply_model(reply: Result<Response, TransportError>) -> ReplyModel {
    match reply {
        Ok(response) => Ok(response@),
        Err(error) => Err(error@),
    }
}

/// A header that has just been set is found under its name, with the value
/// it was given.
pub proof fn lemma_with_header_sets(headers: HeaderSeq, name: Seq<char>, value: Seq<char>)
    ensures
        header_value(with_header(headers, name, value), name) == Some(value),
{
    let kept = without_header(headers, name);
    lemma_without_header_removes(headers, name);
    lemma_header_value_push(kept, (name, value), name);
    crate::text::lemma_eq_ignoring_ascii_case_equivalence(name, name, name);
}

/// Setting one header leaves the value of every differently named header as
/// it was.
pub proof fn lemma_with_header_keeps(
    headers: HeaderSeq,
    name: Seq<char>,
    value: Seq<char>,
    other: Seq<char>,
)
    requires
        !eq_ignoring_ascii_case(name, other),
    ensures
        header_value(with_header(headers, name, value), other) == header_value(headers, other),
{
    lemma_without_header_keeps(headers, name, other);
    lemma_header_value_push(without_header(headers, name), (name, value), other);
}

/// Looking a name up in a list that was extended at its end: the old list
/// decides where it holds the name, the new header where it does not.
pub proof fn lemma_header_value_push(
    headers: HeaderSeq,
    last: (Seq<char>, Seq<char>),
    name: Seq<char>,
)
    ensures
        header_value(headers.push(last), name) == if header_value(headers, name) is Some {
            header_value(headers, name)
        } else if eq_ignoring_ascii_case(last.0, name) {
            Some(last.1)
        } else {
            None
        },
    decreases headers.len(),
{
    let extended = headers.push(last);
    if headers.len() == 0 {
        assert(extended.drop_first() =~= headers);
    } else {
        assert(extended[0] == headers[0]);
        assert(extended.drop_first() =~= headers.drop_first().push(last));
        lemma_header_value_push(headers.drop_first(), last, name);
    }
}

/// After the headers called `name` are removed, none is found under it.
pub proof fn lemma_without_header_removes(headers: HeaderSeq, name: Seq<char>)
    ensures
        header_value(without_header(headers, name), name) is None,
    decreases headers.len(),
{
    reveal(Seq::filter);
    if headers.len() > 0 {
        let keep = |h: (Seq<char>, Seq<char>)| !eq_ignoring_ascii_case(h.0, name);
        lemma_without_header_removes(headers.drop_last(), name);
        if keep(headers.last()) {
            lemma_header_value_push(headers.drop_last().filter(keep), headers.last(), name);
        }
    }
}

/// Removing the headers called `name` leaves the value of every differently
/// named header as it was.
pub proof fn lemma_without_header_keeps(headers: HeaderSeq, name: Seq<char>, other: Seq<char>)
    requires
        !eq_ignoring_ascii_case(name, other),
    ensures
        header_value(without_header(headers, name), other) == header_value(headers, other),
    decreases headers.len(),
{
    reveal(Seq::filter);
    if headers.len() > 0 {
        let keep = |h: (Seq<char>, Seq<char>)| !eq_ignoring_ascii_case(h.0, name);
        let front = headers.drop_last();
        let last = headers.last();
        lemma_without_header_keeps(front, name, other);
        assert(front.push(last) =~= headers);
        lemma_header_value_push(front, last, other);
        if keep(last) {
            lemma_header_value_push(front.filter(keep), last, other);
        } else {
            crate::text::lemma_eq_ignoring_ascii_case_equivalence(last.0, name, other);
            crate::text::lemma_eq_ignoring_ascii_case_equivalence(name, last.0, other);
        }
    }
}

} // verus!
