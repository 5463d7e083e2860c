//! The request that handlers receive: a header collection and a body.

use headers::{ContentLength, HeaderMapExt};
use http::header::{HeaderMap, HeaderValue};
use vstd::prelude::*;

verus! {

/// `HeaderMap` of the `http` crate, taken as it is: nothing inside it is
/// visible to the proofs.
#[verifier::external_type_specification]
#[verifier::external_body]
#[verifier::reject_recursive_types(T)]
pub struct ExHeaderMap<T>(HeaderMap<T>);

/// `HeaderValue` of the `http` crate, which a `HeaderMap` holds by default.
/// Nothing inside it is visible to the proofs.
#[verifier::external_type_specification]
#[verifier::external_body]
pub struct ExHeaderValue(HeaderValue);

/// The values that a header collection holds under the name
/// `content-length`, each as its bytes, in the order in which they were put
/// in. The sequence is empty where the header is absent.
pub uninterp spec fn content_length_values(headers: HeaderMap) -> Seq<Seq<u8>>;

/// What decoding as `ContentLength` makes of the values of that header: the
/// length that they declare, or `None` where they declare none, because a
/// value does not read as a number or because two values differ.
pub uninterp spec fn decoded_content_length(values: Seq<Seq<u8>>) -> Option<u64>;

/// The body length that a header collection declares.
pub open spec fn declared_length_in(headers: HeaderMap) -> Option<u64> {
    decoded_content_length(content_length_values(headers))
}

/// Looks up the declared body length with `HeaderMapExt::typed_get` of the
/// `headers` crate, decoding as `ContentLength`.
///
/// Nothing is proved of the lookup. The contract claims two things of it.
/// It finds the values by the header's name and reads nothing but their
/// bytes, so the result has a name over those values. And where the
/// collection holds no such value the result is `None`.
#[verifier::external_body]
fn typed_content_length(headers: &HeaderMap) -> (len: Option<u64>)
    ensures
        len == decoded_content_length(content_length_values(*headers)),
        content_length_values(*headers).len() == 0 ==> len is None,
{
    match headers.typed_get::<ContentLength>() {
        Some(ContentLength(len)) => Some(len),
        None => None,
    }
}

/// An inbound request, as far as the guard and the handlers behind it see it.
pub struct Request {
    headers: HeaderMap,
    body: Vec<u8>,
}

impl Request {
    /// The header collection of the request.
    pub closed spec fn header_map(&self) -> HeaderMap {
        self.headers
    }

    /// The body bytes of the request.
    pub closed spec fn payload(&self) -> Seq<u8> {
        self.body@
    }

    /// The `Content-Length` values among the headers of the request.
    pub open spec fn length_values(&self) -> Seq<Seq<u8>> {
        content_length_values(self.header_map())
    }

    /// The body length that the request declares in its headers. It says
    /// nothing of how long the body really is.
    pub open spec fn declared_length(&self) -> Option<u64> {
        declared_length_in(self.header_map())
    }

    /// Puts a request together from its headers and its body. The body is
    /// taken as it is: no header is derived from it.
    pub fn new(headers: HeaderMap, body: Vec<u8>) -> (req: Request)
        ensures
            req.header_map() == headers,
            req.payload() == body@,
    {
        Request { headers, body }
    }

    /// The header collection of the request.
    pub fn headers(&self) -> (headers: &HeaderMap)
        ensures
            *headers == self.header_map(),
    {
        &self.headers
    }

    /// The body bytes of the request.
    pub fn body(&self) -> (body: &Vec<u8>)
        ensures
            body@ == self.payload(),
    {
        &self.body
    }

    /// The body length that the request declares, if it declares one. A
    /// request without the header declares none.
    pub fn content_length(&self) -> (len: Option<u64>)
        ensures
            len == self.declared_length(),
            self.length_values().len() == 0 ==> len is None,
    {
        typed_content_length(&self.headers)
    }
}

} // verus!
