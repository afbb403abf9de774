//! The trusted boundary around the `rsip` SIP codec.
//!
//! Everything the library knows about the SIP wire format it learns through
//! the items in this module: parsing a datagram, reading the header
//! components that routing needs, and serializing an outbound message.  The
//! codec's values (`rsip::Request`, `rsip::Uri`, ...) are opaque here; the
//! wrappers hand the routing logic plain values and carry the opaque pieces
//! through to serialization untouched.

use rsip::message::HeadersExt;
use vstd::prelude::*;

verus! {

#[verifier::external_type_specification]
#[verifier::external_body]
pub struct ExRsipRequest(rsip::Request);

#[verifier::external_type_specification]
#[verifier::external_body]
pub struct ExRsipResponse(rsip::Response);

#[verifier::external_type_specification]
#[verifier::external_body]
pub struct ExRsipMethod(rsip::Method);

#[verifier::external_type_specification]
#[verifier::external_body]
pub struct ExRsipUri(rsip::Uri);

#[verifier::external_type_specification]
#[verifier::external_body]
pub struct ExRsipHeaders(rsip::Headers);

#[verifier::external_type_specification]
#[verifier::external_body]
pub struct ExRsipStatusCode(rsip::StatusCode);

#[verifier::external_type_specification]
#[verifier::external_body]
pub struct ExRsipVersion(rsip::Version);

/// Whether the codec decodes these bytes as a SIP request.  Parsing is a
/// function of the bytes alone; what the decoded request holds stays with
/// the codec.
pub uninterp spec fn parses_as_request(buf: Seq<u8>) -> bool;

/// Whether the codec decodes these bytes as a SIP response.
pub uninterp spec fn parses_as_response(buf: Seq<u8>) -> bool;

/// Relies on `<rsip::Request as TryFrom<&[u8]>>::try_from`: decodes a
/// datagram as a SIP request, succeeding exactly on the bytes the codec
/// accepts as a request.
#[verifier::external_body]
pub(crate) fn parse_request(buf: &[u8]) -> (r: Option<rsip::Request>)
    ensures
        r is Some <==> parses_as_request(buf@),
{
    rsip::Request::try_from(buf).ok()
}

/// Relies on `<rsip::Response as TryFrom<&[u8]>>::try_from`: decodes a
/// datagram as a SIP response, succeeding exactly on the bytes the codec
/// accepts as a response.
#[verifier::external_body]
pub(crate) fn parse_response(buf: &[u8]) -> (r: Option<rsip::Response>)
    ensures
        r is Some <==> parses_as_response(buf@),
{
    rsip::Response::try_from(buf).ok()
}

/// Relies on the `rsip::Request` struct's public fields: takes the request
/// apart into the pieces the library keeps.  The first-line URI and the
/// SIP-version field are dropped: routing reads the To-derived target URI
/// instead, a forwarded request carries the registered contact URI, and an
/// outbound request is always written with the default version, as the
/// codec's `Version::default` gives it.
#[verifier::external_body]
pub(crate) fn request_parts(r: rsip::Request) -> (rsip::Method, rsip::Headers, Vec<u8>) {
    let rsip::Request { method, uri: _, version: _, headers, body } = r;
    (method, headers, body)
}

/// Relies on the `rsip::Response` struct's public fields: takes the
/// response apart into the pieces the library keeps.
#[verifier::external_body]
pub(crate) fn response_parts(
    r: rsip::Response,
) -> (rsip::StatusCode, rsip::Version, rsip::Headers, Vec<u8>) {
    let rsip::Response { status_code, version, headers, body } = r;
    (status_code, version, headers, body)
}

/// Relies on `rsip::Method`'s `Display`: the upper-case method name, e.g.
/// `"REGISTER"` for `rsip::Method::Register`.
#[verifier::external_body]
pub(crate) fn method_name(m: &rsip::Method) -> String {
    format!("{}", m)
}

/// Relies on `rsip::StatusCode::code`: the numeric value of the status.
#[verifier::external_body]
pub(crate) fn status_value(s: &rsip::StatusCode) -> u16 {
    s.code()
}

/// Relies on `rsip::message::HeadersExt::to_header` and
/// `rsip::headers::To::uri`: the URI of the request's To header, if the
/// header is present and its URI readable.
#[verifier::external_body]
pub(crate) fn to_uri(r: &rsip::Request) -> Option<rsip::Uri> {
    match r.to_header() {
        Ok(h) => h.uri().ok(),
        Err(_) => None,
    }
}

/// Relies on `rsip::message::HeadersExt::contact_header` and
/// `rsip::headers::Contact::uri`: the URI of the request's first Contact
/// header, if one is present and its URI readable.  A request that
/// carries several Contact headers contributes only this one; there is no
/// forking to multiple contacts.
#[verifier::external_body]
pub(crate) fn contact_uri(r: &rsip::Request) -> Option<rsip::Uri> {
    match r.contact_header() {
        Ok(h) => h.uri().ok(),
        Err(_) => None,
    }
}

/// Relies on `rsip::message::HeadersExt::via_header` and
/// `rsip::headers::Via::uri`: the URI of the request's topmost Via header,
/// if the header is present and its URI readable.
#[verifier::external_body]
pub(crate) fn request_via_uri(r: &rsip::Request) -> Option<rsip::Uri> {
    match r.via_header() {
        Ok(h) => h.uri().ok(),
        Err(_) => None,
    }
}

/// Relies on `rsip::message::HeadersExt::via_header` and
/// `rsip::headers::Via::uri`: the URI of the response's topmost Via header,
/// if the header is present and its URI readable.
#[verifier::external_body]
pub(crate) fn response_via_uri(r: &rsip::Response) -> Option<rsip::Uri> {
    match r.via_header() {
        Ok(h) => h.uri().ok(),
        Err(_) => None,
    }
}

/// Relies on `rsip::Uri::user`: the user part of the URI, if it has one.
#[verifier::external_body]
pub(crate) fn uri_user(u: &rsip::Uri) -> Option<String> {
    match u.user() {
        Some(s) => Some(s.to_string()),
        None => None,
    }
}

/// Relies on `rsip::common::uri::Host`'s `Display`: the host part of the
/// URI, printed as the codec prints it into an address.
#[verifier::external_body]
pub(crate) fn uri_host(u: &rsip::Uri) -> String {
    format!("{}", u.host_with_port.host)
}

/// Relies on `rsip::common::uri::Port::value`: the port the URI names, if
/// any.
#[verifier::external_body]
pub(crate) fn uri_port(u: &rsip::Uri) -> Option<u16> {
    match u.host_with_port.port {
        Some(p) => Some(*p.value()),
        None => None,
    }
}

/// Relies on `rsip::Uri`'s derived `Clone`: every field of the URI is
/// cloned structurally, so the copy equals the original.
#[verifier::external_body]
pub(crate) fn clone_uri(u: &rsip::Uri) -> (r: rsip::Uri)
    ensures
        r == *u,
{
    u.clone()
}

/// Relies on `rsip::Request`'s `Display` (through `format!`): writes the
/// SIP request line, headers and body in wire format, with the codec's
/// default SIP version, as the original parts were given.
#[verifier::external_body]
pub(crate) fn serialize_request(
    method: &rsip::Method,
    uri: &rsip::Uri,
    headers: &rsip::Headers,
    body: &Vec<u8>,
) -> String {
    let req = rsip::Request {
        method: *method,
        uri: uri.clone(),
        version: rsip::Version::default(),
        headers: headers.clone(),
        body: body.clone(),
    };
    format!("{}", req)
}

/// Relies on `rsip::Response`'s `Display` (through `format!`): writes the
/// SIP status line, headers and body in wire format, exactly as the parts
/// were given — the path for a decoded response that goes back out
/// verbatim.
#[verifier::external_body]
pub(crate) fn serialize_response(
    status: &rsip::StatusCode,
    version: &rsip::Version,
    headers: &rsip::Headers,
    body: &Vec<u8>,
) -> String {
    let resp = rsip::Response {
        status_code: status.clone(),
        version: version.clone(),
        headers: headers.clone(),
        body: body.clone(),
    };
    format!("{}", resp)
}

/// Relies on `rsip::Response`'s `Display`, `rsip::StatusCode::from::<u16>`
/// and `rsip::Version::default`: writes a response the library built
/// itself, with the codec's status value for the given numeric code and
/// the codec's default SIP version.
#[verifier::external_body]
pub(crate) fn serialize_new_response(status: u16, headers: &rsip::Headers, body: &Vec<u8>) -> String {
    let resp = rsip::Response {
        status_code: rsip::StatusCode::from(status),
        version: rsip::Version::default(),
        headers: headers.clone(),
        body: body.clone(),
    };
    format!("{}", resp)
}

} // verus!
