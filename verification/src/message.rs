//! The library's view of SIP messages.
//!
//! Each inbound datagram becomes an [`Inbound`] value: the pieces that
//! routing reads (method name, target user, contact, Via address) as plain
//! values, and the pieces that are only carried through to serialization
//! (headers, the codec's method and status values) as opaque codec values.

use crate::codec;
use crate::codec::{parses_as_request, parses_as_response};
use vstd::prelude::*;

verus! {

/// A host and optional port, the destination of one socket send.
///
/// Derived from a Contact or Via URI, never from the transport source
/// address of a datagram.
#[derive(Debug)]
pub struct HostPort {
    pub host: String,
    pub port: Option<u16>,
}

/// A SIP URI: the components routing reads, plus the codec's own value of
/// the whole URI, carried along so that serialization reproduces the URI
/// exactly as it was given (parameters included).
#[derive(Debug)]
pub struct SipUri {
    /// The user part, if the URI has one.
    pub user: Option<String>,
    /// The host part, as the codec prints it.
    pub host: String,
    /// The port, if the URI names one.
    pub port: Option<u16>,
    /// The codec's value of the URI, used verbatim when serializing.
    pub raw: rsip::Uri,
}

impl SipUri {
    /// The send destination this URI encodes.
    pub fn host_port(&self) -> (r: HostPort)
        ensures
            r.host == self.host,
            r.port == self.port,
    {
        HostPort { host: self.host.clone(), port: self.port }
    }

    /// Reads the components the codec exposes of a URI, keeping the
    /// codec's value itself for later serialization.
    pub fn from_codec(u: rsip::Uri) -> (r: Self)
        ensures
            r.raw == u,
    {
        let user = codec::uri_user(&u);
        let host = codec::uri_host(&u);
        let port = codec::uri_port(&u);
        SipUri { user, host, port, raw: u }
    }

    /// Copies the URI, the codec's value included.
    pub fn duplicate(&self) -> (r: Self)
        ensures
            r == *self,
    {
        let user = match &self.user {
            Some(s) => Some(s.clone()),
            None => None,
        };
        SipUri {
            user,
            host: self.host.clone(),
            port: self.port,
            raw: codec::clone_uri(&self.raw),
        }
    }
}

/// A decoded SIP request, reduced to what routing reads.
#[derive(Debug)]
pub struct SipRequest {
    /// The codec's name for the method, e.g. `"REGISTER"` or `"INVITE"`.
    pub method: String,
    /// The codec's method value, reused when the request is forwarded.
    pub method_raw: rsip::Method,
    /// The target URI, read from the To header, if readable.  The user
    /// identifier a request is routed or registered by is this URI's user
    /// part: in a REGISTER the first-line URI names the registrar itself,
    /// so the To URI is the one that names the user, and every request is
    /// keyed the same way.
    pub target: Option<SipUri>,
    /// The first Contact header's URI, if one is present and readable.  A
    /// request with several Contact headers contributes only the first;
    /// there is no forking to multiple contacts.
    pub contact: Option<SipUri>,
    /// The address derived from the topmost Via URI, if readable.
    pub via: Option<HostPort>,
    /// The full ordered header collection, echoed or forwarded untouched.
    pub headers: rsip::Headers,
    /// The opaque body.
    pub body: Vec<u8>,
}

/// A decoded SIP response, reduced to what routing reads.
#[derive(Debug)]
pub struct SipResponse {
    /// The numeric status code.
    pub status: u16,
    /// The codec's own status and SIP-version values, as they were
    /// decoded; a decoded response that goes back out is serialized with
    /// exactly these.  A response the library builds itself carries none,
    /// and is serialized from its numeric status and the codec's default
    /// version.
    pub raw: Option<(rsip::StatusCode, rsip::Version)>,
    /// The address derived from the topmost Via URI, if readable.
    pub via: Option<HostPort>,
    /// The full ordered header collection, forwarded untouched.
    pub headers: rsip::Headers,
    /// The opaque body.
    pub body: Vec<u8>,
}

impl SipRequest {
    /// Reads everything routing will look at out of a decoded codec
    /// request: the method name, the To-derived target URI, the Contact
    /// URI, and the topmost Via address.
    pub fn from_codec(r: rsip::Request) -> Self {
        let target = match codec::to_uri(&r) {
            Some(u) => Some(SipUri::from_codec(u)),
            None => None,
        };
        let contact = match codec::contact_uri(&r) {
            Some(u) => Some(SipUri::from_codec(u)),
            None => None,
        };
        let via = match codec::request_via_uri(&r) {
            Some(u) => {
                let s = SipUri::from_codec(u);
                Some(HostPort { host: s.host, port: s.port })
            },
            None => None,
        };
        let (method_raw, headers, body) = codec::request_parts(r);
        let method = codec::method_name(&method_raw);
        SipRequest { method, method_raw, target, contact, via, headers, body }
    }
}

impl SipResponse {
    /// Reads everything routing will look at out of a decoded codec
    /// response: the status code and the topmost Via address.
    pub fn from_codec(r: rsip::Response) -> Self {
        let via = match codec::response_via_uri(&r) {
            Some(u) => {
                let s = SipUri::from_codec(u);
                Some(HostPort { host: s.host, port: s.port })
            },
            None => None,
        };
        let (status_raw, version_raw, headers, body) = codec::response_parts(r);
        let status = codec::status_value(&status_raw);
        SipResponse { status, raw: Some((status_raw, version_raw)), via, headers, body }
    }
}

/// One inbound datagram, classified.
#[derive(Debug)]
pub enum Inbound {
    Request(SipRequest),
    Response(SipResponse),
    Unparseable,
}

impl Inbound {
    /// Classifies a raw datagram: first an attempt to decode it as a
    /// request, then as a response; a datagram that is neither is
    /// `Unparseable`.  Decoding itself is the codec's; the ordered attempt
    /// is the only logic here, and the contract pins it: bytes the codec
    /// accepts as a request are handled as a request, even where they
    /// would also decode as a response.
    pub fn classify(buf: &[u8]) -> (r: Self)
        ensures
            match r {
                Inbound::Request(_) => parses_as_request(buf@),
                Inbound::Response(_) => !parses_as_request(buf@) && parses_as_response(buf@),
                Inbound::Unparseable => !parses_as_request(buf@) && !parses_as_response(buf@),
            },
    {
        match codec::parse_request(buf) {
            Some(r) => Inbound::Request(SipRequest::from_codec(r)),
            None => match codec::parse_response(buf) {
                Some(r) => Inbound::Response(SipResponse::from_codec(r)),
                None => Inbound::Unparseable,
            },
        }
    }
}

/// The outbound message a routing decision produced, with its destination.
#[derive(Debug)]
pub enum Outbound {
    /// A request to forward.
    Request {
        dest: HostPort,
        method: String,
        method_raw: rsip::Method,
        uri: SipUri,
        headers: rsip::Headers,
        body: Vec<u8>,
    },
    /// A response to send back: either one the library built (no codec
    /// status pair, written from the numeric status) or a decoded one
    /// going back out verbatim (with the codec's own status and version).
    Response {
        dest: HostPort,
        status: u16,
        raw: Option<(rsip::StatusCode, rsip::Version)>,
        headers: rsip::Headers,
        body: Vec<u8>,
    },
}

impl SipRequest {
    /// Whether the request's method is exactly `REGISTER`.
    pub open spec fn is_register(&self) -> bool {
        self.method@ == "REGISTER"@
    }

    /// The user identifier the request is for: the user part of its
    /// target URI, if both exist.
    pub open spec fn spec_user(&self) -> Option<Seq<char>> {
        match self.target {
            Some(t) => match t.user {
                Some(u) => Some(u@),
                None => None,
            },
            None => None,
        }
    }
}

impl Outbound {
    /// Whether this is a response with status `code`, addressed to the Via
    /// address of `request`, echoing the request's headers exactly and
    /// carrying an empty body — the shape of a REGISTER acknowledgment and
    /// of a rejection.
    pub open spec fn echoes_request(&self, request: SipRequest, code: u16) -> bool {
        match *self {
            Outbound::Response { dest, status, raw, headers, body } => {
                &&& request.via == Some(dest)
                &&& status == code
                &&& raw is None
                &&& headers == request.headers
                &&& body@ == Seq::<u8>::empty()
            },
            _ => false,
        }
    }

    /// Whether this is `request` forwarded to the registered contact
    /// `contact`: the destination is the contact URI's host and port, the
    /// request-URI is the contact URI, and method, headers and body are the
    /// original request's.
    pub open spec fn forwards_request(&self, request: SipRequest, contact: SipUri) -> bool {
        match *self {
            Outbound::Request { dest, method, method_raw, uri, headers, body } => {
                &&& dest.host == contact.host
                &&& dest.port == contact.port
                &&& method == request.method
                &&& method_raw == request.method_raw
                &&& uri == contact
                &&& headers == request.headers
                &&& body == request.body
            },
            _ => false,
        }
    }

    /// Whether this is `response`, verbatim — status, headers, body and
    /// SIP version all unchanged — addressed to the address derived from
    /// the response's own topmost Via header.
    pub open spec fn returns_response(&self, response: SipResponse) -> bool {
        match *self {
            Outbound::Response { dest, status, raw, headers, body } => {
                &&& response.via == Some(dest)
                &&& status == response.status
                &&& raw == response.raw
                &&& headers == response.headers
                &&& body == response.body
            },
            _ => false,
        }
    }

    /// Where the message is to be sent.
    pub open spec fn spec_dest(&self) -> HostPort {
        match self {
            Outbound::Request { dest, .. } => *dest,
            Outbound::Response { dest, .. } => *dest,
        }
    }

    /// Where the message is to be sent.
    pub fn dest(&self) -> (r: &HostPort)
        ensures
            *r == self.spec_dest(),
    {
        match self {
            Outbound::Request { dest, .. } => dest,
            Outbound::Response { dest, .. } => dest,
        }
    }

    /// Writes the message in SIP wire format, through the codec.
    pub fn serialize(&self) -> String {
        match self {
            Outbound::Request { method_raw, uri, headers, body, .. } => {
                codec::serialize_request(method_raw, &uri.raw, headers, body)
            },
            Outbound::Response { status, raw, headers, body, .. } => {
                match raw {
                    Some((status_raw, version_raw)) => {
                        codec::serialize_response(status_raw, version_raw, headers, body)
                    },
                    None => codec::serialize_new_response(*status, headers, body),
                }
            },
        }
    }
}

} // verus!
