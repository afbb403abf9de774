//! The registrar and stateless proxy core: one decoded message in, at most
//! one outbound message out.

use crate::codec::{parses_as_request, parses_as_response};
use crate::error::RouteError;
use crate::message::{HostPort, Inbound, Outbound, SipRequest, SipResponse, SipUri};
use crate::registry::Registry;
use vstd::prelude::*;
use vstd::string::StringExecFns;

verus! {

/// The proxy core: the location registry, and the routing decisions that
/// read and write it.  It holds no socket; the caller feeds it datagrams
/// and performs the sends it asks for.
pub struct Proxy {
    locations: Registry,
}

/// What processing one decoded request leaves behind, exactly.
///
/// `pre` and `post` are the registry before and after, `r` the outcome:
/// - no readable target URI: `MissingTarget`, registry untouched;
/// - a target URI without a user part: `MissingUser`, registry untouched;
/// - REGISTER without a readable Contact URI: `MissingContact`, registry
///   untouched;
/// - REGISTER with a Contact: the contact is recorded for the user
///   (overwriting any earlier entry), and a 200 acknowledgment echoing the
///   request's headers goes to the request's Via address — or, if the
///   request has no readable Via address, `MissingVia` (the registration
///   stands nonetheless, as the registry is written before the
///   acknowledgment is routed);
/// - any other method for a registered user: the request is forwarded to
///   the registered contact, registry untouched;
/// - any other method for an unknown user: a 404 echoing the request's
///   headers goes to the request's Via address, or `MissingVia` without
///   one, registry untouched.
pub open spec fn request_outcome(
    pre: Map<Seq<char>, SipUri>,
    post: Map<Seq<char>, SipUri>,
    request: SipRequest,
    r: Result<Outbound, RouteError>,
) -> bool {
    match request.spec_user() {
        None => {
            &&& post == pre
            &&& if request.target is None {
                r == Err::<Outbound, RouteError>(RouteError::MissingTarget)
            } else {
                r == Err::<Outbound, RouteError>(RouteError::MissingUser)
            }
        },
        Some(user) => {
            if request.is_register() {
                match request.contact {
                    None => {
                        &&& post == pre
                        &&& r == Err::<Outbound, RouteError>(RouteError::MissingContact)
                    },
                    Some(contact) => {
                        &&& post == pre.insert(user, contact)
                        &&& if request.via is Some {
                            r matches Ok(out) && out.echoes_request(request, 200)
                        } else {
                            r == Err::<Outbound, RouteError>(RouteError::MissingVia)
                        }
                    },
                }
            } else {
                &&& post == pre
                &&& if pre.contains_key(user) {
                    r matches Ok(out) && out.forwards_request(request, pre[user])
                } else if request.via is Some {
                    r matches Ok(out) && out.echoes_request(request, 404)
                } else {
                    r == Err::<Outbound, RouteError>(RouteError::MissingVia)
                }
            }
        },
    }
}

/// What routing one decoded response leaves behind, exactly: the response
/// goes back verbatim to the address its own topmost Via header derives,
/// or fails with `MissingVia` if it has none.
pub open spec fn response_outcome(response: SipResponse, r: Result<Outbound, RouteError>) -> bool {
    if response.via is Some {
        r matches Ok(out) && out.returns_response(response)
    } else {
        r == Err::<Outbound, RouteError>(RouteError::MissingVia)
    }
}

/// Builds the response that acknowledges or rejects `request`: the given
/// status code, the request's headers echoed exactly, an empty body, and
/// the request's own Via address as the place the response belongs.  It
/// carries no codec status pair, so it is serialized from this numeric
/// status and the codec's default SIP version; every field of the result
/// is pinned here.
pub fn generate_response(request: SipRequest, status: u16) -> (r: SipResponse)
    ensures
        r.status == status,
        r.raw is None,
        r.headers == request.headers,
        r.body@ == Seq::<u8>::empty(),
        r.via == request.via,
{
    SipResponse {
        status,
        raw: None,
        via: request.via,
        headers: request.headers,
        body: Vec::new(),
    }
}

/// Finds the return address of `response` — the address derived from its
/// own topmost Via header — and hands the response back for sending
/// there, otherwise untouched.  A response with no readable Via address
/// cannot be routed and is dropped with `MissingVia`.
pub fn return_to_origin(response: SipResponse) -> (r: Result<Outbound, RouteError>)
    ensures
        response_outcome(response, r),
{
    let SipResponse { status, raw, via, headers, body } = response;
    match via {
        Some(dest) => Ok(Outbound::Response { dest, status, raw, headers, body }),
        None => Err(RouteError::MissingVia),
    }
}

impl Proxy {
    /// The registry's contents: user identifier to registered contact.
    pub closed spec fn view(&self) -> Map<Seq<char>, SipUri> {
        self.locations@
    }

    /// A proxy with an empty registry.
    pub fn new() -> (r: Self)
        ensures
            r@ == Map::<Seq<char>, SipUri>::empty(),
    {
        Proxy { locations: Registry::new() }
    }

    /// The contact registered for `user` last, or `None` for a user with
    /// no entry.
    pub fn lookup(&self, user: &str) -> (r: Option<&SipUri>)
        ensures
            match r {
                Some(contact) => self@.contains_key(user@) && *contact == self@[user@],
                None => !self@.contains_key(user@),
            },
    {
        self.locations.get(user)
    }

    /// Records the request's Contact URI as the current contact of
    /// `user`, overwriting any earlier entry.  A REGISTER without a
    /// readable Contact URI cannot be honored and changes nothing.
    pub fn register(&mut self, request: &SipRequest, user: String) -> (r: Result<(), RouteError>)
        ensures
            match request.contact {
                Some(contact) => r is Ok && final(self)@ == old(self)@.insert(user@, contact),
                None => {
                    &&& r == Err::<(), RouteError>(RouteError::MissingContact)
                    &&& final(self)@ == old(self)@
                },
            },
    {
        match &request.contact {
            Some(contact) => {
                self.locations.put(user, contact.duplicate());
                Ok(())
            },
            None => Err(RouteError::MissingContact),
        }
    }

    /// Routes one decoded request, as [`request_outcome`] states: REGISTER
    /// writes the registry and is acknowledged towards the request's Via
    /// address; every other method is forwarded to the registered contact
    /// of the user the target URI names, or rejected with a 404 towards
    /// the Via address when no contact is registered.
    pub fn process_request(&mut self, request: SipRequest) -> (r: Result<Outbound, RouteError>)
        ensures
            request_outcome(old(self)@, final(self)@, request, r),
    {
        let user = match &request.target {
            Some(target) => match &target.user {
                Some(user) => user.clone(),
                None => {
                    return Err(RouteError::MissingUser);
                },
            },
            None => {
                return Err(RouteError::MissingTarget);
            },
        };

        if request.method == String::from_str("REGISTER") {
            match self.register(&request, user) {
                Ok(()) => {},
                Err(e) => {
                    return Err(e);
                },
            }
            let response = generate_response(request, 200);
            return_to_origin(response)
        } else {
            match self.locations.get(user.as_str()) {
                Some(contact) => {
                    let uri = contact.duplicate();
                    let dest = uri.host_port();
                    Ok(
                        Outbound::Request {
                            dest,
                            method: request.method,
                            method_raw: request.method_raw,
                            uri,
                            headers: request.headers,
                            body: request.body,
                        },
                    )
                },
                None => {
                    let response = generate_response(request, 404);
                    return_to_origin(response)
                },
            }
        }
    }

    /// Routes one decoded response: back towards its own topmost Via
    /// address, verbatim.  The registry is neither read nor written.
    pub fn process_response(&self, response: SipResponse) -> (r: Result<Outbound, RouteError>)
        ensures
            response_outcome(response, r),
    {
        return_to_origin(response)
    }

    /// Processes one raw datagram: classifies it, then routes it.  Over
    /// the bytes, the contract says: the datagram is dropped as
    /// unparseable exactly when the codec accepts it neither as a request
    /// nor as a response, and then — as for any response — the registry
    /// is untouched; no datagram ever changes the registry by more than
    /// one entry.  What routing does with a decoded message is stated
    /// exactly by [`Proxy::process_inbound`], which this function reaches
    /// through [`Inbound::classify`]'s contract: request-parsing bytes
    /// are always handled as a request.
    pub fn process_message(&mut self, message: &[u8]) -> (r: Result<Outbound, RouteError>)
        ensures
            r == Err::<Outbound, RouteError>(RouteError::Unparseable) <==> (!parses_as_request(
                message@,
            ) && !parses_as_response(message@)),
            r == Err::<Outbound, RouteError>(RouteError::Unparseable) ==> final(self)@ == old(
                self,
            )@,
            !parses_as_request(message@) ==> final(self)@ == old(self)@,
            final(self)@ == old(self)@ || (exists|u: Seq<char>, c: SipUri|
                final(self)@ == old(self)@.insert(u, c)),
    {
        let inbound = Inbound::classify(message);
        self.process_inbound(inbound)
    }

    /// Routes one classified message: requests through
    /// [`Proxy::process_request`], responses through
    /// [`Proxy::process_response`]; an unparseable datagram is dropped
    /// with `Unparseable` and no outbound message, and the registry is
    /// then left untouched.
    pub fn process_inbound(&mut self, message: Inbound) -> (r: Result<Outbound, RouteError>)
        ensures
            match message {
                Inbound::Request(request) => request_outcome(old(self)@, final(self)@, request, r),
                Inbound::Response(response) => {
                    &&& response_outcome(response, r)
                    &&& final(self)@ == old(self)@
                },
                Inbound::Unparseable => {
                    &&& r == Err::<Outbound, RouteError>(RouteError::Unparseable)
                    &&& final(self)@ == old(self)@
                },
            },
    {
        match message {
            Inbound::Request(request) => self.process_request(request),
            Inbound::Response(response) => self.process_response(response),
            Inbound::Unparseable => Err(RouteError::Unparseable),
        }
    }
}

} // verus!
