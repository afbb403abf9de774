//! Routing failures, one named reason per missing piece of a message.

use vstd::prelude::*;

verus! {

/// Why an inbound datagram produced no outbound message.
///
/// Every per-message failure is one of these; none of them aborts the
/// service loop.  A datagram that is neither a request nor a response is
/// `Unparseable`; the other reasons name the header or URI component that
/// the attempted operation needed and could not find.
#[derive(Clone, Copy, Debug, PartialEq, Eq, Structural)]
pub enum RouteError {
    /// The datagram decodes neither as a request nor as a response.
    Unparseable,
    /// A request's To header is absent or its URI cannot be read, so no
    /// target URI is available.
    MissingTarget,
    /// The request's target URI has no user part, so the request cannot be
    /// attributed to a user.
    MissingUser,
    /// A REGISTER request carries no readable Contact URI, so there is
    /// nothing to register.
    MissingContact,
    /// The message has no readable topmost Via URI, so no return address
    /// can be derived.
    MissingVia,
}

impl RouteError {
    /// The wording of each reason, for diagnostics.
    pub open spec fn text(self) -> Seq<char> {
        match self {
            RouteError::Unparseable => "message is neither a SIP request nor a SIP response"@,
            RouteError::MissingTarget => "request has no readable target URI"@,
            RouteError::MissingUser => "target URI has no user part"@,
            RouteError::MissingContact => "REGISTER has no readable contact URI"@,
            RouteError::MissingVia => "message has no readable Via URI"@,
        }
    }

    /// A short description of the failure.
    pub fn message(&self) -> (r: &'static str)
        ensures
            r@ == self.text(),
    {
        match self {
            RouteError::Unparseable => "message is neither a SIP request nor a SIP response",
            RouteError::MissingTarget => "request has no readable target URI",
            RouteError::MissingUser => "target URI has no user part",
            RouteError::MissingContact => "REGISTER has no readable contact URI",
            RouteError::MissingVia => "message has no readable Via URI",
        }
    }
}

} // verus!
