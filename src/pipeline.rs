//! The admission decisions for one connection. A request is framed, its
//! credential is verified, and only then is the downstream probed; each path
//! ends in exactly one response.
//!
//! The stages are `Received -> Parsed -> AuthChecked -> HealthChecked ->
//! Terminal`. [`screen_request`] takes a request from `Received` up to the probe: it
//! ends in a response (malformed framing, rejected credential) or asks for the
//! downstream to be probed. [`complete`] takes the probe's outcome to the final
//! response. The caller performs the probe between the two.

use vstd::prelude::*;
use crate::credential::TokenCheck;
use crate::request::{is_framed, parse_request, payload_field, token_field, trim};
use crate::verification::TrustVerifier;

verus! {

/// Body of the response to a request without a delimiter.
pub const MALFORMED_RESPONSE: &'static str = "400 ERROR: Invalid Sygma Request Format";

/// Body of the response to a request whose credential is rejected.
pub const REJECTED_RESPONSE: &'static str = "403 ACCESS DENIED: Zero Trust Violation";

/// Body of the response when the downstream node cannot be reached.
pub const UNAVAILABLE_RESPONSE: &'static str = "503 SERVICE UNAVAILABLE: Kernel T1 Offline";

/// What precedes the payload in the body of an acceptance.
pub const ACCEPTED_HEAD: &'static str = "200 OK: Payload ";

/// What follows the payload in the body of an acceptance.
pub const ACCEPTED_TAIL: &'static str = " submetido ao Kernel T1. Aguardando Settlement.";

/// The terminal outcome of one request.
pub enum Response {
    /// Both checks passed; the payload was admitted for processing.
    Accepted { payload: String },
    /// The credential was not valid.
    CredentialRejected,
    /// The downstream node did not accept a connection in time.
    DownstreamUnavailable,
    /// The request had fewer than two fields.
    Malformed,
}

/// The text written back for a response.
pub open spec fn response_text(r: Response) -> Seq<char> {
    match r {
        Response::Accepted { payload } => ACCEPTED_HEAD@ + payload@ + ACCEPTED_TAIL@,
        Response::CredentialRejected => REJECTED_RESPONSE@,
        Response::DownstreamUnavailable => UNAVAILABLE_RESPONSE@,
        Response::Malformed => MALFORMED_RESPONSE@,
    }
}

/// The status code of a response.
pub open spec fn status_of(r: Response) -> u16 {
    match r {
        Response::Accepted { .. } => 200,
        Response::CredentialRejected => 403,
        Response::DownstreamUnavailable => 503,
        Response::Malformed => 400,
    }
}

impl Response {
    /// The text written back to the client.
    pub fn body(&self) -> (r: String)
        ensures
            r@ == response_text(*self),
    {
        match self {
            Response::Accepted { payload } => {
                let mut s = String::from_str(ACCEPTED_HEAD);
                s.append(payload.as_str());
                s.append(ACCEPTED_TAIL);
                s
            },
            Response::CredentialRejected => String::from_str(REJECTED_RESPONSE),
            Response::DownstreamUnavailable => String::from_str(UNAVAILABLE_RESPONSE),
            Response::Malformed => String::from_str(MALFORMED_RESPONSE),
        }
    }

    /// The status code: 200, 403, 503 or 400.
    pub fn status_code(&self) -> (r: u16)
        ensures
            r == status_of(*self),
    {
        match self {
            Response::Accepted { .. } => 200,
            Response::CredentialRejected => 403,
            Response::DownstreamUnavailable => 503,
            Response::Malformed => 400,
        }
    }
}

/// Where a request stands once framing and the credential have been decided.
pub enum Admission {
    /// The pipeline has ended in this response.
    Respond(Response),
    /// The credential passed; the downstream must be probed before the payload
    /// can be accepted.
    ProbeDownstream { payload: String },
}

/// Frames `raw` and verifies its token. A request without a delimiter is
/// malformed and nothing is verified; a rejected token ends the pipeline
/// before any probe; an accepted one leads to the probe, carrying the payload.
pub fn screen_request<C: TokenCheck>(verifier: &mut TrustVerifier<C>, raw: &str) -> (r: Admission)
    requires
        old(verifier).wf(),
    ensures
        final(verifier).wf(),
        !is_framed(raw@) ==> *final(verifier) == *old(verifier) && r matches Admission::Respond(
            Response::Malformed,
        ),
        is_framed(raw@) ==> {
            let token = trim(token_field(raw@));
            let ok = old(verifier).check_spec().accepts(token);
            &&& old(verifier).verified(*final(verifier), token, ok)
            &&& !ok ==> (r matches Admission::Respond(Response::CredentialRejected))
            &&& ok ==> (r matches Admission::ProbeDownstream { payload } && payload@ == trim(
                payload_field(raw@),
            ))
        },
{
    match parse_request(raw) {
        None => Admission::Respond(Response::Malformed),
        Some(req) => {
            if verifier.verify(req.token.as_str()) {
                Admission::ProbeDownstream { payload: req.payload }
            } else {
                Admission::Respond(Response::CredentialRejected)
            }
        },
    }
}

/// The response once the downstream has been probed: acceptance of `payload`
/// if it was reachable, otherwise unavailability.
pub fn complete(payload: String, reachable: bool) -> (r: Response)
    ensures
        reachable ==> (r matches Response::Accepted { payload: p } && p@ == payload@),
        !reachable ==> r matches Response::DownstreamUnavailable,
{
    if reachable {
        Response::Accepted { payload }
    } else {
        Response::DownstreamUnavailable
    }
}

} // verus!
