//! The reply that the simulator's HTTP endpoints give to a request they
//! refuse.
use crate::error::FspiopError;
use vstd::prelude::*;

verus! {

/// Why a request to an HTTP endpoint was refused, in the order in which the
/// reasons are checked.
#[derive(Debug)]
pub enum RejectionKind {
    /// No route matched the request.
    NotFound,
    /// The request reached an endpoint but its content was refused.
    Fspiop(FspiopError),
    /// A route matched the path but not the method.
    MethodNotAllowed,
    /// Any other reason.
    Unhandled,
}

/// The reason for a refusal, from what the refusal shows, checked in order:
/// no route matched, then the endpoint's own error, then a method that no
/// route allows; anything else is unhandled.
pub open spec fn spec_classify(not_found: bool, fspiop: Option<FspiopError>, method_not_allowed: bool) -> RejectionKind {
    if not_found {
        RejectionKind::NotFound
    } else if fspiop is Some {
        RejectionKind::Fspiop(fspiop->0)
    } else if method_not_allowed {
        RejectionKind::MethodNotAllowed
    } else {
        RejectionKind::Unhandled
    }
}

/// Classifies a refusal from what it shows.
pub fn classify_rejection(not_found: bool, fspiop: Option<FspiopError>, method_not_allowed: bool) -> (kind: RejectionKind)
    ensures
        kind == spec_classify(not_found, fspiop, method_not_allowed),
{
    if not_found {
        RejectionKind::NotFound
    } else {
        match fspiop {
            Some(e) => RejectionKind::Fspiop(e),
            None => {
                if method_not_allowed {
                    RejectionKind::MethodNotAllowed
                } else {
                    RejectionKind::Unhandled
                }
            },
        }
    }
}

/// The HTTP status and the message returned in the body of a refused request.
#[derive(Debug)]
pub struct ErrorReply {
    pub code: u16,
    pub message: String,
}

/// The HTTP status given for each reason.
pub open spec fn reply_code(kind: RejectionKind) -> u16 {
    match kind {
        RejectionKind::NotFound => 404,
        RejectionKind::Fspiop(FspiopError::MalformedRequestBody(_)) => 400,
        RejectionKind::MethodNotAllowed => 405,
        RejectionKind::Unhandled => 500,
    }
}

/// The message given for each reason: a fixed word, or the parser's own
/// account of a malformed body.
pub open spec fn reply_message(kind: RejectionKind) -> Seq<char> {
    match kind {
        RejectionKind::NotFound => "NOT_FOUND"@,
        RejectionKind::Fspiop(FspiopError::MalformedRequestBody(s)) => s@,
        RejectionKind::MethodNotAllowed => "METHOD_NOT_ALLOWED"@,
        RejectionKind::Unhandled => "UNHANDLED_REJECTION"@,
    }
}

/// The reply to a refused request.
pub fn rejection_reply(kind: RejectionKind) -> (reply: ErrorReply)
    ensures
        reply.code == reply_code(kind),
        reply.message@ == reply_message(kind),
{
    match kind {
        RejectionKind::NotFound => ErrorReply { code: 404, message: "NOT_FOUND".to_owned() },
        RejectionKind::Fspiop(FspiopError::MalformedRequestBody(s)) => ErrorReply { code: 400, message: s },
        RejectionKind::MethodNotAllowed => ErrorReply { code: 405, message: "METHOD_NOT_ALLOWED".to_owned() },
        RejectionKind::Unhandled => ErrorReply { code: 500, message: "UNHANDLED_REJECTION".to_owned() },
    }
}

/// Law: every refusal is answered with a client-error status, except the
/// unexplained ones, which are answered as a server error.
pub proof fn law_rejection_codes(kind: RejectionKind)
    ensures
        (reply_code(kind) == 500) <==> (kind is Unhandled),
        400 <= reply_code(kind) < 406 || reply_code(kind) == 500,
{
}

/// Law: a request that no route matched is answered 404 `NOT_FOUND`,
/// whatever else the refusal shows; a refusal with an endpoint error is
/// answered 400 with that error's text unless no route matched; a method that
/// no route allows is answered 405 only when neither of those holds; and
/// only a refusal that shows none of the three is answered 500.
pub proof fn law_classified_replies(not_found: bool, fspiop: Option<FspiopError>, method_not_allowed: bool)
    ensures
        ({
            let kind = spec_classify(not_found, fspiop, method_not_allowed);
            &&& not_found ==> kind is NotFound && reply_code(kind) == 404 && reply_message(kind) == "NOT_FOUND"@
            &&& (!not_found && fspiop is Some) ==> reply_code(kind) == 400
                && kind == RejectionKind::Fspiop(fspiop->0)
                && reply_message(kind) == (match fspiop->0 {
                    FspiopError::MalformedRequestBody(text) => text@,
                })
            &&& (!not_found && fspiop is None && method_not_allowed) ==> kind is MethodNotAllowed
                && reply_code(kind) == 405 && reply_message(kind) == "METHOD_NOT_ALLOWED"@
            &&& (reply_code(kind) == 500) <==> (!not_found && fspiop is None && !method_not_allowed)
        }),
{
}

} // verus!
