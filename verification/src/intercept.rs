//! The outcome interceptor: the one stage that every response passes, and
//! that gives the two routing failures their error document.

use crate::document::{routing_error, ErrorDocument};
use crate::failure::{Failure, RoutingFailure};
use crate::response::{Body, BodyModel, Response, ResponseModel};
use crate::status::{METHOD_NOT_ALLOWED, NOT_FOUND};
use vstd::prelude::*;

verus! {

/// The state in which the interceptor leaves a response.
#[derive(Clone, Copy, Debug, PartialEq, Eq, Structural)]
pub enum Interception {
    /// The response is handed on untouched.
    PassThrough,
    /// The body is replaced by the error document of this routing failure.
    Intercepted(RoutingFailure),
}

/// The interceptor acts on the two routing statuses and on no other.
pub open spec fn interception_of(status: u16) -> Interception {
    if status == NOT_FOUND {
        Interception::Intercepted(RoutingFailure::NotFound)
    } else if status == METHOD_NOT_ALLOWED {
        Interception::Intercepted(RoutingFailure::MethodNotAllowed)
    } else {
        Interception::PassThrough
    }
}

/// What the interceptor makes of a response: with a routing status, the same
/// status and the error document of that failure; otherwise the response
/// itself.
pub open spec fn intercepted(response: ResponseModel) -> ResponseModel {
    match interception_of(response.status) {
        Interception::Intercepted(failure) => ResponseModel {
            status: response.status,
            body: BodyModel::Errors(seq![routing_error(failure)]),
        },
        Interception::PassThrough => response,
    }
}

/// Decides from the status of a response whether the interceptor acts, and
/// for which failure.
pub fn classify(status: u16) -> (state: Interception)
    ensures
        state == interception_of(status),
        state is Intercepted <==> status == NOT_FOUND || status == METHOD_NOT_ALLOWED,
        state matches Interception::Intercepted(failure) ==> failure.status_spec() == status,
{
    match RoutingFailure::from_status(status) {
        Some(failure) => Interception::Intercepted(failure),
        None => Interception::PassThrough,
    }
}

/// Passes a response through the interceptor. The status is never changed.
/// A response with any status but the two routing statuses comes back as it
/// went in, body included.
pub fn intercept(response: Response) -> (out: Response)
    ensures
        out@ == intercepted(response@),
        out.status == response.status,
        interception_of(response.status) is PassThrough ==> out == response,
{
    match classify(response.status) {
        Interception::Intercepted(failure) => {
            let document = ErrorDocument::build(&Failure::Routing(failure));
            Response { status: response.status, body: Body::Errors(document) }
        },
        Interception::PassThrough => response,
    }
}

/// The interceptor keeps the status; it leaves a response as it is exactly
/// in the pass-through state; in the intercepted state the body is the
/// document of the failure whose status the response has; and it has nothing
/// left to do on what it hands on.
pub proof fn lemma_intercepted(response: ResponseModel)
    ensures
        intercepted(response).status == response.status,
        interception_of(response.status) is PassThrough ==> intercepted(response) == response,
        interception_of(response.status) matches Interception::Intercepted(failure) ==> {
            &&& failure.status_spec() == response.status
            &&& intercepted(response).body == BodyModel::Errors(seq![routing_error(failure)])
        },
        intercepted(intercepted(response)) == intercepted(response),
{
}

} // verus!
