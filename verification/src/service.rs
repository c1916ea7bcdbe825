//! The pipeline of one request: dispatch, handler, interceptor.
//!
//! Decoding a body is the server's work, so the pipeline comes in two steps.
//! `begin` dispatches and answers at once whatever needs no body; for a login
//! request it asks for the body. `finish` takes the outcome of decoding and
//! answers the login request.

use crate::document::{
    decode_error, lemma_status_parses_back, pointer_to, routing_error, violation_error,
    violation_errors,
};
use crate::failure::{DecodeFailure, DecodeFailureModel, RoutingFailure};
use crate::handlers::{
    about_handler, about_text, decoded_model, field_source, greeting, lemma_missing_field_rejected,
    log_in_handler, login_response, root_handler, success, user_handler,
};
use crate::intercept::{intercept, intercepted, interception_of};
use crate::payload::{Field, LoginPayload, PayloadModel};
use crate::response::{Body, BodyModel, Response, ResponseModel};
use crate::routing::{
    has_path, lemma_resolve, lemma_service_dispatch, lemma_service_paths_differ, resolve, serves,
    service_routes, Handler, RouteModel, RouteTable,
};
use crate::rules::{login_rules_model, required_message, Check, FieldRulesModel, RuleSet};
use crate::status::{parse_decimal, BAD_REQUEST, METHOD_NOT_ALLOWED, NOT_FOUND, OK};
use crate::validation::{violations, ViolationModel};
use vstd::prelude::*;

verus! {

/// What the pipeline does next.
#[derive(Clone, Debug, PartialEq, Eq)]
pub enum Step {
    /// The request is answered.
    Done(Response),
    /// The request is a login request: its body is to be decoded and handed
    /// to `finish`.
    Decode,
}

/// The model of a step.
pub enum StepModel {
    Done(ResponseModel),
    Decode,
}

impl View for Step {
    type V = StepModel;

    open spec fn view(&self) -> StepModel {
        match self {
            Step::Done(response) => StepModel::Done(response@),
            Step::Decode => StepModel::Decode,
        }
    }
}

/// The response of a routing failure before the interceptor has seen it:
/// the status of the failure and no body.
pub open spec fn unserved(failure: RoutingFailure) -> ResponseModel {
    ResponseModel { status: failure.status_spec(), body: BodyModel::Empty }
}

/// The response of a handler that reads no body; `None` for the login
/// handler.
pub open spec fn served(handler: Handler) -> Option<ResponseModel> {
    match handler {
        Handler::Root => Some(ResponseModel { status: OK, body: BodyModel::Text(greeting()) }),
        Handler::About => Some(ResponseModel { status: OK, body: BodyModel::Text(about_text()) }),
        Handler::User => Some(success()),
        Handler::LogIn => None,
    }
}

/// The first step on a request.
pub open spec fn first_step(
    routes: Seq<RouteModel>,
    method: Seq<char>,
    path: Seq<char>,
) -> StepModel {
    match resolve(routes, method, path) {
        Err(failure) => StepModel::Done(intercepted(unserved(failure))),
        Ok(handler) => match served(handler) {
            Some(response) => StepModel::Done(intercepted(response)),
            None => StepModel::Decode,
        },
    }
}

/// The answer to a login request, after the interceptor.
pub open spec fn last_step(
    rules: Seq<FieldRulesModel>,
    decoded: Result<PayloadModel, DecodeFailureModel>,
) -> ResponseModel {
    intercepted(login_response(rules, decoded))
}

/// The answer to a request whose body, where it is asked for, decodes to
/// `decoded`.
pub open spec fn answer(
    routes: Seq<RouteModel>,
    rules: Seq<FieldRulesModel>,
    method: Seq<char>,
    path: Seq<char>,
    decoded: Result<PayloadModel, DecodeFailureModel>,
) -> ResponseModel {
    match first_step(routes, method, path) {
        StepModel::Done(response) => response,
        StepModel::Decode => last_step(rules, decoded),
    }
}

/// Runs a handler that reads no body.
pub fn serve(handler: Handler) -> (response: Option<Response>)
    ensures
        match response {
            Some(response) => served(handler) == Some(response@),
            None => served(handler) is None,
        },
{
    match handler {
        Handler::Root => Some(
            Response { status: OK, body: Body::Text(root_handler().to_owned()) },
        ),
        Handler::About => Some(
            Response { status: OK, body: Body::Text(about_handler().to_owned()) },
        ),
        Handler::User => Some(user_handler()),
        Handler::LogIn => None,
    }
}

/// Dispatches a request and answers it unless it is a login request.
pub fn begin(routes: &RouteTable, method: &str, path: &str) -> (step: Step)
    ensures
        step@ == first_step(routes@, method@, path@),
{
    match routes.dispatch(method, path) {
        Err(failure) => Step::Done(
            intercept(Response { status: failure.status(), body: Body::Empty }),
        ),
        Ok(handler) => match serve(handler) {
            Some(response) => Step::Done(intercept(response)),
            None => Step::Decode,
        },
    }
}

/// Answers a login request from the outcome of decoding its body.
pub fn finish(rules: &RuleSet, decoded: Result<LoginPayload, DecodeFailure>) -> (response: Response)
    ensures
        response@ == last_step(rules@, decoded_model(decoded)),
{
    intercept(log_in_handler(rules, decoded))
}

/// Answers a request whose body, where it is asked for, decodes to
/// `decoded`.
pub fn respond(
    routes: &RouteTable,
    rules: &RuleSet,
    method: &str,
    path: &str,
    decoded: Result<LoginPayload, DecodeFailure>,
) -> (response: Response)
    ensures
        response@ == answer(routes@, rules@, method@, path@, decoded_model(decoded)),
{
    match begin(routes, method, path) {
        Step::Done(response) => response,
        Step::Decode => finish(rules, decoded),
    }
}

/// A request on a path that no route has is answered with 404 and the
/// `not_found` document, whatever its method and body.
pub proof fn lemma_unknown_path(
    routes: Seq<RouteModel>,
    rules: Seq<FieldRulesModel>,
    method: Seq<char>,
    path: Seq<char>,
    decoded: Result<PayloadModel, DecodeFailureModel>,
)
    requires
        !has_path(routes, path),
    ensures
        answer(routes, rules, method, path, decoded) == (ResponseModel {
            status: NOT_FOUND,
            body: BodyModel::Errors(seq![routing_error(RoutingFailure::NotFound)]),
        }),
{
    lemma_resolve(routes, method, path);
}

/// A request on a path that some route has, with a method that no route
/// has on that path, is answered with 405 and the `method_not_allowed`
/// document, whatever its body.
pub proof fn lemma_wrong_method(
    routes: Seq<RouteModel>,
    rules: Seq<FieldRulesModel>,
    method: Seq<char>,
    path: Seq<char>,
    decoded: Result<PayloadModel, DecodeFailureModel>,
)
    requires
        has_path(routes, path),
        forall|i: int| 0 <= i < routes.len() ==> !serves(#[trigger] routes[i], method, path),
    ensures
        answer(routes, rules, method, path, decoded) == (ResponseModel {
            status: METHOD_NOT_ALLOWED,
            body: BodyModel::Errors(seq![routing_error(RoutingFailure::MethodNotAllowed)]),
        }),
{
    lemma_resolve(routes, method, path);
}

/// A request that the login handler serves is answered with what that
/// handler answers, which the interceptor leaves as it is unless a decoder
/// reports one of the two routing statuses.
pub proof fn lemma_login_answer(
    routes: Seq<RouteModel>,
    rules: Seq<FieldRulesModel>,
    method: Seq<char>,
    path: Seq<char>,
    decoded: Result<PayloadModel, DecodeFailureModel>,
)
    requires
        resolve(routes, method, path) == Ok::<Handler, RoutingFailure>(Handler::LogIn),
    ensures
        answer(routes, rules, method, path, decoded) == intercepted(
            login_response(rules, decoded),
        ),
        decoded is Ok ==> answer(routes, rules, method, path, decoded) == login_response(
            rules,
            decoded,
        ),
        decoded matches Err(failure) ==> (interception_of(failure.status) is PassThrough
            ==> answer(routes, rules, method, path, decoded) == (ResponseModel {
            status: failure.status,
            body: BodyModel::Errors(seq![decode_error(failure)]),
        })),
{
}

/// In the table of the service, the login handler serves `POST` on
/// `/api/v1/session`.
pub proof fn lemma_login_route()
    ensures
        resolve(service_routes(), "POST"@, "/api/v1/session"@) == Ok::<Handler, RoutingFailure>(
            Handler::LogIn,
        ),
{
    let routes = service_routes();
    lemma_service_paths_differ();
    lemma_service_dispatch("POST"@, "/api/v1/session"@);
    assert(routes[0].path != routes[3].path);
    assert(routes[1].path != routes[3].path);
    assert(routes[2].path != routes[3].path);
}

/// What the service answers, for every request: the greeting, the about
/// text and the success envelope on their paths with `GET`; on
/// `/api/v1/session` with `POST` what the login handler answers, after the
/// interceptor; 405 with the `method_not_allowed` document on one of the
/// four paths with any other method; 404 with the `not_found` document on
/// every other path.
pub proof fn lemma_service_answer(
    rules: Seq<FieldRulesModel>,
    method: Seq<char>,
    path: Seq<char>,
    decoded: Result<PayloadModel, DecodeFailureModel>,
)
    ensures
        answer(service_routes(), rules, method, path, decoded) == match resolve(
            service_routes(),
            method,
            path,
        ) {
            Ok(Handler::Root) => ResponseModel { status: OK, body: BodyModel::Text(greeting()) },
            Ok(Handler::About) => ResponseModel {
                status: OK,
                body: BodyModel::Text(about_text()),
            },
            Ok(Handler::User) => success(),
            Ok(Handler::LogIn) => intercepted(login_response(rules, decoded)),
            Err(failure) => ResponseModel {
                status: failure.status_spec(),
                body: BodyModel::Errors(seq![routing_error(failure)]),
            },
        },
        resolve(service_routes(), method, path) == Err::<Handler, RoutingFailure>(
            RoutingFailure::NotFound,
        ) <==> path != "/"@ && path != "/about"@ && path != "/api/v1/user"@ && path
            != "/api/v1/session"@,
        resolve(service_routes(), method, path) == Ok::<Handler, RoutingFailure>(Handler::LogIn)
            <==> method == "POST"@ && path == "/api/v1/session"@,
        resolve(service_routes(), method, path) == Ok::<Handler, RoutingFailure>(Handler::User)
            <==> method == "GET"@ && path == "/api/v1/user"@,
{
    let routes = service_routes();
    lemma_service_paths_differ();
    lemma_service_dispatch(method, path);
    assert(routes[0].path != routes[1].path);
    assert(routes[0].path != routes[2].path);
    assert(routes[0].path != routes[3].path);
    assert(routes[1].path != routes[2].path);
    assert(routes[1].path != routes[3].path);
    assert(routes[2].path != routes[3].path);
}

/// A login request of the service whose body lacks a field is answered with
/// 400 and the errors of its violations, one of which points to that field.
pub proof fn lemma_missing_field_answer(payload: PayloadModel, field: Field)
    requires
        payload.value(field) is None,
    ensures
        ({
            let found = violations(payload, login_rules_model());
            let violation = ViolationModel {
                field,
                check: Check::Required,
                message: Some(required_message(field)),
            };
            &&& answer(
                service_routes(),
                login_rules_model(),
                "POST"@,
                "/api/v1/session"@,
                Ok(payload),
            ) == (ResponseModel {
                status: BAD_REQUEST,
                body: BodyModel::Errors(violation_errors(found)),
            })
            &&& violation_errors(found).contains(violation_error(violation))
            &&& violation_error(violation).source == Some(field_source(field))
            &&& field.name_spec().is_suffix_of(pointer_to(field.name_spec()))
        }),
{
    lemma_login_route();
    lemma_missing_field_rejected(payload, field);
}

/// Every answer that is not a success is an error document: a response
/// whose status is not 200 has errors for its body. The errors of an answer
/// are at least one, each gives at most one locator, and each status text
/// that is not empty parses back to the status of the response.
pub proof fn lemma_failures_are_documents(
    routes: Seq<RouteModel>,
    rules: Seq<FieldRulesModel>,
    method: Seq<char>,
    path: Seq<char>,
    decoded: Result<PayloadModel, DecodeFailureModel>,
)
    ensures
        answer(routes, rules, method, path, decoded).status != OK ==> answer(
            routes,
            rules,
            method,
            path,
            decoded,
        ).body is Errors,
        match answer(routes, rules, method, path, decoded).body {
            BodyModel::Errors(errors) => {
                &&& errors.len() >= 1
                &&& forall|i: int|
                    0 <= i < errors.len() ==> {
                        &&& (#[trigger] errors[i]).wf()
                        &&& errors[i].status.len() == 0 || parse_decimal(errors[i].status) == Some(
                            answer(routes, rules, method, path, decoded).status as nat,
                        )
                    }
            },
            _ => true,
        },
{
    let response = answer(routes, rules, method, path, decoded);
    lemma_status_parses_back(
        DecodeFailureModel { status: response.status, message: Seq::empty() },
        RoutingFailure::NotFound,
    );
    lemma_status_parses_back(
        DecodeFailureModel { status: response.status, message: Seq::empty() },
        RoutingFailure::MethodNotAllowed,
    );
}

} // verus!
