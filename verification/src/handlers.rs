//! The handlers of the route table.

use crate::document::{
    decode_error, lemma_login_pointers, pointer_to, violation_error, violation_errors,
    ErrorDocument, SourceModel,
};
use crate::failure::{DecodeFailure, DecodeFailureModel, Failure};
use crate::payload::{Field, LoginPayload, PayloadModel};
use crate::response::{Body, BodyModel, Response, ResponseModel};
use crate::rules::{
    login_rules_model, password_length_message, required_message, Check, FieldRulesModel, RuleSet,
    PASSWORD_MIN_LENGTH,
};
use crate::status::{BAD_REQUEST, OK};
use crate::validation::{
    first_violated, lemma_declared_once, lemma_first_violated,
    lemma_violations_in_declaration_order, origin, validate, violated, violation_of, violations,
    ViolationModel,
};
use vstd::prelude::*;

verus! {

/// The text served at the root.
pub open spec fn greeting() -> Seq<char> {
    "Привет, мир!"@
}

/// The text served at the about page.
pub open spec fn about_text() -> Seq<char> {
    "Информационная страница о проекте"@
}

/// The empty success envelope with status 200.
pub open spec fn success() -> ResponseModel {
    ResponseModel { status: OK, body: BodyModel::Meta }
}

/// Serves the root: a greeting.
pub fn root_handler() -> (text: &'static str)
    ensures
        text@ == greeting(),
{
    "Привет, мир!"
}

/// Serves the about page.
pub fn about_handler() -> (text: &'static str)
    ensures
        text@ == about_text(),
{
    "Информационная страница о проекте"
}

/// Serves the user resource: the empty success envelope, whoever asks.
pub fn user_handler() -> (response: Response)
    ensures
        response@ == success(),
{
    Response { status: OK, body: Body::Meta }
}

/// What a decoded body is, as text.
pub open spec fn decoded_model(decoded: Result<LoginPayload, DecodeFailure>) -> Result<
    PayloadModel,
    DecodeFailureModel,
> {
    match decoded {
        Ok(payload) => Ok(payload@),
        Err(failure) => Err(failure@),
    }
}

/// The answer to a login request.
///
/// A body that could not be decoded is answered with the decoder's status
/// and one error; it is never validated. A decoded body that breaks a rule is
/// answered with 400 and one error for each field that breaks one. A valid
/// body is answered with the empty success envelope.
pub open spec fn login_response(
    rules: Seq<FieldRulesModel>,
    decoded: Result<PayloadModel, DecodeFailureModel>,
) -> ResponseModel {
    match decoded {
        Err(failure) => ResponseModel {
            status: failure.status,
            body: BodyModel::Errors(seq![decode_error(failure)]),
        },
        Ok(payload) => {
            let found = violations(payload, rules);
            if found.len() == 0 {
                success()
            } else {
                ResponseModel {
                    status: BAD_REQUEST,
                    body: BodyModel::Errors(violation_errors(found)),
                }
            }
        },
    }
}

/// Serves a login request from the outcome of decoding its body.
pub fn log_in_handler(rules: &RuleSet, payload: Result<LoginPayload, DecodeFailure>) -> (response:
    Response)
    ensures
        response@ == login_response(rules@, decoded_model(payload)),
{
    let body = match payload {
        Ok(body) => body,
        Err(failure) => {
            let status = failure.status;
            let document = ErrorDocument::build(&Failure::Decode(failure));
            return Response { status, body: Body::Errors(document) };
        },
    };
    let found = validate(&body, rules);
    if found.len() > 0 {
        let document = ErrorDocument::build(&Failure::Validation(found));
        return Response { status: BAD_REQUEST, body: Body::Errors(document) };
    }
    Response { status: OK, body: Body::Meta }
}

/// The source of an error that points to a field.
pub open spec fn field_source(field: Field) -> SourceModel {
    SourceModel { pointer: Some(pointer_to(field.name_spec())), header: None, parameter: None }
}

/// The answer to a login request is one of three: the decoder's status with
/// the one error of the decode failure, whatever the rules; 200 with the
/// success envelope, exactly when the body was decoded and breaks no rule;
/// 400 with one error for each violation, in order, otherwise.
pub proof fn lemma_login_response(
    rules: Seq<FieldRulesModel>,
    decoded: Result<PayloadModel, DecodeFailureModel>,
)
    ensures
        match decoded {
            Err(failure) => login_response(rules, decoded) == (ResponseModel {
                status: failure.status,
                body: BodyModel::Errors(seq![decode_error(failure)]),
            }),
            Ok(payload) => {
                let found = violations(payload, rules);
                let errors = violation_errors(found);
                &&& found.len() == 0 ==> login_response(rules, decoded) == success()
                &&& found.len() > 0 ==> login_response(rules, decoded) == (ResponseModel {
                    status: BAD_REQUEST,
                    body: BodyModel::Errors(errors),
                })
                &&& errors.len() == found.len()
                &&& forall|i: int|
                    0 <= i < found.len() ==> #[trigger] errors[i] == violation_error(found[i])
            },
        },
        login_response(rules, decoded) == success() ==> decoded is Ok,
{
}

/// A login payload that lacks a field is answered with 400, and the document
/// holds an error that points to that field and carries the message of its
/// `Required` rule. The pointer ends with the name of the field.
pub proof fn lemma_missing_field_rejected(payload: PayloadModel, field: Field)
    requires
        payload.value(field) is None,
    ensures
        ({
            let found = violations(payload, login_rules_model());
            let violation = ViolationModel {
                field,
                check: Check::Required,
                message: Some(required_message(field)),
            };
            &&& login_response(login_rules_model(), Ok(payload)) == (ResponseModel {
                status: BAD_REQUEST,
                body: BodyModel::Errors(violation_errors(found)),
            })
            &&& found.contains(violation)
            &&& violation_errors(found).contains(violation_error(violation))
            &&& violation_error(violation).source == Some(field_source(field))
            &&& violation_error(violation).detail == required_message(field)
            &&& field.name_spec().is_suffix_of(pointer_to(field.name_spec()))
        }),
{
    let rules = login_rules_model();
    let k: int = match field {
        Field::Username => 0,
        Field::Password => 1,
    };
    let found = violations(payload, rules);
    assert(rules[k].field == field);
    assert(violated(rules[k].rules[0].check, payload.value(field)));
    assert(first_violated(rules[k].rules, payload.value(field)) == Some(0int));
    lemma_declared_once(payload, rules, k);
    let i = choose|i: int| 0 <= i < found.len() && #[trigger] origin(payload, rules, i) == k;
    lemma_violations_in_declaration_order(payload, rules);
    assert(violation_errors(found)[i] == violation_error(found[i]));
}

/// A password that is present and shorter than ten characters is reported,
/// with the pointer to the password and the message of the length rule. Of
/// a password of ten characters or more nothing is reported.
pub proof fn lemma_password_length(payload: PayloadModel)
    requires
        payload.password is Some,
    ensures
        ({
            let found = violations(payload, login_rules_model());
            let violation = ViolationModel {
                field: Field::Password,
                check: Check::MinLength(PASSWORD_MIN_LENGTH),
                message: Some(password_length_message()),
            };
            &&& payload.password->0.len() < PASSWORD_MIN_LENGTH ==> {
                &&& login_response(login_rules_model(), Ok(payload)) == (ResponseModel {
                    status: BAD_REQUEST,
                    body: BodyModel::Errors(violation_errors(found)),
                })
                &&& found.contains(violation)
                &&& violation_errors(found).contains(violation_error(violation))
            }
            &&& violation_error(violation).source == Some(field_source(Field::Password))
            &&& pointer_to(Field::Password.name_spec()) == "/data/attributes/password"@
            &&& payload.password->0.len() >= PASSWORD_MIN_LENGTH ==> forall|i: int|
                0 <= i < found.len() ==> (#[trigger] found[i]).field != Field::Password
        }),
{
    let rules = login_rules_model();
    let found = violations(payload, rules);
    let value = payload.value(Field::Password);
    lemma_violations_in_declaration_order(payload, rules);
    lemma_login_pointers();
    lemma_first_violated(rules[1].rules, value);
    assert(rules[1].field == Field::Password);
    assert(rules[0].field == Field::Username);
    assert(!violated(rules[1].rules[0].check, value));
    if payload.password->0.len() < PASSWORD_MIN_LENGTH {
        assert(violated(rules[1].rules[1].check, value));
        assert(first_violated(rules[1].rules, value) == Some(1int));
        lemma_declared_once(payload, rules, 1);
        let i = choose|i: int| 0 <= i < found.len() && #[trigger] origin(payload, rules, i) == 1;
        assert(violation_errors(found)[i] == violation_error(found[i]));
    } else {
        assert(!violated(rules[1].rules[1].check, value));
        assert(violation_of(payload, rules[1]) is None);
        assert forall|i: int| 0 <= i < found.len() implies (#[trigger] found[i]).field
            != Field::Password by {
            let k = origin(payload, rules, i);
            assert(violation_of(payload, rules[k]) == Some(found[i]));
            assert(k == 0);
        }
    }
}

} // verus!
