//! The error document: the one shape in which every failure reaches a client,
//! and the builder that lays each kind of failure out in it.

use crate::failure::{DecodeFailure, DecodeFailureModel, Failure, FailureModel, RoutingFailure};
use crate::payload::{lemma_field_name_injective, Field};
use crate::status::{decimal, lemma_decimal_parses_back, parse_decimal, status_text};
use crate::validation::{Violation, ViolationModel};
use vstd::prelude::*;
use vstd::string::StringExecFns;

verus! {

/// Where in the request an error lies. At most one of the three locators is
/// given. A locator that is `None` is absent: on the wire it is left out,
/// not written as null.
#[derive(Clone, Debug, PartialEq, Eq)]
pub struct Source {
    pub pointer: Option<String>,
    pub header: Option<String>,
    pub parameter: Option<String>,
}

/// The model of a source.
pub struct SourceModel {
    pub pointer: Option<Seq<char>>,
    pub header: Option<Seq<char>>,
    pub parameter: Option<Seq<char>>,
}

impl SourceModel {
    /// At most one locator is given.
    pub open spec fn wf(self) -> bool {
        &&& self.pointer is Some ==> self.header is None && self.parameter is None
        &&& self.header is Some ==> self.parameter is None
    }
}

impl View for Source {
    type V = SourceModel;

    open spec fn view(&self) -> SourceModel {
        SourceModel {
            pointer: self.pointer.deep_view(),
            header: self.header.deep_view(),
            parameter: self.parameter.deep_view(),
        }
    }
}

impl DeepView for Source {
    type V = SourceModel;

    open spec fn deep_view(&self) -> SourceModel {
        self@
    }
}

/// One error of an error document. A source or a code that is `None` is
/// absent: on the wire it is left out, not written as null.
#[derive(Clone, Debug, PartialEq, Eq)]
pub struct ErrorObject {
    pub source: Option<Source>,
    pub title: String,
    pub detail: String,
    pub code: Option<String>,
    pub status: String,
}

/// The model of an error object.
pub struct ErrorObjectModel {
    pub source: Option<SourceModel>,
    pub title: Seq<char>,
    pub detail: Seq<char>,
    pub code: Option<Seq<char>>,
    pub status: Seq<char>,
}

impl ErrorObjectModel {
    /// The source, where there is one, gives at most one locator.
    pub open spec fn wf(self) -> bool {
        self.source matches Some(source) ==> source.wf()
    }
}

impl View for ErrorObject {
    type V = ErrorObjectModel;

    open spec fn view(&self) -> ErrorObjectModel {
        ErrorObjectModel {
            source: self.source.deep_view(),
            title: self.title@,
            detail: self.detail@,
            code: self.code.deep_view(),
            status: self.status@,
        }
    }
}

impl DeepView for ErrorObject {
    type V = ErrorObjectModel;

    open spec fn deep_view(&self) -> ErrorObjectModel {
        self@
    }
}

/// The body of every response that reports a failure: its errors, in order.
#[derive(Clone, Debug, PartialEq, Eq)]
pub struct ErrorDocument {
    pub errors: Vec<ErrorObject>,
}

impl View for ErrorDocument {
    type V = Seq<ErrorObjectModel>;

    open spec fn view(&self) -> Seq<ErrorObjectModel> {
        self.errors.deep_view()
    }
}

impl DeepView for ErrorDocument {
    type V = Seq<ErrorObjectModel>;

    open spec fn deep_view(&self) -> Seq<ErrorObjectModel> {
        self@
    }
}

/// What every pointer to a field of the request starts with.
pub open spec fn pointer_prefix() -> Seq<char> {
    "/data/attributes/"@
}

/// The pointer to the field of a given name.
pub open spec fn pointer_to(name: Seq<char>) -> Seq<char> {
    pointer_prefix() + name
}

/// The detail of a violation whose rule has no message.
pub open spec fn generic_detail() -> Seq<char> {
    "Invalid value"@
}

/// The error of an undecodable body: the decoder's message and status, no
/// title, no code and no source.
pub open spec fn decode_error(failure: DecodeFailureModel) -> ErrorObjectModel {
    ErrorObjectModel {
        source: None,
        title: Seq::empty(),
        detail: failure.message,
        code: None,
        status: decimal(failure.status as nat),
    }
}

/// The error of one violation: a pointer to the field and the message of the
/// broken rule. Title and status are empty and there is no code.
pub open spec fn violation_error(violation: ViolationModel) -> ErrorObjectModel {
    ErrorObjectModel {
        source: Some(
            SourceModel {
                pointer: Some(pointer_to(violation.field.name_spec())),
                header: None,
                parameter: None,
            },
        ),
        title: Seq::empty(),
        detail: match violation.message {
            Some(message) => message,
            None => generic_detail(),
        },
        code: None,
        status: Seq::empty(),
    }
}

/// The errors of a list of violations, one for each and in the same order.
pub open spec fn violation_errors(violations: Seq<ViolationModel>) -> Seq<ErrorObjectModel> {
    Seq::new(violations.len(), |i: int| violation_error(violations[i]))
}

/// The error of a routing failure: its code, its phrase as title and as
/// detail, its status, and no source.
pub open spec fn routing_error(failure: RoutingFailure) -> ErrorObjectModel {
    ErrorObjectModel {
        source: None,
        title: failure.phrase_spec(),
        detail: failure.phrase_spec(),
        code: Some(failure.code_spec()),
        status: decimal(failure.status_spec() as nat),
    }
}

/// The document of a failure.
pub open spec fn document_of(failure: FailureModel) -> Seq<ErrorObjectModel> {
    match failure {
        FailureModel::Decode(failure) => seq![decode_error(failure)],
        FailureModel::Validation(violations) => violation_errors(violations),
        FailureModel::Routing(failure) => seq![routing_error(failure)],
    }
}

/// Builds the pointer to the field of a given name.
pub fn field_pointer(name: &str) -> (pointer: String)
    ensures
        pointer@ == pointer_to(name@),
{
    let mut pointer = "/data/attributes/".to_owned();
    pointer.append(name);
    pointer
}

impl ErrorObject {
    /// The error of an undecodable body.
    pub fn from_decode_failure(failure: &DecodeFailure) -> (error: ErrorObject)
        ensures
            error@ == decode_error(failure@),
            error@.wf(),
    {
        ErrorObject {
            source: None,
            title: String::new(),
            detail: failure.message.clone(),
            code: None,
            status: status_text(failure.status),
        }
    }

    /// The error of one violation.
    pub fn from_violation(violation: &Violation) -> (error: ErrorObject)
        ensures
            error@ == violation_error(violation@),
            error@.wf(),
    {
        let detail = match &violation.message {
            Some(message) => message.clone(),
            None => "Invalid value".to_owned(),
        };
        ErrorObject {
            source: Some(
                Source {
                    pointer: Some(field_pointer(violation.field.name())),
                    header: None,
                    parameter: None,
                },
            ),
            title: String::new(),
            detail,
            code: None,
            status: String::new(),
        }
    }

    /// The error of a routing failure.
    pub fn from_routing_failure(failure: RoutingFailure) -> (error: ErrorObject)
        ensures
            error@ == routing_error(failure),
            error@.wf(),
    {
        ErrorObject {
            source: None,
            title: failure.phrase().to_owned(),
            detail: failure.phrase().to_owned(),
            code: Some(failure.code().to_owned()),
            status: status_text(failure.status()),
        }
    }
}

impl ErrorDocument {
    /// The document of a list of violations: one error for each, in order.
    pub fn from_violations(violations: &Vec<Violation>) -> (document: ErrorDocument)
        ensures
            document@ == violation_errors(violations.deep_view()),
            document@.len() == violations.len(),
            forall|i: int| 0 <= i < document@.len() ==> (#[trigger] document@[i]).wf(),
    {
        let mut errors: Vec<ErrorObject> = Vec::new();
        let mut i: usize = 0;
        while i < violations.len()
            invariant
                i <= violations.len(),
                errors.deep_view() == violation_errors(violations.deep_view().take(i as int)),
            decreases violations.len() - i,
        {
            let ghost before = errors.deep_view();
            errors.push(ErrorObject::from_violation(&violations[i]));
            i += 1;
            assert(errors.deep_view() =~= before.push(violation_error(violations[i - 1]@)));
            assert(errors.deep_view() =~= violation_errors(violations.deep_view().take(i as int)));
        }
        assert(violations.deep_view().take(i as int) =~= violations.deep_view());
        ErrorDocument { errors }
    }

    /// Builds the document of a failure. It never fails: a rule without a
    /// message is reported with a generic detail.
    pub fn build(failure: &Failure) -> (document: ErrorDocument)
        ensures
            document@ == document_of(failure@),
            forall|i: int| 0 <= i < document@.len() ==> (#[trigger] document@[i]).wf(),
    {
        match failure {
            Failure::Decode(failure) => {
                let mut errors: Vec<ErrorObject> = Vec::new();
                errors.push(ErrorObject::from_decode_failure(failure));
                assert(errors.deep_view() =~= seq![decode_error(failure@)]);
                ErrorDocument { errors }
            },
            Failure::Validation(violations) => ErrorDocument::from_violations(violations),
            Failure::Routing(failure) => {
                let mut errors: Vec<ErrorObject> = Vec::new();
                errors.push(ErrorObject::from_routing_failure(*failure));
                assert(errors.deep_view() =~= seq![routing_error(*failure)]);
                ErrorDocument { errors }
            },
        }
    }
}

/// Pointers are injective: two names with the same pointer are the same
/// name.
pub proof fn lemma_pointer_injective(a: Seq<char>, b: Seq<char>)
    requires
        pointer_to(a) == pointer_to(b),
    ensures
        a == b,
{
    let prefix = pointer_prefix();
    assert(a =~= pointer_to(a).subrange(prefix.len() as int, pointer_to(a).len() as int));
    assert(b =~= pointer_to(b).subrange(prefix.len() as int, pointer_to(b).len() as int));
}

/// Pointers are injective on the fields of the login payload: two fields
/// with the same pointer are the same field.
pub proof fn lemma_field_pointer_injective(a: Field, b: Field)
    requires
        pointer_to(a.name_spec()) == pointer_to(b.name_spec()),
    ensures
        a == b,
{
    lemma_pointer_injective(a.name_spec(), b.name_spec());
    lemma_field_name_injective(a, b);
}

/// A pointer starts with the prefix of all pointers and ends with the name
/// of its field.
pub proof fn lemma_pointer_shape(name: Seq<char>)
    ensures
        pointer_prefix().is_prefix_of(pointer_to(name)),
        name.is_suffix_of(pointer_to(name)),
        pointer_to(name).len() == pointer_prefix().len() + name.len(),
{
}

/// The pointers to the two fields of the login payload, written out.
pub proof fn lemma_login_pointers()
    ensures
        pointer_to(Field::Username.name_spec()) == "/data/attributes/username"@,
        pointer_to(Field::Password.name_spec()) == "/data/attributes/password"@,
        pointer_to(Field::Username.name_spec()) != pointer_to(Field::Password.name_spec()),
{
    reveal_strlit("/data/attributes/");
    reveal_strlit("username");
    reveal_strlit("password");
    reveal_strlit("/data/attributes/username");
    reveal_strlit("/data/attributes/password");
    assert(pointer_to("username"@) =~= "/data/attributes/username"@);
    assert(pointer_to("password"@) =~= "/data/attributes/password"@);
    assert("/data/attributes/username"@[17] == 'u');
    assert("/data/attributes/password"@[17] == 'p');
}

/// The status that an error of a decode failure or of a routing failure
/// carries parses back to the number it was made from.
pub proof fn lemma_status_parses_back(decode: DecodeFailureModel, routing: RoutingFailure)
    ensures
        parse_decimal(decode_error(decode).status) == Some(decode.status as nat),
        parse_decimal(routing_error(routing).status) == Some(routing.status_spec() as nat),
{
    lemma_decimal_parses_back(decode.status as nat);
    lemma_decimal_parses_back(routing.status_spec() as nat);
}

/// The document of a failure holds one error for a decode failure, one for
/// a routing failure and one for each violation; every error gives at most
/// one locator, and only the errors of violations give one at all.
pub proof fn lemma_document_shape(failure: FailureModel)
    ensures
        failure is Decode ==> document_of(failure).len() == 1,
        failure is Routing ==> document_of(failure).len() == 1,
        failure matches FailureModel::Validation(found) ==> document_of(failure).len()
            == found.len(),
        forall|i: int|
            0 <= i < document_of(failure).len() ==> {
                &&& (#[trigger] document_of(failure)[i]).wf()
                &&& document_of(failure)[i].source is Some <==> failure is Validation
            },
{
}

} // verus!
