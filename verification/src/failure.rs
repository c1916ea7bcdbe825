//! The failures that a request can end in. Each is a value handed up to the
//! layer that answers; none is raised.

use crate::status::{METHOD_NOT_ALLOWED, NOT_FOUND};
use crate::validation::{Violation, ViolationModel};
use vstd::prelude::*;

verus! {

/// The body of a request could not be decoded. Status and message are the
/// decoder's own and are passed on unchanged.
#[derive(Clone, Debug, PartialEq, Eq)]
pub struct DecodeFailure {
    pub status: u16,
    pub message: String,
}

/// The model of a decode failure.
pub struct DecodeFailureModel {
    pub status: u16,
    pub message: Seq<char>,
}

impl View for DecodeFailure {
    type V = DecodeFailureModel;

    open spec fn view(&self) -> DecodeFailureModel {
        DecodeFailureModel { status: self.status, message: self.message@ }
    }
}

impl DeepView for DecodeFailure {
    type V = DecodeFailureModel;

    open spec fn deep_view(&self) -> DecodeFailureModel {
        self@
    }
}

/// No handler serves the request.
#[derive(Clone, Copy, Debug, PartialEq, Eq, Structural)]
pub enum RoutingFailure {
    /// No route has the path.
    NotFound,
    /// Some route has the path, but none has it with the method.
    MethodNotAllowed,
}

impl RoutingFailure {
    /// The status that answers this failure.
    pub open spec fn status_spec(self) -> u16 {
        match self {
            RoutingFailure::NotFound => NOT_FOUND,
            RoutingFailure::MethodNotAllowed => METHOD_NOT_ALLOWED,
        }
    }

    /// The token by which a client tells the failure apart.
    pub open spec fn code_spec(self) -> Seq<char> {
        match self {
            RoutingFailure::NotFound => "not_found"@,
            RoutingFailure::MethodNotAllowed => "method_not_allowed"@,
        }
    }

    /// The phrase shown to a reader, as title and as detail.
    pub open spec fn phrase_spec(self) -> Seq<char> {
        match self {
            RoutingFailure::NotFound => "Ресурс не найден"@,
            RoutingFailure::MethodNotAllowed => "Метод не поддерживается"@,
        }
    }

    /// The status that answers this failure.
    pub fn status(&self) -> (status: u16)
        ensures
            status == self.status_spec(),
    {
        match self {
            RoutingFailure::NotFound => NOT_FOUND,
            RoutingFailure::MethodNotAllowed => METHOD_NOT_ALLOWED,
        }
    }

    /// The token by which a client tells the failure apart.
    pub fn code(&self) -> (code: &'static str)
        ensures
            code@ == self.code_spec(),
    {
        match self {
            RoutingFailure::NotFound => "not_found",
            RoutingFailure::MethodNotAllowed => "method_not_allowed",
        }
    }

    /// The phrase shown to a reader.
    pub fn phrase(&self) -> (phrase: &'static str)
        ensures
            phrase@ == self.phrase_spec(),
    {
        match self {
            RoutingFailure::NotFound => "Ресурс не найден",
            RoutingFailure::MethodNotAllowed => "Метод не поддерживается",
        }
    }

    /// The failure that a status stands for, if it stands for one.
    pub fn from_status(status: u16) -> (failure: Option<RoutingFailure>)
        ensures
            failure == Self::of_status(status),
    {
        if status == NOT_FOUND {
            Some(RoutingFailure::NotFound)
        } else if status == METHOD_NOT_ALLOWED {
            Some(RoutingFailure::MethodNotAllowed)
        } else {
            None
        }
    }

    /// The failure that a status stands for, if it stands for one.
    pub open spec fn of_status(status: u16) -> Option<RoutingFailure> {
        if status == NOT_FOUND {
            Some(RoutingFailure::NotFound)
        } else if status == METHOD_NOT_ALLOWED {
            Some(RoutingFailure::MethodNotAllowed)
        } else {
            None
        }
    }
}

/// A status stands for a routing failure exactly when it is that failure's
/// own status.
pub proof fn lemma_routing_status(status: u16, failure: RoutingFailure)
    ensures
        RoutingFailure::of_status(status) == Some(failure) <==> failure.status_spec() == status,
{
}

/// The codes of the two routing failures differ.
pub proof fn lemma_routing_codes_differ()
    ensures
        RoutingFailure::NotFound.code_spec() != RoutingFailure::MethodNotAllowed.code_spec(),
{
    reveal_strlit("not_found");
    reveal_strlit("method_not_allowed");
    assert("not_found"@.len() == 9);
    assert("method_not_allowed"@.len() == 18);
}

/// Every way in which a request fails.
#[derive(Clone, Debug, PartialEq, Eq)]
pub enum Failure {
    /// The body could not be decoded.
    Decode(DecodeFailure),
    /// The body was decoded and breaks these rules.
    Validation(Vec<Violation>),
    /// No handler serves the request.
    Routing(RoutingFailure),
}

/// The model of a failure.
pub enum FailureModel {
    Decode(DecodeFailureModel),
    Validation(Seq<ViolationModel>),
    Routing(RoutingFailure),
}

impl View for Failure {
    type V = FailureModel;

    open spec fn view(&self) -> FailureModel {
        match self {
            Failure::Decode(failure) => FailureModel::Decode(failure@),
            Failure::Validation(violations) => FailureModel::Validation(violations.deep_view()),
            Failure::Routing(failure) => FailureModel::Routing(*failure),
        }
    }
}

} // verus!
