//! What the pipeline answers: a status and a body.

use crate::document::{ErrorDocument, ErrorObjectModel};
use vstd::prelude::*;

verus! {

/// The body of a response.
#[derive(Clone, Debug, PartialEq, Eq)]
pub enum Body {
    /// No body at all.
    Empty,
    /// Plain text.
    Text(String),
    /// The success envelope, an object whose one member `meta` is an empty
    /// object.
    Meta,
    /// An error document.
    Errors(ErrorDocument),
}

/// The model of a body.
pub enum BodyModel {
    Empty,
    Text(Seq<char>),
    Meta,
    Errors(Seq<ErrorObjectModel>),
}

impl View for Body {
    type V = BodyModel;

    open spec fn view(&self) -> BodyModel {
        match self {
            Body::Empty => BodyModel::Empty,
            Body::Text(text) => BodyModel::Text(text@),
            Body::Meta => BodyModel::Meta,
            Body::Errors(document) => BodyModel::Errors(document@),
        }
    }
}

/// A response: the status of the HTTP envelope and the body.
#[derive(Clone, Debug, PartialEq, Eq)]
pub struct Response {
    pub status: u16,
    pub body: Body,
}

/// The model of a response.
pub struct ResponseModel {
    pub status: u16,
    pub body: BodyModel,
}

impl View for Response {
    type V = ResponseModel;

    open spec fn view(&self) -> ResponseModel {
        ResponseModel { status: self.status, body: self.body@ }
    }
}

} // verus!
