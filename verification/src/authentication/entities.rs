//! Value objects of the authentication context.

use vstd::prelude::*;
use crate::common::form::{Form, FormV};
use crate::common::json::{JsonValue, JsonValueV};

verus! {

/// Why an authentication operation failed.
#[derive(Debug, Clone, PartialEq)]
pub enum AuthenticationError {
    Unexpected(String),
}

/// The mathematical shape of an `AuthenticationError`.
pub enum AuthenticationErrorV {
    Unexpected(Seq<char>),
}

impl View for AuthenticationError {
    type V = AuthenticationErrorV;

    open spec fn view(&self) -> AuthenticationErrorV {
        match self {
            AuthenticationError::Unexpected(m) => AuthenticationErrorV::Unexpected(m@),
        }
    }
}

/// What a login provider hands back. The default mechanism is a form
/// with email and password; further mechanisms, such as third-party
/// identity providers, would join as new variants.
#[derive(Debug, Clone)]
pub enum LoginProviderOutput {
    Default(Form),
}

/// The mathematical shape of a `LoginProviderOutput`.
pub enum LoginProviderOutputV {
    Default(FormV),
}

impl View for LoginProviderOutput {
    type V = LoginProviderOutputV;

    open spec fn view(&self) -> LoginProviderOutputV {
        match self {
            LoginProviderOutput::Default(f) => LoginProviderOutputV::Default(f@),
        }
    }
}

/// The output of a login presenter: an HTML document, or a JSON document.
#[derive(Debug, PartialEq)]
pub enum RenderOutput {
    Html(String),
    Json(JsonValue),
}

/// The mathematical shape of a `RenderOutput`.
pub enum RenderOutputV {
    Html(Seq<char>),
    Json(JsonValueV),
}

impl View for RenderOutput {
    type V = RenderOutputV;

    open spec fn view(&self) -> RenderOutputV {
        match self {
            RenderOutput::Html(s) => RenderOutputV::Html(s@),
            RenderOutput::Json(v) => RenderOutputV::Json(v@),
        }
    }
}

} // verus!
