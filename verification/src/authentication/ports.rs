//! Driven ports of the authentication context.

use vstd::prelude::*;
use crate::authentication::entities::{
    AuthenticationError, AuthenticationErrorV, LoginProviderOutput, LoginProviderOutputV,
    RenderOutput, RenderOutputV,
};

verus! {

/// Whether an executable provider result carries exactly the value that
/// a mathematical one describes.
pub open spec fn login_res_matches(
    r: Result<LoginProviderOutput, AuthenticationError>,
    s: Result<LoginProviderOutputV, AuthenticationErrorV>,
) -> bool {
    match (r, s) {
        (Ok(o), Ok(v)) => o@ == v,
        (Err(e), Err(f)) => e@ == f,
        _ => false,
    }
}

/// Whether an executable render result carries exactly the value that a
/// mathematical one describes.
pub open spec fn login_render_res_matches(
    r: Result<RenderOutput, AuthenticationError>,
    s: Result<RenderOutputV, AuthenticationErrorV>,
) -> bool {
    match (r, s) {
        (Ok(o), Ok(v)) => o@ == v,
        (Err(e), Err(f)) => e@ == f,
        _ => false,
    }
}

/// The driving port for showing the login: a service that renders the
/// login mechanism on offer.
pub trait ShowLoginService: Sized {
    /// What executing the service returns.
    spec fn execute_spec(&self) -> Result<RenderOutputV, AuthenticationErrorV>;

    /// Renders the login mechanism.
    fn execute(&self) -> (r: Result<RenderOutput, AuthenticationError>)
        ensures
            login_render_res_matches(r, self.execute_spec()),
    ;
}

/// A component that hands out the login mechanism to offer: a service
/// that may integrate third-party identity providers or, as here, offer
/// a form-based login.
pub trait LoginProvider: Sized {
    /// What the provider hands back, as a function of the provider alone.
    spec fn get_login_spec(&self) -> Result<LoginProviderOutputV, AuthenticationErrorV>;

    /// Obtains the login mechanism.
    fn get_login(&self) -> (r: Result<LoginProviderOutput, AuthenticationError>)
        ensures
            login_res_matches(r, self.get_login_spec()),
    ;
}

/// A component able to render a login mechanism into an output
/// representation.
pub trait LoginPresenter: Sized {
    /// What presenting a login mechanism returns, as a function of the
    /// presenter and the mechanism alone.
    spec fn present_spec(&self, login: LoginProviderOutputV) -> Result<RenderOutputV, AuthenticationErrorV>;

    /// Renders the login mechanism.
    fn present_login(&self, login: LoginProviderOutput) -> (r: Result<RenderOutput, AuthenticationError>)
        ensures
            login_render_res_matches(r, self.present_spec(login@)),
    ;
}

} // verus!
