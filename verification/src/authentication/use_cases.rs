//! The use-case of the authentication context: obtain a login mechanism
//! and delegate its rendering to a presenter.

use vstd::prelude::*;
use crate::authentication::entities::{
    AuthenticationError, AuthenticationErrorV, LoginProviderOutputV, RenderOutput, RenderOutputV,
};
use crate::authentication::ports::{LoginPresenter, LoginProvider, ShowLoginService};

verus! {

/// What showing the login amounts to: the provider's mechanism, passed
/// through the presenter on success and propagated verbatim on failure.
pub open spec fn show_login_execute_spec<R: LoginProvider, P: LoginPresenter>(
    provider: R,
    presenter: P,
) -> Result<RenderOutputV, AuthenticationErrorV> {
    match provider.get_login_spec() {
        Ok(login) => presenter.present_spec(login),
        Err(e) => Err(e),
    }
}

/// Shows a login form by delegating rendering to a presenter.
pub struct ShowLoginUseCase<R, P> {
    pub provider: R,
    pub presenter: P,
}

impl<R: LoginProvider, P: LoginPresenter> ShowLoginUseCase<R, P> {
    /// Builds the use-case from the two driven adapters it needs.
    pub fn new(provider: R, presenter: P) -> (s: Self)
        ensures
            s.provider == provider,
            s.presenter == presenter,
    {
        ShowLoginUseCase { provider, presenter }
    }
}

impl<R: LoginProvider, P: LoginPresenter> ShowLoginService for ShowLoginUseCase<R, P> {
    /// The provider's mechanism, rendered on success and propagated
    /// verbatim on failure.
    open spec fn execute_spec(&self) -> Result<RenderOutputV, AuthenticationErrorV> {
        show_login_execute_spec(self.provider, self.presenter)
    }

    /// Obtains the login mechanism from the provider and returns its
    /// rendered representation; a failure of either port surfaces
    /// unchanged.
    fn execute(&self) -> (r: Result<RenderOutput, AuthenticationError>) {
        let login = match self.provider.get_login() {
            Ok(login) => login,
            Err(e) => {
                return Err(e);
            },
        };
        self.presenter.present_login(login)
    }
}

/// When the provider hands out the default form, showing the login
/// yields exactly the presenter's answer for that variant: one render
/// output, determined by the presenter's branch for the default
/// mechanism.
pub proof fn show_login_matches_presenter_branch<R: LoginProvider, P: LoginPresenter>(
    provider: R,
    presenter: P,
    form: crate::common::form::FormV,
)
    requires
        provider.get_login_spec() == Ok::<LoginProviderOutputV, AuthenticationErrorV>(
            LoginProviderOutputV::Default(form),
        ),
    ensures
        show_login_execute_spec(provider, presenter)
            == presenter.present_spec(LoginProviderOutputV::Default(form)),
{
}

} // verus!
