//! Driven adapters of the authentication context: the stock form-based
//! login provider.

use vstd::prelude::*;
use crate::authentication::entities::{
    AuthenticationError, AuthenticationErrorV, LoginProviderOutput, LoginProviderOutputV,
};
use crate::authentication::ports::LoginProvider;
use crate::common::form::{Form, FormMethod, FormV};
use crate::common::form_button::{FormButton, FormButtonV};
use crate::common::form_input::{FormInput, FormInputV};

verus! {

use vstd::string::StringExecFns;

/// The login form the stock provider hands out: an email field and a
/// password field, both required, with a submit button labelled "Login".
pub open spec fn default_login_form_view() -> FormV {
    FormV {
        id: "login-form"@,
        action: "/auth/login"@,
        title: "Welcome to Tiagocode"@,
        method: FormMethod::Post,
        csrf_token: Seq::empty(),
        fields: seq![
            FormInputV {
                id: "email"@,
                name: "email"@,
                value: Seq::empty(),
                title: "Email"@,
                placeholder: "jonhdoe@gmail.com"@,
                input_type: "text"@,
                required: true,
            },
            FormInputV {
                id: "password"@,
                name: "password"@,
                value: Seq::empty(),
                title: "Password"@,
                placeholder: "*************"@,
                input_type: "password"@,
                required: true,
            },
        ],
        submit: FormButtonV {
            id: "submit"@,
            title: "Login"@,
            button_type: Seq::empty(),
        },
    }
}

/// The stock login provider: always offers the default email-and-password
/// form.
#[derive(Debug, Clone)]
pub struct DefaultLoginProvider {}

impl Default for DefaultLoginProvider {
    /// The provider carries no state.
    fn default() -> (r: Self)
        ensures
            r == (DefaultLoginProvider {}),
    {
        DefaultLoginProvider {}
    }
}

impl LoginProvider for DefaultLoginProvider {
    /// The stock provider never fails and always hands out the default
    /// login form.
    open spec fn get_login_spec(&self) -> Result<LoginProviderOutputV, AuthenticationErrorV> {
        Ok(LoginProviderOutputV::Default(default_login_form_view()))
    }

    fn get_login(&self) -> (r: Result<LoginProviderOutput, AuthenticationError>) {
        let email = match FormInput::builder()
            .id(String::from_str("email"))
            .title(String::from_str("Email"))
            .placeholder(String::from_str("jonhdoe@gmail.com"))
            .required(true)
            .build() {
            Ok(field) => field,
            Err(e) => {
                return Err(AuthenticationError::Unexpected(e));
            },
        };
        let password = match FormInput::builder()
            .id(String::from_str("password"))
            .title(String::from_str("Password"))
            .input_type(String::from_str("password"))
            .placeholder(String::from_str("*************"))
            .required(true)
            .build() {
            Ok(field) => field,
            Err(e) => {
                return Err(AuthenticationError::Unexpected(e));
            },
        };
        let submit = match FormButton::builder()
            .id(String::from_str("submit"))
            .title(String::from_str("Login"))
            .build() {
            Ok(button) => button,
            Err(e) => {
                return Err(AuthenticationError::Unexpected(e));
            },
        };
        let mut fields: Vec<FormInput> = Vec::new();
        fields.push(email);
        fields.push(password);
        let form = match Form::builder()
            .id(String::from_str("login-form"))
            .method(FormMethod::Post)
            .action(String::from_str("/auth/login"))
            .title(String::from_str("Welcome to Tiagocode"))
            .fields(fields)
            .submit(submit)
            .build() {
            Ok(form) => form,
            Err(e) => {
                return Err(AuthenticationError::Unexpected(e));
            },
        };
        proof {
            assert(form.fields@.map_values(|f: FormInput| f@)
                =~= default_login_form_view().fields);
            assert(form@ == default_login_form_view());
        }
        Ok(LoginProviderOutput::Default(form))
    }
}

} // verus!
