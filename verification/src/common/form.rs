//! A renderable form description: method, fields and submit button.

use vstd::prelude::*;
use crate::common::form_button::FormButton;
use crate::common::form_input::FormInput;

verus! {

use vstd::string::StringExecFns;

/// The HTTP method a form submits with.
#[derive(Debug, Clone, Copy, PartialEq, Eq, Structural)]
pub enum FormMethod {
    Get,
    Post,
    Put,
}

impl Default for FormMethod {
    /// Forms submit with GET unless told otherwise.
    fn default() -> (r: Self)
        ensures
            r == FormMethod::Get,
    {
        FormMethod::Get
    }
}

/// A form: identifier, action, title, method, anti-forgery token, ordered
/// input fields and one submit button.
#[derive(Debug, Clone)]
pub struct Form {
    pub id: String,
    pub action: String,
    pub title: String,
    pub method: FormMethod,
    pub csrf_token: String,
    pub fields: Vec<FormInput>,
    pub submit: FormButton,
}

impl Form {
    /// Starts a builder with no field set.
    pub fn builder() -> (r: FormBuilder)
        ensures
            r.id is None,
            r.action is None,
            r.title is None,
            r.method is None,
            r.csrf_token is None,
            r.fields is None,
            r.submit is None,
    {
        FormBuilder {
            id: None,
            action: None,
            title: None,
            method: None,
            csrf_token: None,
            fields: None,
            submit: None,
        }
    }

    /// The identifier of the form.
    pub fn id(&self) -> (r: &str)
        ensures
            r@ == self.id@,
    {
        self.id.as_str()
    }

    /// The action the form submits to.
    pub fn action(&self) -> (r: &str)
        ensures
            r@ == self.action@,
    {
        self.action.as_str()
    }

    /// The title of the form.
    pub fn title(&self) -> (r: &str)
        ensures
            r@ == self.title@,
    {
        self.title.as_str()
    }

    /// The method the form submits with.
    pub fn method(&self) -> (r: &FormMethod)
        ensures
            r == self.method,
    {
        &self.method
    }

    /// The anti-forgery token of the form.
    pub fn csrf_token(&self) -> (r: &str)
        ensures
            r@ == self.csrf_token@,
    {
        self.csrf_token.as_str()
    }

    /// The ordered input fields of the form.
    pub fn fields(&self) -> (r: &Vec<FormInput>)
        ensures
            r == self.fields,
    {
        &self.fields
    }

    /// The submit button of the form.
    pub fn submit(&self) -> (r: &FormButton)
        ensures
            r == self.submit,
    {
        &self.submit
    }
}

/// The mathematical shape of a form.
pub ghost struct FormV {
    pub id: Seq<char>,
    pub action: Seq<char>,
    pub title: Seq<char>,
    pub method: FormMethod,
    pub csrf_token: Seq<char>,
    pub fields: Seq<crate::common::form_input::FormInputV>,
    pub submit: crate::common::form_button::FormButtonV,
}

impl View for Form {
    type V = FormV;

    open spec fn view(&self) -> FormV {
        FormV {
            id: self.id@,
            action: self.action@,
            title: self.title@,
            method: self.method,
            csrf_token: self.csrf_token@,
            fields: self.fields@.map_values(|f: FormInput| f@),
            submit: self.submit@,
        }
    }
}

/// A step-by-step builder for `Form` values; every field has a default,
/// so `build` never fails.
#[derive(Debug, Clone)]
pub struct FormBuilder {
    pub id: Option<String>,
    pub action: Option<String>,
    pub title: Option<String>,
    pub method: Option<FormMethod>,
    pub csrf_token: Option<String>,
    pub fields: Option<Vec<FormInput>>,
    pub submit: Option<FormButton>,
}

impl FormBuilder {
    /// Sets the identifier.
    pub fn id(self, id: String) -> (r: Self)
        ensures
            r == (FormBuilder { id: Some(id), ..self }),
    {
        FormBuilder { id: Some(id), ..self }
    }

    /// Sets the action.
    pub fn action(self, action: String) -> (r: Self)
        ensures
            r == (FormBuilder { action: Some(action), ..self }),
    {
        FormBuilder { action: Some(action), ..self }
    }

    /// Sets the title.
    pub fn title(self, title: String) -> (r: Self)
        ensures
            r == (FormBuilder { title: Some(title), ..self }),
    {
        FormBuilder { title: Some(title), ..self }
    }

    /// Sets the method.
    pub fn method(self, method: FormMethod) -> (r: Self)
        ensures
            r == (FormBuilder { method: Some(method), ..self }),
    {
        FormBuilder { method: Some(method), ..self }
    }

    /// Sets the anti-forgery token.
    pub fn csrf_token(self, csrf_token: String) -> (r: Self)
        ensures
            r == (FormBuilder { csrf_token: Some(csrf_token), ..self }),
    {
        FormBuilder { csrf_token: Some(csrf_token), ..self }
    }

    /// Replaces the input fields wholesale.
    pub fn fields(self, fields: Vec<FormInput>) -> (r: Self)
        ensures
            r == (FormBuilder { fields: Some(fields), ..self }),
    {
        FormBuilder { fields: Some(fields), ..self }
    }

    /// Appends one input field, starting from none if the fields were
    /// never set.
    pub fn add_field(self, field: FormInput) -> (r: Self)
        ensures
            r.id == self.id,
            r.action == self.action,
            r.title == self.title,
            r.method == self.method,
            r.csrf_token == self.csrf_token,
            r.submit == self.submit,
            r.fields is Some,
            r.fields->0@ == if self.fields is Some {
                self.fields->0@.push(field)
            } else {
                seq![field]
            },
    {
        let mut fields = match self.fields {
            Some(fields) => fields,
            None => Vec::new(),
        };
        fields.push(field);
        proof {
            if self.fields is None {
                assert(fields@ =~= seq![field]);
            }
        }
        FormBuilder { fields: Some(fields), ..self }
    }

    /// Sets the submit button.
    pub fn submit(self, submit: FormButton) -> (r: Self)
        ensures
            r == (FormBuilder { submit: Some(submit), ..self }),
    {
        FormBuilder { submit: Some(submit), ..self }
    }

    /// Builds the form. Every missing field falls back to its default:
    /// empty identifier, title and token, action "/", method GET, no
    /// input fields, the stock submit button.
    pub fn build(self) -> (r: Result<Form, String>)
        ensures
            r is Ok,
            ({
                let f = r->Ok_0;
                &&& f.id@ == if self.id is Some { self.id->0@ } else { Seq::<char>::empty() }
                &&& f.action@ == if self.action is Some { self.action->0@ } else { "/"@ }
                &&& f.title@ == if self.title is Some { self.title->0@ } else { Seq::<char>::empty() }
                &&& f.method == if self.method is Some { self.method->0 } else { FormMethod::Get }
                &&& f.csrf_token@ == if self.csrf_token is Some {
                    self.csrf_token->0@
                } else {
                    Seq::<char>::empty()
                }
                &&& f.fields@ == if self.fields is Some { self.fields->0@ } else { Seq::<FormInput>::empty() }
                &&& (self.submit is Some ==> f.submit == self.submit->0)
                &&& (self.submit is None ==> f.submit.id@ == "submit"@
                    && f.submit.title@ == "Submit"@
                    && f.submit.button_type@ == "button"@)
            }),
    {
        let f = Form {
            id: match self.id {
                Some(id) => id,
                None => String::new(),
            },
            action: match self.action {
                Some(action) => action,
                None => String::from_str("/"),
            },
            title: match self.title {
                Some(title) => title,
                None => String::new(),
            },
            method: match self.method {
                Some(method) => method,
                None => FormMethod::default(),
            },
            csrf_token: match self.csrf_token {
                Some(csrf_token) => csrf_token,
                None => String::new(),
            },
            fields: match self.fields {
                Some(fields) => fields,
                None => Vec::new(),
            },
            submit: match self.submit {
                Some(submit) => submit,
                None => FormButton::default(),
            },
        };
        proof {
            if self.fields is None {
                assert(f.fields@ =~= Seq::<FormInput>::empty());
            }
        }
        Ok(f)
    }
}

} // verus!
