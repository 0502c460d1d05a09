//! An input element of a renderable form.

use vstd::prelude::*;

verus! {

use vstd::string::StringExecFns;

/// An input field of a form: identifier, name, value, label, placeholder,
/// input type and whether filling it is required.
#[derive(Debug, Clone)]
pub struct FormInput {
    pub id: String,
    pub name: String,
    pub value: String,
    pub title: String,
    pub placeholder: String,
    pub input_type: String,
    pub required: bool,
}

impl FormInput {
    /// Starts a builder with no field set.
    pub fn builder() -> (r: FormInputBuilder)
        ensures
            r.id is None,
            r.name is None,
            r.value is None,
            r.title is None,
            r.placeholder is None,
            r.input_type is None,
            r.required is None,
    {
        FormInputBuilder {
            id: None,
            name: None,
            value: None,
            title: None,
            placeholder: None,
            input_type: None,
            required: None,
        }
    }

    /// The identifier of the form input.
    pub fn id(&self) -> (r: &str)
        ensures
            r@ == self.id@,
    {
        self.id.as_str()
    }

    /// The name of the form input.
    pub fn name(&self) -> (r: &str)
        ensures
            r@ == self.name@,
    {
        self.name.as_str()
    }

    /// The value of the form input.
    pub fn value(&self) -> (r: &str)
        ensures
            r@ == self.value@,
    {
        self.value.as_str()
    }

    /// The label of the form input.
    pub fn title(&self) -> (r: &str)
        ensures
            r@ == self.title@,
    {
        self.title.as_str()
    }

    /// The placeholder of the form input.
    pub fn placeholder(&self) -> (r: &str)
        ensures
            r@ == self.placeholder@,
    {
        self.placeholder.as_str()
    }

    /// The input type of the form input.
    pub fn input_type(&self) -> (r: &str)
        ensures
            r@ == self.input_type@,
    {
        self.input_type.as_str()
    }

    /// Whether the form input is required.
    pub fn required(&self) -> (r: bool)
        ensures
            r == self.required,
    {
        self.required
    }
}

/// The mathematical shape of a form input: every attribute as a
/// character sequence, and the required flag.
pub ghost struct FormInputV {
    pub id: Seq<char>,
    pub name: Seq<char>,
    pub value: Seq<char>,
    pub title: Seq<char>,
    pub placeholder: Seq<char>,
    pub input_type: Seq<char>,
    pub required: bool,
}

impl View for FormInput {
    type V = FormInputV;

    open spec fn view(&self) -> FormInputV {
        FormInputV {
            id: self.id@,
            name: self.name@,
            value: self.value@,
            title: self.title@,
            placeholder: self.placeholder@,
            input_type: self.input_type@,
            required: self.required,
        }
    }
}

/// A step-by-step builder for `FormInput` values; `build` fails unless
/// both the identifier and the label were set.
#[derive(Debug, Clone)]
pub struct FormInputBuilder {
    pub id: Option<String>,
    pub name: Option<String>,
    pub value: Option<String>,
    pub title: Option<String>,
    pub placeholder: Option<String>,
    pub input_type: Option<String>,
    pub required: Option<bool>,
}

impl FormInputBuilder {
    /// Sets the identifier.
    pub fn id(self, id: String) -> (r: Self)
        ensures
            r == (FormInputBuilder { id: Some(id), ..self }),
    {
        FormInputBuilder { id: Some(id), ..self }
    }

    /// Sets the name.
    pub fn name(self, name: String) -> (r: Self)
        ensures
            r == (FormInputBuilder { name: Some(name), ..self }),
    {
        FormInputBuilder { name: Some(name), ..self }
    }

    /// Sets the value.
    pub fn value(self, value: String) -> (r: Self)
        ensures
            r == (FormInputBuilder { value: Some(value), ..self }),
    {
        FormInputBuilder { value: Some(value), ..self }
    }

    /// Sets the label.
    pub fn title(self, title: String) -> (r: Self)
        ensures
            r == (FormInputBuilder { title: Some(title), ..self }),
    {
        FormInputBuilder { title: Some(title), ..self }
    }

    /// Sets the placeholder.
    pub fn placeholder(self, placeholder: String) -> (r: Self)
        ensures
            r == (FormInputBuilder { placeholder: Some(placeholder), ..self }),
    {
        FormInputBuilder { placeholder: Some(placeholder), ..self }
    }

    /// Sets the input type.
    pub fn input_type(self, input_type: String) -> (r: Self)
        ensures
            r == (FormInputBuilder { input_type: Some(input_type), ..self }),
    {
        FormInputBuilder { input_type: Some(input_type), ..self }
    }

    /// Sets whether the input is required.
    pub fn required(self, required: bool) -> (r: Self)
        ensures
            r == (FormInputBuilder { required: Some(required), ..self }),
    {
        FormInputBuilder { required: Some(required), ..self }
    }

    /// Builds the input. Fails exactly when the identifier or the label is
    /// missing; the name defaults to the identifier, the input type to
    /// "text", the value and placeholder to empty, required to false.
    pub fn build(self) -> (r: Result<FormInput, String>)
        ensures
            match r {
                Ok(f) => {
                    &&& self.id is Some && self.title is Some
                    &&& f.id == self.id->0
                    &&& f.name == if self.name is Some { self.name->0 } else { self.id->0 }
                    &&& f.value@ == if self.value is Some { self.value->0@ } else { Seq::<char>::empty() }
                    &&& f.title == self.title->0
                    &&& f.placeholder@ == if self.placeholder is Some { self.placeholder->0@ } else { Seq::<char>::empty() }
                    &&& f.input_type@ == if self.input_type is Some { self.input_type->0@ } else { "text"@ }
                    &&& f.required == if self.required is Some { self.required->0 } else { false }
                },
                Err(e) => {
                    &&& self.id is None || self.title is None
                    &&& e@ == if self.id is None { "id is required"@ } else { "title is required"@ }
                },
            },
    {
        let id = match self.id {
            Some(id) => id,
            None => {
                return Err(String::from_str("id is required"));
            },
        };
        let title = match self.title {
            Some(title) => title,
            None => {
                return Err(String::from_str("title is required"));
            },
        };
        Ok(FormInput {
            id: id.clone(),
            name: match self.name {
                Some(name) => name,
                None => id,
            },
            value: match self.value {
                Some(value) => value,
                None => String::new(),
            },
            title,
            placeholder: match self.placeholder {
                Some(placeholder) => placeholder,
                None => String::new(),
            },
            input_type: match self.input_type {
                Some(input_type) => input_type,
                None => String::from_str("text"),
            },
            required: match self.required {
                Some(required) => required,
                None => false,
            },
        })
    }
}

} // verus!
