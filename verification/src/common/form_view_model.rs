//! The flattened, string-valued projection of a form that presenters
//! render.

use vstd::prelude::*;
use crate::common::form::{Form, FormMethod};
use crate::common::form_button::FormButtonV;
use crate::common::form_input::{FormInput, FormInputV};

verus! {

use vstd::string::StringExecFns;

/// How a form method reads once flattened: each verb under its own name.
pub open spec fn form_method_str(m: FormMethod) -> Seq<char> {
    match m {
        FormMethod::Get => "GET"@,
        FormMethod::Post => "POST"@,
        FormMethod::Put => "PUT"@,
    }
}

/// The flattened projection of one form input.
#[derive(Debug, Clone)]
pub struct FormInputViewModel {
    pub id: String,
    pub name: String,
    pub value: String,
    pub title: String,
    pub placeholder: String,
    pub input_type: String,
    pub required: bool,
}

impl View for FormInputViewModel {
    type V = FormInputV;

    open spec fn view(&self) -> FormInputV {
        FormInputV {
            id: self.id@,
            name: self.name@,
            value: self.value@,
            title: self.title@,
            placeholder: self.placeholder@,
            input_type: self.input_type@,
            required: self.required,
        }
    }
}

/// The flattened projection of the submit button.
#[derive(Debug, Clone)]
pub struct FormButtonViewModel {
    pub id: String,
    pub title: String,
    pub button_type: String,
}

impl View for FormButtonViewModel {
    type V = FormButtonV;

    open spec fn view(&self) -> FormButtonV {
        FormButtonV { id: self.id@, title: self.title@, button_type: self.button_type@ }
    }
}

/// The flattened projection of a whole form.
#[derive(Debug, Clone)]
pub struct FormViewModel {
    pub id: String,
    pub action: String,
    pub title: String,
    pub method: String,
    pub csrf_token: String,
    pub fields: Vec<FormInputViewModel>,
    pub submit: FormButtonViewModel,
}

impl FormViewModel {
    /// Flattens a form: every attribute carries over, the method becomes
    /// its submission verb, and the input fields keep their order.
    pub fn from(value: Form) -> (r: Self)
        ensures
            r.id == value.id,
            r.action == value.action,
            r.title == value.title,
            r.method@ == form_method_str(value.method),
            r.csrf_token == value.csrf_token,
            r.fields@.map_values(|f: FormInputViewModel| f@)
                == value.fields@.map_values(|f: FormInput| f@),
            r.submit@ == value.submit@,
    {
        let mut fields: Vec<FormInputViewModel> = Vec::new();
        let mut i: usize = 0;
        while i < value.fields.len()
            invariant
                i <= value.fields@.len(),
                fields@.len() == i,
                forall|j: int| 0 <= j < i ==> (#[trigger] fields@[j])@ == value.fields@[j]@,
            decreases value.fields@.len() - i,
        {
            let field = &value.fields[i];
            fields.push(FormInputViewModel {
                id: field.id.clone(),
                name: field.name.clone(),
                value: field.value.clone(),
                title: field.title.clone(),
                placeholder: field.placeholder.clone(),
                input_type: field.input_type.clone(),
                required: field.required,
            });
            i = i + 1;
        }
        proof {
            assert(fields@.map_values(|f: FormInputViewModel| f@)
                =~= value.fields@.map_values(|f: FormInput| f@));
        }
        let method = match value.method {
            FormMethod::Post => String::from_str("POST"),
            FormMethod::Put => String::from_str("PUT"),
            FormMethod::Get => String::from_str("GET"),
        };
        FormViewModel {
            id: value.id,
            action: value.action,
            title: value.title,
            method,
            csrf_token: value.csrf_token,
            fields,
            submit: FormButtonViewModel {
                id: value.submit.id,
                title: value.submit.title,
                button_type: value.submit.button_type,
            },
        }
    }
}

} // verus!
