//! The submit button of a renderable form.

use vstd::prelude::*;

verus! {

use vstd::string::StringExecFns;

/// A button element of a form: identifier, label and button type.
#[derive(Debug, Clone)]
pub struct FormButton {
    pub id: String,
    pub title: String,
    pub button_type: String,
}

impl FormButton {
    /// Starts a builder with no field set.
    pub fn builder() -> (r: FormButtonBuilder)
        ensures
            r.id is None,
            r.title is None,
            r.button_type is None,
    {
        FormButtonBuilder { id: None, title: None, button_type: None }
    }

    /// The identifier of the button.
    pub fn id(&self) -> (r: &str)
        ensures
            r@ == self.id@,
    {
        self.id.as_str()
    }

    /// The label of the button.
    pub fn title(&self) -> (r: &str)
        ensures
            r@ == self.title@,
    {
        self.title.as_str()
    }

    /// The type of the button, such as "submit" or "button".
    pub fn button_type(&self) -> (r: &str)
        ensures
            r@ == self.button_type@,
    {
        self.button_type.as_str()
    }
}

impl Default for FormButton {
    /// The stock button: identifier "submit", label "Submit",
    /// type "button".
    fn default() -> (r: Self)
        ensures
            r.id@ == "submit"@,
            r.title@ == "Submit"@,
            r.button_type@ == "button"@,
    {
        let r = FormButton::builder()
            .id(String::from_str("submit"))
            .title(String::from_str("Submit"))
            .button_type(String::from_str("button"))
            .build();
        r.unwrap()
    }
}

/// The mathematical shape of a form button.
pub ghost struct FormButtonV {
    pub id: Seq<char>,
    pub title: Seq<char>,
    pub button_type: Seq<char>,
}

impl View for FormButton {
    type V = FormButtonV;

    open spec fn view(&self) -> FormButtonV {
        FormButtonV { id: self.id@, title: self.title@, button_type: self.button_type@ }
    }
}

/// A step-by-step builder for `FormButton` values; `build` fails unless
/// the label was set.
#[derive(Debug, Clone)]
pub struct FormButtonBuilder {
    pub id: Option<String>,
    pub title: Option<String>,
    pub button_type: Option<String>,
}

impl FormButtonBuilder {
    /// Sets the identifier.
    pub fn id(self, id: String) -> (r: Self)
        ensures
            r == (FormButtonBuilder { id: Some(id), ..self }),
    {
        FormButtonBuilder { id: Some(id), ..self }
    }

    /// Sets the label.
    pub fn title(self, title: String) -> (r: Self)
        ensures
            r == (FormButtonBuilder { title: Some(title), ..self }),
    {
        FormButtonBuilder { title: Some(title), ..self }
    }

    /// Sets the button type.
    pub fn button_type(self, button_type: String) -> (r: Self)
        ensures
            r == (FormButtonBuilder { button_type: Some(button_type), ..self }),
    {
        FormButtonBuilder { button_type: Some(button_type), ..self }
    }

    /// Builds the button. Fails exactly when the label is missing; the
    /// identifier and the button type default to empty.
    pub fn build(self) -> (r: Result<FormButton, String>)
        ensures
            match r {
                Ok(b) => {
                    &&& self.title is Some
                    &&& b.id@ == if self.id is Some { self.id->0@ } else { Seq::<char>::empty() }
                    &&& b.title == self.title->0
                    &&& b.button_type@ == if self.button_type is Some {
                        self.button_type->0@
                    } else {
                        Seq::<char>::empty()
                    }
                },
                Err(e) => {
                    &&& self.title is None
                    &&& e@ == "Title is required"@
                },
            },
    {
        let title = match self.title {
            Some(title) => title,
            None => {
                return Err(String::from_str("Title is required"));
            },
        };
        Ok(FormButton {
            id: match self.id {
                Some(id) => id,
                None => String::new(),
            },
            title,
            button_type: match self.button_type {
                Some(button_type) => button_type,
                None => String::new(),
            },
        })
    }
}

} // verus!
