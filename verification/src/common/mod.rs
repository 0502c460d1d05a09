pub mod form;
pub mod form_button;
pub mod form_input;
pub mod form_view_model;
pub mod ids;
pub mod json;
