use back_office::common::form::{Form, FormMethod};
use back_office::common::form_button::FormButton;
use back_office::common::form_input::FormInput;
use back_office::common::form_view_model::FormViewModel;

#[test]
fn build_form_button_with_all_fields() {
    let form_button = FormButton::builder()
        .id("submit_form".into())
        .title("Send".into())
        .button_type("submit".into())
        .build()
        .unwrap();

    assert_eq!(form_button.id(), "submit_form");
    assert_eq!(form_button.title(), "Send");
    assert_eq!(form_button.button_type(), "submit");
}

#[test]
fn build_fails_when_title_is_not_set() {
    let form_button = FormButton::builder()
        .id("submit_form".into())
        .button_type("submit".into())
        .build();

    assert!(form_button.is_err());
}

#[test]
fn build_form_input_with_all_fields() {
    let form_input = FormInput::builder()
        .id("email".into())
        .name("email".into())
        .value("".into())
        .title("Email".into())
        .placeholder("jonhdoe@gmail.com".into())
        .input_type("email".into())
        .required(true)
        .build()
        .unwrap();

    assert_eq!(form_input.id, "email");
    assert_eq!(form_input.name, "email");
    assert_eq!(form_input.value, "");
    assert_eq!(form_input.title, "Email");
    assert_eq!(form_input.placeholder, "jonhdoe@gmail.com");
    assert_eq!(form_input.input_type, "email");
    assert_eq!(form_input.required, true);
}

#[test]
fn sets_input_type_to_text_by_default_when_unspecified() {
    let form_input = FormInput::builder()
        .id("email".into())
        .name("email".into())
        .title("Email".into())
        .value("".into())
        .build()
        .unwrap();

    assert_eq!(form_input.input_type, "text");
}

#[test]
fn sets_required_to_false_by_default_when_unspecified() {
    let form_input = FormInput::builder()
        .id("email".into())
        .name("email".into())
        .title("Email".into())
        .value("".into())
        .build()
        .unwrap();

    assert_eq!(form_input.required, false);
}

#[test]
#[should_panic]
fn build_fails_if_id_or_title_is_missing() {
    let _form_input = FormInput::builder()
        .name("email".into())
        .value("".into())
        .placeholder("".into())
        .build()
        .unwrap();
}

#[test]
fn builds_form_input_with_defaults_when_only_id_and_title_are_provided() {
    let form_input = FormInput::builder()
        .id("email".into())
        .title("Email".into())
        .build()
        .unwrap();

    assert_eq!(form_input.id, "email");
    assert_eq!(form_input.name, "email");
    assert_eq!(form_input.input_type, "text");
    assert_eq!(form_input.title, "Email");
}

#[test]
fn builds_a_form_with_defaults() {
    let form = Form::builder().build().unwrap();

    assert_eq!(form.id(), "");
    assert_eq!(form.action(), "/");
    assert_eq!(form.title(), "");
    assert!(matches!(form.method(), FormMethod::Get));
    assert_eq!(form.csrf_token(), "");
    assert!(form.fields().is_empty());
    assert_eq!(form.submit().id(), "submit");
    assert_eq!(form.submit().title(), "Submit");
    assert_eq!(form.submit().button_type(), "button");
}

#[test]
fn flattens_a_form_for_rendering() {
    let field = FormInput::builder()
        .id("email".into())
        .title("Email".into())
        .required(true)
        .build()
        .unwrap();
    let form = Form::builder()
        .id("login-form".into())
        .method(FormMethod::Put)
        .action("/auth/login".into())
        .title("Welcome".into())
        .add_field(field)
        .build()
        .unwrap();

    let vm = FormViewModel::from(form);

    assert_eq!(vm.id, "login-form");
    assert_eq!(vm.method, "PUT");
    assert_eq!(vm.action, "/auth/login");
    assert_eq!(vm.fields.len(), 1);
    assert_eq!(vm.fields[0].id, "email");
    assert_eq!(vm.fields[0].name, "email");
    assert_eq!(vm.fields[0].input_type, "text");
    assert!(vm.fields[0].required);
    assert_eq!(vm.submit.id, "submit");
    assert_eq!(vm.submit.title, "Submit");
}

#[test]
fn add_field_appends_in_order() {
    let first = FormInput::builder().id("a".into()).title("A".into()).build().unwrap();
    let second = FormInput::builder().id("b".into()).title("B".into()).build().unwrap();
    let form = Form::builder().add_field(first).add_field(second).build().unwrap();

    assert_eq!(form.fields().len(), 2);
    assert_eq!(form.fields()[0].id(), "a");
    assert_eq!(form.fields()[1].id(), "b");
}
