use back_office::common::ids::UniqueId;
use back_office::users::email::Email;
use back_office::users::password::Password;
use back_office::users::user::User;
use back_office::users::username::Username;

#[test]
#[should_panic]
fn create_email_with_invalid_data_should_fail() {
    let _ = Email::new("email".to_string()).unwrap();
}

#[test]
fn create_email_with_valid_data_should_succeed() {
    let email = Email::new("admin@admin.com".to_string()).unwrap();
    assert_eq!(email.as_str(), "admin@admin.com");
}

#[test]
fn email_should_be_comparable() {
    let first_email = Email::new("first_admin@admin.com".to_string()).unwrap();
    let second_email = Email::new("second_admin@admin.com".to_string()).unwrap();
    assert_ne!(first_email, second_email);
}

#[test]
#[should_panic]
fn weak_passwords_should_fail() {
    let test_cases = vec![
        ("12345", "Password is too short"),
        ("Abc#123", "Password is too short"),
        ("Abcdefghijklmn#", "Password is missing a digit"),
        ("ABC#DEFGHIJK1MN", "Password is missing a lowercase letter"),
        ("abc#defghijk1mnO", "Password is missing a symbol"),
    ];

    for (password, error_message) in test_cases {
        let password = Password::new(password.to_string());
        assert!(password.is_err(), "{}", error_message);
    }
}

#[test]
fn strong_password_contains_15_characters_symbols_numbers_letters_uppercase_and_lowercase() {
    let password = Password::new("oz#9k&Auk7DM8KjG3sIz".to_string());
    assert!(password.is_ok());
    assert_eq!(
        password.unwrap().expose_password().to_string(),
        "oz#9k&Auk7DM8KjG3sIz"
    );
}

#[test]
#[should_panic]
fn create_user_with_invalid_data_should_fail() {
    let _ = User::new(
        UniqueId::new(0, 1),
        Email::new("admin.com".to_string()).unwrap(),
        Username::new("".to_string()).unwrap(),
        Password::new("12345".to_string()).unwrap(),
        "created_at".into(),
    );
}

#[test]
fn create_user_with_valid_data_should_succeed() {
    let user = User::new(
        UniqueId::new(0, 1),
        Email::new("admin@admin.com".to_string()).unwrap(),
        Username::new("admin".to_string()).unwrap(),
        Password::new("oz#9k&Auk7DM8KjG3sIz".to_string()).unwrap(),
        "created_at".into(),
    );

    assert_eq!(user.email.as_str(), "admin@admin.com");
    assert_eq!(user.username.as_str(), "admin");
    assert_eq!(
        user.password.expose_password().to_string(),
        "oz#9k&Auk7DM8KjG3sIz"
    );
}

#[test]
fn creation_fails_with_empty_string() {
    let username = Username::new("".to_string());
    assert!(username.is_err());
}

#[test]
#[should_panic]
fn must_have_at_least_5_characters() {
    let _ = Username::new("ab".to_string()).unwrap();
}

#[test]
#[should_panic]
fn must_not_contain_spaces() {
    let _ = Username::new("user name".to_string()).unwrap();
}

#[test]
fn should_be_able_to_compare_usernames() {
    let first_username = Username::new("first_username".to_string()).unwrap();
    let second_username = Username::new("second_username".to_string()).unwrap();
    assert_ne!(first_username, second_username);
}
