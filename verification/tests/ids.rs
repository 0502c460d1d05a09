use back_office::common::ids::UniqueId;

#[test]
fn formats_the_hyphenated_lower_case_form() {
    let id = UniqueId::new(0x67e5504410b1426f, 0x9247bb680e5fe0c8);
    assert_eq!(id.to_uuid_string(), "67e55044-10b1-426f-9247-bb680e5fe0c8");
}

#[test]
fn formats_the_nil_identifier() {
    let id = UniqueId::new(0, 0);
    assert_eq!(id.to_uuid_string(), "00000000-0000-0000-0000-000000000000");
}

#[test]
fn parses_the_hyphenated_form() {
    let id = UniqueId::parse("67e55044-10b1-426f-9247-bb680e5fe0c8").unwrap();
    assert_eq!(id, UniqueId::new(0x67e5504410b1426f, 0x9247bb680e5fe0c8));
}

#[test]
fn parses_upper_case_digits() {
    let lower = UniqueId::parse("67e55044-10b1-426f-9247-bb680e5fe0c8").unwrap();
    let upper = UniqueId::parse("67E55044-10B1-426F-9247-BB680E5FE0C8").unwrap();
    assert_eq!(lower, upper);
}

#[test]
fn parsing_the_formatted_form_gives_the_identifier_back() {
    let id = UniqueId::new(0x0123456789abcdef, 0xfedcba9876543210);
    assert_eq!(UniqueId::parse(&id.to_uuid_string()), Some(id));
}

#[test]
fn parses_the_simple_form() {
    let simple = UniqueId::parse("67e5504410b1426f9247bb680e5fe0c8").unwrap();
    assert_eq!(simple, UniqueId::new(0x67e5504410b1426f, 0x9247bb680e5fe0c8));
}

#[test]
fn parses_the_braced_form() {
    let braced = UniqueId::parse("{67e55044-10b1-426f-9247-bb680e5fe0c8}").unwrap();
    assert_eq!(braced, UniqueId::new(0x67e5504410b1426f, 0x9247bb680e5fe0c8));
}

#[test]
fn parses_the_urn_form_in_any_ascii_case() {
    let urn = UniqueId::parse("urn:uuid:67e55044-10b1-426f-9247-bb680e5fe0c8").unwrap();
    let loud = UniqueId::parse("URN:UUID:67e55044-10b1-426f-9247-bb680e5fe0c8").unwrap();
    assert_eq!(urn, UniqueId::new(0x67e5504410b1426f, 0x9247bb680e5fe0c8));
    assert_eq!(urn, loud);
}

#[test]
fn rejects_malformed_wrapped_forms() {
    assert_eq!(UniqueId::parse("{67e55044-10b1-426f-9247-bb680e5fe0c8)"), None);
    assert_eq!(UniqueId::parse("[67e55044-10b1-426f-9247-bb680e5fe0c8]"), None);
    assert_eq!(UniqueId::parse("urn:guid:67e55044-10b1-426f-9247-bb680e5fe0c8"), None);
    assert_eq!(UniqueId::parse("67e5504410b1426f9247bb680e5fe0cg"), None);
    assert_eq!(UniqueId::parse("{67e5504410b1426f9247bb680e5fe0c8}"), None);
}

#[test]
fn rejects_malformed_identifiers() {
    assert_eq!(UniqueId::parse(""), None);
    assert_eq!(UniqueId::parse("invalid_author_uuid"), None);
    assert_eq!(UniqueId::parse("67e55044-10b1-426f-9247-bb680e5fe0c"), None);
    assert_eq!(UniqueId::parse("67e55044-10b1-426f-9247-bb680e5fe0c88"), None);
    assert_eq!(UniqueId::parse("67e55044-10b1-426f-9247+bb680e5fe0c8"), None);
    assert_eq!(UniqueId::parse("67e55044-10b1-426f-9247-bb680e5fe0cg"), None);
}
