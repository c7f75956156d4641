use webhooky::domain::email_domain;

#[test]
fn domain_of_plain_address() {
    assert_eq!(email_domain("a@b.com"), "b.com");
}

#[test]
fn domain_without_at_sign_is_empty() {
    assert_eq!(email_domain("noatsign"), "");
}

#[test]
fn domain_stops_at_second_at_sign() {
    assert_eq!(email_domain("a@b@c.com"), "b");
}

#[test]
fn domain_of_empty_address_is_empty() {
    assert_eq!(email_domain(""), "");
}

#[test]
fn domain_after_leading_at_sign() {
    assert_eq!(email_domain("@example.org"), "example.org");
}

#[test]
fn domain_of_trailing_at_sign_is_empty() {
    assert_eq!(email_domain("user@"), "");
}

#[test]
fn domain_between_adjacent_at_signs_is_empty() {
    assert_eq!(email_domain("user@@example.org"), "");
}

#[test]
fn domain_keeps_characters_beyond_ascii() {
    assert_eq!(email_domain("jürgen@münchen.example"), "münchen.example");
}
