use pupil_auth::text::str_eq;

#[test]
fn strings_are_compared_by_their_characters() {
    assert!(str_eq("", ""));
    assert!(str_eq("users_email_key", "users_email_key"));
    assert!(!str_eq("users_email_key", "users_email_kez"));
    assert!(!str_eq("users_email_key", "users_email_ke"));
    assert!(!str_eq("a", ""));
    assert!(str_eq("héllo", "héllo"));
    assert!(!str_eq("héllo", "hello"));
}
