use todoist_payloads::TodoistUser;

#[test]
fn user_holds_its_token() {
    let user = TodoistUser::new("abc123".to_string());
    assert_eq!(user.api_token(), "abc123");
}

#[test]
fn user_accepts_any_token_shape() {
    let user = TodoistUser::new(String::new());
    assert_eq!(user.api_token(), "");
    let user = TodoistUser::new("0123456789abcdef0123456789abcdef01234567".to_string());
    assert_eq!(user.api_token(), "0123456789abcdef0123456789abcdef01234567");
}
