use ticktick::{Authorization, AuthorizationError};

#[test]
fn begin_auth_builds_the_authorize_url() {
    let a = Authorization::begin_auth(
        String::from("id123"),
        String::from("http://localhost:8080"),
    )
    .unwrap();
    let url = a.get_url();
    assert!(url.starts_with(
        "https://ticktick.com/oauth/authorize?response_type=code&client_id=id123&state="
    ));
    assert!(url.contains("&redirect_uri=http%3A%2F%2Flocalhost%3A8080"));
    assert!(url.ends_with("&scope=tasks%3Aread+tasks%3Awrite"));
}

#[test]
fn begin_auth_generates_a_fresh_state() {
    let a = Authorization::begin_auth(String::from("c"), String::from("r")).unwrap();
    let b = Authorization::begin_auth(String::from("c"), String::from("r")).unwrap();
    assert_eq!(a.get_csrf_state().len(), 22);
    assert_eq!(b.get_csrf_state().len(), 22);
    // 128 random bits: two runs must not collide
    assert_ne!(a.get_csrf_state(), b.get_csrf_state());
}

#[test]
fn finish_auth_with_matching_state_prepares_the_token_exchange() {
    let a = Authorization::begin_auth(
        String::from("id123"),
        String::from("http://localhost:8080"),
    )
    .unwrap();
    let state = a.get_csrf_state().clone();
    let r = a
        .finish_auth(
            String::from("SECRET-REDACTED"),
            String::from("authcode42"),
            state,
        )
        .unwrap();
    assert_eq!(r.url, "https://ticktick.com/oauth/token");
    assert!(r.form_body.starts_with("client_id=id123&client_secret="));
    assert!(r.form_body.contains("&code=authcode42"));
    assert!(r
        .form_body
        .contains("&grant_type=authorization_code&scope=tasks%3Awrite+tasks%3Aread"));
    assert!(r
        .form_body
        .ends_with("&redirect_uri=http%3A%2F%2Flocalhost%3A8080"));
}

#[test]
fn finish_auth_with_wrong_state_fails_with_both_values() {
    let a = Authorization::begin_auth(
        String::from("id123"),
        String::from("http://localhost:8080"),
    )
    .unwrap();
    let expected_state = a.get_csrf_state().clone();
    let r = a.finish_auth(
        String::from("SECRET-REDACTED"),
        String::from("authcode42"),
        String::from("forged-state"),
    );
    match r {
        Err(AuthorizationError::InvalidCSRFState { expected, recieved }) => {
            assert_eq!(expected, expected_state);
            assert_eq!(recieved, "forged-state");
        }
        _ => panic!("expected a CSRF mismatch error"),
    }
}

#[test]
fn authorize_url_carries_the_exact_state() {
    let a = Authorization::begin_auth(String::from("c"), String::from("r")).unwrap();
    let wanted = format!("&state={}&", a.get_csrf_state());
    assert!(a.get_url().contains(&wanted));
}

#[test]
fn form_encoding_escapes_reserved_characters() {
    let a = Authorization::begin_auth(
        String::from("a b&c=d"),
        String::from("https://example.com/cb?x=1"),
    )
    .unwrap();
    let url = a.get_url();
    assert!(url.contains("client_id=a+b%26c%3Dd"));
    assert!(url.contains("redirect_uri=https%3A%2F%2Fexample.com%2Fcb%3Fx%3D1"));
}
