use coursedesk::client::{
    auth_error_message, failure_message, rest_response_action, status_is_success, AuthBody,
    FailureKind, ResponseAction, SupabaseClient,
};
use coursedesk::types::SupabaseError;

fn client() -> SupabaseClient {
    SupabaseClient::new("https://db.example".to_string(), "anon-key-1".to_string())
}

#[test]
fn auth_urls_are_formed_from_the_base() {
    let c = client();
    assert_eq!(c.signup_url(), "https://db.example/auth/v1/signup");
    assert_eq!(
        c.password_token_url(),
        "https://db.example/auth/v1/token?grant_type=password"
    );
    assert_eq!(
        c.code_token_url(),
        "https://db.example/auth/v1/token?grant_type=authorization_code"
    );
    assert_eq!(c.user_url(), "https://db.example/auth/v1/user");
    assert_eq!(c.logout_url(), "https://db.example/auth/v1/logout");
}

#[test]
fn google_sign_in_returns_the_authorize_url() {
    assert_eq!(
        client().sign_in_with_google(),
        Ok("https://db.example/auth/v1/authorize?provider=google".to_string())
    );
}

#[test]
fn profile_query_url_selects_one_row() {
    assert_eq!(
        client().profile_query_url("u-1"),
        "https://db.example/rest/v1/profiles?id=eq.u-1&select=*"
    );
}

#[test]
fn rest_url_prefixes_the_data_api() {
    assert_eq!(
        client().rest_url("courses?select=*"),
        "https://db.example/rest/v1/courses?select=*"
    );
}

#[test]
fn auth_headers_carry_key_and_content_type() {
    let h = client().auth_headers();
    assert_eq!(h.len(), 2);
    assert_eq!(h[0], ("apikey".to_string(), "anon-key-1".to_string()));
    assert_eq!(
        h[1],
        ("Content-Type".to_string(), "application/json".to_string())
    );
}

#[test]
fn user_headers_carry_key_and_bearer() {
    let h = client().user_headers("tok-1");
    assert_eq!(h.len(), 2);
    assert_eq!(h[0], ("apikey".to_string(), "anon-key-1".to_string()));
    assert_eq!(h[1], ("Authorization".to_string(), "Bearer tok-1".to_string()));
}

#[test]
fn rest_headers_without_body_are_three() {
    let h = client().rest_headers("tok-1", false);
    assert_eq!(h.len(), 3);
    assert_eq!(h[0].0, "apikey");
    assert_eq!(h[1], ("Authorization".to_string(), "Bearer tok-1".to_string()));
    assert_eq!(h[2], ("Content-Type".to_string(), "application/json".to_string()));
}

#[test]
fn rest_headers_with_body_ask_for_representation() {
    let h = client().rest_headers("tok-1", true);
    assert_eq!(h.len(), 4);
    assert_eq!(
        h[3],
        ("Prefer".to_string(), "return=representation".to_string())
    );
}

#[test]
fn sign_up_request_carries_all_three_fields() {
    let (url, body) = client().sign_up_request("a@b.c", "sekret", "ania");
    assert_eq!(url, "https://db.example/auth/v1/signup");
    match body {
        AuthBody::SignUp { email, password, username } => {
            assert_eq!(email, "a@b.c");
            assert_eq!(password, "sekret");
            assert_eq!(username, "ania");
        }
        _ => panic!("wrong body shape"),
    }
}

#[test]
fn sign_in_request_carries_both_fields() {
    let (url, body) = client().sign_in_request("a@b.c", "sekret");
    assert_eq!(url, "https://db.example/auth/v1/token?grant_type=password");
    match body {
        AuthBody::SignIn { email, password } => {
            assert_eq!(email, "a@b.c");
            assert_eq!(password, "sekret");
        }
        _ => panic!("wrong body shape"),
    }
}

#[test]
fn exchange_code_request_carries_the_code() {
    let (url, body) = client().exchange_code_request("code-9");
    assert_eq!(
        url,
        "https://db.example/auth/v1/token?grant_type=authorization_code"
    );
    match body {
        AuthBody::AuthCode { auth_code } => assert_eq!(auth_code, "code-9"),
        _ => panic!("wrong body shape"),
    }
}

#[test]
fn statuses_classify_as_documented() {
    assert!(status_is_success(200));
    assert!(status_is_success(204));
    assert!(status_is_success(299));
    assert!(!status_is_success(199));
    assert!(!status_is_success(300));
    assert!(!status_is_success(404));
    assert_eq!(rest_response_action(200), ResponseAction::DecodeBody);
    assert_eq!(rest_response_action(204), ResponseAction::DecodeEmpty);
    assert_eq!(rest_response_action(500), ResponseAction::Fail);
}

#[test]
fn auth_error_prefers_the_description() {
    let env = SupabaseError {
        error: "invalid_grant".to_string(),
        error_description: Some("Invalid login credentials".to_string()),
    };
    assert_eq!(
        auth_error_message("raw body".to_string(), Some(env)),
        "Invalid login credentials"
    );
}

#[test]
fn auth_error_falls_back_to_the_code() {
    let env = SupabaseError { error: "invalid_grant".to_string(), error_description: None };
    assert_eq!(auth_error_message("raw body".to_string(), Some(env)), "invalid_grant");
}

#[test]
fn auth_error_falls_back_to_the_raw_body() {
    assert_eq!(auth_error_message("raw body".to_string(), None), "raw body");
}

#[test]
fn failure_messages_carry_their_prefixes() {
    assert_eq!(
        failure_message(FailureKind::Network, "dns"),
        "Network error: dns"
    );
    assert_eq!(
        failure_message(FailureKind::ParseBody, "eof"),
        "Failed to parse response: eof"
    );
    assert_eq!(
        failure_message(FailureKind::ParseEmpty, "null"),
        "Failed to parse empty response: null"
    );
    assert_eq!(
        failure_message(FailureKind::ReadBody, "closed"),
        "Failed to read response: closed"
    );
    assert_eq!(
        failure_message(FailureKind::NetworkUser, "dns"),
        "Network error getting user: dns"
    );
    assert_eq!(
        failure_message(FailureKind::NetworkProfile, "dns"),
        "Network error getting profile: dns"
    );
    assert_eq!(
        failure_message(FailureKind::ReadProfile, "closed"),
        "Failed to read profile response: closed"
    );
    assert_eq!(
        failure_message(FailureKind::ParseUser, "eof"),
        "Failed to parse user: eof"
    );
    assert_eq!(
        failure_message(FailureKind::ParseProfile, "eof"),
        "Failed to parse profile: eof"
    );
}

#[test]
fn sign_out_follows_the_status() {
    let c = client();
    assert_eq!(c.sign_out_outcome(204, String::new()), Ok(()));
    assert_eq!(
        c.sign_out_outcome(401, "bad token".to_string()),
        Err("bad token".to_string())
    );
}
