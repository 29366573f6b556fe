use coursedesk::auth::{check_is_admin, login_result, register_result, require_user_id, sign_up_message, user_fetch_outcome};
use coursedesk::types::{SupabaseAuthResponse, SupabaseUser};

fn envelope(
    confirmation: Option<&str>,
    access_token: Option<&str>,
) -> SupabaseAuthResponse {
    SupabaseAuthResponse {
        access_token: access_token.map(|s| s.to_string()),
        refresh_token: access_token.map(|_| "refresh-1".to_string()),
        user: SupabaseUser {
            id: "user-1".to_string(),
            confirmation_sent_at: confirmation.map(|s| s.to_string()),
        },
    }
}

#[test]
fn login_success_carries_session() {
    let r = login_result(Ok(envelope(None, Some("tok-abc"))));
    assert!(r.success);
    assert_eq!(r.message, "Zalogowano pomyślnie");
    assert_eq!(r.user_id.as_deref(), Some("user-1"));
    assert_eq!(r.access_token.as_deref(), Some("tok-abc"));
    assert_eq!(r.refresh_token.as_deref(), Some("refresh-1"));
    assert!(!r.access_token.unwrap().is_empty());
}

#[test]
fn login_failure_reports_cause_without_session() {
    let r = login_result(Err("invalid_grant".to_string()));
    assert!(!r.success);
    assert_eq!(r.message, "Błąd logowania: invalid_grant");
    assert!(!r.message.is_empty());
    assert!(r.user_id.is_none());
    assert!(r.access_token.is_none());
    assert!(r.refresh_token.is_none());
}

#[test]
fn signup_message_confirmation_pending() {
    let m = sign_up_message("ania", &envelope(Some("2024-01-01T00:00:00Z"), Some("tok")));
    assert_eq!(
        m,
        "Konto ania zostało utworzone! Sprawdź swojego maila i potwierdź adres email."
    );
}

#[test]
fn signup_message_immediate_session() {
    let m = sign_up_message("ania", &envelope(None, Some("tok")));
    assert_eq!(m, "Konto ania zostało utworzone pomyślnie!");
}

#[test]
fn signup_message_must_sign_in() {
    let m = sign_up_message("ania", &envelope(None, None));
    assert_eq!(m, "Konto ania zostało utworzone. Możesz się teraz zalogować.");
}

#[test]
fn register_failure_reports_cause() {
    let r = register_result("ania", Err("email taken".to_string()));
    assert!(!r.success);
    assert_eq!(r.message, "Błąd rejestracji: email taken");
    assert!(r.user_id.is_none());
}

#[test]
fn register_success_uses_envelope_message() {
    let r = register_result("ania", Ok(envelope(None, None)));
    assert!(r.success);
    assert_eq!(r.message, "Konto ania zostało utworzone. Możesz się teraz zalogować.");
    assert_eq!(r.user_id.as_deref(), Some("user-1"));
}

#[test]
fn admin_role_is_admin() {
    assert_eq!(check_is_admin(Some("admin".to_string())), Ok(true));
}

#[test]
fn super_admin_role_is_admin() {
    assert_eq!(check_is_admin(Some("super_admin".to_string())), Ok(true));
}

#[test]
fn other_role_is_not_admin_and_not_an_error() {
    assert_eq!(check_is_admin(Some("student".to_string())), Ok(false));
}

#[test]
fn missing_role_is_not_admin_and_not_an_error() {
    assert_eq!(check_is_admin(None), Ok(false));
}

#[test]
fn user_fetch_fails_on_bad_status() {
    assert!(user_fetch_outcome(200).is_ok());
    assert_eq!(
        user_fetch_outcome(401),
        Err("Failed to get user from token".to_string())
    );
}

#[test]
fn user_id_is_required() {
    assert_eq!(require_user_id(Some("u-7".to_string())), Ok("u-7".to_string()));
    assert_eq!(require_user_id(None), Err("No user ID in response".to_string()));
}
