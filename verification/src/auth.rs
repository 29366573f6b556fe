//! Authentication handlers: turning an auth endpoint's outcome into the
//! caller-visible result, choosing the signup message, and deciding
//! admin rights from a profile's role.

use vstd::prelude::*;
use crate::strutil::{concat2, concat3};
use crate::types::{AuthResponse, SupabaseAuthResponse};
use crate::client::status_ok;

verus! {

/// The message a successful signup reports: it depends only on whether
/// the envelope says a confirmation mail went out, else on whether a
/// session token came back, else neither.
pub open spec fn spec_sign_up_message(username: Seq<char>, resp: SupabaseAuthResponse) -> Seq<
    char,
> {
    if resp.user.confirmation_sent_at is Some {
        "Konto "@ + username
            + " zostało utworzone! Sprawdź swojego maila i potwierdź adres email."@
    } else if resp.access_token is Some {
        "Konto "@ + username + " zostało utworzone pomyślnie!"@
    } else {
        "Konto "@ + username + " zostało utworzone. Możesz się teraz zalogować."@
    }
}

/// A profile's role grants admin rights exactly when it is `admin` or
/// `super_admin`; a missing role grants none.
pub open spec fn spec_is_admin(role: Option<String>) -> bool {
    match role {
        Some(r) => r@ == "admin"@ || r@ == "super_admin"@,
        None => false,
    }
}

/// Choose the signup message for this envelope.
pub fn sign_up_message(username: &str, resp: &SupabaseAuthResponse) -> (r: String)
    ensures
        r@ == spec_sign_up_message(username@, *resp),
{
    if resp.user.confirmation_sent_at.is_some() {
        concat3(
            "Konto ",
            username,
            " zostało utworzone! Sprawdź swojego maila i potwierdź adres email.",
        )
    } else if resp.access_token.is_some() {
        concat3("Konto ", username, " zostało utworzone pomyślnie!")
    } else {
        concat3("Konto ", username, " zostało utworzone. Możesz się teraz zalogować.")
    }
}

/// Shape a sign-in outcome for the caller: success carries the session
/// exactly as the envelope gave it; failure carries a non-empty message
/// holding the cause, and no session. Neither case is an error.
pub fn login_result(outcome: Result<SupabaseAuthResponse, String>) -> (r: AuthResponse)
    ensures
        r.success == outcome is Ok,
        outcome matches Ok(a) ==> r.message@ == "Zalogowano pomyślnie"@ && r.user_id == Some(
            a.user.id,
        ) && r.access_token == a.access_token && r.refresh_token == a.refresh_token,
        outcome matches Err(e) ==> r.message@ == "Błąd logowania: "@ + e@ && r.user_id is None
            && r.access_token is None && r.refresh_token is None,
        r.message@.len() > 0,
{
    proof {
        reveal_strlit("Zalogowano pomyślnie");
        reveal_strlit("Błąd logowania: ");
    }
    match outcome {
        Ok(a) => AuthResponse {
            success: true,
            message: "Zalogowano pomyślnie".to_owned(),
            user_id: Some(a.user.id),
            access_token: a.access_token,
            refresh_token: a.refresh_token,
        },
        Err(e) => AuthResponse {
            success: false,
            message: concat2("Błąd logowania: ", e.as_str()),
            user_id: None,
            access_token: None,
            refresh_token: None,
        },
    }
}

/// Shape a signup outcome for the caller: success picks the message for
/// the envelope's shape and carries the session exactly as the envelope
/// gave it; failure carries the cause and no session.
pub fn register_result(username: &str, outcome: Result<SupabaseAuthResponse, String>) -> (r:
    AuthResponse)
    ensures
        r.success == outcome is Ok,
        outcome matches Ok(a) ==> r.message@ == spec_sign_up_message(username@, a) && r.user_id
            == Some(a.user.id) && r.access_token == a.access_token && r.refresh_token
            == a.refresh_token,
        outcome matches Err(e) ==> r.message@ == "Błąd rejestracji: "@ + e@ && r.user_id is None
            && r.access_token is None && r.refresh_token is None,
{
    match outcome {
        Ok(a) => {
            let message = sign_up_message(username, &a);
            AuthResponse {
                success: true,
                message,
                user_id: Some(a.user.id),
                access_token: a.access_token,
                refresh_token: a.refresh_token,
            }
        },
        Err(e) => AuthResponse {
            success: false,
            message: concat2("Błąd rejestracji: ", e.as_str()),
            user_id: None,
            access_token: None,
            refresh_token: None,
        },
    }
}

/// Admin rights from a resolved profile role: true exactly for `admin`
/// and `super_admin`; any other or missing role is an ordinary false,
/// never an error.
pub fn check_is_admin(role: Option<String>) -> (r: Result<bool, String>)
    ensures
        r matches Ok(b) && b == spec_is_admin(role),
{
    match role {
        Some(s) => Ok(s == "admin".to_owned() || s == "super_admin".to_owned()),
        None => Ok(false),
    }
}

/// Resolving the current user fails as a whole when the status does:
/// there is no body to fall back on.
pub fn user_fetch_outcome(status: u16) -> (r: Result<(), String>)
    ensures
        status_ok(status) ==> r is Ok,
        !status_ok(status) ==> (r matches Err(e) && e@ == "Failed to get user from token"@),
{
    if crate::client::status_is_success(status) {
        Ok(())
    } else {
        Err("Failed to get user from token".to_owned())
    }
}

/// The resolved user must carry an id; without one the admin check
/// cannot go on.
pub fn require_user_id(id: Option<String>) -> (r: Result<String, String>)
    ensures
        id matches Some(s) ==> (r matches Ok(v) && v == s),
        id is None ==> (r matches Err(e) && e@ == "No user ID in response"@),
{
    match id {
        Some(s) => Ok(s),
        None => Err("No user ID in response".to_owned()),
    }
}

} // verus!
