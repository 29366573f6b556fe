//! The remote client: a base URL and an API key, and from them every
//! URL, header list and error message of the wire protocol, plus the
//! classification of response statuses. The HTTP round trip itself is
//! the caller's job; what is sent and how a reply is read is pinned here.

use vstd::prelude::*;
use crate::strutil::{concat2, concat3, concat4};
use crate::types::SupabaseError;

verus! {

/// Configuration of the remote endpoint: where it lives and the anon
/// key every request must carry.
pub struct SupabaseClient {
    pub url: String,
    pub anon_key: String,
}

/// Bodies sent to the auth endpoints. Each variant pins exactly which
/// fields the request carries.
#[derive(Debug, Clone)]
pub enum AuthBody {
    /// Signup: email, password, and the username under the `data` map.
    SignUp { email: String, password: String, username: String },
    /// Password-grant token request: email and password.
    SignIn { email: String, password: String },
    /// Code exchange: the single `auth_code` field.
    AuthCode { auth_code: String },
}

/// What the caller must do with a data-API response of a given status.
#[derive(Debug, Clone, Copy, PartialEq, Eq, Structural)]
pub enum ResponseAction {
    /// Success with no content: decode the caller's shape from "no value".
    DecodeEmpty,
    /// Success with content: decode the body.
    DecodeBody,
    /// Anything else: the body text is the error.
    Fail,
}

/// Which failure produced an error message; selects its prefix.
#[derive(Debug, Clone, Copy, PartialEq, Eq, Structural)]
pub enum FailureKind {
    Network,
    NetworkUser,
    NetworkProfile,
    ReadBody,
    ReadProfile,
    ParseBody,
    ParseEmpty,
    ParseUser,
    ParseProfile,
}

/// A status is a success exactly when it lies in the 2xx range.
pub open spec fn status_ok(status: u16) -> bool {
    200 <= status < 300
}

/// How a data-API response of this status is to be read: no-content
/// successes decode an empty value, other successes decode the body,
/// everything else fails with the body text.
pub open spec fn spec_response_action(status: u16) -> ResponseAction {
    if !status_ok(status) {
        ResponseAction::Fail
    } else if status == 204 {
        ResponseAction::DecodeEmpty
    } else {
        ResponseAction::DecodeBody
    }
}

/// The prefix an error message of this kind carries.
pub open spec fn failure_prefix(kind: FailureKind) -> Seq<char> {
    match kind {
        FailureKind::Network => "Network error: "@,
        FailureKind::NetworkUser => "Network error getting user: "@,
        FailureKind::NetworkProfile => "Network error getting profile: "@,
        FailureKind::ReadBody => "Failed to read response: "@,
        FailureKind::ReadProfile => "Failed to read profile response: "@,
        FailureKind::ParseBody => "Failed to parse response: "@,
        FailureKind::ParseEmpty => "Failed to parse empty response: "@,
        FailureKind::ParseUser => "Failed to parse user: "@,
        FailureKind::ParseProfile => "Failed to parse profile: "@,
    }
}

/// 2xx check, as executable code.
pub fn status_is_success(status: u16) -> (r: bool)
    ensures
        r == status_ok(status),
{
    200 <= status && status < 300
}

/// Decide how a data-API response must be read.
pub fn rest_response_action(status: u16) -> (r: ResponseAction)
    ensures
        r == spec_response_action(status),
{
    if !status_is_success(status) {
        ResponseAction::Fail
    } else if status == 204 {
        ResponseAction::DecodeEmpty
    } else {
        ResponseAction::DecodeBody
    }
}

/// Build the error string for a failure of the given kind.
pub fn failure_message(kind: FailureKind, detail: &str) -> (r: String)
    ensures
        r@ == failure_prefix(kind) + detail@,
{
    match kind {
        FailureKind::Network => concat2("Network error: ", detail),
        FailureKind::NetworkUser => concat2("Network error getting user: ", detail),
        FailureKind::NetworkProfile => concat2("Network error getting profile: ", detail),
        FailureKind::ReadBody => concat2("Failed to read response: ", detail),
        FailureKind::ReadProfile => concat2("Failed to read profile response: ", detail),
        FailureKind::ParseBody => concat2("Failed to parse response: ", detail),
        FailureKind::ParseEmpty => concat2("Failed to parse empty response: ", detail),
        FailureKind::ParseUser => concat2("Failed to parse user: ", detail),
        FailureKind::ParseProfile => concat2("Failed to parse profile: ", detail),
    }
}

/// The message for a failed auth call: the envelope's description when
/// one parsed, else its error code, else the raw body text verbatim.
pub fn auth_error_message(raw: String, envelope: Option<SupabaseError>) -> (r: String)
    ensures
        match envelope {
            Some(e) => match e.error_description {
                Some(d) => r == d,
                None => r == e.error,
            },
            None => r == raw,
        },
{
    match envelope {
        Some(e) => match e.error_description {
            Some(d) => d,
            None => e.error,
        },
        None => raw,
    }
}

impl SupabaseClient {
    /// A client for the endpoint at `url`, authenticating with `anon_key`.
    pub fn new(url: String, anon_key: String) -> (r: Self)
        ensures
            r.url == url,
            r.anon_key == anon_key,
    {
        SupabaseClient { url, anon_key }
    }

    /// URL of the signup endpoint.
    pub fn signup_url(&self) -> (r: String)
        ensures
            r@ == self.url@ + "/auth/v1/signup"@,
    {
        concat2(self.url.as_str(), "/auth/v1/signup")
    }

    /// URL of the password-grant token endpoint.
    pub fn password_token_url(&self) -> (r: String)
        ensures
            r@ == self.url@ + "/auth/v1/token?grant_type=password"@,
    {
        concat2(self.url.as_str(), "/auth/v1/token?grant_type=password")
    }

    /// URL of the code-exchange token endpoint.
    pub fn code_token_url(&self) -> (r: String)
        ensures
            r@ == self.url@ + "/auth/v1/token?grant_type=authorization_code"@,
    {
        concat2(self.url.as_str(), "/auth/v1/token?grant_type=authorization_code")
    }

    /// URL a caller opens to start the hosted Google OAuth flow. No
    /// request is made here; the flow itself belongs to the opener.
    pub fn sign_in_with_google(&self) -> (r: Result<String, String>)
        ensures
            r matches Ok(u) && u@ == self.url@ + "/auth/v1/authorize?provider=google"@,
    {
        Ok(concat2(self.url.as_str(), "/auth/v1/authorize?provider=google"))
    }

    /// URL of the current-user endpoint.
    pub fn user_url(&self) -> (r: String)
        ensures
            r@ == self.url@ + "/auth/v1/user"@,
    {
        concat2(self.url.as_str(), "/auth/v1/user")
    }

    /// URL of the logout endpoint.
    pub fn logout_url(&self) -> (r: String)
        ensures
            r@ == self.url@ + "/auth/v1/logout"@,
    {
        concat2(self.url.as_str(), "/auth/v1/logout")
    }

    /// URL selecting the whole profile row of one user.
    pub fn profile_query_url(&self, user_id: &str) -> (r: String)
        ensures
            r@ == self.url@ + "/rest/v1/profiles?id=eq."@ + user_id@ + "&select=*"@,
    {
        concat4(self.url.as_str(), "/rest/v1/profiles?id=eq.", user_id, "&select=*")
    }

    /// URL of a data-API endpoint (a table with its query string).
    pub fn rest_url(&self, endpoint: &str) -> (r: String)
        ensures
            r@ == self.url@ + "/rest/v1/"@ + endpoint@,
    {
        concat3(self.url.as_str(), "/rest/v1/", endpoint)
    }

    /// Headers of an auth-endpoint request: the API key and the JSON
    /// content type.
    pub fn auth_headers(&self) -> (r: Vec<(String, String)>)
        ensures
            r@.len() == 2,
            r@[0].0@ == "apikey"@ && r@[0].1@ == self.anon_key@,
            r@[1].0@ == "Content-Type"@ && r@[1].1@ == "application/json"@,
    {
        let mut v: Vec<(String, String)> = Vec::new();
        v.push(("apikey".to_owned(), self.anon_key.clone()));
        v.push(("Content-Type".to_owned(), "application/json".to_owned()));
        v
    }

    /// Headers of a bearer-authenticated GET against an auth endpoint:
    /// the API key and the bearer token.
    pub fn user_headers(&self, access_token: &str) -> (r: Vec<(String, String)>)
        ensures
            r@.len() == 2,
            r@[0].0@ == "apikey"@ && r@[0].1@ == self.anon_key@,
            r@[1].0@ == "Authorization"@ && r@[1].1@ == "Bearer "@ + access_token@,
    {
        let mut v: Vec<(String, String)> = Vec::new();
        v.push(("apikey".to_owned(), self.anon_key.clone()));
        v.push(("Authorization".to_owned(), concat2("Bearer ", access_token)));
        v
    }

    /// Headers of a data-API request: API key, bearer token and content
    /// type always; a mutation with a body also asks for its full
    /// resulting representation back.
    pub fn rest_headers(&self, access_token: &str, has_body: bool) -> (r: Vec<(String, String)>)
        ensures
            r@.len() == (if has_body { 4int } else { 3int }),
            r@[0].0@ == "apikey"@ && r@[0].1@ == self.anon_key@,
            r@[1].0@ == "Authorization"@ && r@[1].1@ == "Bearer "@ + access_token@,
            r@[2].0@ == "Content-Type"@ && r@[2].1@ == "application/json"@,
            has_body ==> r@[3].0@ == "Prefer"@ && r@[3].1@ == "return=representation"@,
    {
        let mut v: Vec<(String, String)> = Vec::new();
        v.push(("apikey".to_owned(), self.anon_key.clone()));
        v.push(("Authorization".to_owned(), concat2("Bearer ", access_token)));
        v.push(("Content-Type".to_owned(), "application/json".to_owned()));
        if has_body {
            v.push(("Prefer".to_owned(), "return=representation".to_owned()));
        }
        v
    }

    /// The signup request: its URL and its body, carrying exactly the
    /// email, the password and the username.
    pub fn sign_up_request(&self, email: &str, password: &str, username: &str) -> (r: (
        String,
        AuthBody,
    ))
        ensures
            r.0@ == self.url@ + "/auth/v1/signup"@,
            r.1 matches AuthBody::SignUp { email: e, password: p, username: u } && e@ == email@
                && p@ == password@ && u@ == username@,
    {
        (
            self.signup_url(),
            AuthBody::SignUp {
                email: email.to_owned(),
                password: password.to_owned(),
                username: username.to_owned(),
            },
        )
    }

    /// The password sign-in request: its URL and its body, carrying
    /// exactly the email and the password.
    pub fn sign_in_request(&self, email: &str, password: &str) -> (r: (String, AuthBody))
        ensures
            r.0@ == self.url@ + "/auth/v1/token?grant_type=password"@,
            r.1 matches AuthBody::SignIn { email: e, password: p } && e@ == email@ && p@
                == password@,
    {
        (
            self.password_token_url(),
            AuthBody::SignIn { email: email.to_owned(), password: password.to_owned() },
        )
    }

    /// The code-exchange request: its URL and its body, carrying exactly
    /// the auth code.
    pub fn exchange_code_request(&self, code: &str) -> (r: (String, AuthBody))
        ensures
            r.0@ == self.url@ + "/auth/v1/token?grant_type=authorization_code"@,
            r.1 matches AuthBody::AuthCode { auth_code: c } && c@ == code@,
    {
        (self.code_token_url(), AuthBody::AuthCode { auth_code: code.to_owned() })
    }

    /// What a logout attempt returns: unit on any success status, the
    /// body text as the error otherwise.
    pub fn sign_out_outcome(&self, status: u16, error_text: String) -> (r: Result<(), String>)
        ensures
            status_ok(status) ==> r is Ok,
            !status_ok(status) ==> (r matches Err(e) && e == error_text),
    {
        if status_is_success(status) {
            Ok(())
        } else {
            Err(error_text)
        }
    }
}

} // verus!
