//! The OAuth2 authorization-code flow: building the provider's
//! authorize URL with fixed scopes and a fresh CSRF token, and — after
//! the caller has obtained the authorization code out of band —
//! checking the returned state and preparing the token-exchange
//! request. The CSRF check happens locally, before any network work.
use crate::encoding::{form_encode, form_encode_str};
use vstd::prelude::*;
use vstd::string::StringExecFns;

verus! {

/// Errors that can occur during authorization.
#[derive(Debug)]
pub enum AuthorizationError {
    /// Network or transport failure during the token exchange.
    ReqwestClientError(String),
    /// The state returned by the provider does not equal the CSRF
    /// token this flow generated; both values are carried for
    /// diagnostics.
    InvalidCSRFState { expected: String, recieved: String },
}

/// API access token, produced once by the authorization flow.
#[derive(Debug, Clone)]
pub struct AccessToken {
    pub value: String,
    pub token_type: String,
    pub expires_in: u32,
    pub scope: String,
}

/// The token-exchange request `finish_auth` prepares: a POST of a
/// form-encoded body to the token endpoint.
#[derive(Debug, Clone)]
pub struct TokenRequest {
    pub url: String,
    pub form_body: String,
}

/// The provider's authorize URL for a client, state and redirect URI,
/// with the fixed scopes `tasks:read tasks:write`.
pub open spec fn spec_authorize_url(
    client_id: Seq<char>,
    state: Seq<char>,
    redirect_uri: Seq<char>,
) -> Seq<char> {
    "https://ticktick.com/oauth/authorize?response_type=code&client_id="@ + form_encode(client_id)
        + "&state="@ + form_encode(state) + "&redirect_uri="@ + form_encode(redirect_uri)
        + "&scope=tasks%3Aread+tasks%3Awrite"@
}

/// The provider's token endpoint.
pub open spec fn spec_token_url() -> Seq<char> {
    "https://ticktick.com/oauth/token"@
}

/// The form-encoded body of the token-exchange request: the
/// authorization-code grant with the fixed scope string.
pub open spec fn spec_token_form_body(
    client_id: Seq<char>,
    client_secret: Seq<char>,
    code: Seq<char>,
    redirect_uri: Seq<char>,
) -> Seq<char> {
    "client_id="@ + form_encode(client_id) + "&client_secret="@ + form_encode(client_secret)
        + "&code="@ + form_encode(code)
        + "&grant_type=authorization_code&scope=tasks%3Awrite+tasks%3Aread&redirect_uri="@
        + form_encode(redirect_uri)
}

/// Relies on oauth2's `CsrfToken::new_random`: a base64url encoding,
/// without padding, of 16 random bytes — always 22 characters.
#[verifier::external_body]
fn fresh_csrf_token() -> (r: String)
    ensures
        r@.len() == 22,
{
    let token = oauth2::CsrfToken::new_random();
    token.secret().clone()
}

pub struct Authorization {}

impl Authorization {
    /// Begins the authorization flow: generates a fresh CSRF token and
    /// builds the authorize URL the user-agent must be sent to.
    pub fn begin_auth(client_id: String, redirect_uri: String) -> (r: Result<
        AwaitingAuthCode,
        AuthorizationError,
    >)
        ensures
            r matches Ok(a) && a.client_id == client_id && a.redirect_uri == redirect_uri
                && a.csrf_state@.len() == 22 && a.authorization_url@ == spec_authorize_url(
                client_id@,
                a.csrf_state@,
                redirect_uri@,
            ),
    {
        let csrf_state = fresh_csrf_token();
        let mut url = String::from_str(
            "https://ticktick.com/oauth/authorize?response_type=code&client_id=",
        );
        url.append(form_encode_str(client_id.as_str()).as_str());
        url.append("&state=");
        url.append(form_encode_str(csrf_state.as_str()).as_str());
        url.append("&redirect_uri=");
        url.append(form_encode_str(redirect_uri.as_str()).as_str());
        url.append("&scope=tasks%3Aread+tasks%3Awrite");
        proof {
            assert(url@ =~= spec_authorize_url(client_id@, csrf_state@, redirect_uri@));
        }
        Ok(AwaitingAuthCode { authorization_url: url, csrf_state, client_id, redirect_uri })
    }
}

/// The flow between the authorize redirect and the token exchange: it
/// holds the URL the user-agent was sent to and the CSRF token that
/// the provider must echo back as `state`.
pub struct AwaitingAuthCode {
    pub authorization_url: String,
    pub csrf_state: String,
    pub client_id: String,
    pub redirect_uri: String,
}

impl AwaitingAuthCode {
    /// The authorize URL the user-agent must visit.
    pub fn get_url(&self) -> (r: &String)
        ensures
            r == &self.authorization_url,
    {
        &self.authorization_url
    }

    /// The CSRF token that the provider must echo back as `state`.
    pub fn get_csrf_state(&self) -> (r: &String)
        ensures
            r == &self.csrf_state,
    {
        &self.csrf_state
    }

    /// Checks the returned state against the CSRF token and, exactly
    /// when they match, prepares the token-exchange request; a
    /// mismatch is reported with both values, and nothing is sent
    /// anywhere in either case.
    pub fn finish_auth(self, client_secret: String, auth_code: String, state: String) -> (r: Result<
        TokenRequest,
        AuthorizationError,
    >)
        ensures
            state@ == self.csrf_state@ ==> (r matches Ok(t) && t.url@ == spec_token_url()
                && t.form_body@ == spec_token_form_body(
                self.client_id@,
                client_secret@,
                auth_code@,
                self.redirect_uri@,
            )),
            state@ != self.csrf_state@ ==> (r matches Err(e) && e matches
                AuthorizationError::InvalidCSRFState { expected, recieved } && expected@
                == self.csrf_state@ && recieved@ == state@),
    {
        let state_matches = state == self.csrf_state;
        if !state_matches {
            return Err(
                AuthorizationError::InvalidCSRFState { expected: self.csrf_state, recieved: state },
            );
        }
        let mut body = String::from_str("client_id=");
        body.append(form_encode_str(self.client_id.as_str()).as_str());
        body.append("&client_secret=");
        body.append(form_encode_str(client_secret.as_str()).as_str());
        body.append("&code=");
        body.append(form_encode_str(auth_code.as_str()).as_str());
        body.append("&grant_type=authorization_code&scope=tasks%3Awrite+tasks%3Aread&redirect_uri=");
        body.append(form_encode_str(self.redirect_uri.as_str()).as_str());
        proof {
            assert(body@ =~= spec_token_form_body(
                self.client_id@,
                client_secret@,
                auth_code@,
                self.redirect_uri@,
            ));
        }
        Ok(TokenRequest { url: String::from_str("https://ticktick.com/oauth/token"), form_body: body })
    }
}

} // verus!
