//! The OAuth2 authorization-code client: the provider's login URL, with a
//! fresh anti-replay state on every call.
use vstd::prelude::*;
use crate::text::strings_view;

verus! {

/// The registration of the gateway with the identity provider.
pub struct OAuthConfig {
    pub client_id: String,
    pub client_secret: String,
    pub auth_url: String,
    pub token_url: String,
    pub redirect_url: String,
}

/// A user's profile as the identity provider reports it.
pub struct UserInfo {
    pub email: String,
    pub name: String,
}

/// The authorization URL that the provider's client library builds from the
/// provider's endpoint, the client id, the redirect URL, the anti-replay
/// state and the scopes.
pub uninterp spec fn authorization_url(
    auth_url: Seq<char>,
    client_id: Seq<char>,
    redirect_url: Seq<char>,
    state: Seq<char>,
    scopes: Seq<Seq<char>>,
) -> Seq<char>;

/// Whether `url::Url::parse`, which oauth2's `AuthUrl::new` and
/// `RedirectUrl::new` call, takes the text as a URL.
pub uninterp spec fn accepted_url(s: Seq<char>) -> bool;

/// Relies on oauth2's `Client::authorize_url` and `AuthorizationRequest::url`,
/// which add the response type, client id, state, redirect URL and the scopes
/// joined by spaces to the provider's endpoint, and never fails there; and on
/// `AuthUrl::new` and `RedirectUrl::new`, which fail exactly where
/// `url::Url::parse` does.
#[verifier::external_body]
fn authorization_request_url(
    auth_url: &String,
    client_id: &String,
    redirect_url: &String,
    state: &String,
    scopes: &Vec<String>,
) -> (r: Option<String>)
    ensures
        r is Some <==> (accepted_url(auth_url@) && accepted_url(redirect_url@)),
        r matches Some(u) ==> u@ == authorization_url(
            auth_url@,
            client_id@,
            redirect_url@,
            state@,
            strings_view(scopes@),
        ),
{
    let auth = oauth2::AuthUrl::new(auth_url.clone()).ok()?;
    let redirect = oauth2::RedirectUrl::new(redirect_url.clone()).ok()?;
    let client = oauth2::basic::BasicClient::new(oauth2::ClientId::new(client_id.clone()))
        .set_auth_uri(auth).set_redirect_uri(redirect);
    let (url, _) = client.authorize_url(|| oauth2::CsrfToken::new(state.clone())).add_scopes(
        scopes.iter().cloned().map(oauth2::Scope::new),
    ).url();
    Some(url.to_string())
}

/// Relies on oauth2's `CsrfToken::new_random`: a random state, of which
/// nothing is promised.
#[verifier::external_body]
fn fresh_state() -> (r: String) {
    oauth2::CsrfToken::new_random().secret().clone()
}

/// The scopes that the gateway asks for.
pub open spec fn login_scopes() -> Seq<Seq<char>> {
    seq!["openid"@, "email"@, "profile"@]
}

/// A login URL and the anti-replay state it carries.
pub struct LoginUrl {
    pub url: String,
    pub state: String,
}

pub struct OAuthService {
    pub config: OAuthConfig,
}

impl OAuthService {
    pub fn new(config: OAuthConfig) -> (r: Self)
        ensures
            r.config == config,
    {
        OAuthService { config }
    }

    /// The provider's login URL for the configured client and redirect URL,
    /// asking for `openid`, `email` and `profile`, under a fresh state that is
    /// returned beside it; `None` exactly where the configured endpoint or
    /// redirect URL is not a URL.
    /// The state is handed back so that a caller can hold the callback's
    /// against it; no such check is made at login.
    pub fn get_google_login_url(&self) -> (r: Option<LoginUrl>)
        ensures
            r is Some <==> (accepted_url(self.config.auth_url@) && accepted_url(
                self.config.redirect_url@,
            )),
            r matches Some(l) ==> l.url@ == authorization_url(
                self.config.auth_url@,
                self.config.client_id@,
                self.config.redirect_url@,
                l.state@,
                login_scopes(),
            ),
    {
        let mut scopes: Vec<String> = Vec::new();
        scopes.push(String::from_str("openid"));
        scopes.push(String::from_str("email"));
        scopes.push(String::from_str("profile"));
        assert(strings_view(scopes@) =~= login_scopes());
        let state = fresh_state();
        match authorization_request_url(
            &self.config.auth_url,
            &self.config.client_id,
            &self.config.redirect_url,
            &state,
            &scopes,
        ) {
            Some(url) => Some(LoginUrl { url, state }),
            None => None,
        }
    }
}

} // verus!
