//! The OAuth2 authorization-code login with PKCE, as the decisions the
//! service takes between the calls to the identity provider.
use vstd::prelude::*;

use crate::cookie::{
    build_session_cookie, is_session_cookie_for, lemma_session_set_cookie_text, session_set_cookie_text,
    set_cookie_header, SessionCookie,
};
use crate::error::AuthError;
use crate::model::{Player, SessionRecord, UserInfo};
use crate::store::{AuthStore, PKCE_TTL_SECS, SESSION_TTL_SECS};
use oauth2::basic::BasicClient;
use oauth2::{
    AuthUrl, ClientId, CsrfToken, PkceCodeChallenge, PkceCodeVerifier, RedirectUrl, Scope,
    TokenUrl,
};

verus! {

/// The settings of the OAuth2 client.
#[derive(Debug)]
pub struct OAuthConfig {
    pub client_id: String,
    pub client_secret: String,
    pub auth_url: String,
    pub token_url: String,
    pub redirect_url: String,
    pub logout_url: String,
}

pub open spec fn setting_view(s: Option<String>) -> Seq<char> {
    match s {
        Some(v) => v@,
        None => Seq::empty(),
    }
}

impl OAuthConfig {
    /// Builds the configuration from its settings, each of which may be
    /// absent. Fails with `Configuration` exactly where one is absent.
    pub fn from_settings(
        client_id: Option<String>,
        client_secret: Option<String>,
        auth_url: Option<String>,
        token_url: Option<String>,
        redirect_url: Option<String>,
        logout_url: Option<String>,
    ) -> (r: Result<OAuthConfig, AuthError>)
        ensures
            r is Ok <==> (client_id is Some && client_secret is Some && auth_url is Some
                && token_url is Some && redirect_url is Some && logout_url is Some),
            r is Err ==> r == Err::<OAuthConfig, AuthError>(AuthError::Configuration),
            r matches Ok(c) ==> c.client_id@ == setting_view(client_id) && c.client_secret@
                == setting_view(client_secret) && c.auth_url@ == setting_view(auth_url)
                && c.token_url@ == setting_view(token_url) && c.redirect_url@ == setting_view(
                redirect_url,
            ) && c.logout_url@ == setting_view(logout_url),
    {
        match (client_id, client_secret, auth_url, token_url, redirect_url, logout_url) {
            (Some(a), Some(b), Some(c), Some(d), Some(e), Some(f)) => Ok(
                OAuthConfig {
                    client_id: a,
                    client_secret: b,
                    auth_url: c,
                    token_url: d,
                    redirect_url: e,
                    logout_url: f,
                },
            ),
            _ => Err(AuthError::Configuration),
        }
    }
}

/// The scopes a login asks the provider for.
pub open spec fn login_scope_texts() -> Seq<Seq<char>> {
    seq!["openid"@, "profile"@, "email"@]
}

pub open spec fn string_seq_view(v: Seq<String>) -> Seq<Seq<char>> {
    v.map_values(|s: String| s@)
}

/// The scopes a login asks the provider for: `openid`, `profile`, `email`.
pub fn login_scopes() -> (r: Vec<String>)
    ensures
        string_seq_view(r@) == login_scope_texts(),
{
    let mut r: Vec<String> = Vec::new();
    r.push(String::from_str("openid"));
    r.push(String::from_str("profile"));
    r.push(String::from_str("email"));
    assert(string_seq_view(r@) =~= login_scope_texts());
    r
}

/// A PKCE code verifier of a length RFC 7636 allows (43 to 128), in ASCII.
pub open spec fn pkce_verifier_ok(v: Seq<char>) -> bool {
    &&& 43 <= v.len() <= 128
    &&& forall|i: int| 0 <= i < v.len() ==> (#[trigger] v[i] as u32) < 128
}

/// The provider's authorization URL for a login: the authorization endpoint
/// with the client, the redirect target, the scopes, the SHA-256 challenge of
/// the verifier, and the state token as query parameters.
pub uninterp spec fn authorize_url_text(
    auth_url: Seq<char>,
    client_id: Seq<char>,
    redirect_url: Seq<char>,
    scopes: Seq<Seq<char>>,
    pkce_verifier: Seq<char>,
    csrf_token: Seq<char>,
) -> Seq<char>;

/// Relies on `oauth2::CsrfToken::new_random`: 16 random bytes in unpadded
/// URL-safe base64, which is 22 characters.
#[verifier::external_body]
fn random_csrf_token() -> (r: String)
    ensures
        r@.len() == 22,
{
    CsrfToken::new_random().secret().clone()
}

/// Relies on `oauth2::PkceCodeChallenge::new_random_sha256`, of which only the
/// verifier is kept: 32 random bytes in unpadded URL-safe base64, which is 43
/// ASCII characters.
#[verifier::external_body]
fn random_pkce_verifier() -> (r: String)
    ensures
        pkce_verifier_ok(r@),
{
    PkceCodeChallenge::new_random_sha256().1.secret().clone()
}

/// Whether a URL parser accepts the text as an absolute URL.
pub uninterp spec fn url_parses(s: Seq<char>) -> bool;

/// The authorization, token and redirect URLs of the client all parse.
pub open spec fn login_urls_parse(config: OAuthConfig) -> bool {
    url_parses(config.auth_url@) && url_parses(config.token_url@) && url_parses(
        config.redirect_url@,
    )
}

/// Relies on `oauth2::BasicClient::authorize_url` and `AuthorizationRequest::url`,
/// with the challenge from `PkceCodeChallenge::from_code_verifier_sha256`
/// (which panics on a verifier of a length RFC 7636 does not allow). `None`
/// exactly where `AuthUrl::new`, `TokenUrl::new` or `RedirectUrl::new`, which
/// are `url::Url::parse`, rejects its URL; nothing else in the chain fails.
#[verifier::external_body]
fn authorization_url(config: &OAuthConfig, scopes: &Vec<String>, pkce_verifier: &String, csrf_token: &String) -> (r: Option<String>)
    requires
        pkce_verifier_ok(pkce_verifier@),
    ensures
        r is Some <==> (url_parses(config.auth_url@) && url_parses(config.token_url@)
            && url_parses(config.redirect_url@)),
        r matches Some(u) ==> u@ == authorize_url_text(config.auth_url@, config.client_id@, config.redirect_url@, string_seq_view(scopes@), pkce_verifier@, csrf_token@),
{
    let auth = AuthUrl::new(config.auth_url.clone()).ok()?;
    let token = TokenUrl::new(config.token_url.clone()).ok()?;
    let redirect = RedirectUrl::new(config.redirect_url.clone()).ok()?;
    let state = CsrfToken::new(csrf_token.clone());
    let verifier = PkceCodeVerifier::new(pkce_verifier.clone());
    let (url, _) = BasicClient::new(ClientId::new(config.client_id.clone()), None, auth, Some(token))
        .set_redirect_uri(redirect).authorize_url(move || state)
        .add_scopes(scopes.iter().map(|s| Scope::new(s.clone())))
        .set_pkce_challenge(PkceCodeChallenge::from_code_verifier_sha256(&verifier)).url();
    Some(url.to_string())
}

/// Starts a login with state token `csrf_token` and PKCE verifier
/// `pkce_verifier`: builds the provider's authorization URL and keeps the
/// verifier under the token for 15 minutes from `now`. Fails, changing
/// nothing, with `Configuration` where a configured URL does not parse, and
/// else with `Persistence` where the verifier cannot be stored.
pub fn begin_login(
    store: &mut AuthStore,
    config: &OAuthConfig,
    csrf_token: String,
    pkce_verifier: String,
    now: i64,
) -> (r: Result<String, AuthError>)
    requires
        old(store).wf(),
        pkce_verifier_ok(pkce_verifier@),
        now <= i64::MAX - PKCE_TTL_SECS,
    ensures
        final(store).wf(),
        r is Ok <==> login_urls_parse(*config) && old(store)@.can_store_pkce(csrf_token@),
        !login_urls_parse(*config) ==> r == Err::<String, AuthError>(AuthError::Configuration),
        login_urls_parse(*config) && !old(store)@.can_store_pkce(csrf_token@) ==> r == Err::<
            String,
            AuthError,
        >(AuthError::Persistence),
        r matches Ok(u) ==> u@ == authorize_url_text(
            config.auth_url@,
            config.client_id@,
            config.redirect_url@,
            login_scope_texts(),
            pkce_verifier@,
            csrf_token@,
        ) && final(store)@ == old(store)@.with_pkce(csrf_token@, pkce_verifier@, now),
        r is Err ==> final(store)@ == old(store)@,
{
    let scopes = login_scopes();
    match authorization_url(config, &scopes, &pkce_verifier, &csrf_token) {
        None => Err(AuthError::Configuration),
        Some(url) => match store.store_pkce_verifier(csrf_token, pkce_verifier, now) {
            Ok(()) => Ok(url),
            Err(e) => Err(e),
        },
    }
}

/// Starts a login with a fresh random state token and PKCE verifier; see
/// [`begin_login`]. The URL it returns is where the browser goes next.
pub fn get_auth_url(store: &mut AuthStore, config: &OAuthConfig, now: i64) -> (r: Result<
    String,
    AuthError,
>)
    requires
        old(store).wf(),
        now <= i64::MAX - PKCE_TTL_SECS,
    ensures
        final(store).wf(),
        r matches Ok(u) ==> exists|token: Seq<char>, verifier: Seq<char>|
            #![trigger old(store)@.with_pkce(token, verifier, now)]
            token.len() == 22 && pkce_verifier_ok(verifier) && u@ == authorize_url_text(
                config.auth_url@,
                config.client_id@,
                config.redirect_url@,
                login_scope_texts(),
                verifier,
                token,
            ) && final(store)@ == old(store)@.with_pkce(token, verifier, now),
        r is Ok ==> login_urls_parse(*config),
        login_urls_parse(*config) && old(store)@.next_pkce_id < i32::MAX ==> r is Ok,
        !login_urls_parse(*config) ==> r == Err::<String, AuthError>(AuthError::Configuration),
        r is Err ==> (r == Err::<String, AuthError>(AuthError::Configuration) || r == Err::<
            String,
            AuthError,
        >(AuthError::Persistence)) && final(store)@ == old(store)@,
{
    let csrf_token = random_csrf_token();
    let pkce_verifier = random_pkce_verifier();
    begin_login(store, config, csrf_token, pkce_verifier, now)
}

/// What to do with the provider's callback.
#[derive(Debug)]
pub enum CallbackAction {
    /// No live verifier for the state token: the login stops, and nothing
    /// is created.
    Abandon,
    /// Exchange the authorization code, proving possession with the verifier.
    Exchange { code: String, pkce_verifier: String },
}

/// Decides on the provider's callback with authorization `code` and state
/// `csrf_token` at `now`: exchange the code where a verifier stored under the
/// token is still live, else abandon the login.
pub fn callback_action(store: &AuthStore, csrf_token: &String, code: String, now: i64) -> (r: CallbackAction)
    requires
        store.wf(),
    ensures
        match store@.live_pkce(csrf_token@, now) {
            None => r is Abandon,
            Some(e) => r matches CallbackAction::Exchange { code: c, pkce_verifier: v } && c@
                == code@ && v@ == e.pkce_verifier,
        },
{
    match store.get_pkce_verifier(csrf_token, now) {
        None => CallbackAction::Abandon,
        Some(entry) => CallbackAction::Exchange { code, pkce_verifier: entry.pkce_verifier },
    }
}

/// What a completed login hands back to the web layer.
#[derive(Debug)]
pub struct LoginOutcome {
    /// The player who logged in.
    pub player: Player,
    /// The session issued to that player.
    pub session_id: u128,
    /// The cookie that carries the session.
    pub cookie: SessionCookie,
    /// The `Set-Cookie` header value for that cookie.
    pub set_cookie: String,
    /// Where the browser goes next.
    pub redirect_to: String,
}

/// Completes a login once the provider has said who logged in (`info`):
/// resolves the player by email, creating it in the `user` group on a first
/// login, issues a session at `now`, and builds its cookie. Fails with
/// `Persistence` where player identifiers are exhausted or the drawn session
/// identifier is taken; succeeds where neither can happen. The session
/// identifier is a random version-4 UUID.
pub fn finish_login(store: &mut AuthStore, info: &UserInfo, now: i64) -> (r: Result<
    LoginOutcome,
    AuthError,
>)
    requires
        old(store).wf(),
        now <= i64::MAX - SESSION_TTL_SECS,
    ensures
        final(store).wf(),
        (!old(store)@.has_email(info.email@) && old(store)@.next_player_id == i32::MAX) ==> r
            is Err && final(store)@ == old(store)@,
        (old(store)@.has_email(info.email@) || old(store)@.next_player_id < i32::MAX)
            && old(store)@.sessions == Map::<u128, SessionRecord>::empty() ==> r is Ok,
        r matches Ok(o) ==> (o.session_id >> 76u128) & 0xfu128 == 4u128 && (o.session_id
            >> 62u128) & 0x3u128 == 2u128,
        r matches Ok(o) ==> {
            let s1 = old(store)@.with_login(info@);
            &&& Some(o.player@) == s1.player_with_email(info.email@)
            &&& !old(store)@.has_email(info.email@) ==> o.player@ == old(store)@.new_player(info@)
            &&& final(store)@.session_player(o.session_id, now) == Some(o.player@)
            &&& !s1.sessions.contains_key(o.session_id)
            &&& final(store)@ == s1.with_session(o.session_id, o.player.player_id, now)
            &&& is_session_cookie_for(o.cookie, o.session_id)
            &&& o.set_cookie@ == session_set_cookie_text(o.session_id)
            &&& o.redirect_to@ == "/"@
        },
        r is Err ==> r == Err::<LoginOutcome, AuthError>(AuthError::Persistence) && (final(store)@
            == old(store)@ || final(store)@ == old(store)@.with_login(info@)),
{
    let player = match store.login_player(info) {
        Ok(p) => p,
        Err(e) => return Err(e),
    };
    proof {
        store.lemma_wf_valid();
    }
    let session_id = match store.insert_session(player.player_id, now) {
        Ok(id) => id,
        Err(e) => return Err(e),
    };
    let cookie = build_session_cookie(session_id);
    let set_cookie = set_cookie_header(&cookie);
    proof {
        lemma_session_set_cookie_text(cookie, session_id);
    }
    Ok(
        LoginOutcome {
            player,
            session_id,
            cookie,
            set_cookie,
            redirect_to: String::from_str("/"),
        },
    )
}

} // verus!
