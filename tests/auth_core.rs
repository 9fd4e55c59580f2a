use gubbhockey::cookie::{build_session_cookie, session_id_from_cookie, SameSite};
use gubbhockey::error::AuthError;
use gubbhockey::guard::{
    add_admin, admin_for_player, logout, remove_admin, player_for_session, user_from_session, validate_admin, GlobalState,
};
use gubbhockey::login::{
    begin_login, callback_action, finish_login, get_auth_url, login_scopes, CallbackAction, OAuthConfig,
};
use gubbhockey::model::{Player, UserInfo};
use gubbhockey::store::{AuthStore, PKCE_TTL_SECS, SESSION_TTL_SECS};

const ID: u128 = 0x550e8400_e29b_41d4_a716_446655440000;
const ID_TEXT: &str = "550e8400-e29b-41d4-a716-446655440000";
const T0: i64 = 1_700_000_000;

fn info(email: &str) -> UserInfo {
    UserInfo {
        name: "Ada Lovelace".to_string(),
        given_name: "Ada".to_string(),
        family_name: "Lovelace".to_string(),
        email: email.to_string(),
    }
}

fn logged_in(store: &mut AuthStore, email: &str, now: i64) -> (Player, String) {
    let out = finish_login(store, &info(email), now).expect("login succeeds");
    (out.player, out.cookie.value)
}

#[test]
fn session_cookie_carries_uuid_text() {
    let c = build_session_cookie(ID);
    assert_eq!(c.name, "session_id");
    assert_eq!(c.value, ID_TEXT);
    assert_eq!(c.path, "/");
    assert!(c.secure);
    assert!(c.http_only);
    assert_eq!(c.same_site, SameSite::Strict);
    assert_eq!(c.max_age_secs, 86400);
}

#[test]
fn session_cookie_round_trip() {
    for id in [0u128, 1, ID, u128::MAX, 0x0123_4567_89ab_cdef_fedc_ba98_7654_3210] {
        let c = build_session_cookie(id);
        assert_eq!(session_id_from_cookie(Some(c.value.as_str())), Ok(id));
    }
}

#[test]
fn cookie_absent_or_malformed() {
    assert_eq!(session_id_from_cookie(None), Err(AuthError::NoCookie));
    assert_eq!(session_id_from_cookie(Some("not-a-uuid")), Err(AuthError::InvalidSessionFormat));
    assert_eq!(session_id_from_cookie(Some("")), Err(AuthError::InvalidSessionFormat));
}

#[test]
fn malformed_cookie_is_rejected_before_lookup() {
    let mut store = AuthStore::new();
    let _ = logged_in(&mut store, "ada@example.org", T0);
    let r = user_from_session(&store, Some("not-a-uuid"), T0);
    assert_eq!(r.unwrap_err(), AuthError::InvalidSessionFormat);
    assert_eq!(AuthError::InvalidSessionFormat.http_status(), 401);
}

#[test]
fn no_cookie_is_no_user() {
    let store = AuthStore::new();
    assert_eq!(user_from_session(&store, None, T0).unwrap_err(), AuthError::NoCookie);
    assert_eq!(validate_admin(&store, None, T0), Err(AuthError::NoCookie));
}

#[test]
fn unknown_session_is_unauthorized() {
    let store = AuthStore::new();
    assert_eq!(user_from_session(&store, Some(ID_TEXT), T0).unwrap_err(), AuthError::Unauthorized);
    assert_eq!(player_for_session(&store, ID, T0).unwrap_err(), AuthError::Unauthorized);
    assert_eq!(AuthError::Unauthorized.http_status(), 401);
}

#[test]
fn pkce_reads_back_until_expiry() {
    let mut store = AuthStore::new();
    let token = "state-token".to_string();
    store.store_pkce_verifier(token.clone(), "verifier-1".to_string(), T0).unwrap();
    for t in [T0, T0 + 1, T0 + PKCE_TTL_SECS - 1] {
        let first = store.get_pkce_verifier(&token, t).expect("live entry");
        let second = store.get_pkce_verifier(&token, t).expect("still there");
        assert_eq!(first.id, 1);
        assert_eq!(first.csrf_token, token);
        assert_eq!(first.pkce_verifier, "verifier-1");
        assert_eq!(first.created_at, T0);
        assert_eq!(first.expires_at, T0 + 900);
        assert_eq!(second.pkce_verifier, first.pkce_verifier);
    }
    assert!(store.get_pkce_verifier(&token, T0 + PKCE_TTL_SECS).is_none());
}

#[test]
fn pkce_retried_insert_keeps_first() {
    let mut store = AuthStore::new();
    let token = "state-token".to_string();
    store.store_pkce_verifier(token.clone(), "verifier-1".to_string(), T0).unwrap();
    store.store_pkce_verifier(token.clone(), "verifier-2".to_string(), T0 + 5).unwrap();
    let e = store.get_pkce_verifier(&token, T0 + 10).unwrap();
    assert_eq!(e.pkce_verifier, "verifier-1");
    assert_eq!(e.expires_at, T0 + 900);
}

#[test]
fn pkce_unknown_token() {
    let mut store = AuthStore::new();
    store.store_pkce_verifier("a".to_string(), "v".to_string(), T0).unwrap();
    assert!(store.get_pkce_verifier(&"b".to_string(), T0).is_none());
}

#[test]
fn pkce_sweep_drops_expired_only() {
    let mut store = AuthStore::new();
    store.store_pkce_verifier("old".to_string(), "v1".to_string(), T0).unwrap();
    store.store_pkce_verifier("new".to_string(), "v2".to_string(), T0 + 600).unwrap();
    store.delete_old_pkce(T0 + 900);
    assert!(store.get_pkce_verifier(&"old".to_string(), T0 - 1).is_none());
    assert_eq!(store.get_pkce_verifier(&"new".to_string(), T0 + 900).unwrap().pkce_verifier, "v2");
    store.delete_old_pkce(T0 + 900);
    assert!(store.get_pkce_verifier(&"new".to_string(), T0 + 900).is_some());
}

#[test]
fn callback_with_live_verifier_exchanges() {
    let mut store = AuthStore::new();
    let token = "state".to_string();
    store.store_pkce_verifier(token.clone(), "verifier".to_string(), T0).unwrap();
    match callback_action(&store, &token, "auth-code".to_string(), T0 + 60) {
        CallbackAction::Exchange { code, pkce_verifier } => {
            assert_eq!(code, "auth-code");
            assert_eq!(pkce_verifier, "verifier");
        }
        CallbackAction::Abandon => panic!("expected an exchange"),
    }
}

#[test]
fn expired_pkce_abandons_login() {
    let mut store = AuthStore::new();
    let token = "state".to_string();
    store.store_pkce_verifier(token.clone(), "verifier".to_string(), T0 - 2000).unwrap();
    let action = callback_action(&store, &token, "auth-code".to_string(), T0);
    assert!(matches!(action, CallbackAction::Abandon));
    assert!(store.get_player_by_email(&"ada@example.org".to_string()).is_none());
    assert!(matches!(
        callback_action(&store, &"other".to_string(), "c".to_string(), T0),
        CallbackAction::Abandon
    ));
}

#[test]
fn first_login_creates_user_player() {
    let mut store = AuthStore::new();
    let out = finish_login(&mut store, &info("ada@example.org"), T0).unwrap();
    assert_eq!(out.player.player_id, 1);
    assert_eq!(out.player.email, "ada@example.org");
    assert_eq!(out.player.name, "Ada Lovelace");
    assert_eq!(out.player.access_group.as_deref(), Some("user"));
    assert!(!out.player.is_goalkeeper);
    assert_eq!(out.redirect_to, "/");
    assert_eq!(out.cookie.value.len(), 36);
    assert_eq!(session_id_from_cookie(Some(out.cookie.value.as_str())), Ok(out.session_id));
    assert_eq!(
        out.set_cookie,
        format!(
            "session_id={}; HttpOnly; SameSite=Strict; Secure; Path=/; Max-Age=86400",
            out.cookie.value
        )
    );
    let found = store.get_player_by_email(&"ada@example.org".to_string()).unwrap();
    assert_eq!(found.player_id, 1);
}

#[test]
fn second_login_same_email_same_player() {
    let mut store = AuthStore::new();
    let first = finish_login(&mut store, &info("ada@example.org"), T0).unwrap();
    let mut again = info("ada@example.org");
    again.name = "A. Lovelace".to_string();
    let second = finish_login(&mut store, &again, T0 + 100).unwrap();
    assert_eq!(first.player.player_id, second.player.player_id);
    assert_eq!(second.player.name, "Ada Lovelace");
    assert_ne!(first.session_id, second.session_id);
    let other = finish_login(&mut store, &info("grace@example.org"), T0 + 200).unwrap();
    assert_eq!(other.player.player_id, 2);
}

#[test]
fn session_valid_for_one_day() {
    let mut store = AuthStore::new();
    let (player, cookie) = logged_in(&mut store, "ada@example.org", T0);
    for t in [T0, T0 + 60, T0 + SESSION_TTL_SECS - 1] {
        let p = user_from_session(&store, Some(cookie.as_str()), t).unwrap();
        assert_eq!(p.player_id, player.player_id);
        assert_eq!(p.email, "ada@example.org");
    }
    let r = user_from_session(&store, Some(cookie.as_str()), T0 + SESSION_TTL_SECS);
    assert_eq!(r.unwrap_err(), AuthError::Unauthorized);
    let r = user_from_session(&store, Some(cookie.as_str()), T0 + 10 * SESSION_TTL_SECS);
    assert_eq!(r.unwrap_err(), AuthError::Unauthorized);
}

#[test]
fn require_admin_only_for_admin_group() {
    let mut store = AuthStore::new();
    let (player, cookie) = logged_in(&mut store, "ada@example.org", T0);
    let c = Some(cookie.as_str());
    assert_eq!(validate_admin(&store, c, T0), Err(AuthError::Unauthorized));
    assert!(store.set_access_group(player.player_id, Some("admin".to_string())));
    assert_eq!(validate_admin(&store, c, T0), Ok(true));
    assert!(store.set_access_group(player.player_id, Some("super-admin".to_string())));
    assert_eq!(validate_admin(&store, c, T0), Err(AuthError::Unauthorized));
    assert!(store.set_access_group(player.player_id, Some("Admin".to_string())));
    assert_eq!(validate_admin(&store, c, T0), Err(AuthError::Unauthorized));
    assert!(store.set_access_group(player.player_id, None));
    assert_eq!(validate_admin(&store, c, T0), Err(AuthError::Unauthorized));
    assert!(!store.set_access_group(99, Some("admin".to_string())));
}

#[test]
fn require_admin_propagates_session_failures() {
    let mut store = AuthStore::new();
    let (player, cookie) = logged_in(&mut store, "ada@example.org", T0);
    store.set_access_group(player.player_id, Some("admin".to_string()));
    assert_eq!(validate_admin(&store, Some("not-a-uuid"), T0), Err(AuthError::InvalidSessionFormat));
    assert_eq!(
        validate_admin(&store, Some(cookie.as_str()), T0 + SESSION_TTL_SECS),
        Err(AuthError::Unauthorized)
    );
    assert_eq!(admin_for_player(Err(AuthError::Persistence)), Err(AuthError::Persistence));
}

#[test]
fn logout_then_lookup_fails() {
    let mut store = AuthStore::new();
    let (_, cookie) = logged_in(&mut store, "ada@example.org", T0);
    let (_, other_cookie) = logged_in(&mut store, "grace@example.org", T0);
    assert!(user_from_session(&store, Some(cookie.as_str()), T0 + 1).is_ok());
    assert_eq!(logout(&mut store, Some(cookie.as_str())), Ok(()));
    let r = user_from_session(&store, Some(cookie.as_str()), T0 + 1);
    assert_eq!(r.unwrap_err(), AuthError::Unauthorized);
    assert!(user_from_session(&store, Some(other_cookie.as_str()), T0 + 1).is_ok());
}

#[test]
fn logout_without_or_with_bad_cookie() {
    let mut store = AuthStore::new();
    assert_eq!(logout(&mut store, None), Ok(()));
    assert_eq!(logout(&mut store, Some("not-a-uuid")), Err(AuthError::InvalidSessionFormat));
    assert_eq!(logout(&mut store, Some(ID_TEXT)), Ok(()));
}

#[test]
fn session_sweep_drops_expired_only() {
    let mut store = AuthStore::new();
    let (_, old_cookie) = logged_in(&mut store, "ada@example.org", T0);
    let (_, new_cookie) = logged_in(&mut store, "grace@example.org", T0 + 1000);
    store.delete_old_sessions(T0 + SESSION_TTL_SECS);
    let old_id = session_id_from_cookie(Some(old_cookie.as_str())).unwrap();
    assert!(store.get_player_by_session(old_id, T0).is_none());
    assert!(user_from_session(&store, Some(new_cookie.as_str()), T0 + SESSION_TTL_SECS).is_ok());
}

#[test]
fn put_session_rejects_unknown_player_and_taken_id() {
    let mut store = AuthStore::new();
    assert_eq!(store.put_session(ID, 1, T0), Err(AuthError::Persistence));
    let (player, _) = logged_in(&mut store, "ada@example.org", T0);
    assert_eq!(store.put_session(ID, player.player_id, T0), Ok(()));
    assert_eq!(store.put_session(ID, player.player_id, T0), Err(AuthError::Persistence));
    let p = store.get_player_by_session(ID, T0 + SESSION_TTL_SECS - 1).unwrap();
    assert_eq!(p.player_id, player.player_id);
    assert_eq!(store.insert_session(42, T0), Err(AuthError::Persistence));
}

#[test]
fn created_sessions_are_version_4() {
    let mut store = AuthStore::new();
    let (player, _) = logged_in(&mut store, "ada@example.org", T0);
    let id = store.insert_session(player.player_id, T0).unwrap();
    assert_eq!((id >> 76) & 0xf, 4);
    assert_eq!((id >> 62) & 0x3, 2);
    let text = build_session_cookie(id).value;
    assert_eq!(&text[14..15], "4");
}

#[test]
fn config_requires_every_setting() {
    let s = |v: &str| Some(v.to_string());
    let ok = OAuthConfig::from_settings(s("id"), s("secret"), s("auth"), s("token"), s("redirect"), s("logout"))
        .unwrap();
    assert_eq!(ok.client_id, "id");
    assert_eq!(ok.logout_url, "logout");
    let missing = OAuthConfig::from_settings(s("id"), None, s("auth"), s("token"), s("redirect"), s("logout"));
    assert_eq!(missing.unwrap_err(), AuthError::Configuration);
    let missing = OAuthConfig::from_settings(s("id"), s("secret"), s("auth"), s("token"), s("redirect"), None);
    assert_eq!(missing.unwrap_err(), AuthError::Configuration);
    assert_eq!(AuthError::Configuration.http_status(), 500);
    assert_eq!(AuthError::Upstream.http_status(), 502);
}

#[test]
fn scopes_of_a_login() {
    assert_eq!(login_scopes(), vec!["openid".to_string(), "profile".to_string(), "email".to_string()]);
}

#[test]
fn player_duplicate_and_admin_flag() {
    let p = Player {
        player_id: 3,
        name: "n".to_string(),
        given_name: "g".to_string(),
        family_name: "f".to_string(),
        email: "e".to_string(),
        access_group: Some("admin".to_string()),
        is_goalkeeper: true,
    };
    let q = p.duplicate();
    assert_eq!(q.player_id, 3);
    assert_eq!(q.access_group.as_deref(), Some("admin"));
    assert!(q.is_goalkeeper);
    assert!(q.is_admin());
    assert_eq!(admin_for_player(Ok(q)), Ok(true));
}

#[test]
fn global_state_per_request() {
    let mut store = AuthStore::new();
    let anonymous = GlobalState::default();
    assert!(!anonymous.logged_in && !anonymous.is_admin);
    assert_eq!(GlobalState::of_request(&store, None, T0), anonymous);
    let (player, cookie) = logged_in(&mut store, "ada@example.org", T0);
    let c = Some(cookie.as_str());
    assert_eq!(GlobalState::of_request(&store, c, T0), GlobalState { logged_in: true, is_admin: false });
    store.set_access_group(player.player_id, Some("admin".to_string()));
    assert_eq!(GlobalState::of_request(&store, c, T0), GlobalState { logged_in: true, is_admin: true });
    assert_eq!(GlobalState::of_request(&store, c, T0 + SESSION_TTL_SECS), anonymous);
    assert_eq!(GlobalState::of_request(&store, Some("not-a-uuid"), T0), anonymous);
    assert_eq!(
        GlobalState::from_player(&Err(AuthError::Unauthorized)),
        GlobalState { logged_in: false, is_admin: false }
    );
}

fn config(auth_url: &str) -> OAuthConfig {
    let s = |v: &str| Some(v.to_string());
    OAuthConfig::from_settings(
        s("club"),
        s("secret"),
        s(auth_url),
        s("https://auth.example.org/oauth/token"),
        s("https://app.example.org/auth"),
        s("https://auth.example.org/logout"),
    )
    .unwrap()
}

fn query_param(url: &str, key: &str) -> Option<String> {
    let query = url.split_once('?')?.1;
    query
        .split('&')
        .find_map(|pair| pair.strip_prefix(&format!("{}=", key)).map(|v| v.to_string()))
}

#[test]
fn begin_login_builds_url_and_keeps_verifier() {
    let mut store = AuthStore::new();
    let verifier = "v".repeat(43);
    let url = begin_login(
        &mut store,
        &config("https://auth.example.org/authorize"),
        "state123".to_string(),
        verifier.clone(),
        T0,
    )
    .unwrap();
    assert!(url.starts_with("https://auth.example.org/authorize?response_type=code&client_id=club&state=state123&code_challenge="));
    assert!(url.contains("&code_challenge_method=S256&redirect_uri=https%3A%2F%2Fapp.example.org%2Fauth&scope=openid+profile+email"));
    assert_eq!(query_param(&url, "code_challenge").unwrap().len(), 43);
    let e = store.get_pkce_verifier(&"state123".to_string(), T0 + 1).unwrap();
    assert_eq!(e.pkce_verifier, verifier);
    assert_eq!(e.expires_at, T0 + PKCE_TTL_SECS);
}

#[test]
fn begin_login_rejects_bad_auth_url() {
    let mut store = AuthStore::new();
    let r = begin_login(&mut store, &config("not a url"), "state123".to_string(), "v".repeat(43), T0);
    assert_eq!(r.unwrap_err(), AuthError::Configuration);
    assert!(store.get_pkce_verifier(&"state123".to_string(), T0).is_none());
}

#[test]
fn get_auth_url_stores_fresh_verifier() {
    let mut store = AuthStore::new();
    let cfg = config("https://auth.example.org/authorize");
    let url = get_auth_url(&mut store, &cfg, T0).unwrap();
    let state = query_param(&url, "state").unwrap();
    assert_eq!(state.len(), 22);
    let e = store.get_pkce_verifier(&state, T0 + PKCE_TTL_SECS - 1).unwrap();
    assert_eq!(e.pkce_verifier.len(), 43);
    match callback_action(&store, &state, "code".to_string(), T0 + 10) {
        CallbackAction::Exchange { pkce_verifier, .. } => assert_eq!(pkce_verifier, e.pkce_verifier),
        CallbackAction::Abandon => panic!("expected an exchange"),
    }
    let other = get_auth_url(&mut store, &cfg, T0).unwrap();
    assert_ne!(query_param(&other, "state").unwrap(), state);
    assert_eq!(get_auth_url(&mut store, &config("::"), T0).unwrap_err(), AuthError::Configuration);
}

#[test]
fn pkce_entries_get_serial_numbers() {
    let mut store = AuthStore::new();
    assert_eq!(store.store_pkce_verifier("a".to_string(), "v1".to_string(), T0), Ok(()));
    assert_eq!(store.store_pkce_verifier("b".to_string(), "v2".to_string(), T0), Ok(()));
    assert_eq!(store.store_pkce_verifier("a".to_string(), "v3".to_string(), T0), Ok(()));
    assert_eq!(store.get_pkce_verifier(&"a".to_string(), T0).unwrap().id, 1);
    assert_eq!(store.get_pkce_verifier(&"b".to_string(), T0).unwrap().id, 2);
}

#[test]
fn other_uuid_forms_resolve_to_the_same_session() {
    let mut store = AuthStore::new();
    let (player, cookie) = logged_in(&mut store, "ada@example.org", T0);
    store.set_access_group(player.player_id, Some("admin".to_string()));
    let upper = cookie.to_uppercase();
    let braced = format!("{{{}}}", cookie);
    let simple = cookie.replace('-', "");
    for form in [upper.as_str(), braced.as_str(), simple.as_str()] {
        assert_eq!(user_from_session(&store, Some(form), T0).unwrap().player_id, player.player_id);
        assert_eq!(validate_admin(&store, Some(form), T0), Ok(true));
    }
    let not_uuid = "zzzzzzzz-zzzz-zzzz-zzzz-zzzzzzzzzzzz";
    assert_eq!(not_uuid.len(), 36);
    assert_eq!(user_from_session(&store, Some(not_uuid), T0).unwrap_err(), AuthError::InvalidSessionFormat);
    assert_eq!(validate_admin(&store, Some(not_uuid), T0), Err(AuthError::InvalidSessionFormat));
    assert_eq!(logout(&mut store, Some(not_uuid)), Err(AuthError::InvalidSessionFormat));
    assert!(user_from_session(&store, Some(cookie.as_str()), T0).is_ok());
    assert_eq!(logout(&mut store, Some(upper.as_str())), Ok(()));
    assert_eq!(user_from_session(&store, Some(cookie.as_str()), T0).unwrap_err(), AuthError::Unauthorized);
}

#[test]
fn login_sessions_are_version_4() {
    let mut store = AuthStore::new();
    let out = finish_login(&mut store, &info("ada@example.org"), T0).unwrap();
    assert_eq!((out.session_id >> 76) & 0xf, 4);
    assert_eq!((out.session_id >> 62) & 0x3, 2);
}

#[test]
fn begin_login_rejects_bad_redirect_url() {
    let mut store = AuthStore::new();
    let mut cfg = config("https://auth.example.org/authorize");
    cfg.redirect_url = "relative/path".to_string();
    let r = begin_login(&mut store, &cfg, "state123".to_string(), "v".repeat(43), T0);
    assert_eq!(r.unwrap_err(), AuthError::Configuration);
    assert!(store.get_pkce_verifier(&"state123".to_string(), T0).is_none());
}

#[test]
fn begin_login_rejects_bad_token_url() {
    let mut store = AuthStore::new();
    let mut cfg = config("https://auth.example.org/authorize");
    cfg.token_url = "no url".to_string();
    let r = begin_login(&mut store, &cfg, "state123".to_string(), "v".repeat(43), T0);
    assert_eq!(r.unwrap_err(), AuthError::Configuration);
    assert!(store.get_pkce_verifier(&"state123".to_string(), T0).is_none());
    assert_eq!(get_auth_url(&mut store, &cfg, T0).unwrap_err(), AuthError::Configuration);
}

#[test]
fn promotion_needs_an_admin_session() {
    let mut store = AuthStore::new();
    let (ada, ada_cookie) = logged_in(&mut store, "ada@example.org", T0);
    let (grace, grace_cookie) = logged_in(&mut store, "grace@example.org", T0);
    let a = Some(ada_cookie.as_str());
    let g = Some(grace_cookie.as_str());
    assert_eq!(add_admin(&mut store, a, T0, grace.player_id), Err(AuthError::Unauthorized));
    assert_eq!(validate_admin(&store, g, T0), Err(AuthError::Unauthorized));
    assert_eq!(add_admin(&mut store, None, T0, grace.player_id), Err(AuthError::NoCookie));
    assert_eq!(add_admin(&mut store, Some("not-a-uuid"), T0, grace.player_id), Err(AuthError::InvalidSessionFormat));
    store.set_access_group(ada.player_id, Some("admin".to_string()));
    assert_eq!(add_admin(&mut store, a, T0, grace.player_id), Ok(()));
    assert_eq!(validate_admin(&store, g, T0), Ok(true));
    assert_eq!(remove_admin(&mut store, g, T0, ada.player_id), Ok(()));
    assert_eq!(validate_admin(&store, a, T0), Err(AuthError::Unauthorized));
    let ada_now = store.get_player_by_email(&"ada@example.org".to_string()).unwrap();
    assert_eq!(ada_now.access_group.as_deref(), Some("user"));
    assert_eq!(add_admin(&mut store, g, T0 + SESSION_TTL_SECS, ada.player_id), Err(AuthError::Unauthorized));
}
