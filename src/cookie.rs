//! The session cookie: how a session identifier travels to the browser and back.
use vstd::prelude::*;

use crate::error::AuthError;
use crate::session_id::{
    hex_char, lemma_uuid_text_injective, parsed_uuid, uuid_from_text, uuid_text, uuid_text_len_ok, uuid_to_text,
};
use tower_cookies::cookie::time::Duration;
use tower_cookies::cookie::{Cookie, SameSite as CookieSameSite};

verus! {

/// Name of the cookie that carries the session identifier.
pub const SESSION_COOKIE_NAME: &'static str = "session_id";

/// Lifetime of the session cookie in the browser, in seconds (one day).
pub const SESSION_COOKIE_MAX_AGE_SECS: u32 = 86400;

/// The `SameSite` attribute of a cookie.
#[derive(Debug, Clone, Copy, PartialEq, Eq, Structural)]
pub enum SameSite {
    Strict,
    Lax,
    /// Sent on cross-site requests too (`SameSite=None`).
    Unrestricted,
}

/// A cookie to be set on the response, with the attributes this service uses.
#[derive(Debug)]
pub struct SessionCookie {
    pub name: String,
    pub value: String,
    pub path: String,
    pub secure: bool,
    pub http_only: bool,
    pub same_site: SameSite,
    pub max_age_secs: u32,
}

/// `c` is the session cookie for `id`: named `session_id`, holding the text
/// of `id`, for the whole site, secure, HTTP-only, same-site strict, for one day.
pub open spec fn is_session_cookie_for(c: SessionCookie, id: u128) -> bool {
    &&& c.name@ == SESSION_COOKIE_NAME@
    &&& c.value@ == uuid_text(id)
    &&& c.path@ == "/"@
    &&& c.secure
    &&& c.http_only
    &&& c.same_site == SameSite::Strict
    &&& c.max_age_secs == SESSION_COOKIE_MAX_AGE_SECS
}

/// Builds the cookie that hands session `id` to the browser.
pub fn build_session_cookie(id: u128) -> (r: SessionCookie)
    ensures
        is_session_cookie_for(r, id),
{
    SessionCookie {
        name: String::from_str(SESSION_COOKIE_NAME),
        value: uuid_to_text(id),
        path: String::from_str("/"),
        secure: true,
        http_only: true,
        same_site: SameSite::Strict,
        max_age_secs: SESSION_COOKIE_MAX_AGE_SECS,
    }
}

/// The value of the cookie built for a session id is the text of that id and
/// of no other id, so reading it back gives the id it was built from.
pub proof fn lemma_session_cookie_round_trip(c: SessionCookie, id: u128)
    requires
        is_session_cookie_for(c, id),
    ensures
        c.value@ == uuid_text(id),
        forall|v: u128| #[trigger] uuid_text(v) == c.value@ ==> v == id,
{
    assert forall|v: u128| #[trigger] uuid_text(v) == c.value@ implies v == id by {
        lemma_uuid_text_injective(v, id);
    }
}

/// Reads the session identifier out of the value of the `session_id` cookie,
/// if the request carried one.
pub fn session_id_from_cookie(value: Option<&str>) -> (r: Result<u128, AuthError>)
    ensures
        value is None <==> r == Err::<u128, AuthError>(AuthError::NoCookie),
        value is Some ==> (r is Ok || r == Err::<u128, AuthError>(AuthError::InvalidSessionFormat)),
        value matches Some(s) ==> match parsed_uuid(s@) {
            Some(v) => r == Ok::<u128, AuthError>(v),
            None => r == Err::<u128, AuthError>(AuthError::InvalidSessionFormat),
        },
        forall|v: u128|
            #![trigger uuid_text(v)]
            (value matches Some(s) && s@ == uuid_text(v)) ==> r == Ok::<u128, AuthError>(v),
        (value matches Some(s) && !uuid_text_len_ok(s@.len() as int)) ==> r
            == Err::<u128, AuthError>(AuthError::InvalidSessionFormat),
{
    match value {
        None => Err(AuthError::NoCookie),
        Some(s) => match uuid_from_text(s) {
            Some(v) => Ok(v),
            None => Err(AuthError::InvalidSessionFormat),
        },
    }
}

/// The text of a `SameSite` value in a `Set-Cookie` header.
pub open spec fn same_site_text(s: SameSite) -> Seq<char> {
    match s {
        SameSite::Strict => "Strict"@,
        SameSite::Lax => "Lax"@,
        SameSite::Unrestricted => "None"@,
    }
}

/// The decimal digits of `n`, without leading zeros.
pub open spec fn decimal_text(n: nat) -> Seq<char>
    decreases n,
{
    if n < 10 {
        seq![hex_char(n as int)]
    } else {
        decimal_text(n / 10).push(hex_char((n % 10) as int))
    }
}

/// The `Set-Cookie` header value for `c`.
pub open spec fn set_cookie_text(c: SessionCookie) -> Seq<char> {
    c.name@ + "="@ + c.value@
        + (if c.http_only { "; HttpOnly"@ } else { Seq::empty() })
        + "; SameSite="@ + same_site_text(c.same_site)
        + (if c.secure { "; Secure"@ } else { Seq::empty() })
        + "; Path="@ + c.path@
        + "; Max-Age="@ + decimal_text(c.max_age_secs as nat)
}

/// Relies on `cookie::Cookie` (as re-exported by `tower_cookies`): its
/// builder, and its `Display` impl, which writes `name=value` and then, for
/// the attributes set here, `HttpOnly`, `SameSite`, `Secure`, `Path` and
/// `Max-Age` in that order.
#[verifier::external_body]
pub(crate) fn set_cookie_header(c: &SessionCookie) -> (r: String)
    ensures
        r@ == set_cookie_text(*c),
{
    let site = match c.same_site {
        SameSite::Strict => CookieSameSite::Strict,
        SameSite::Lax => CookieSameSite::Lax,
        SameSite::Unrestricted => CookieSameSite::None,
    };
    Cookie::build((c.name.clone(), c.value.clone())).path(c.path.clone()).secure(c.secure)
        .http_only(c.http_only).same_site(site).max_age(Duration::seconds(c.max_age_secs as i64))
        .build().to_string()
}

/// The `Set-Cookie` header value of the session cookie for `id`.
pub open spec fn session_set_cookie_text(id: u128) -> Seq<char> {
    "session_id="@ + uuid_text(id) + "; HttpOnly; SameSite=Strict; Secure; Path=/; Max-Age=86400"@
}

/// The header of a session cookie, written out.
pub proof fn lemma_session_set_cookie_text(c: SessionCookie, id: u128)
    requires
        is_session_cookie_for(c, id),
    ensures
        set_cookie_text(c) == session_set_cookie_text(id),
{
    reveal_strlit("session_id");
    reveal_strlit("session_id=");
    reveal_strlit("=");
    reveal_strlit("/");
    reveal_strlit("; HttpOnly");
    reveal_strlit("; SameSite=");
    reveal_strlit("Strict");
    reveal_strlit("; Secure");
    reveal_strlit("; Path=");
    reveal_strlit("; Max-Age=");
    reveal_strlit("; HttpOnly; SameSite=Strict; Secure; Path=/; Max-Age=86400");
    reveal_with_fuel(decimal_text, 6);
    assert(decimal_text(86400) =~= seq!['8', '6', '4', '0', '0']);
    assert(set_cookie_text(c) =~= session_set_cookie_text(id));
}

} // verus!
