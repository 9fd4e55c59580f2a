//! The session and role guard: resolves the session cookie of a request to a
//! player and decides whether that player may act as an administrator.
use vstd::prelude::*;

use crate::cookie::session_id_from_cookie;
use crate::error::AuthError;
use crate::model::{is_admin_group, Player, ADMIN_GROUP, USER_GROUP};
use crate::session_id::{parsed_uuid, uuid_text, uuid_text_len_ok};
use crate::store::{AuthState, AuthStore};

verus! {

/// `r` is what resolving session `id` at `now` gives: its player while the
/// session is live, `Unauthorized` otherwise.
pub open spec fn session_outcome(s: AuthState, id: u128, now: i64, r: Result<Player, AuthError>) -> bool {
    match s.session_player(id, now) {
        Some(p) => r matches Ok(q) && q@ == p,
        None => r == Err::<Player, AuthError>(AuthError::Unauthorized),
    }
}

/// `r` is what the admin check of session `id` at `now` gives: `true` for a
/// live session of an administrator, `Unauthorized` otherwise.
pub open spec fn admin_outcome(s: AuthState, id: u128, now: i64, r: Result<bool, AuthError>) -> bool {
    match s.session_player(id, now) {
        Some(p) => if is_admin_group(p.access_group) {
            r == Ok::<bool, AuthError>(true)
        } else {
            r == Err::<bool, AuthError>(AuthError::Unauthorized)
        },
        None => r == Err::<bool, AuthError>(AuthError::Unauthorized),
    }
}

/// The player of session `session_id` at `now`, or `Unauthorized` where the
/// session is unknown or has expired.
pub fn player_for_session(store: &AuthStore, session_id: u128, now: i64) -> (r: Result<Player, AuthError>)
    requires
        store.wf(),
    ensures
        session_outcome(store@, session_id, now, r),
{
    match store.get_player_by_session(session_id, now) {
        Some(p) => Ok(p),
        None => Err(AuthError::Unauthorized),
    }
}

/// The player behind the `session_id` cookie of a request (its value, if the
/// request has one). A value that is no session identifier fails with
/// `InvalidSessionFormat` before the store is consulted.
pub fn user_from_session(store: &AuthStore, session_cookie: Option<&str>, now: i64) -> (r: Result<
    Player,
    AuthError,
>)
    requires
        store.wf(),
    ensures
        session_cookie is None <==> r == Err::<Player, AuthError>(AuthError::NoCookie),
        forall|id: u128|
            #![trigger uuid_text(id)]
            (session_cookie matches Some(c) && c@ == uuid_text(id)) ==> session_outcome(
                store@,
                id,
                now,
                r,
            ),
        (session_cookie matches Some(c) && !uuid_text_len_ok(c@.len() as int)) ==> r
            == Err::<Player, AuthError>(AuthError::InvalidSessionFormat),
        session_cookie matches Some(c) ==> match parsed_uuid(c@) {
            Some(id) => session_outcome(store@, id, now, r),
            None => r == Err::<Player, AuthError>(AuthError::InvalidSessionFormat),
        },
        r matches Ok(p) ==> exists|id: u128| store@.session_player(id, now) == Some(p@),
        r matches Err(e) ==> e == AuthError::NoCookie || e == AuthError::InvalidSessionFormat
            || e == AuthError::Unauthorized,
{
    match session_id_from_cookie(session_cookie) {
        Err(e) => Err(e),
        Ok(id) => player_for_session(store, id, now),
    }
}

/// The admin decision once the player of a request has been resolved:
/// `true` exactly for the access group `admin`; any other group, or none,
/// is `Unauthorized`; a failed resolution is passed on.
pub fn admin_for_player(player: Result<Player, AuthError>) -> (r: Result<bool, AuthError>)
    ensures
        match player {
            Ok(p) => if is_admin_group(p@.access_group) {
                r == Ok::<bool, AuthError>(true)
            } else {
                r == Err::<bool, AuthError>(AuthError::Unauthorized)
            },
            Err(e) => r == Err::<bool, AuthError>(e),
        },
{
    match player {
        Ok(p) => if p.is_admin() {
            Ok(true)
        } else {
            Err(AuthError::Unauthorized)
        },
        Err(e) => Err(e),
    }
}

/// Whether the request may act as an administrator: `Ok(true)` for a live
/// session of a player in the `admin` group, an error otherwise (never
/// `Ok(false)`).
pub fn validate_admin(store: &AuthStore, session_cookie: Option<&str>, now: i64) -> (r: Result<
    bool,
    AuthError,
>)
    requires
        store.wf(),
    ensures
        session_cookie is None <==> r == Err::<bool, AuthError>(AuthError::NoCookie),
        forall|id: u128|
            #![trigger uuid_text(id)]
            (session_cookie matches Some(c) && c@ == uuid_text(id)) ==> admin_outcome(
                store@,
                id,
                now,
                r,
            ),
        (session_cookie matches Some(c) && !uuid_text_len_ok(c@.len() as int)) ==> r
            == Err::<bool, AuthError>(AuthError::InvalidSessionFormat),
        session_cookie matches Some(c) ==> match parsed_uuid(c@) {
            Some(id) => admin_outcome(store@, id, now, r),
            None => r == Err::<bool, AuthError>(AuthError::InvalidSessionFormat),
        },
        r != Ok::<bool, AuthError>(false),
        r is Ok ==> exists|id: u128|
            #[trigger] store@.session_player(id, now) matches Some(p) && is_admin_group(
                p.access_group,
            ),
{
    let player = user_from_session(store, session_cookie, now);
    admin_for_player(player)
}

/// Ends the session named by the `session_id` cookie. Without a cookie
/// nothing happens; a value that is no session identifier fails with
/// `InvalidSessionFormat` and changes nothing.
pub fn logout(store: &mut AuthStore, session_cookie: Option<&str>) -> (r: Result<(), AuthError>)
    requires
        old(store).wf(),
    ensures
        final(store).wf(),
        session_cookie is None ==> r is Ok && final(store)@ == old(store)@,
        forall|id: u128|
            #![trigger uuid_text(id)]
            (session_cookie matches Some(c) && c@ == uuid_text(id)) ==> r is Ok && final(store)@
                == old(store)@.without_session(id),
        (session_cookie matches Some(c) && !uuid_text_len_ok(c@.len() as int)) ==> r
            == Err::<(), AuthError>(AuthError::InvalidSessionFormat),
        session_cookie matches Some(c) ==> match parsed_uuid(c@) {
            Some(id) => r is Ok && final(store)@ == old(store)@.without_session(id),
            None => r == Err::<(), AuthError>(AuthError::InvalidSessionFormat) && final(store)@
                == old(store)@,
        },
        r is Err ==> r == Err::<(), AuthError>(AuthError::InvalidSessionFormat) && final(store)@
            == old(store)@,
        (session_cookie is Some && r is Ok) ==> exists|id: u128|
            #[trigger] old(store)@.without_session(id) == final(store)@,
{
    match session_id_from_cookie(session_cookie) {
        Err(AuthError::NoCookie) => Ok(()),
        Err(e) => Err(e),
        Ok(id) => {
            store.delete_session(id);
            Ok(())
        },
    }
}

/// What the pages know of the visitor of a request: whether a player is
/// logged in, and whether as an administrator. Resolved afresh per request.
#[derive(Debug, Clone, Copy, PartialEq, Eq, Structural)]
pub struct GlobalState {
    pub logged_in: bool,
    pub is_admin: bool,
}

impl Default for GlobalState {
    /// An anonymous visitor.
    fn default() -> (r: GlobalState)
        ensures
            !r.logged_in && !r.is_admin,
    {
        GlobalState { logged_in: false, is_admin: false }
    }
}

impl GlobalState {
    /// The state for a resolved visitor: logged in when a player was found,
    /// an administrator when that player's group is `admin`.
    pub fn from_player(player: &Result<Player, AuthError>) -> (r: GlobalState)
        ensures
            r.logged_in == player is Ok,
            r.is_admin == (player matches Ok(p) && is_admin_group(p@.access_group)),
    {
        match player {
            Ok(p) => GlobalState { logged_in: true, is_admin: p.is_admin() },
            Err(_) => GlobalState { logged_in: false, is_admin: false },
        }
    }

    /// The state for the request carrying `session_cookie` at `now`.
    pub fn of_request(store: &AuthStore, session_cookie: Option<&str>, now: i64) -> (r: GlobalState)
        requires
            store.wf(),
        ensures
            session_cookie is None ==> !r.logged_in && !r.is_admin,
            forall|id: u128|
                #![trigger uuid_text(id)]
                (session_cookie matches Some(c) && c@ == uuid_text(id)) ==> r.logged_in
                    == store@.session_player(id, now) is Some && r.is_admin == (store@.session_player(
                    id,
                    now,
                ) matches Some(p) && is_admin_group(p.access_group)),
            session_cookie matches Some(c) ==> match parsed_uuid(c@) {
                Some(id) => r.logged_in == store@.session_player(id, now) is Some && r.is_admin == (
                store@.session_player(id, now) matches Some(p) && is_admin_group(p.access_group)),
                None => !r.logged_in && !r.is_admin,
            },
            r.is_admin ==> r.logged_in,
    {
        let player = user_from_session(store, session_cookie, now);
        GlobalState::from_player(&player)
    }
}

/// Session `id` is live at `now` and belongs to an administrator.
pub open spec fn admin_session(s: AuthState, id: u128, now: i64) -> bool {
    s.session_player(id, now) matches Some(p) && is_admin_group(p.access_group)
}

/// What an admin-only change of player `player_id`'s access group to `group`
/// gives, for the request carrying `session_cookie`: the change where the
/// request comes from a live administrator session, else the guard's error
/// and no change.
pub open spec fn admin_change_outcome(
    old_s: AuthState,
    new_s: AuthState,
    session_cookie: Option<&str>,
    now: i64,
    player_id: i32,
    group: Option<Seq<char>>,
    r: Result<(), AuthError>,
) -> bool {
    match session_cookie {
        None => r == Err::<(), AuthError>(AuthError::NoCookie) && new_s == old_s,
        Some(c) => match parsed_uuid(c@) {
            None => r == Err::<(), AuthError>(AuthError::InvalidSessionFormat) && new_s == old_s,
            Some(id) => if admin_session(old_s, id, now) {
                r is Ok && new_s == old_s.with_access_group(player_id, group)
            } else {
                r == Err::<(), AuthError>(AuthError::Unauthorized) && new_s == old_s
            },
        },
    }
}

fn set_group_as_admin(
    store: &mut AuthStore,
    session_cookie: Option<&str>,
    now: i64,
    player_id: i32,
    group: String,
) -> (r: Result<(), AuthError>)
    requires
        old(store).wf(),
    ensures
        final(store).wf(),
        admin_change_outcome(old(store)@, final(store)@, session_cookie, now, player_id, Some(group@), r),
{
    match validate_admin(store, session_cookie, now) {
        Ok(_) => {
            store.set_access_group(player_id, Some(group));
            Ok(())
        },
        Err(e) => Err(e),
    }
}

/// Makes player `player_id` an administrator. Only an administrator may:
/// the session check comes first, and on failure nothing changes.
pub fn add_admin(store: &mut AuthStore, session_cookie: Option<&str>, now: i64, player_id: i32) -> (r:
    Result<(), AuthError>)
    requires
        old(store).wf(),
    ensures
        final(store).wf(),
        admin_change_outcome(
            old(store)@,
            final(store)@,
            session_cookie,
            now,
            player_id,
            Some(ADMIN_GROUP@),
            r,
        ),
{
    set_group_as_admin(store, session_cookie, now, player_id, String::from_str(ADMIN_GROUP))
}

/// Returns player `player_id` to the `user` group. Only an administrator
/// may: the session check comes first, and on failure nothing changes.
pub fn remove_admin(store: &mut AuthStore, session_cookie: Option<&str>, now: i64, player_id: i32) -> (r:
    Result<(), AuthError>)
    requires
        old(store).wf(),
    ensures
        final(store).wf(),
        admin_change_outcome(
            old(store)@,
            final(store)@,
            session_cookie,
            now,
            player_id,
            Some(USER_GROUP@),
            r,
        ),
{
    set_group_as_admin(store, session_cookie, now, player_id, String::from_str(USER_GROUP))
}

/// Once a session is deleted, resolving it fails with `Unauthorized` at any
/// time: a logout is followed by no successful lookup of the same cookie.
pub proof fn lemma_logout_ends_session(s: AuthState, id: u128, now: i64, r: Result<Player, AuthError>)
    requires
        session_outcome(s.without_session(id), id, now, r),
    ensures
        s.without_session(id).session_player(id, now) is None,
        r == Err::<Player, AuthError>(AuthError::Unauthorized),
{
}

} // verus!
