//! The tables of the authentication core: pending PKCE verifiers, sessions,
//! and players. Every table is a vector whose abstract view is a map from its
//! key to its record.
use vstd::prelude::*;

use crate::error::AuthError;
use crate::model::{
    opt_string_view, PkceStore, PkceStoreView, Player, PlayerView, SessionRecord, UserInfo,
    UserInfoView, USER_GROUP,
};
use crate::session_id::random_uuid_v4;

verus! {

/// How long a pending PKCE verifier stays usable, in seconds (15 minutes).
pub const PKCE_TTL_SECS: i64 = 900;

/// How long a session stays valid, in seconds (one day).
pub const SESSION_TTL_SECS: i64 = 86400;

/// The abstract content of an [`AuthStore`].
pub struct AuthState {
    /// Pending verifiers by CSRF token.
    pub pkce: Map<Seq<char>, PkceStoreView>,
    /// Sessions by session identifier.
    pub sessions: Map<u128, SessionRecord>,
    /// Players by player identifier.
    pub players: Map<i32, PlayerView>,
    /// The identifier the next new player gets.
    pub next_player_id: i32,
    /// The serial number the next pending verifier gets.
    pub next_pkce_id: i32,
}

pub open spec fn pkce_opt_view(r: Option<PkceStore>) -> Option<PkceStoreView> {
    match r {
        Some(e) => Some(e@),
        None => None,
    }
}

pub open spec fn player_opt_view(r: Option<Player>) -> Option<PlayerView> {
    match r {
        Some(p) => Some(p@),
        None => None,
    }
}

impl AuthState {
    /// Keys agree with the records, every session belongs to a stored
    /// player, player identifiers are below the next one, and no two players
    /// share an email.
    pub open spec fn valid(self) -> bool {
        &&& forall|t: Seq<char>| #[trigger]
            self.pkce.contains_key(t) ==> self.pkce[t].csrf_token == t && self.pkce[t].id
                < self.next_pkce_id && self.pkce[t].expires_at == self.pkce[t].created_at
                + PKCE_TTL_SECS
        &&& forall|a: Seq<char>, b: Seq<char>|
            #![trigger self.pkce[a], self.pkce[b]]
            self.pkce.contains_key(a) && self.pkce.contains_key(b) && self.pkce[a].id
                == self.pkce[b].id ==> a == b
        &&& forall|id: u128| #[trigger]
            self.sessions.contains_key(id) ==> self.sessions[id].session_id == id
                && self.players.contains_key(self.sessions[id].player_id)
                && self.sessions[id].expires_at == self.sessions[id].created_at + SESSION_TTL_SECS
        &&& forall|id: i32| #[trigger]
            self.players.contains_key(id) ==> self.players[id].player_id == id && id
                < self.next_player_id
        &&& forall|a: i32, b: i32|
            #![trigger self.players[a], self.players[b]]
            self.players.contains_key(a) && self.players.contains_key(b)
                && self.players[a].email == self.players[b].email ==> a == b
        &&& 1 <= self.next_player_id
        &&& 1 <= self.next_pkce_id
    }

    /// The pending verifier for `token` if it has not expired at `now`.
    pub open spec fn live_pkce(self, token: Seq<char>, now: i64) -> Option<PkceStoreView> {
        if self.pkce.contains_key(token) && now < self.pkce[token].expires_at {
            Some(self.pkce[token])
        } else {
            None
        }
    }

    /// The player of session `id` if the session has not expired at `now`.
    pub open spec fn session_player(self, id: u128, now: i64) -> Option<PlayerView> {
        if self.sessions.contains_key(id) && now < self.sessions[id].expires_at
            && self.players.contains_key(self.sessions[id].player_id) {
            Some(self.players[self.sessions[id].player_id])
        } else {
            None
        }
    }

    pub open spec fn has_email(self, email: Seq<char>) -> bool {
        exists|id: i32| self.players.contains_key(id) && #[trigger] self.players[id].email == email
    }

    /// The player registered with `email`, if any.
    pub open spec fn player_with_email(self, email: Seq<char>) -> Option<PlayerView> {
        if self.has_email(email) {
            Some(
                self.players[choose|id: i32|
                    self.players.contains_key(id) && #[trigger] self.players[id].email == email],
            )
        } else {
            None
        }
    }

    /// Whether storing a verifier under `token` succeeds: the token is
    /// already present, or a serial number is left for a new entry.
    pub open spec fn can_store_pkce(self, token: Seq<char>) -> bool {
        self.pkce.contains_key(token) || self.next_pkce_id < i32::MAX
    }

    /// After storing a verifier: a token already present is left as it is.
    pub open spec fn with_pkce(self, token: Seq<char>, verifier: Seq<char>, now: i64) -> AuthState {
        if self.pkce.contains_key(token) {
            self
        } else {
            AuthState {
                pkce: self.pkce.insert(
                    token,
                    PkceStoreView {
                        id: self.next_pkce_id,
                        csrf_token: token,
                        pkce_verifier: verifier,
                        created_at: now,
                        expires_at: (now + PKCE_TTL_SECS) as i64,
                    },
                ),
                next_pkce_id: (self.next_pkce_id + 1) as i32,
                ..self
            }
        }
    }

    /// After dropping every verifier that has expired at `now`.
    pub open spec fn without_expired_pkce(self, now: i64) -> AuthState {
        AuthState {
            pkce: Map::new(
                |t: Seq<char>| self.pkce.contains_key(t) && now < self.pkce[t].expires_at,
                |t: Seq<char>| self.pkce[t],
            ),
            ..self
        }
    }

    /// The record of a session issued at `now`.
    pub open spec fn new_session(id: u128, player_id: i32, now: i64) -> SessionRecord {
        SessionRecord {
            session_id: id,
            player_id,
            created_at: now,
            expires_at: (now + SESSION_TTL_SECS) as i64,
        }
    }

    /// After issuing session `id` to `player_id` at `now`.
    pub open spec fn with_session(self, id: u128, player_id: i32, now: i64) -> AuthState {
        AuthState {
            sessions: self.sessions.insert(id, Self::new_session(id, player_id, now)),
            ..self
        }
    }

    /// After keeping only the sessions that `f` keeps.
    pub open spec fn with_sessions_kept(self, f: SessionFilter) -> AuthState {
        AuthState {
            sessions: Map::new(
                |id: u128| self.sessions.contains_key(id) && f.keeps(self.sessions[id]),
                |id: u128| self.sessions[id],
            ),
            ..self
        }
    }

    /// After deleting session `id`.
    pub open spec fn without_session(self, id: u128) -> AuthState {
        AuthState { sessions: self.sessions.remove(id), ..self }
    }

    /// After dropping every session that has expired at `now`.
    pub open spec fn without_expired_sessions(self, now: i64) -> AuthState {
        AuthState {
            sessions: Map::new(
                |id: u128| self.sessions.contains_key(id) && now < self.sessions[id].expires_at,
                |id: u128| self.sessions[id],
            ),
            ..self
        }
    }

    /// The record a first login with `info` creates.
    pub open spec fn new_player(self, info: UserInfoView) -> PlayerView {
        PlayerView {
            player_id: self.next_player_id,
            name: info.name,
            given_name: info.given_name,
            family_name: info.family_name,
            email: info.email,
            access_group: Some(USER_GROUP@),
            is_goalkeeper: false,
        }
    }

    /// After inserting the player a first login with `info` creates.
    pub open spec fn with_player(self, info: UserInfoView) -> AuthState {
        AuthState {
            players: self.players.insert(self.next_player_id, self.new_player(info)),
            next_player_id: (self.next_player_id + 1) as i32,
            ..self
        }
    }

    /// After a login with `info`: a known email keeps its player, an unknown
    /// one gets a new player.
    pub open spec fn with_login(self, info: UserInfoView) -> AuthState {
        if self.has_email(info.email) {
            self
        } else {
            self.with_player(info)
        }
    }

    /// After setting the access group of player `id`.
    pub open spec fn with_access_group(self, id: i32, group: Option<Seq<char>>) -> AuthState {
        if self.players.contains_key(id) {
            AuthState {
                players: self.players.insert(
                    id,
                    PlayerView { access_group: group, ..self.players[id] },
                ),
                ..self
            }
        } else {
            self
        }
    }
}

/// A stored verifier reads back, unchanged, at every time from when it was
/// stored until 15 minutes later, and is gone from then on. Reading changes
/// nothing, so repeated reads agree.
pub proof fn lemma_pkce_readable_within_ttl(s: AuthState, token: Seq<char>, t: i64)
    requires
        s.valid(),
        s.pkce.contains_key(token),
    ensures
        s.pkce[token].expires_at == s.pkce[token].created_at + PKCE_TTL_SECS,
        s.pkce[token].created_at <= t < s.pkce[token].created_at + PKCE_TTL_SECS ==> s.live_pkce(
            token,
            t,
        ) == Some(s.pkce[token]),
        t >= s.pkce[token].created_at + PKCE_TTL_SECS ==> s.live_pkce(token, t) is None,
{
}

/// Storing a verifier under a fresh token keeps exactly that pair, stamped
/// with the time of storing.
pub proof fn lemma_pkce_store_keeps_pair(s: AuthState, token: Seq<char>, verifier: Seq<char>, t0: i64)
    requires
        s.valid(),
        !s.pkce.contains_key(token),
        t0 <= i64::MAX - PKCE_TTL_SECS,
    ensures
        s.with_pkce(token, verifier, t0).pkce.contains_key(token),
        s.with_pkce(token, verifier, t0).pkce[token].csrf_token == token,
        s.with_pkce(token, verifier, t0).pkce[token].pkce_verifier == verifier,
        s.with_pkce(token, verifier, t0).pkce[token].created_at == t0,
{
}

/// A session resolves to its player at every time from its issue until one
/// day later, and to nothing from then on.
pub proof fn lemma_session_valid_for_a_day(s: AuthState, id: u128, now: i64)
    requires
        s.valid(),
        s.sessions.contains_key(id),
    ensures
        s.sessions[id].created_at <= now < s.sessions[id].created_at + SESSION_TTL_SECS ==> s.session_player(
            id,
            now,
        ) == Some(s.players[s.sessions[id].player_id]),
        now >= s.sessions[id].created_at + SESSION_TTL_SECS ==> s.session_player(id, now) is None,
{
}

/// A second login with the same email creates no player: after the first
/// login, whatever sessions are issued, a login with the same email leaves
/// the players as they are and resolves to the same player.
pub proof fn lemma_login_twice_same_player(s: AuthState, a: UserInfoView, b: UserInfoView, t: AuthState)
    requires
        s.valid(),
        s.has_email(a.email) || s.next_player_id < i32::MAX,
        a.email == b.email,
        t.players == s.with_login(a).players,
        t.next_player_id == s.with_login(a).next_player_id,
    ensures
        t.has_email(b.email),
        t.with_login(b) == t,
        t.player_with_email(b.email) is Some,
        t.player_with_email(b.email) == s.with_login(a).player_with_email(a.email),
{
    let s1 = s.with_login(a);
    if !s.has_email(a.email) {
        let id = s.next_player_id;
        assert(s1.players.contains_key(id) && s1.players[id].email == a.email);
    }
}

/// Every entry of `v` is the record of its token in `m`, and every token of
/// `m` has an entry.
#[verifier::opaque]
closed spec fn pkce_table(v: Seq<PkceStore>, m: Map<Seq<char>, PkceStoreView>) -> bool {
    &&& forall|i: int|
        0 <= i < v.len() ==> m.contains_key(#[trigger] v[i].csrf_token@) && m[v[i].csrf_token@]
            == v[i]@
    &&& forall|t: Seq<char>| #[trigger]
        m.contains_key(t) ==> exists|i: int| 0 <= i < v.len() && #[trigger] v[i].csrf_token@ == t
}

/// Every entry of `v` is the record of its identifier in `m`, and every
/// identifier of `m` has an entry.
#[verifier::opaque]
closed spec fn session_table(v: Seq<SessionRecord>, m: Map<u128, SessionRecord>) -> bool {
    &&& forall|i: int|
        0 <= i < v.len() ==> m.contains_key(#[trigger] v[i].session_id) && m[v[i].session_id]
            == v[i]
    &&& forall|id: u128| #[trigger]
        m.contains_key(id) ==> exists|i: int| 0 <= i < v.len() && #[trigger] v[i].session_id == id
}

/// Every entry of `v` is the record of its identifier in `m`, every
/// identifier of `m` has an entry, and no identifier has two.
#[verifier::opaque]
closed spec fn player_table(v: Seq<Player>, m: Map<i32, PlayerView>) -> bool {
    &&& forall|i: int|
        0 <= i < v.len() ==> m.contains_key(#[trigger] v[i].player_id) && m[v[i].player_id]
            == v[i]@
    &&& forall|id: i32| #[trigger]
        m.contains_key(id) ==> exists|i: int| 0 <= i < v.len() && #[trigger] v[i].player_id == id
    &&& forall|i: int, j: int|
        0 <= i < v.len() && 0 <= j < v.len() && #[trigger] v[i].player_id == #[trigger] v[j].player_id
            ==> i == j
}

/// Which sessions a sweep of the session table keeps.
pub enum SessionFilter {
    /// Every session but the one with this identifier.
    Except(u128),
    /// The sessions still valid at this time.
    LiveAt(i64),
}

impl SessionFilter {
    pub open spec fn keeps(self, rec: SessionRecord) -> bool {
        match self {
            SessionFilter::Except(id) => rec.session_id != id,
            SessionFilter::LiveAt(now) => now < rec.expires_at,
        }
    }

    fn keeps_record(&self, rec: &SessionRecord) -> (r: bool)
        ensures
            r == self.keeps(*rec),
    {
        match self {
            SessionFilter::Except(id) => rec.session_id != *id,
            SessionFilter::LiveAt(now) => *now < rec.expires_at,
        }
    }
}

/// The authentication tables, held in memory.
pub struct AuthStore {
    pkce: Vec<PkceStore>,
    sessions: Vec<SessionRecord>,
    players: Vec<Player>,
    next_player_id: i32,
    next_pkce_id: i32,
    state: Ghost<AuthState>,
}

impl View for AuthStore {
    type V = AuthState;

    closed spec fn view(&self) -> AuthState {
        self.state@
    }
}

impl AuthStore {
    /// The vectors hold exactly the records of the view.
    pub closed spec fn wf(&self) -> bool {
        &&& self@.valid()
        &&& self.next_player_id == self@.next_player_id
        &&& self.next_pkce_id == self@.next_pkce_id
        &&& pkce_table(self.pkce@, self@.pkce)
        &&& session_table(self.sessions@, self@.sessions)
        &&& player_table(self.players@, self@.players)
    }

    /// A well-formed store's view is valid.
    pub proof fn lemma_wf_valid(&self)
        requires
            self.wf(),
        ensures
            self@.valid(),
    {
    }

    /// An empty store.
    pub fn new() -> (r: AuthStore)
        ensures
            r.wf(),
            r@.pkce == Map::<Seq<char>, PkceStoreView>::empty(),
            r@.sessions == Map::<u128, SessionRecord>::empty(),
            r@.players == Map::<i32, PlayerView>::empty(),
            r@.next_player_id == 1,
            r@.next_pkce_id == 1,
    {
        proof {
            reveal(pkce_table);
            reveal(session_table);
            reveal(player_table);
        }
        AuthStore {
            pkce: Vec::new(),
            sessions: Vec::new(),
            players: Vec::new(),
            next_player_id: 1,
            next_pkce_id: 1,
            state: Ghost(
                AuthState {
                    pkce: Map::empty(),
                    sessions: Map::empty(),
                    players: Map::empty(),
                    next_player_id: 1,
                    next_pkce_id: 1,
                },
            ),
        }
    }

    fn pkce_index(&self, token: &String) -> (r: Option<usize>)
        requires
            self.wf(),
        ensures
            r matches Some(i) ==> i < self.pkce@.len() && self.pkce@[i as int].csrf_token@
                == token@,
            r is None ==> !self@.pkce.contains_key(token@),
    {
        proof {
            reveal(pkce_table);
        }
        let mut i: usize = 0;
        while i < self.pkce.len()
            invariant
                self.wf(),
                i <= self.pkce@.len(),
                forall|j: int| 0 <= j < i ==> self.pkce@[j].csrf_token@ != token@,
            decreases self.pkce@.len() - i,
        {
            proof {
                reveal(pkce_table);
            }
            if self.pkce[i].csrf_token == *token {
                return Some(i);
            }
            i = i + 1;
        }
        None
    }

    /// Stores a PKCE verifier under its CSRF token, valid for 15 minutes from
    /// `now`. A token that is already stored keeps its entry. Fails with
    /// `Persistence`, changing nothing, only where serial numbers are
    /// exhausted.
    pub fn store_pkce_verifier(&mut self, csrf_token: String, pkce_verifier: String, now: i64) -> (r:
        Result<(), AuthError>)
        requires
            old(self).wf(),
            now <= i64::MAX - PKCE_TTL_SECS,
        ensures
            final(self).wf(),
            r is Ok <==> old(self)@.can_store_pkce(csrf_token@),
            r is Ok ==> final(self)@ == old(self)@.with_pkce(csrf_token@, pkce_verifier@, now),
            r is Err ==> r == Err::<(), AuthError>(AuthError::Persistence) && final(self)@ == old(
                self,
            )@,
    {
        proof {
            reveal(pkce_table);
        }
        match self.pkce_index(&csrf_token) {
            Some(_) => Ok(()),
            None => {
                if self.next_pkce_id == i32::MAX {
                    return Err(AuthError::Persistence);
                }
                let id = self.next_pkce_id;
                let ghost token = csrf_token@;
                let ghost entry = PkceStoreView {
                    id,
                    csrf_token: csrf_token@,
                    pkce_verifier: pkce_verifier@,
                    created_at: now,
                    expires_at: (now + PKCE_TTL_SECS) as i64,
                };
                let ghost old_pkce = self.pkce@;
                self.pkce.push(
                    PkceStore {
                        id,
                        csrf_token,
                        pkce_verifier,
                        created_at: now,
                        expires_at: now + PKCE_TTL_SECS,
                    },
                );
                self.next_pkce_id = id + 1;
                let ghost s0 = self.state@;
                self.state = Ghost(self.state@.with_pkce(token, entry.pkce_verifier, now));
                assert forall|i: int| 0 <= i < self.pkce@.len() implies self@.pkce.contains_key(
                    #[trigger] self.pkce@[i].csrf_token@,
                ) && self@.pkce[self.pkce@[i].csrf_token@] == self.pkce@[i]@ by {
                    if i < old_pkce.len() {
                        assert(self.pkce@[i] == old_pkce[i]);
                        assert(s0.pkce.contains_key(old_pkce[i].csrf_token@));
                    }
                }
                assert forall|t: Seq<char>| #[trigger] self@.pkce.contains_key(t) implies exists|
                    i: int,
                | 0 <= i < self.pkce@.len() && #[trigger] self.pkce@[i].csrf_token@ == t by {
                    if t == token {
                        assert(self.pkce@[old_pkce.len() as int].csrf_token@ == t);
                    } else {
                        let i = choose|i: int|
                            0 <= i < old_pkce.len() && #[trigger] old_pkce[i].csrf_token@ == t;
                        assert(self.pkce@[i].csrf_token@ == t);
                    }
                }
                Ok(())
            },
        }
    }

    /// The verifier stored under `csrf_token`, if it has not expired at `now`.
    /// Reading does not consume the entry.
    pub fn get_pkce_verifier(&self, csrf_token: &String, now: i64) -> (r: Option<PkceStore>)
        requires
            self.wf(),
        ensures
            pkce_opt_view(r) == self@.live_pkce(csrf_token@, now),
    {
        proof {
            reveal(pkce_table);
        }
        match self.pkce_index(csrf_token) {
            Some(i) => {
                if now < self.pkce[i].expires_at {
                    Some(self.pkce[i].duplicate())
                } else {
                    None
                }
            },
            None => None,
        }
    }

    /// Drops every pending verifier that has expired at `now`.
    pub fn delete_old_pkce(&mut self, now: i64)
        requires
            old(self).wf(),
        ensures
            final(self).wf(),
            final(self)@ == old(self)@.without_expired_pkce(now),
    {
        proof {
            reveal(pkce_table);
        }
        let ghost s0 = self@;
        let mut kept: Vec<PkceStore> = Vec::new();
        let mut i: usize = 0;
        while i < self.pkce.len()
            invariant
                self.wf(),
                self@ == s0,
                i <= self.pkce@.len(),
                forall|a: int|
                    0 <= a < kept@.len() ==> s0.pkce.contains_key(#[trigger] kept@[a].csrf_token@)
                        && s0.pkce[kept@[a].csrf_token@] == kept@[a]@ && now
                        < kept@[a].expires_at,
                forall|j: int|
                    0 <= j < i && now < self.pkce@[j].expires_at ==> exists|a: int|
                        0 <= a < kept@.len() && #[trigger] kept@[a].csrf_token@
                            == self.pkce@[j].csrf_token@,
            decreases self.pkce@.len() - i,
        {
            proof {
                reveal(pkce_table);
            }
            let ghost before = kept@;
            if now < self.pkce[i].expires_at {
                let e = self.pkce[i].duplicate();
                kept.push(e);
                assert(kept@[kept@.len() - 1].csrf_token@ == self.pkce@[i as int].csrf_token@);
            }
            assert forall|j: int|
                0 <= j < i + 1 && now < self.pkce@[j].expires_at implies exists|a: int|
                0 <= a < kept@.len() && #[trigger] kept@[a].csrf_token@
                    == self.pkce@[j].csrf_token@ by {
                if j < i {
                    let a = choose|a: int|
                        0 <= a < before.len() && #[trigger] before[a].csrf_token@
                            == self.pkce@[j].csrf_token@;
                    assert(kept@[a] == before[a]);
                } else {
                    assert(kept@[kept@.len() - 1].csrf_token@ == self.pkce@[j].csrf_token@);
                }
            }
            i = i + 1;
        }
        let ghost s1 = s0.without_expired_pkce(now);
        assert forall|t: Seq<char>| #[trigger] s1.pkce.contains_key(t) implies exists|a: int|
            0 <= a < kept@.len() && #[trigger] kept@[a].csrf_token@ == t by {
            let j = choose|j: int|
                0 <= j < self.pkce@.len() && #[trigger] self.pkce@[j].csrf_token@ == t;
            assert(now < self.pkce@[j].expires_at);
        }
        assert forall|a: int| 0 <= a < kept@.len() implies s1.pkce.contains_key(
            #[trigger] kept@[a].csrf_token@,
        ) && s1.pkce[kept@[a].csrf_token@] == kept@[a]@ by {
            assert(s0.pkce.contains_key(kept@[a].csrf_token@));
        }
        self.pkce = kept;
        self.state = Ghost(s1);
    }

    fn session_index(&self, id: u128) -> (r: Option<usize>)
        requires
            self.wf(),
        ensures
            r matches Some(i) ==> i < self.sessions@.len() && self.sessions@[i as int].session_id
                == id,
            r is None ==> !self@.sessions.contains_key(id),
    {
        proof {
            reveal(session_table);
        }
        let mut i: usize = 0;
        while i < self.sessions.len()
            invariant
                self.wf(),
                i <= self.sessions@.len(),
                forall|j: int| 0 <= j < i ==> self.sessions@[j].session_id != id,
            decreases self.sessions@.len() - i,
        {
            proof {
                reveal(session_table);
            }
            if self.sessions[i].session_id == id {
                return Some(i);
            }
            i = i + 1;
        }
        None
    }

    fn player_index(&self, id: i32) -> (r: Option<usize>)
        requires
            self.wf(),
        ensures
            r matches Some(i) ==> i < self.players@.len() && self.players@[i as int].player_id
                == id,
            r is None ==> !self@.players.contains_key(id),
    {
        proof {
            reveal(player_table);
        }
        let mut i: usize = 0;
        while i < self.players.len()
            invariant
                self.wf(),
                i <= self.players@.len(),
                forall|j: int| 0 <= j < i ==> self.players@[j].player_id != id,
            decreases self.players@.len() - i,
        {
            if self.players[i].player_id == id {
                return Some(i);
            }
            i = i + 1;
        }
        None
    }

    /// Issues session `session_id` to player `player_id` at `now`, valid for
    /// one day. Fails with `Persistence`, changing nothing, where the
    /// identifier is taken or the player does not exist.
    pub fn put_session(&mut self, session_id: u128, player_id: i32, now: i64) -> (r: Result<
        (),
        AuthError,
    >)
        requires
            old(self).wf(),
            now <= i64::MAX - SESSION_TTL_SECS,
        ensures
            final(self).wf(),
            r is Ok <==> !old(self)@.sessions.contains_key(session_id)
                && old(self)@.players.contains_key(player_id),
            r is Ok ==> final(self)@ == old(self)@.with_session(session_id, player_id, now),
            r is Err ==> r == Err::<(), AuthError>(AuthError::Persistence) && final(self)@ == old(self)@,
    {
        proof {
            reveal(session_table);
            reveal(player_table);
        }
        if self.session_index(session_id).is_some() || self.player_index(player_id).is_none() {
            return Err(AuthError::Persistence);
        }
        let ghost old_sessions = self.sessions@;
        let rec = SessionRecord {
            session_id,
            player_id,
            created_at: now,
            expires_at: now + SESSION_TTL_SECS,
        };
        self.sessions.push(rec);
        self.state = Ghost(self.state@.with_session(session_id, player_id, now));
        assert forall|id: u128| #[trigger] self@.sessions.contains_key(id) implies exists|i: int|
            0 <= i < self.sessions@.len() && #[trigger] self.sessions@[i].session_id == id by {
            if id == session_id {
                assert(self.sessions@[old_sessions.len() as int].session_id == id);
            } else {
                let i = choose|i: int|
                    0 <= i < old_sessions.len() && #[trigger] old_sessions[i].session_id == id;
                assert(self.sessions@[i].session_id == id);
            }
        }
        Ok(())
    }

    /// Issues a fresh random session to player `player_id` at `now` and
    /// returns its identifier. Fails with `Persistence`, changing nothing,
    /// where the player does not exist or the drawn identifier is taken.
    pub fn insert_session(&mut self, player_id: i32, now: i64) -> (r: Result<u128, AuthError>)
        requires
            old(self).wf(),
            now <= i64::MAX - SESSION_TTL_SECS,
        ensures
            final(self).wf(),
            !old(self)@.players.contains_key(player_id) ==> r == Err::<u128, AuthError>(
                AuthError::Persistence,
            ),
            old(self)@.players.contains_key(player_id) && old(self)@.sessions == Map::<
                u128,
                SessionRecord,
            >::empty() ==> r is Ok,
            r matches Ok(id) ==> (id >> 76u128) & 0xfu128 == 4u128 && (id >> 62u128) & 0x3u128
                == 2u128,
            r matches Ok(id) ==> !old(self)@.sessions.contains_key(id) && final(self)@ == old(self)@.with_session(id, player_id, now),
            r is Err ==> r == Err::<u128, AuthError>(AuthError::Persistence) && final(self)@
                == old(self)@,
    {
        let id = random_uuid_v4();
        match self.put_session(id, player_id, now) {
            Ok(()) => Ok(id),
            Err(e) => Err(e),
        }
    }

    /// The player of session `session_id`, if the session has not expired at
    /// `now`.
    pub fn get_player_by_session(&self, session_id: u128, now: i64) -> (r: Option<Player>)
        requires
            self.wf(),
        ensures
            player_opt_view(r) == self@.session_player(session_id, now),
    {
        proof {
            reveal(session_table);
            reveal(player_table);
        }
        match self.session_index(session_id) {
            None => None,
            Some(i) => {
                let rec = self.sessions[i];
                if now < rec.expires_at {
                    match self.player_index(rec.player_id) {
                        Some(k) => Some(self.players[k].duplicate()),
                        None => None,
                    }
                } else {
                    None
                }
            },
        }
    }

    /// Keeps the sessions that `f` keeps and drops the others.
    fn retain_sessions(&mut self, f: SessionFilter)
        requires
            old(self).wf(),
        ensures
            final(self).wf(),
            final(self)@ == old(self)@.with_sessions_kept(f),
    {
        proof {
            reveal(session_table);
        }
        let ghost s0 = self@;
        let mut kept: Vec<SessionRecord> = Vec::new();
        let mut i: usize = 0;
        while i < self.sessions.len()
            invariant
                self.wf(),
                self@ == s0,
                i <= self.sessions@.len(),
                forall|a: int|
                    0 <= a < kept@.len() ==> s0.sessions.contains_key(
                        #[trigger] kept@[a].session_id,
                    ) && s0.sessions[kept@[a].session_id] == kept@[a] && f.keeps(kept@[a]),
                forall|j: int|
                    0 <= j < i && f.keeps(self.sessions@[j]) ==> exists|a: int|
                        0 <= a < kept@.len() && #[trigger] kept@[a].session_id
                            == self.sessions@[j].session_id,
            decreases self.sessions@.len() - i,
        {
            proof {
                reveal(session_table);
            }
            let ghost before = kept@;
            let rec = self.sessions[i];
            if f.keeps_record(&rec) {
                kept.push(rec);
                assert(kept@[kept@.len() - 1].session_id == self.sessions@[i as int].session_id);
            }
            assert forall|j: int|
                0 <= j < i + 1 && f.keeps(self.sessions@[j]) implies exists|a: int|
                0 <= a < kept@.len() && #[trigger] kept@[a].session_id
                    == self.sessions@[j].session_id by {
                if j < i {
                    let a = choose|a: int|
                        0 <= a < before.len() && #[trigger] before[a].session_id
                            == self.sessions@[j].session_id;
                    assert(kept@[a] == before[a]);
                } else {
                    assert(kept@[kept@.len() - 1].session_id == self.sessions@[j].session_id);
                }
            }
            i = i + 1;
        }
        let ghost s1 = s0.with_sessions_kept(f);
        assert forall|id: u128| #[trigger] s1.sessions.contains_key(id) implies exists|a: int|
            0 <= a < kept@.len() && #[trigger] kept@[a].session_id == id by {
            let j = choose|j: int|
                0 <= j < self.sessions@.len() && #[trigger] self.sessions@[j].session_id == id;
        }
        assert forall|a: int| 0 <= a < kept@.len() implies s1.sessions.contains_key(
            #[trigger] kept@[a].session_id,
        ) && s1.sessions[kept@[a].session_id] == kept@[a] by {
            assert(s0.sessions.contains_key(kept@[a].session_id));
        }
        self.sessions = kept;
        self.state = Ghost(s1);
    }

    /// Deletes session `session_id`, if it exists.
    pub fn delete_session(&mut self, session_id: u128)
        requires
            old(self).wf(),
        ensures
            final(self).wf(),
            final(self)@ == old(self)@.without_session(session_id),
    {
        let ghost s0 = self@;
        self.retain_sessions(SessionFilter::Except(session_id));
        assert(self@.sessions =~= s0.sessions.remove(session_id));
    }

    /// Drops every session that has expired at `now`.
    pub fn delete_old_sessions(&mut self, now: i64)
        requires
            old(self).wf(),
        ensures
            final(self).wf(),
            final(self)@ == old(self)@.without_expired_sessions(now),
    {
        let ghost s0 = self@;
        self.retain_sessions(SessionFilter::LiveAt(now));
        assert(self@.sessions =~= s0.without_expired_sessions(now).sessions);
    }

    fn player_email_index(&self, email: &String) -> (r: Option<usize>)
        requires
            self.wf(),
        ensures
            r matches Some(i) ==> i < self.players@.len() && self.players@[i as int].email@
                == email@,
            r is None ==> !self@.has_email(email@),
    {
        proof {
            reveal(player_table);
        }
        let mut i: usize = 0;
        while i < self.players.len()
            invariant
                self.wf(),
                i <= self.players@.len(),
                forall|j: int| 0 <= j < i ==> self.players@[j].email@ != email@,
            decreases self.players@.len() - i,
        {
            proof {
                reveal(player_table);
            }
            if self.players[i].email == *email {
                return Some(i);
            }
            i = i + 1;
        }
        proof {
            if self@.has_email(email@) {
                let id = choose|id: i32|
                    self@.players.contains_key(id) && #[trigger] self@.players[id].email == email@;
                let j = choose|j: int|
                    0 <= j < self.players@.len() && #[trigger] self.players@[j].player_id == id;
                assert(self.players@[j].email@ == email@);
            }
        }
        None
    }

    proof fn lemma_player_at_index_has_email(&self, i: int)
        requires
            self.wf(),
            0 <= i < self.players@.len(),
        ensures
            self@.player_with_email(self.players@[i].email@) == Some(self.players@[i]@),
    {
        reveal(player_table);
        let e = self.players@[i].email@;
        let pid = self.players@[i].player_id;
        assert(self@.players.contains_key(pid) && self@.players[pid].email == e);
        let id = choose|id: i32| self@.players.contains_key(id) && #[trigger] self@.players[id].email == e;
        assert(self@.players[id].email == self@.players[pid].email);
    }

    /// The player registered with `email`, if any.
    pub fn get_player_by_email(&self, email: &String) -> (r: Option<Player>)
        requires
            self.wf(),
        ensures
            player_opt_view(r) == self@.player_with_email(email@),
    {
        match self.player_email_index(email) {
            Some(i) => {
                proof {
                    self.lemma_player_at_index_has_email(i as int);
                }
                Some(self.players[i].duplicate())
            },
            None => None,
        }
    }

    /// The player for a login with `info`: the one registered with its email,
    /// or else a new player in the `user` group. Fails with `Persistence`,
    /// changing nothing, only where a new player is needed and player
    /// identifiers are exhausted.
    pub fn login_player(&mut self, info: &UserInfo) -> (r: Result<Player, AuthError>)
        requires
            old(self).wf(),
        ensures
            final(self).wf(),
            r is Err <==> !old(self)@.has_email(info.email@) && old(self)@.next_player_id
                == i32::MAX,
            r matches Ok(p) ==> final(self)@ == old(self)@.with_login(info@) && Some(p@) == final(self)@.player_with_email(info.email@),
            r matches Ok(p) ==> (!old(self)@.has_email(info.email@) ==> p@ == old(self)@.new_player(info@)),
            r is Err ==> r == Err::<Player, AuthError>(AuthError::Persistence) && final(self)@
                == old(self)@,
    {
        match self.player_email_index(&info.email) {
            Some(i) => {
                proof {
                    self.lemma_player_at_index_has_email(i as int);
                }
                Ok(self.players[i].duplicate())
            },
            None => {
                if self.next_player_id == i32::MAX {
                    return Err(AuthError::Persistence);
                }
                proof {
                    reveal(player_table);
                }
                let ghost s0 = self@;
                let ghost old_players = self.players@;
                let id = self.next_player_id;
                let p = Player {
                    player_id: id,
                    name: info.name.clone(),
                    given_name: info.given_name.clone(),
                    family_name: info.family_name.clone(),
                    email: info.email.clone(),
                    access_group: Some(String::from_str(USER_GROUP)),
                    is_goalkeeper: false,
                };
                let out = p.duplicate();
                self.players.push(p);
                self.next_player_id = id + 1;
                self.state = Ghost(s0.with_player(info@));
                assert(!s0.players.contains_key(id));
                assert forall|k: int| 0 <= k < self.players@.len() implies self@.players.contains_key(
                    #[trigger] self.players@[k].player_id,
                ) && self@.players[self.players@[k].player_id] == self.players@[k]@ by {
                    if k < old_players.len() {
                        assert(self.players@[k] == old_players[k]);
                        assert(s0.players.contains_key(old_players[k].player_id));
                    }
                }
                assert forall|pid: i32| #[trigger] self@.players.contains_key(pid) implies exists|
                    k: int,
                | 0 <= k < self.players@.len() && #[trigger] self.players@[k].player_id == pid by {
                    if pid == id {
                        assert(self.players@[old_players.len() as int].player_id == pid);
                    } else {
                        let k = choose|k: int|
                            0 <= k < old_players.len() && #[trigger] old_players[k].player_id == pid;
                        assert(self.players@[k].player_id == pid);
                    }
                }
                assert forall|a: int, b: int|
                    0 <= a < self.players@.len() && 0 <= b < self.players@.len()
                        && #[trigger] self.players@[a].player_id == #[trigger] self.players@[b].player_id
                    implies a == b by {
                    if a < old_players.len() {
                        assert(s0.players.contains_key(old_players[a].player_id));
                    }
                    if b < old_players.len() {
                        assert(s0.players.contains_key(old_players[b].player_id));
                    }
                }
                assert forall|a: i32, b: i32|
                    #![trigger self@.players[a], self@.players[b]]
                    self@.players.contains_key(a) && self@.players.contains_key(b)
                        && self@.players[a].email == self@.players[b].email implies a == b by {
                    if a == id && b != id {
                        assert(s0.players.contains_key(b) && s0.players[b].email == info.email@);
                    }
                    if b == id && a != id {
                        assert(s0.players.contains_key(a) && s0.players[a].email == info.email@);
                    }
                }
                proof {
                    let k = old_players.len() as int;
                    assert(self.players@[k]@ == out@);
                    self.lemma_player_at_index_has_email(k);
                }
                Ok(out)
            },
        }
    }

    /// Sets the access group of player `player_id`. Returns whether such a
    /// player exists; where none does, nothing changes.
    pub fn set_access_group(&mut self, player_id: i32, group: Option<String>) -> (r: bool)
        requires
            old(self).wf(),
        ensures
            final(self).wf(),
            r == old(self)@.players.contains_key(player_id),
            final(self)@ == old(self)@.with_access_group(player_id, opt_string_view(group)),
    {
        match self.player_index(player_id) {
            None => false,
            Some(i) => {
                proof {
                    reveal(player_table);
                }
                let ghost s0 = self@;
                let ghost old_players = self.players@;
                let ghost gv = opt_string_view(group);
                let old_p = self.players[i].duplicate();
                let p = Player { access_group: group, ..old_p };
                self.players.set(i, p);
                self.state = Ghost(s0.with_access_group(player_id, gv));
                assert(s0.players.contains_key(player_id));
                assert forall|k: int| 0 <= k < self.players@.len() implies self@.players.contains_key(
                    #[trigger] self.players@[k].player_id,
                ) && self@.players[self.players@[k].player_id] == self.players@[k]@ by {
                    if k != i {
                        assert(self.players@[k] == old_players[k]);
                        assert(old_players[k].player_id != old_players[i as int].player_id);
                    }
                }
                assert forall|pid: i32| #[trigger] self@.players.contains_key(pid) implies exists|
                    k: int,
                | 0 <= k < self.players@.len() && #[trigger] self.players@[k].player_id == pid by {
                    let k = choose|k: int|
                        0 <= k < old_players.len() && #[trigger] old_players[k].player_id == pid;
                    assert(self.players@[k].player_id == pid);
                }
                assert forall|a: int, b: int|
                    0 <= a < self.players@.len() && 0 <= b < self.players@.len()
                        && #[trigger] self.players@[a].player_id == #[trigger] self.players@[b].player_id
                    implies a == b by {
                    assert(self.players@[a].player_id == old_players[a].player_id);
                    assert(self.players@[b].player_id == old_players[b].player_id);
                }
                true
            },
        }
    }
}

} // verus!
