//! Records of the authentication core and their mathematical views.
use vstd::prelude::*;

verus! {

/// The access group that grants administration.
pub const ADMIN_GROUP: &'static str = "admin";

/// The access group given to a player created at first login.
pub const USER_GROUP: &'static str = "user";

/// A member of the club, as stored.
#[derive(Debug)]
pub struct Player {
    pub player_id: i32,
    pub name: String,
    pub given_name: String,
    pub family_name: String,
    pub email: String,
    pub access_group: Option<String>,
    pub is_goalkeeper: bool,
}

pub struct PlayerView {
    pub player_id: i32,
    pub name: Seq<char>,
    pub given_name: Seq<char>,
    pub family_name: Seq<char>,
    pub email: Seq<char>,
    pub access_group: Option<Seq<char>>,
    pub is_goalkeeper: bool,
}

pub open spec fn opt_string_view(s: Option<String>) -> Option<Seq<char>> {
    match s {
        Some(g) => Some(g@),
        None => None,
    }
}

impl View for Player {
    type V = PlayerView;

    open spec fn view(&self) -> PlayerView {
        PlayerView {
            player_id: self.player_id,
            name: self.name@,
            given_name: self.given_name@,
            family_name: self.family_name@,
            email: self.email@,
            access_group: opt_string_view(self.access_group),
            is_goalkeeper: self.is_goalkeeper,
        }
    }
}

/// An access group grants administration when it is exactly `admin`.
pub open spec fn is_admin_group(g: Option<Seq<char>>) -> bool {
    g == Some(ADMIN_GROUP@)
}

/// The group given at first login does not grant administration.
pub proof fn lemma_user_group_is_not_admin()
    ensures
        USER_GROUP@ != ADMIN_GROUP@,
        !is_admin_group(Some(USER_GROUP@)),
{
    reveal_strlit("user");
    reveal_strlit("admin");
    assert(USER_GROUP@.len() != ADMIN_GROUP@.len());
}

fn copy_opt_string(s: &Option<String>) -> (r: Option<String>)
    ensures
        opt_string_view(r) == opt_string_view(*s),
{
    match s {
        Some(g) => Some(g.clone()),
        None => None,
    }
}

impl Player {
    /// A copy of this record.
    pub fn duplicate(&self) -> (r: Player)
        ensures
            r@ == self@,
    {
        Player {
            player_id: self.player_id,
            name: self.name.clone(),
            given_name: self.given_name.clone(),
            family_name: self.family_name.clone(),
            email: self.email.clone(),
            access_group: copy_opt_string(&self.access_group),
            is_goalkeeper: self.is_goalkeeper,
        }
    }

    /// Whether this player's access group grants administration.
    pub fn is_admin(&self) -> (r: bool)
        ensures
            r == is_admin_group(self@.access_group),
    {
        match &self.access_group {
            Some(g) => {
                let admin = String::from_str(ADMIN_GROUP);
                *g == admin
            },
            None => false,
        }
    }
}

/// What the identity provider's userinfo endpoint says of the person who
/// logged in.
#[derive(Debug)]
pub struct UserInfo {
    pub name: String,
    pub given_name: String,
    pub family_name: String,
    pub email: String,
}

pub struct UserInfoView {
    pub name: Seq<char>,
    pub given_name: Seq<char>,
    pub family_name: Seq<char>,
    pub email: Seq<char>,
}

impl View for UserInfo {
    type V = UserInfoView;

    open spec fn view(&self) -> UserInfoView {
        UserInfoView {
            name: self.name@,
            given_name: self.given_name@,
            family_name: self.family_name@,
            email: self.email@,
        }
    }
}

/// A PKCE verifier waiting for the provider's callback, keyed by the CSRF
/// (state) token that travels with the login. Times are Unix seconds.
#[derive(Debug)]
pub struct PkceStore {
    /// Serial number of the entry.
    pub id: i32,
    pub csrf_token: String,
    pub pkce_verifier: String,
    pub created_at: i64,
    pub expires_at: i64,
}

pub struct PkceStoreView {
    pub id: i32,
    pub csrf_token: Seq<char>,
    pub pkce_verifier: Seq<char>,
    pub created_at: i64,
    pub expires_at: i64,
}

impl View for PkceStore {
    type V = PkceStoreView;

    open spec fn view(&self) -> PkceStoreView {
        PkceStoreView {
            id: self.id,
            csrf_token: self.csrf_token@,
            pkce_verifier: self.pkce_verifier@,
            created_at: self.created_at,
            expires_at: self.expires_at,
        }
    }
}

impl PkceStore {
    /// A copy of this record.
    pub fn duplicate(&self) -> (r: PkceStore)
        ensures
            r@ == self@,
    {
        PkceStore {
            id: self.id,
            csrf_token: self.csrf_token.clone(),
            pkce_verifier: self.pkce_verifier.clone(),
            created_at: self.created_at,
            expires_at: self.expires_at,
        }
    }
}

/// A server-side session: the bearer identifier, the player it belongs to,
/// and when it was issued and stops being valid (Unix seconds).
#[derive(Debug, Clone, Copy, PartialEq, Eq, Structural)]
pub struct SessionRecord {
    pub session_id: u128,
    pub player_id: i32,
    pub created_at: i64,
    pub expires_at: i64,
}

} // verus!
