//! Sign-in through the directory, sessions and their tokens.
use vstd::prelude::*;
use vstd::string::*;

use crate::errors::AppError;
use crate::support::{
    hex_text, new_uuid, now_micros, sha256_digest, spec_sha256, to_hex, valid_instant, Timestamp,
    MAX_INSTANT, MIN_INSTANT,
    MICROS_PER_DAY, MICROS_PER_MINUTE, MICROS_PER_SECOND,
};
use crate::users::{User, UserId, UserRole};

verus! {

/// Settings of sign-in: the directory, and how long tokens and sessions
/// last.
#[derive(Clone, Debug)]
pub struct AuthConfig {
    pub ldap_url: String,
    pub ldap_admin_user: String,
    pub ldap_admin_password: String,
    pub ldap_base_dn: String,
    pub access_exp_minutes: i64,
    pub refresh_exp_days: i64,
    pub session_exp_days: i64,
    pub jwt_secret: String,
}

/// Identifier of a session.
pub type SessionId = u128;

/// A sign-in session: the hash of its current refresh token and when it
/// and that token expire.
#[derive(Clone, Debug)]
pub struct Session {
    pub id: SessionId,
    pub user_id: UserId,
    pub refresh_token_hash: String,
    pub created_at: Timestamp,
    pub expires_at: Timestamp,
    pub refresh_expires_at: Timestamp,
    pub revoked_at: Option<Timestamp>,
}

/// What a token carries: its session, its user, when it expires (in
/// seconds since the epoch) and its kind (`access` or `refresh`).
#[derive(Clone, Debug)]
pub struct SessionClaims {
    pub session_id: SessionId,
    pub user_id: UserId,
    pub exp: i64,
    pub typ: String,
}

/// What the directory tells of a user.
#[derive(Clone, Debug)]
pub struct LdapUserInfo {
    pub email: String,
    pub name: String,
    pub role: UserRole,
}

/// The attributes of a directory entry that sign-in reads, each with the
/// values the directory gave for it, where it gave the attribute.
#[derive(Clone, Debug)]
pub struct LdapEntry {
    pub mail: Option<Vec<String>>,
    pub cn: Option<Vec<String>>,
    pub gid_number: Option<Vec<String>>,
}

/// Reads the directory; what it reads is decided here.
pub struct LdapClient {
    pub config: AuthConfig,
}

/// Signs users in and keeps their sessions.
pub struct AuthService {
    pub config: AuthConfig,
}

/// The answer to a request to refresh a token.
#[derive(Clone, Debug)]
pub enum RefreshCheck {
    /// Refused; nothing changes.
    Rejected(AppError),
    /// Refused; the session, now revoked, is to be saved.
    Revoked(Session, AppError),
    /// Accepted: new tokens are to be issued for the session.
    Accepted(Session),
}

/// The text under which a token is stored: the lowercase hexadecimal
/// SHA-256 digest of its UTF-8 bytes.
pub open spec fn token_hash(token: Seq<char>) -> Seq<char> {
    hex_text(spec_sha256(vstd::utf8::encode_utf8(token)))
}

/// `now` moved by `n` spans of `unit` microseconds.
pub open spec fn shifted(now: int, n: int, unit: int) -> int {
    now + n * unit
}

/// Whole seconds since the epoch of an instant, rounded down.
pub open spec fn seconds_of(t: int) -> int {
    t / (MICROS_PER_SECOND as int)
}

/// Whether `r` is what issuing the access and refresh tokens of a session
/// at instant `now` gives: both claims where both expiries are instants
/// chrono represents, else nothing.
pub open spec fn issued_claims(
    config: AuthConfig,
    session_id: SessionId,
    user_id: UserId,
    now: int,
    r: Option<(SessionClaims, SessionClaims)>,
) -> bool {
    let access_end = shifted(now, config.access_exp_minutes as int, MICROS_PER_MINUTE as int);
    let refresh_end = shifted(now, config.refresh_exp_days as int, MICROS_PER_DAY as int);
    match r {
        None => !(valid_instant(access_end) && valid_instant(refresh_end)),
        Some((a, f)) => {
            &&& valid_instant(access_end) && valid_instant(refresh_end)
            &&& a.session_id == session_id && a.user_id == user_id
            &&& a.exp == seconds_of(access_end) && a.typ@ == "access"@
            &&& f.session_id == session_id && f.user_id == user_id
            &&& f.exp == seconds_of(refresh_end) && f.typ@ == "refresh"@
        },
    }
}

/// The first value given for an attribute, if any.
pub open spec fn first_value(values: Option<Vec<String>>) -> Option<Seq<char>> {
    match values {
        Some(v) => if v@.len() > 0 {
            Some(v@[0]@)
        } else {
            None
        },
        None => None,
    }
}

/// The role a directory group gives: group 600 is `Func`; every other
/// group, or none, is `Student`.
pub open spec fn role_for_group(gid: Option<Seq<char>>) -> UserRole {
    if gid == Some("600"@) {
        UserRole::Func
    } else {
        UserRole::Student
    }
}

/// What the directory's entries tell of a user, or why they tell nothing:
/// the first entry is read; it must give a mail; the name falls back to
/// the user name.
pub open spec fn info_from_entries(entries: Seq<LdapEntry>, username: Seq<char>) -> Option<(Seq<char>, Seq<char>, UserRole)> {
    if entries.len() == 0 {
        None
    } else {
        let e = entries[0];
        match first_value(e.mail) {
            None => None,
            Some(mail) => Some(
                (
                    mail,
                    match first_value(e.cn) {
                        Some(n) => n,
                        None => username,
                    },
                    role_for_group(first_value(e.gid_number)),
                ),
            ),
        }
    }
}

/// What a refresh request at instant `now` is answered, given the kind of
/// the decoded token, the token and the active session it names: a wrong
/// kind is refused as invalid, a missing session as not found; an expired
/// token revokes the session as not found, a token that is not the
/// session's current one revokes it as invalid; else it is accepted.
pub open spec fn refresh_outcome(
    typ: Seq<char>,
    token: Seq<char>,
    session: Option<Session>,
    now: Timestamp,
    r: RefreshCheck,
) -> bool {
    if typ != "refresh"@ {
        r matches RefreshCheck::Rejected(AppError::InvalidToken)
    } else {
        match session {
            None => r matches RefreshCheck::Rejected(AppError::TokenNotFound),
            Some(s) => if s.refresh_expires_at <= now {
                r matches RefreshCheck::Revoked(v, AppError::TokenNotFound) && v == (Session {
                    revoked_at: Some(now),
                    ..s
                })
            } else if token_hash(token) != s.refresh_token_hash@ {
                r matches RefreshCheck::Revoked(v, AppError::InvalidToken) && v == (Session {
                    revoked_at: Some(now),
                    ..s
                })
            } else {
                r == RefreshCheck::Accepted(s)
            },
        }
    }
}

/// A refresh token that is not the session's current one revokes the
/// session, whatever the time: `r` is the session revoked, all else kept.
pub open spec fn revoked_on_reuse(
    typ: Seq<char>,
    token: Seq<char>,
    session: Option<Session>,
    r: RefreshCheck,
) -> bool {
    match session {
        Some(s) => typ == "refresh"@ && token_hash(token) != s.refresh_token_hash@ ==> match r {
            RefreshCheck::Revoked(v, _) => v == (Session { revoked_at: v.revoked_at, ..s })
                && v.revoked_at is Some,
            _ => false,
        },
        None => true,
    }
}

/// The session opened at instant `now`, or `None` where its expiries fall
/// outside the instants chrono represents.
pub open spec fn new_session_outcome(
    config: AuthConfig,
    session_id: SessionId,
    user_id: UserId,
    refresh_token: Seq<char>,
    now: int,
    r: Option<Session>,
) -> bool {
    let end = shifted(now, config.session_exp_days as int, MICROS_PER_DAY as int);
    let refresh_end = shifted(now, config.refresh_exp_days as int, MICROS_PER_DAY as int);
    match r {
        None => !(valid_instant(end) && valid_instant(refresh_end)),
        Some(s) => {
            &&& valid_instant(end) && valid_instant(refresh_end)
            &&& s.id == session_id
            &&& s.user_id == user_id
            &&& s.refresh_token_hash@ == token_hash(refresh_token)
            &&& s.created_at == now
            &&& s.expires_at == end
            &&& s.refresh_expires_at == refresh_end
            &&& s.revoked_at is None
        },
    }
}

/// Whether a refresh token of kind `typ` may renew `session` at instant
/// `now`: the session exists, its refresh token has not expired, and the
/// token is the one whose hash it stores.
pub open spec fn refresh_accepted(typ: Seq<char>, token: Seq<char>, session: Option<Session>, now: int) -> bool {
    &&& typ == "refresh"@
    &&& session matches Some(s)
    &&& now < s.refresh_expires_at
    &&& token_hash(token) == s.refresh_token_hash@
}

/// `now` moved by `n` spans of `unit` microseconds, where the result is
/// an instant chrono represents.
pub fn shift_instant(now: Timestamp, n: i64, unit: i64) -> (r: Option<Timestamp>)
    requires
        0 < unit <= MICROS_PER_DAY,
    ensures
        match r {
            Some(t) => valid_instant(shifted(now as int, n as int, unit as int)) && t == shifted(
                now as int,
                n as int,
                unit as int,
            ),
            None => !valid_instant(shifted(now as int, n as int, unit as int)),
        },
{
    assert(-0x8000_0000_0000_0000_0000_0000_0000 <= (n as int) * (unit as int) <= 0x8000_0000_0000_0000_0000_0000_0000) by (nonlinear_arith)
        requires
            -0x8000_0000_0000_0000 <= n < 0x8000_0000_0000_0000,
            0 < unit <= 86_400_000_000,
    ;
    let span: i128 = (n as i128) * (unit as i128);
    let t: i128 = (now as i128) + span;
    if (MIN_INSTANT as i128) <= t && t <= (MAX_INSTANT as i128) {
        Some(t as i64)
    } else {
        None
    }
}

/// Whole seconds since the epoch of an instant, rounded down, as chrono's
/// `timestamp` gives them.
pub fn seconds(t: Timestamp) -> (r: i64)
    ensures
        r == seconds_of(t as int),
{
    match t.checked_div_euclid(MICROS_PER_SECOND) {
        Some(s) => s,
        None => {
            assert(false);
            0
        },
    }
}

/// The first value given for an attribute, if any.
fn first_of(values: &Option<Vec<String>>) -> (r: Option<String>)
    ensures
        match r {
            Some(s) => first_value(*values) == Some(s@),
            None => first_value(*values) is None,
        },
{
    match values {
        Some(v) => if v.len() > 0 {
            Some(v[0].clone())
        } else {
            None
        },
        None => None,
    }
}

impl LdapClient {
    /// The name the administrator binds with: its user, a comma, then the
    /// base of the directory.
    pub fn admin_dn(&self) -> (r: String)
        ensures
            r@ == self.config.ldap_admin_user@ + ","@ + self.config.ldap_base_dn@,
    {
        let mut r = String::from_str(self.config.ldap_admin_user.as_str());
        r.append(",");
        r.append(self.config.ldap_base_dn.as_str());
        r
    }

    /// The search filter that finds a user by name: `(uid=<username>)`.
    pub fn user_filter(username: &str) -> (r: String)
        ensures
            r@ == "(uid="@ + username@ + ")"@,
    {
        let mut r = String::from_str("(uid=");
        r.append(username);
        r.append(")");
        r
    }

    /// The distinguished name of a user among the names the search found:
    /// the first; none found is refused with the user's name.
    pub fn find_user_dn(&self, username: &str, found: Vec<String>) -> (r: Result<String, AppError>)
        ensures
            found@.len() == 0 ==> (r matches Err(AppError::LdapUsernameNotFound(u)) && u@
                == username@),
            found@.len() > 0 ==> (r matches Ok(dn) && dn@ == found@[0]@),
    {
        if found.len() == 0 {
            return Err(AppError::LdapUsernameNotFound(String::from_str(username)));
        }
        Ok(found[0].clone())
    }

    /// What the entries found under a user's name tell of the user.
    pub fn find_user_info(&self, username: &str, entries: &Vec<LdapEntry>) -> (r: Result<
        LdapUserInfo,
        AppError,
    >)
        ensures
            match info_from_entries(entries@, username@) {
                None => r matches Err(AppError::LdapEmailNotFound),
                Some((mail, name, role)) => r matches Ok(info) && info.email@ == mail
                    && info.name@ == name && info.role == role,
            },
    {
        if entries.len() == 0 {
            return Err(AppError::LdapEmailNotFound);
        }
        let entry = &entries[0];
        let email = match first_of(&entry.mail) {
            None => {
                return Err(AppError::LdapEmailNotFound);
            },
            Some(m) => m,
        };
        let name = match first_of(&entry.cn) {
            Some(n) => n,
            None => String::from_str(username),
        };
        let role = match first_of(&entry.gid_number) {
            Some(g) => {
                let func_group = String::from_str("600");
                if g == func_group {
                    UserRole::Func
                } else {
                    UserRole::Student
                }
            },
            None => UserRole::Student,
        };
        Ok(LdapUserInfo { email, name, role })
    }
}

impl AuthService {
    /// The text under which a token is stored.
    pub fn hash_token(token: &str) -> (r: String)
        ensures
            r@ == token_hash(token@),
    {
        let digest = sha256_digest(token.as_bytes());
        to_hex(digest.as_slice())
    }

    /// The user who signs in: the one stored under the name, or else a new
    /// one with id `new_id` made from what the directory tells.
    pub fn signed_in_user(username: String, info: LdapUserInfo, existing: Option<User>, new_id: UserId) -> (r: User)
        ensures
            match existing {
                Some(u) => r == u,
                None => r == (User {
                    id: new_id,
                    username,
                    email: info.email,
                    name: info.name,
                    role: info.role,
                }),
            },
    {
        match existing {
            Some(u) => u,
            None => User {
                id: new_id,
                username,
                email: info.email,
                name: info.name,
                role: info.role,
            },
        }
    }

    /// The claims of a token of kind `typ` issued at `now` that lasts `n`
    /// spans of `unit` microseconds.
    fn claims_at(session_id: SessionId, user_id: UserId, now: Timestamp, n: i64, unit: i64, typ: &str) -> (r: SessionClaims)
        requires
            0 < unit <= MICROS_PER_DAY,
            valid_instant(shifted(now as int, n as int, unit as int)),
        ensures
            r.session_id == session_id,
            r.user_id == user_id,
            r.exp == seconds_of(shifted(now as int, n as int, unit as int)),
            r.typ@ == typ@,
    {
        let exp = match shift_instant(now, n, unit) {
            Some(t) => seconds(t),
            None => 0,
        };
        SessionClaims { session_id, user_id, exp, typ: String::from_str(typ) }
    }

    /// The claims of an access token issued at `now`: it lasts the
    /// configured minutes.
    pub fn access_claims_at(&self, session_id: SessionId, user_id: UserId, now: Timestamp) -> (r: SessionClaims)
        requires
            valid_instant(
                shifted(now as int, self.config.access_exp_minutes as int, MICROS_PER_MINUTE as int),
            ),
        ensures
            r.session_id == session_id,
            r.user_id == user_id,
            r.exp == seconds_of(
                shifted(now as int, self.config.access_exp_minutes as int, MICROS_PER_MINUTE as int),
            ),
            r.typ@ == "access"@,
    {
        Self::claims_at(session_id, user_id, now, self.config.access_exp_minutes, MICROS_PER_MINUTE, "access")
    }

    /// The claims of a refresh token issued at `now`: it lasts the
    /// configured days.
    pub fn refresh_claims_at(&self, session_id: SessionId, user_id: UserId, now: Timestamp) -> (r: SessionClaims)
        requires
            valid_instant(
                shifted(now as int, self.config.refresh_exp_days as int, MICROS_PER_DAY as int),
            ),
        ensures
            r.session_id == session_id,
            r.user_id == user_id,
            r.exp == seconds_of(
                shifted(now as int, self.config.refresh_exp_days as int, MICROS_PER_DAY as int),
            ),
            r.typ@ == "refresh"@,
    {
        Self::claims_at(session_id, user_id, now, self.config.refresh_exp_days, MICROS_PER_DAY, "refresh")
    }

    /// The claims of the access and the refresh token issued now, or `None`
    /// where their expiry falls outside the instants chrono represents.
    pub fn issue_claims(&self, session_id: SessionId, user_id: UserId) -> (r: Option<(SessionClaims, SessionClaims)>)
        ensures
            exists|now: Timestamp|
                valid_instant(now as int) && #[trigger] issued_claims(
                    self.config,
                    session_id,
                    user_id,
                    now as int,
                    r,
                ),
    {
        let now = now_micros();
        let r = match (
            shift_instant(now, self.config.access_exp_minutes, MICROS_PER_MINUTE),
            shift_instant(now, self.config.refresh_exp_days, MICROS_PER_DAY),
        ) {
            (Some(_), Some(_)) => Some(
                (
                    self.access_claims_at(session_id, user_id, now),
                    self.refresh_claims_at(session_id, user_id, now),
                ),
            ),
            _ => None,
        };
        assert(issued_claims(self.config, session_id, user_id, now as int, r));
        r
    }

    /// The session opened at `now` for a user who signed in, storing the
    /// hash of its refresh token.
    pub fn new_session_at(&self, session_id: SessionId, user_id: UserId, refresh_token: &str, now: Timestamp) -> (r: Session)
        requires
            valid_instant(
                shifted(now as int, self.config.session_exp_days as int, MICROS_PER_DAY as int),
            ),
            valid_instant(
                shifted(now as int, self.config.refresh_exp_days as int, MICROS_PER_DAY as int),
            ),
        ensures
            r.id == session_id,
            r.user_id == user_id,
            r.refresh_token_hash@ == token_hash(refresh_token@),
            r.created_at == now,
            r.expires_at == shifted(now as int, self.config.session_exp_days as int, MICROS_PER_DAY as int),
            r.refresh_expires_at == shifted(
                now as int,
                self.config.refresh_exp_days as int,
                MICROS_PER_DAY as int,
            ),
            r.revoked_at is None,
    {
        let expires_at = match shift_instant(now, self.config.session_exp_days, MICROS_PER_DAY) {
            Some(t) => t,
            None => now,
        };
        let refresh_expires_at = match shift_instant(now, self.config.refresh_exp_days, MICROS_PER_DAY) {
            Some(t) => t,
            None => now,
        };
        Session {
            id: session_id,
            user_id,
            refresh_token_hash: Self::hash_token(refresh_token),
            created_at: now,
            expires_at,
            refresh_expires_at,
            revoked_at: None,
        }
    }

    /// A fresh session id, for a new session: a random (version 4) UUID,
    /// whose version nibble is 4 and whose variant bits are `10`.
    pub fn new_session_id() -> (r: SessionId)
        ensures
            r & 0xF000_C000_0000_0000_0000u128 == 0x4000_8000_0000_0000_0000u128,
    {
        new_uuid()
    }

    /// The session opened now, or `None` where its expiry falls outside the
    /// instants chrono represents.
    pub fn new_session(&self, session_id: SessionId, user_id: UserId, refresh_token: &str) -> (r: Option<Session>)
        ensures
            exists|now: Timestamp|
                valid_instant(now as int) && #[trigger] new_session_outcome(
                    self.config,
                    session_id,
                    user_id,
                    refresh_token@,
                    now as int,
                    r,
                ),
    {
        let now = now_micros();
        match (
            shift_instant(now, self.config.session_exp_days, MICROS_PER_DAY),
            shift_instant(now, self.config.refresh_exp_days, MICROS_PER_DAY),
        ) {
            (Some(_), Some(_)) => {
                let r = Some(self.new_session_at(session_id, user_id, refresh_token, now));
                assert(new_session_outcome(self.config, session_id, user_id, refresh_token@, now as int, r));
                r
            },
            _ => {
                assert(new_session_outcome(self.config, session_id, user_id, refresh_token@, now as int, None));
                None
            },
        }
    }

    /// Decides a refresh request at instant `now`, given the kind of the
    /// decoded token, the token itself and the active session it names, as
    /// the database found it. A wrong kind is refused as invalid, a missing
    /// session as not found; an expired token or a token that is not the
    /// session's current one revokes the session.
    pub fn check_refresh_at(&self, typ: &str, token: &str, session: Option<Session>, now: Timestamp) -> (r: RefreshCheck)
        ensures
            refresh_outcome(typ@, token@, session, now, r),
            r is Accepted <==> refresh_accepted(typ@, token@, session, now as int),
    {
        let refresh_kind = String::from_str("refresh");
        let kind = String::from_str(typ);
        if kind != refresh_kind {
            return RefreshCheck::Rejected(AppError::InvalidToken);
        }
        let mut s = match session {
            None => {
                return RefreshCheck::Rejected(AppError::TokenNotFound);
            },
            Some(s) => s,
        };
        if s.refresh_expires_at <= now {
            s.revoked_at = Some(now);
            return RefreshCheck::Revoked(s, AppError::TokenNotFound);
        }
        let incoming = Self::hash_token(token);
        if incoming != s.refresh_token_hash {
            s.revoked_at = Some(now);
            return RefreshCheck::Revoked(s, AppError::InvalidToken);
        }
        RefreshCheck::Accepted(s)
    }

    /// `check_refresh_at` now.
    pub fn check_refresh(&self, typ: &str, token: &str, session: Option<Session>) -> (r: RefreshCheck)
        ensures
            typ@ != "refresh"@ ==> r matches RefreshCheck::Rejected(AppError::InvalidToken),
            typ@ == "refresh"@ && session is None ==> r matches RefreshCheck::Rejected(
                AppError::TokenNotFound,
            ),
            r matches RefreshCheck::Accepted(s) ==> session == Some(s),
            r matches RefreshCheck::Revoked(v, _) ==> session matches Some(s) && v.id == s.id
                && v.revoked_at is Some,
            revoked_on_reuse(typ@, token@, session, r),
            exists|now: Timestamp|
                valid_instant(now as int) && #[trigger] refresh_outcome(typ@, token@, session, now, r),
    {
        let now = now_micros();
        let r = self.check_refresh_at(typ, token, session, now);
        assert(refresh_outcome(typ@, token@, session, now, r));
        r
    }

    /// The session renewed at `now` with a new refresh token: it stores the
    /// new token's hash and a new refresh expiry.
    pub fn rotate_session_at(&self, session: Session, new_refresh_token: &str, now: Timestamp) -> (r: Session)
        requires
            valid_instant(
                shifted(now as int, self.config.refresh_exp_days as int, MICROS_PER_DAY as int),
            ),
        ensures
            r == (Session {
                refresh_token_hash: r.refresh_token_hash,
                refresh_expires_at: shifted(
                    now as int,
                    self.config.refresh_exp_days as int,
                    MICROS_PER_DAY as int,
                ) as i64,
                ..session
            }),
            r.refresh_token_hash@ == token_hash(new_refresh_token@),
    {
        let mut s = session;
        s.refresh_token_hash = Self::hash_token(new_refresh_token);
        s.refresh_expires_at = match shift_instant(now, self.config.refresh_exp_days, MICROS_PER_DAY) {
            Some(t) => t,
            None => now,
        };
        s
    }

    /// `rotate_session_at` now, or `None` where the new expiry falls outside
    /// the instants chrono represents.
    pub fn rotate_session(&self, session: Session, new_refresh_token: &str) -> (r: Option<Session>)
        ensures
            exists|now: Timestamp|
                valid_instant(now as int) && match r {
                    Some(s) => s == (Session {
                        refresh_token_hash: s.refresh_token_hash,
                        refresh_expires_at: #[trigger] shifted(
                            now as int,
                            self.config.refresh_exp_days as int,
                            MICROS_PER_DAY as int,
                        ) as i64,
                        ..session
                    }) && s.refresh_token_hash@ == token_hash(new_refresh_token@),
                    None => !valid_instant(
                        shifted(now as int, self.config.refresh_exp_days as int, MICROS_PER_DAY as int),
                    ),
                },
    {
        let now = now_micros();
        let r = match shift_instant(now, self.config.refresh_exp_days, MICROS_PER_DAY) {
            Some(_) => Some(self.rotate_session_at(session, new_refresh_token, now)),
            None => None,
        };
        r
    }

    /// Signing out at `now`: the active session, if the database found one,
    /// is revoked and to be saved.
    pub fn logout_at(&self, session: Option<Session>, now: Timestamp) -> (r: Option<Session>)
        ensures
            match session {
                None => r is None,
                Some(s) => r == Some(Session { revoked_at: Some(now), ..s }),
            },
    {
        match session {
            None => None,
            Some(s) => {
                let mut s = s;
                s.revoked_at = Some(now);
                Some(s)
            },
        }
    }

    /// `logout_at` now.
    pub fn logout(&self, session: Option<Session>) -> (r: Option<Session>)
        ensures
            match session {
                None => r is None,
                Some(s) => r matches Some(v) && v.id == s.id && v.refresh_token_hash
                    == s.refresh_token_hash && v.revoked_at is Some,
            },
    {
        let now = now_micros();
        self.logout_at(session, now)
    }
}

/// A refresh token is accepted, until its session's refresh expiry, by the
/// session that stores its hash, as a session opened or renewed with that
/// token does.
pub proof fn lemma_stored_refresh_token_accepted(session: Session, token: Seq<char>, now: int)
    requires
        session.refresh_token_hash@ == token_hash(token),
        now < session.refresh_expires_at,
    ensures
        refresh_accepted("refresh"@, token, Some(session), now),
{
}

/// A session renews only with a token whose hash it stores, of kind
/// `refresh`, before its refresh expiry.
pub proof fn lemma_refresh_needs_stored_token(typ: Seq<char>, token: Seq<char>, session: Option<Session>, now: int)
    requires
        refresh_accepted(typ, token, session, now),
    ensures
        typ == "refresh"@,
        session matches Some(s) && token_hash(token) == s.refresh_token_hash@ && now
            < s.refresh_expires_at,
{
}

/// Once the refresh expiry of a session has passed, no token renews it.
pub proof fn lemma_expired_refresh_refused(typ: Seq<char>, token: Seq<char>, session: Session, now: int)
    requires
        session.refresh_expires_at <= now,
    ensures
        !refresh_accepted(typ, token, Some(session), now),
{
}

/// A refresh token serves once: after a refresh was accepted and the
/// session rotated to a new token, refreshing with the old token again
/// revokes the session, at any later time, as long as the two tokens'
/// hashes differ.
pub proof fn lemma_old_refresh_token_revokes(
    session: Session,
    old_token: Seq<char>,
    new_token: Seq<char>,
    rotated: Session,
    now: Timestamp,
    later: Timestamp,
    r: RefreshCheck,
)
    requires
        refresh_outcome("refresh"@, old_token, Some(session), now, RefreshCheck::Accepted(session)),
        rotated.id == session.id,
        rotated.refresh_token_hash@ == token_hash(new_token),
        token_hash(new_token) != token_hash(old_token),
        refresh_outcome("refresh"@, old_token, Some(rotated), later, r),
    ensures
        r matches RefreshCheck::Revoked(v, _) && v.id == session.id && v.revoked_at == Some(later),
        revoked_on_reuse("refresh"@, old_token, Some(rotated), r),
{
}

} // verus!
