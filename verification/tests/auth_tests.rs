use quiz_server::auth::{
    seconds, shift_instant, AuthConfig, AuthService, LdapClient, LdapEntry, LdapUserInfo,
    RefreshCheck, Session,
};
use quiz_server::errors::AppError;
use quiz_server::support::{MICROS_PER_DAY, MICROS_PER_MINUTE};
use quiz_server::users::{User, UserRole};

fn config() -> AuthConfig {
    AuthConfig {
        ldap_url: "ldap://localhost:389".to_string(),
        ldap_admin_user: "cn=admin".to_string(),
        ldap_admin_password: "SECRET-REDACTED".to_string(),
        ldap_base_dn: "dc=example,dc=org".to_string(),
        access_exp_minutes: 15,
        refresh_exp_days: 7,
        session_exp_days: 30,
        jwt_secret: "SECRET-REDACTED".to_string(),
    }
}

fn service() -> AuthService {
    AuthService { config: config() }
}

fn strings(v: &[&str]) -> Option<Vec<String>> {
    Some(v.iter().map(|s| s.to_string()).collect())
}

const NOW: i64 = 1_700_000_000_123_456;

#[test]
fn hash_token_is_lowercase_hex_sha256() {
    assert_eq!(
        AuthService::hash_token("abc"),
        "ba7816bf8f01cfea414140de5dae2223b00361a396177a9cb410ff61f20015ad"
    );
    assert_eq!(
        AuthService::hash_token(""),
        "e3b0c44298fc1c149afbf4c8996fb92427ae41e4649b934ca495991b7852b855"
    );
    assert_eq!(AuthService::hash_token("some.refresh.token").len(), 64);
}

#[test]
fn admin_dn_joins_user_and_base() {
    let c = LdapClient { config: config() };
    assert_eq!(c.admin_dn(), "cn=admin,dc=example,dc=org");
}

#[test]
fn user_filter_searches_by_uid() {
    assert_eq!(LdapClient::user_filter("jdoe"), "(uid=jdoe)");
}

#[test]
fn find_user_dn_takes_first_and_refuses_none() {
    let c = LdapClient { config: config() };
    let r = c.find_user_dn("jdoe", vec![]);
    match r {
        Err(AppError::LdapUsernameNotFound(u)) => assert_eq!(u, "jdoe"),
        _ => panic!("expected LdapUsernameNotFound"),
    }
    let r = c.find_user_dn(
        "jdoe",
        vec!["uid=jdoe,ou=a,dc=x".to_string(), "uid=jdoe,ou=b,dc=x".to_string()],
    );
    assert_eq!(r.ok(), Some("uid=jdoe,ou=a,dc=x".to_string()));
}

#[test]
fn find_user_info_reads_mail_name_and_group() {
    let c = LdapClient { config: config() };
    let entry = LdapEntry {
        mail: strings(&["jdoe@example.org", "other@example.org"]),
        cn: strings(&["John Doe"]),
        gid_number: strings(&["600"]),
    };
    let info: LdapUserInfo = c.find_user_info("jdoe", &vec![entry]).ok().unwrap();
    assert_eq!(info.email, "jdoe@example.org");
    assert_eq!(info.name, "John Doe");
    assert_eq!(info.role, UserRole::Func);
}

#[test]
fn find_user_info_falls_back_to_username_and_student() {
    let c = LdapClient { config: config() };
    let entry = LdapEntry { mail: strings(&["s@example.org"]), cn: None, gid_number: strings(&["500"]) };
    let info = c.find_user_info("stud", &vec![entry]).ok().unwrap();
    assert_eq!(info.name, "stud");
    assert_eq!(info.role, UserRole::Student);
    let entry = LdapEntry { mail: strings(&["s@example.org"]), cn: strings(&[]), gid_number: None };
    let info = c.find_user_info("stud", &vec![entry]).ok().unwrap();
    assert_eq!(info.name, "stud");
    assert_eq!(info.role, UserRole::Student);
    let entry = LdapEntry { mail: strings(&["s@example.org"]), cn: None, gid_number: strings(&["601"]) };
    assert_eq!(c.find_user_info("stud", &vec![entry]).ok().unwrap().role, UserRole::Student);
}

#[test]
fn find_user_info_requires_mail() {
    let c = LdapClient { config: config() };
    assert!(matches!(c.find_user_info("x", &vec![]), Err(AppError::LdapEmailNotFound)));
    let entry = LdapEntry { mail: None, cn: strings(&["X"]), gid_number: strings(&["600"]) };
    assert!(matches!(c.find_user_info("x", &vec![entry]), Err(AppError::LdapEmailNotFound)));
    let entry = LdapEntry { mail: strings(&[]), cn: None, gid_number: None };
    assert!(matches!(c.find_user_info("x", &vec![entry]), Err(AppError::LdapEmailNotFound)));
}

#[test]
fn signed_in_user_prefers_the_stored_one() {
    let info = LdapUserInfo { email: "a@b.c".to_string(), name: "A".to_string(), role: UserRole::Func };
    let stored = User {
        id: 7,
        username: "a".to_string(),
        email: "old@b.c".to_string(),
        name: "Old".to_string(),
        role: UserRole::Assistant,
    };
    let u = AuthService::signed_in_user("a".to_string(), info.clone(), Some(stored), 9);
    assert_eq!(u.id, 7);
    assert_eq!(u.role, UserRole::Assistant);
    let u = AuthService::signed_in_user("a".to_string(), info, None, 9);
    assert_eq!(u.id, 9);
    assert_eq!(u.email, "a@b.c");
    assert_eq!(u.role, UserRole::Func);
}

#[test]
fn claims_expire_in_whole_seconds() {
    let s = service();
    let a = s.access_claims_at(1, 2, NOW);
    assert_eq!(a.session_id, 1);
    assert_eq!(a.user_id, 2);
    assert_eq!(a.typ, "access");
    assert_eq!(a.exp, 1_700_000_000 + 15 * 60);
    let f = s.refresh_claims_at(1, 2, NOW);
    assert_eq!(f.typ, "refresh");
    assert_eq!(f.exp, 1_700_000_000 + 7 * 86_400);
}

#[test]
fn seconds_round_down_before_the_epoch() {
    assert_eq!(seconds(1_999_999), 1);
    assert_eq!(seconds(0), 0);
    assert_eq!(seconds(-1), -1);
    assert_eq!(seconds(-1_000_000), -1);
    assert_eq!(seconds(-1_000_001), -2);
}

#[test]
fn shift_instant_refuses_instants_out_of_range() {
    assert_eq!(shift_instant(NOW, 2, MICROS_PER_MINUTE), Some(NOW + 120_000_000));
    assert_eq!(shift_instant(NOW, -1, MICROS_PER_DAY), Some(NOW - 86_400_000_000));
    assert_eq!(shift_instant(NOW, i64::MAX, MICROS_PER_DAY), None);
    assert_eq!(shift_instant(0, 100_000_000, MICROS_PER_DAY), None);
}

#[test]
fn issue_claims_now() {
    let s = service();
    let (a, f) = s.issue_claims(3, 4).unwrap();
    assert_eq!(a.typ, "access");
    assert_eq!(f.typ, "refresh");
    assert_eq!(f.exp - a.exp, 7 * 86_400 - 15 * 60);
    let mut bad = service();
    bad.config.refresh_exp_days = i64::MAX;
    assert!(bad.issue_claims(3, 4).is_none());
}

fn session_for(token: &str) -> Session {
    service().new_session_at(5, 6, token, NOW)
}

#[test]
fn new_session_stores_the_refresh_hash_and_expiries() {
    let s = session_for("tok-1");
    assert_eq!(s.id, 5);
    assert_eq!(s.user_id, 6);
    assert_eq!(s.refresh_token_hash, AuthService::hash_token("tok-1"));
    assert_eq!(s.created_at, NOW);
    assert_eq!(s.expires_at, NOW + 30 * MICROS_PER_DAY);
    assert_eq!(s.refresh_expires_at, NOW + 7 * MICROS_PER_DAY);
    assert!(s.revoked_at.is_none());
    let now_session = service().new_session(5, 6, "tok-1").unwrap();
    assert_eq!(now_session.expires_at - now_session.created_at, 30 * MICROS_PER_DAY);
}

#[test]
fn refresh_accepts_the_issued_token() {
    let s = session_for("tok-1");
    let r = service().check_refresh_at("refresh", "tok-1", Some(s), NOW + 1);
    match r {
        RefreshCheck::Accepted(v) => assert_eq!(v.id, 5),
        _ => panic!("expected acceptance"),
    }
}

#[test]
fn refresh_refuses_wrong_kind_and_missing_session() {
    let s = session_for("tok-1");
    let r = service().check_refresh_at("access", "tok-1", Some(s), NOW + 1);
    assert!(matches!(r, RefreshCheck::Rejected(AppError::InvalidToken)));
    let r = service().check_refresh_at("refresh", "tok-1", None, NOW + 1);
    assert!(matches!(r, RefreshCheck::Rejected(AppError::TokenNotFound)));
}

#[test]
fn refresh_after_expiry_revokes() {
    let s = session_for("tok-1");
    let at = s.refresh_expires_at;
    let r = service().check_refresh_at("refresh", "tok-1", Some(s), at);
    match r {
        RefreshCheck::Revoked(v, AppError::TokenNotFound) => assert_eq!(v.revoked_at, Some(at)),
        _ => panic!("expected revocation"),
    }
}

#[test]
fn refresh_with_another_token_revokes() {
    let s = session_for("tok-1");
    let r = service().check_refresh_at("refresh", "tok-2", Some(s), NOW + 1);
    match r {
        RefreshCheck::Revoked(v, AppError::InvalidToken) => assert_eq!(v.revoked_at, Some(NOW + 1)),
        _ => panic!("expected revocation"),
    }
}

#[test]
fn rotation_moves_to_the_new_token() {
    let s = session_for("tok-1");
    let later = NOW + MICROS_PER_DAY;
    let rotated = service().rotate_session_at(s, "tok-2", later);
    assert_eq!(rotated.refresh_token_hash, AuthService::hash_token("tok-2"));
    assert_eq!(rotated.refresh_expires_at, later + 7 * MICROS_PER_DAY);
    assert_eq!(rotated.expires_at, NOW + 30 * MICROS_PER_DAY);
    let r = service().check_refresh_at("refresh", "tok-2", Some(rotated.clone()), later + 1);
    assert!(matches!(r, RefreshCheck::Accepted(_)));
    let r = service().check_refresh_at("refresh", "tok-1", Some(rotated), later + 1);
    assert!(matches!(r, RefreshCheck::Revoked(_, AppError::InvalidToken)));
}

#[test]
fn logout_revokes_an_active_session() {
    let s = session_for("tok-1");
    let r = service().logout_at(Some(s), NOW + 5).unwrap();
    assert_eq!(r.revoked_at, Some(NOW + 5));
    assert!(service().logout_at(None, NOW).is_none());
    assert!(service().logout(Some(session_for("t"))).unwrap().revoked_at.is_some());
}

#[test]
fn new_session_ids_are_version_4_uuids() {
    let a = AuthService::new_session_id();
    let b = AuthService::new_session_id();
    assert_eq!(a & 0xF000_C000_0000_0000_0000u128, 0x4000_8000_0000_0000_0000u128);
    assert_ne!(a, b);
}

#[test]
fn reused_refresh_token_revokes_now() {
    let s = session_for("tok-1");
    match service().check_refresh("refresh", "tok-2", Some(s.clone())) {
        RefreshCheck::Revoked(v, _) => {
            assert_eq!(v.id, s.id);
            assert_eq!(v.refresh_token_hash, s.refresh_token_hash);
            assert!(v.revoked_at.is_some());
        }
        _ => panic!("expected revocation"),
    }
}

#[test]
fn zero_lifetimes_always_issue() {
    let mut c = config();
    c.access_exp_minutes = 0;
    c.refresh_exp_days = 0;
    c.session_exp_days = 0;
    let s = AuthService { config: c };
    let (a, f) = s.issue_claims(3, 4).unwrap();
    assert_eq!(a.exp, f.exp);
    let session = s.new_session(3, 4, "tok").unwrap();
    assert_eq!(session.expires_at, session.created_at);
    let rotated = s.rotate_session(session, "tok-2").unwrap();
    assert_eq!(rotated.refresh_token_hash, AuthService::hash_token("tok-2"));
}
