use otter_data::auth::{login_outcome, windows_login_outcome, windows_user_response, AuthResponse};
use otter_data::oracle::{get_connect_string, row_limit, OracleConfig};
use otter_data::pool::PoolTuning;
use otter_data::role::Role;
use otter_data::roles::{require_role_id, Role as RoleRecord};
use otter_data::text::{decimal_text, strip_domain};
use otter_data::user::{text_eq, User, UserRole};

fn user_with_password(password: &str) -> User {
    let hash = bcrypt::hash(password, 4).unwrap();
    User::from_row(Some(3), "alice".to_string(), hash, "manager", Some("DOM\\alice".to_string()), 0)
}

#[test]
fn role_text_is_parsed() {
    assert_eq!(UserRole::from_db_text("admin"), UserRole::Admin);
    assert_eq!(UserRole::from_db_text("manager"), UserRole::Manager);
    assert_eq!(UserRole::from_db_text("user"), UserRole::User);
    assert_eq!(UserRole::from_db_text("Admin"), UserRole::User);
    assert_eq!(UserRole::from_db_text(""), UserRole::User);
    assert!(text_eq("abc", "abc"));
    assert!(!text_eq("abc", "abd"));
}

#[test]
fn user_row_is_read() {
    let u = User::from_row(None, "bob".to_string(), "h".to_string(), "admin", None, 1);
    assert_eq!(u.id, None);
    assert_eq!(u.username, "bob");
    assert_eq!(u.role, UserRole::Admin);
    assert!(u.deleted);
    let v = User::from_row(Some(4), "eve".to_string(), "h".to_string(), "x", None, 0);
    assert!(!v.deleted);
    assert_eq!(v.role, UserRole::User);
}

#[test]
fn password_is_checked_against_hash() {
    let u = user_with_password("secret");
    assert!(u.verify_password("secret"));
    assert!(!u.verify_password("Secret"));
    let broken = User::from_row(None, "x".to_string(), "secret".to_string(), "user", None, 0);
    assert!(!broken.verify_password("secret"));
}

#[test]
fn login_with_right_password() {
    let u = user_with_password("pw");
    let r = login_outcome(Ok(Some(u)), "pw").unwrap();
    assert!(r.success);
    assert_eq!(r.user_id, Some(3));
    assert_eq!(r.username.as_deref(), Some("alice"));
    assert_eq!(r.role, Some(UserRole::Manager));
    assert_eq!(r.windows_login.as_deref(), Some("DOM\\alice"));
    assert!(r.error.is_none());
}

#[test]
fn login_with_wrong_password() {
    let u = user_with_password("pw");
    let r = login_outcome(Ok(Some(u)), "nope").unwrap();
    assert!(!r.success);
    assert_eq!(r.error.as_deref(), Some("Mot de passe incorrect"));
    assert!(r.username.is_none());
}

#[test]
fn login_of_unknown_user() {
    let r = login_outcome(Ok(None), "pw").unwrap();
    assert!(!r.success);
    assert_eq!(r.error.as_deref(), Some("Utilisateur non trouvé"));
}

#[test]
fn login_lookup_error_is_prefixed() {
    let e = login_outcome(Err("no such table: users".to_string()), "pw").err().unwrap();
    assert_eq!(e, "Erreur lors de la recherche: no such table: users");
    let e2 = windows_login_outcome(Err("boom".to_string())).err().unwrap();
    assert_eq!(e2, "Erreur lors de la recherche: boom");
}

#[test]
fn windows_login_needs_no_password() {
    let u = User::from_row(Some(9), "carl".to_string(), "x".to_string(), "admin", None, 0);
    let r = windows_login_outcome(Ok(Some(u))).unwrap();
    assert!(r.success);
    assert_eq!(r.user_id, Some(9));
    assert_eq!(r.role, Some(UserRole::Admin));
    let none = windows_login_outcome(Ok(None)).unwrap();
    assert_eq!(none.error.as_deref(), Some("Utilisateur non trouvé"));
}

#[test]
fn windows_account_loses_its_domain() {
    let r = windows_user_response(Some("CORP\\jdupont".to_string()));
    assert!(r.success);
    assert_eq!(r.username.as_deref(), Some("jdupont"));
    let plain = windows_user_response(Some("jdupont".to_string()));
    assert_eq!(plain.username.as_deref(), Some("jdupont"));
    let failed = windows_user_response(None);
    assert!(!failed.success);
    assert_eq!(
        failed.error.as_deref(),
        Some("Impossible de récupérer le nom d'utilisateur Windows")
    );
    assert_eq!(strip_domain("a\\b\\c"), "c");
    assert_eq!(strip_domain("trailing\\"), "");
    assert_eq!(strip_domain(""), "");
    assert_eq!(strip_domain("é\\ü"), "ü");
}

#[test]
fn default_auth_response_is_empty_failure() {
    let r = AuthResponse::default();
    assert!(!r.success);
    assert!(r.user_id.is_none() && r.username.is_none() && r.error.is_none());
}

#[test]
fn oracle_connect_string() {
    let cfg = OracleConfig {
        host: "db.local".to_string(),
        port: 1521,
        service_name: "ORCL".to_string(),
        username: "u".to_string(),
        password: "p".to_string(),
    };
    assert_eq!(get_connect_string(&cfg), "db.local:1521/ORCL");
    let zero = OracleConfig { port: 0, ..cfg };
    assert_eq!(get_connect_string(&zero), "db.local:0/ORCL");
    assert_eq!(row_limit(None), 1000);
    assert_eq!(row_limit(Some(5)), 5);
}

#[test]
fn role_permissions_round_through_json() {
    let r = Role::from_row(1, "ops".to_string(), "d".to_string(), "[\"read\",\"write\"]");
    assert_eq!(r.id, Some(1));
    assert_eq!(r.permissions, vec!["read".to_string(), "write".to_string()]);
    assert_eq!(r.permissions_json().unwrap(), "[\"read\",\"write\"]");
    let bad = Role::from_row(2, "x".to_string(), "d".to_string(), "not json");
    assert!(bad.permissions.is_empty());
    assert_eq!(bad.permissions_json().unwrap(), "[]");
}

#[test]
fn role_record_permissions_are_quoted() {
    let r = RoleRecord {
        id: None,
        name: "ops".to_string(),
        description: "d".to_string(),
        permissions: "a\"b".to_string(),
    };
    let json = r.permissions_json().unwrap();
    assert_eq!(json, "\"a\\\"b\"");
    let created = r.created(12, json.clone());
    assert_eq!(created.id, Some(12));
    assert_eq!(created.permissions, json);
    assert_eq!(created.name, "ops");
}

#[test]
fn deleting_needs_an_id() {
    assert_eq!(require_role_id(Some(5)), Ok(5));
    assert_eq!(require_role_id(None), Err("Role ID requis pour la suppression".to_string()));
}

#[test]
fn pragma_scripts() {
    let t = PoolTuning::network_optimized();
    assert_eq!(t.busy_timeout_ms, Some(30000));
    assert_eq!(t.cache_size_kib, Some(16384));
    assert_eq!(t.wal_autocheckpoint_pages, Some(1000));
    assert!(t.temp_store_memory && t.foreign_keys);
    assert_eq!(
        PoolTuning::network_optimized().pragma_script(),
        "PRAGMA journal_mode=WAL; PRAGMA synchronous=NORMAL; PRAGMA busy_timeout=30000; \
         PRAGMA cache_size=-16384; PRAGMA temp_store=MEMORY; PRAGMA wal_autocheckpoint=1000; \
         PRAGMA foreign_keys=ON;"
    );
}

#[test]
fn credentials_decide_the_login() {
    let u = User::from_row(Some(1), "dan".to_string(), "h".to_string(), "user", None, 0);
    let ok = AuthResponse::for_credentials(u.clone(), true);
    assert!(ok.success);
    assert_eq!(ok.username.as_deref(), Some("dan"));
    let refused = AuthResponse::for_credentials(u, false);
    assert!(!refused.success);
    assert_eq!(refused.error.as_deref(), Some("Mot de passe incorrect"));
}

#[test]
fn decoded_permissions_or_none() {
    let r = Role::from_decoded_row(4, "a".to_string(), "b".to_string(), Some(vec!["x".to_string()]));
    assert_eq!(r.permissions, vec!["x".to_string()]);
    let e = Role::from_decoded_row(4, "a".to_string(), "b".to_string(), None);
    assert!(e.permissions.is_empty());
    assert_eq!(e.id, Some(4));
}

#[test]
fn numbers_in_decimal() {
    assert_eq!(decimal_text(0), "0");
    assert_eq!(decimal_text(7), "7");
    assert_eq!(decimal_text(10), "10");
    assert_eq!(decimal_text(30000), "30000");
    assert_eq!(decimal_text(u64::MAX), "18446744073709551615");
}
