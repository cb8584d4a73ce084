use radius_virtual::client::{server_settings, ClientError};
use radius_virtual::config::{Config, Db as DbPath, Radius, Server, UserMapping};
use radius_virtual::handoff::{is_reserved, resolve_and_store, verdict_of, AuthFailure, LoginError, LoginVerdict};
use radius_virtual::nss::{
    directory_entry, lookup, lookup_for_credential_check, lookup_for_directory, lookup_for_shadow, shadow_lookup_entry,
};
use radius_virtual::remote::{Attribute, User};
use radius_virtual::store::{Db, StoreError};

fn alice_rule() -> UserMapping {
    UserMapping {
        username: "alice_local".to_string(),
        uid: 2000,
        group: "alice_local".to_string(),
        gid: 2000,
        home: "/home/alice_local".to_string(),
        shell: "/bin/bash".to_string(),
        attribute: (1, 1),
        attribute_value: vec![0xAA],
    }
}

fn radius(shared_secret: Option<&str>, timeout: Option<u16>, servers: Vec<Server>) -> Radius {
    Radius {
        shared_secret: shared_secret.map(|s| s.to_string()),
        servers,
        debug: None,
        timeout,
        attributes: None,
    }
}

fn server(address: &str, secret: Option<&str>, timeout: Option<u16>) -> Server {
    Server { address: address.to_string(), shared_secret: secret.map(|s| s.to_string()), timeout }
}

fn config() -> Config {
    Config { db: DbPath { path: ":memory:".to_string() }, radius: radius(None, None, vec![]), users: vec![alice_rule()] }
}

fn alice() -> User {
    let mut u = User::new("alice");
    u.add_attribute(Attribute { vendor: 1, subtype: 1, data: vec![0xAA] });
    u
}

#[test]
fn server_settings_choose_secret_and_timeout() {
    let r = radius(Some("global"), Some(0), vec![
        server("10.0.0.1", None, None),
        server("10.0.0.2:1645", Some("own"), Some(45)),
        server("radius.example", None, Some(5)),
    ]);
    let s = server_settings(&r).unwrap();
    assert_eq!(s.len(), 3);
    assert_eq!(s[0].shared_secret, "global");
    assert_eq!(s[0].timeout, 1);
    assert_eq!(s[0].fallback_address, "10.0.0.1:1812");
    assert_eq!(s[1].shared_secret, "own");
    assert_eq!(s[1].timeout, 30);
    assert_eq!(s[1].address, "10.0.0.2:1645");
    assert_eq!(s[2].timeout, 5);
    let d = server_settings(&radius(Some("s"), None, vec![server("h", None, None)])).unwrap();
    assert_eq!(d[0].timeout, 10);
}

#[test]
fn server_settings_errors() {
    assert_eq!(server_settings(&radius(Some("s"), None, vec![])).unwrap_err(), ClientError::NoServer);
    assert_eq!(
        server_settings(&radius(None, None, vec![server("h", None, None)])).unwrap_err(),
        ClientError::NoSharedSecret
    );
    let long = "x".repeat(257);
    assert_eq!(
        server_settings(&radius(Some(&long), None, vec![server("h", None, None)])).unwrap_err(),
        ClientError::SharedSecretTooLong
    );
    let max = "x".repeat(256);
    assert!(server_settings(&radius(Some(&max), None, vec![server("h", None, None)])).is_ok());
}

#[test]
fn login_stores_session_and_returns_token() {
    let conf = config();
    let mut db = Db::with_config(&conf).unwrap();
    let (name, token) = resolve_and_store(&mut db, &conf, Ok(alice())).unwrap();
    assert_eq!(name, "alice_local");
    assert_eq!(token.len(), 32);
    assert_eq!(db.get_user_with_cookie("alice_local", &token).unwrap().mapping.uid, 2000);
}

#[test]
fn login_failures_and_verdicts() {
    let conf = config();
    let mut db = Db::with_config(&conf).unwrap();
    let rejected = resolve_and_store(&mut db, &conf, Err(AuthFailure::Reject)).unwrap_err();
    assert!(matches!(rejected, LoginError::RemoteAuthRejected));
    assert_eq!(verdict_of(&rejected), LoginVerdict::Denied);
    let timeout = resolve_and_store(&mut db, &conf, Err(AuthFailure::ServerTimeout)).unwrap_err();
    assert!(matches!(timeout, LoginError::RemoteServiceFailure));
    assert_eq!(verdict_of(&timeout), LoginVerdict::ServiceError);
    let mut stranger = User::new("alice");
    stranger.add_attribute(Attribute { vendor: 9, subtype: 9, data: vec![0xFF] });
    let unmapped = resolve_and_store(&mut db, &conf, Ok(stranger)).unwrap_err();
    assert!(matches!(unmapped, LoginError::NoMatchingIdentity));
    assert_eq!(verdict_of(&unmapped), LoginVerdict::Denied);
    assert_eq!(verdict_of(&LoginError::Store(StoreError::UserNotFound)), LoginVerdict::ServiceError);
}

#[test]
fn reserved_account() {
    assert!(is_reserved("root"));
    assert!(!is_reserved("roots"));
    assert!(!is_reserved("alice"));
}

#[test]
fn directory_entries() {
    let conf = config();
    let session = conf.map_user(&alice()).unwrap();
    let e = directory_entry("alice_local", Some(session)).unwrap();
    assert_eq!(e.name, "alice_local");
    assert_eq!(e.passwd, "x");
    assert_eq!(e.uid, 2000);
    assert_eq!(e.gid, 2000);
    assert_eq!(e.gecos, "Mapped RADIUS account alice_local->alice_local");
    assert_eq!(e.dir, "/home/alice_local");
    assert_eq!(e.shell, "/bin/bash");
    assert!(directory_entry("root", conf.map_user(&alice())).is_none());
    assert!(directory_entry("alice", None).is_none());
    let s = shadow_lookup_entry("alice_local", conf.map_user(&alice())).unwrap();
    assert_eq!(s.name, "alice_local");
    assert_eq!(s.passwd, "!");
}

#[test]
fn lookups_on_an_empty_store() {
    let db = Db::with_config(&config()).unwrap();
    assert!(lookup_for_directory(&db, "alice_local").is_none());
    assert!(lookup_for_shadow(&db, "alice_local").is_none());
    assert!(lookup(&db, "alice_local").is_none());
    assert!(!lookup_for_credential_check(&db, "alice_local"));
    assert!(!lookup_for_credential_check(&db, "root"));
}

#[test]
fn lookups_find_the_stored_session() {
    let conf = config();
    let mut db = Db::with_config(&conf).unwrap();
    let (name, _token) = resolve_and_store(&mut db, &conf, Ok(alice())).unwrap();
    assert_eq!(lookup(&db, &name).unwrap(), conf.map_user(&alice()).unwrap());
    let e = lookup_for_directory(&db, "alice_local").unwrap();
    assert_eq!(e.uid, 2000);
    assert_eq!(e.gecos, "Mapped RADIUS account alice_local->alice_local");
    assert_eq!(lookup_for_shadow(&db, "alice_local").unwrap().passwd, "!");
    assert!(lookup_for_credential_check(&db, "alice_local"));
    assert!(!lookup_for_credential_check(&db, "alice"));
}

#[test]
fn failed_login_writes_nothing() {
    let conf = config();
    let mut db = Db::with_config(&conf).unwrap();
    let mut stranger = User::new("alice");
    stranger.add_attribute(Attribute { vendor: 9, subtype: 9, data: vec![0xFF] });
    assert!(resolve_and_store(&mut db, &conf, Ok(stranger)).is_err());
    assert!(resolve_and_store(&mut db, &conf, Err(AuthFailure::Reject)).is_err());
    assert!(lookup(&db, "alice_local").is_none());
}
