use radius_virtual::config::{resolve, Config, Db as DbPath, Radius, UserMapping};
use radius_virtual::handoff::{DropStep, Handoff};
use radius_virtual::remote::{Attribute, User};
use radius_virtual::store::{
    check_schema, decode_session, redeem_row, schema_writes, Cell, Db, StoreError, CREATE_SCHEMA, WRITE_VERSION,
};

fn alice_rule() -> UserMapping {
    UserMapping {
        username: "alice_local".to_string(),
        uid: 2000,
        group: "alice_local".to_string(),
        gid: 2000,
        home: "/home/alice_local".to_string(),
        shell: "/bin/bash".to_string(),
        attribute: (1, 1),
        attribute_value: vec![0xAA],
    }
}

fn remote(name: &str, vendor: u32, subtype: u8, data: Vec<u8>) -> User {
    let mut u = User::new(name);
    u.add_attribute(Attribute { vendor, subtype, data });
    u
}

fn memory_config(users: Vec<UserMapping>) -> Config {
    Config {
        db: DbPath { path: ":memory:".to_string() },
        radius: Radius {
            shared_secret: None,
            servers: vec![],
            debug: Some(true),
            timeout: None,
            attributes: None,
        },
        users,
    }
}

fn is_token(t: &str) -> bool {
    t.len() == 32 && t.chars().all(|c| c.is_ascii_alphanumeric())
}

#[test]
fn db_test_it_store_user() {
    let mut rule = alice_rule();
    rule.username = "testing".to_string();
    let conf = memory_config(vec![rule]);
    assert!(conf.debug());
    let mut db = Db::with_config(&conf).expect("store opens");
    let user = remote("testing", 1, 1, vec![0xAA]);
    let user = conf.map_user(&user).expect("rule matches");
    db.store_user(&user).expect("stored");
    let user_r = db.get_user("testing").expect("found");
    assert_eq!(user, user_r);
}

#[test]
fn round_trip_by_name_and_token() {
    let rules = vec![alice_rule()];
    let mut identity = remote("alice", 1, 1, vec![0xAA]);
    identity.add_attribute(Attribute { vendor: 311, subtype: 2, data: vec![0x00, 0x7F, 0xFF] });
    let session = resolve(&identity, &rules).unwrap();
    let mut db = Db::open(":memory:").unwrap();
    let token = db.store_user(&session).unwrap();
    assert!(is_token(&token));
    assert_eq!(db.get_user("alice_local").unwrap(), session);
    assert_eq!(db.get_user_with_cookie("alice_local", &token).unwrap(), session);
}

#[test]
fn wrong_token_or_name_is_not_found() {
    let session = resolve(&remote("alice", 1, 1, vec![0xAA]), &vec![alice_rule()]).unwrap();
    let mut db = Db::open(":memory:").unwrap();
    let token = db.store_user(&session).unwrap();
    let wrong = "A".repeat(32);
    assert!(matches!(db.get_user_with_cookie("alice_local", &wrong), Err(StoreError::UserNotFound)));
    assert!(matches!(db.get_user_with_cookie("alice_local", ""), Err(StoreError::UserNotFound)));
    assert!(matches!(db.get_user_with_cookie("bob", &token), Err(StoreError::UserNotFound)));
    assert!(matches!(db.get_user("bob"), Err(StoreError::UserNotFound)));
}

#[test]
fn second_login_replaces_first() {
    let rules = vec![alice_rule()];
    let first = resolve(&remote("alice", 1, 1, vec![0xAA]), &rules).unwrap();
    let mut second_remote = remote("alice", 1, 1, vec![0xAA]);
    second_remote.add_attribute(Attribute { vendor: 3, subtype: 4, data: vec![5] });
    let second = resolve(&second_remote, &rules).unwrap();
    let mut db = Db::open(":memory:").unwrap();
    let t1 = db.store_user(&first).unwrap();
    let t2 = db.store_user(&second).unwrap();
    assert_ne!(t1, t2);
    assert!(matches!(db.get_user_with_cookie("alice_local", &t1), Err(StoreError::UserNotFound)));
    assert_eq!(db.get_user_with_cookie("alice_local", &t2).unwrap(), second);
    assert_eq!(db.get_user("alice_local").unwrap(), second);
}

#[test]
fn schema_versions() {
    assert!(check_schema(&None).is_ok());
    assert!(check_schema(&Some(vec![Cell::Integer(0)])).is_ok());
    assert!(check_schema(&Some(vec![Cell::Integer(2)])).is_ok());
    assert!(matches!(check_schema(&Some(vec![Cell::Integer(1)])), Err(StoreError::IncompatibleDbVersion)));
    assert!(matches!(check_schema(&Some(vec![Cell::Integer(7)])), Err(StoreError::IncompatibleDbVersion)));
    assert!(matches!(
        check_schema(&Some(vec![Cell::Text("2".to_string())])),
        Err(StoreError::IncompatibleDbVersion)
    ));
}

#[test]
fn refused_version_writes_nothing() {
    assert!(matches!(schema_writes(&Some(vec![Cell::Integer(7)])), Err(StoreError::IncompatibleDbVersion)));
    assert!(matches!(schema_writes(&Some(vec![Cell::Integer(-1)])), Err(StoreError::IncompatibleDbVersion)));
    let writes = schema_writes(&Some(vec![Cell::Integer(0)])).unwrap();
    assert_eq!(writes, vec![WRITE_VERSION, CREATE_SCHEMA]);
    assert_eq!(schema_writes(&Some(vec![Cell::Integer(2)])).unwrap().len(), 2);
    assert!(schema_writes(&Some(vec![Cell::Integer(1)])).is_err());
}

#[test]
fn opening_in_two_steps() {
    let mut db = Db::connect(":memory:").unwrap();
    db.prepare_schema().unwrap();
    let session = resolve(&remote("alice", 1, 1, vec![0xAA]), &vec![alice_rule()]).unwrap();
    let token = db.store_user(&session).unwrap();
    assert_eq!(db.get_user_with_cookie("alice_local", &token).unwrap(), session);
    assert_eq!(db.get_user_with_cookie("alice_local", &token).unwrap(), session);
}

#[test]
fn redeeming_rows() {
    let row = Some(vec![Cell::Blob(vec![1, 2, 3]), Cell::Text("tok".to_string())]);
    assert_eq!(redeem_row(row, None).unwrap(), vec![1, 2, 3]);
    let row = Some(vec![Cell::Blob(vec![1, 2, 3]), Cell::Text("tok".to_string())]);
    assert_eq!(redeem_row(row, Some("tok")).unwrap(), vec![1, 2, 3]);
    let row = Some(vec![Cell::Blob(vec![1, 2, 3]), Cell::Text("tok".to_string())]);
    assert!(matches!(redeem_row(row, Some("tak")), Err(StoreError::UserNotFound)));
    let row = Some(vec![Cell::Null, Cell::Text("tok".to_string())]);
    assert!(matches!(redeem_row(row, None), Err(StoreError::UserNotFound)));
    assert!(matches!(redeem_row(None, Some("tok")), Err(StoreError::UserNotFound)));
}

#[test]
fn corrupt_blob_is_a_decode_error() {
    assert!(matches!(decode_session(&vec![0xff, 0x00]), Err(StoreError::CborSerializeError(_))));
}

#[test]
fn end_to_end_alice() {
    let rules = vec![alice_rule()];
    let identity = remote("alice", 1, 1, vec![0xAA]);
    let session = resolve(&identity, &rules).expect("rule matches");
    assert_eq!(session.mapping, rules[0]);
    let mut db = Db::open(":memory:").unwrap();
    let token = db.store_user(&session).unwrap();
    assert!(token.len() >= 32 && is_token(&token));
    let redeemed = db.get_user_with_cookie("alice_local", &token).unwrap();
    assert_eq!(redeemed, session);

    let mut handoff = Handoff::new(&redeemed.mapping);
    let mut order: Vec<String> = vec![];
    while let Some(step) = handoff.next_step() {
        order.push(match step {
            DropStep::EraseToken => "erase".to_string(),
            DropStep::SetGroup(g) => format!("gid {}", g),
            DropStep::SetUser(u) => format!("uid {}", u),
            DropStep::ChangeDir(d) => format!("chdir {}", d),
            DropStep::SetEnv(n, v) => format!("env {}={}", n, v),
            DropStep::RetargetMail(u) => format!("mail {}", u),
            DropStep::RunShell(s) => format!("shell {}", s),
        });
        handoff.record(true);
    }
    assert!(handoff.is_complete());
    assert_eq!(
        order,
        vec![
            "erase",
            "gid 2000",
            "uid 2000",
            "chdir /home/alice_local",
            "env HOME=/home/alice_local",
            "env USER=alice_local",
            "env LOGNAME=alice_local",
            "mail alice_local",
            "shell /bin/bash",
        ]
    );
}

#[test]
fn end_to_end_no_match() {
    let identity = remote("alice", 9, 9, vec![0xFF]);
    assert!(resolve(&identity, &vec![alice_rule()]).is_none());
}

#[test]
fn failed_step_never_reaches_shell() {
    let mut handoff = Handoff::new(&alice_rule());
    assert!(matches!(handoff.next_step(), Some(DropStep::EraseToken)));
    handoff.record(true);
    assert!(matches!(handoff.next_step(), Some(DropStep::SetGroup(2000))));
    handoff.record(false);
    assert!(handoff.has_failed());
    assert!(handoff.next_step().is_none());
    assert!(!handoff.is_complete());
}
