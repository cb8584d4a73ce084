use radius_virtual::config::{resolve, Config, Db, Radius, UserMapping};
use radius_virtual::remote::{Attribute, Credentials, User};

fn rule(name: &str, id: u32, attribute: (u32, u8), value: Vec<u8>) -> UserMapping {
    UserMapping {
        username: name.to_string(),
        uid: id,
        group: name.to_string(),
        gid: id,
        home: format!("/home/{}", name),
        shell: "/bin/bash".to_string(),
        attribute,
        attribute_value: value,
    }
}

fn identity(name: &str, attrs: &[(u32, u8, Vec<u8>)]) -> User {
    let mut u = User::new(name);
    for (vendor, subtype, data) in attrs {
        u.add_attribute(Attribute { vendor: *vendor, subtype: *subtype, data: data.clone() });
    }
    u
}

fn config(users: Vec<UserMapping>) -> Config {
    Config {
        db: Db { path: ":memory:".to_string() },
        radius: Radius {
            shared_secret: None,
            servers: vec![],
            debug: Some(true),
            timeout: None,
            attributes: None,
        },
        users,
    }
}

#[test]
fn resolves_matching_rule() {
    let rules = vec![rule("alice_local", 2000, (1, 1), vec![0xAA])];
    let remote = identity("alice", &[(1, 1, vec![0xAA])]);
    let session = resolve(&remote, &rules).expect("rule matches");
    assert_eq!(session.mapping, rules[0]);
    assert_eq!(session.radius, remote);
}

#[test]
fn no_rule_matches() {
    let rules = vec![rule("alice_local", 2000, (1, 1), vec![0xAA])];
    let remote = identity("alice", &[(9, 9, vec![0xFF])]);
    assert!(resolve(&remote, &rules).is_none());
    let same_address_other_value = identity("alice", &[(1, 1, vec![0xAB])]);
    assert!(resolve(&same_address_other_value, &rules).is_none());
    let no_attributes = identity("alice", &[]);
    assert!(resolve(&no_attributes, &rules).is_none());
}

#[test]
fn first_matching_rule_wins() {
    let rules = vec![
        rule("other", 3000, (5, 5), vec![0x01]),
        rule("first", 2000, (1, 1), vec![0xAA]),
        rule("second", 2001, (2, 2), vec![0xBB]),
    ];
    let remote = identity("alice", &[(2, 2, vec![0xBB]), (1, 1, vec![0xAA])]);
    let session = resolve(&remote, &rules).expect("rule matches");
    assert_eq!(session.mapping.username, "first");
}

#[test]
fn attribute_order_does_not_matter() {
    let rules = vec![
        rule("first", 2000, (1, 1), vec![0xAA]),
        rule("second", 2001, (2, 2), vec![0xBB]),
    ];
    let a = identity("alice", &[(2, 2, vec![0xBB]), (7, 7, vec![]), (1, 1, vec![0xAA])]);
    let b = identity("alice", &[(1, 1, vec![0xAA]), (2, 2, vec![0xBB]), (7, 7, vec![])]);
    let ra = resolve(&a, &rules).expect("rule matches");
    let rb = resolve(&b, &rules).expect("rule matches");
    assert_eq!(ra.mapping, rb.mapping);
    assert_eq!(ra.mapping.username, "first");
}

#[test]
fn map_user_uses_configured_rules() {
    let conf = config(vec![rule("alice_local", 2000, (1, 1), vec![0xAA])]);
    assert!(conf.debug());
    let remote = identity("alice", &[(1, 1, vec![0xAA])]);
    assert_eq!(conf.map_user(&remote).unwrap().mapping.uid, 2000);
    assert!(conf.map_user(&identity("bob", &[(9, 9, vec![0xFF])])).is_none());
}

#[test]
fn builds_identities_and_credentials() {
    let mut u = User::new("testing");
    assert_eq!(u.username, "testing");
    assert!(u.attributes.is_empty());
    u.add_attribute(Attribute { vendor: 1, subtype: 1, data: vec![0xAA] });
    assert_eq!(u.attributes.len(), 1);
    assert_eq!(u.attributes[0].data, vec![0xAA]);
    let c = Credentials::with_username_password("testing", "password");
    assert_eq!(c.username, "testing");
    assert_eq!(c.password, "password");
}

#[test]
fn serialize() {
    assert_eq!(2 + 2, 4);
}
