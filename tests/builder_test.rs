use radius_virtual::builder::{Config, Server};
use radius_virtual::store::{new_token, now};

#[test]
fn builder_defaults() {
    let c = Config::new();
    assert!(c.servers.is_empty());
    assert!(c.shared_secret.is_none());
    assert_eq!(c.timeout, 10);
    assert!(!c.debug);
    assert!(c.attributes.is_empty());
}

#[test]
fn builder_chains() {
    let c = Config::new()
        .server(Server::from("10.0.0.1".to_string()))
        .server(Server::with_secret("10.0.0.2", "first"))
        .server(Server::with_secret_and_timeout("10.0.0.3", "second", 7))
        .debug()
        .timeout(20)
        .attributes(&[(1, 1), (2, 3)])
        .attribute((9, 9));
    assert_eq!(c.servers.len(), 3);
    assert_eq!(c.servers[0].timeout, 0);
    assert!(c.servers[0].shared_secret.is_none());
    assert_eq!(c.servers[2].timeout, 7);
    assert_eq!(c.shared_secret.as_deref(), Some("first"));
    assert!(c.debug);
    assert_eq!(c.timeout, 20);
    assert_eq!(c.attributes, vec![(1, 1), (2, 3), (9, 9)]);
    let c = c.no_debug().shared_secret("global");
    assert!(!c.debug);
    assert_eq!(c.shared_secret.as_deref(), Some("global"));
    assert_eq!(Server::with_timeout("h", 3).timeout, 3);
}

#[test]
fn tokens_and_clock() {
    let a = new_token();
    let b = new_token();
    assert_eq!(a.len(), 32);
    assert!(a.chars().all(|c| c.is_ascii_alphanumeric()));
    assert_ne!(a, b);
    assert!(now() > 1_600_000_000);
}
