use kucoin_api::api::Method;
use kucoin_api::negotiate::{accept_bullet, bullet_path, bullet_request, connect_url, NegotiateError};
use kucoin_api::signer::{sign, Credentials, SignError};
use kucoin_api::websocket::{InstanceServer, InstanceServers};

fn creds(version: u32) -> Credentials {
    Credentials {
        api_key: String::from("key-1"),
        api_secret: String::from("secret-key"),
        passphrase: String::from("my-pass"),
        key_version: version,
    }
}

fn server(endpoint: &str) -> InstanceServer {
    InstanceServer {
        ping_interval: 1000,
        endpoint: endpoint.to_string(),
        protocol: String::from("websocket"),
        encrypt: true,
        ping_timeout: 500,
    }
}

#[test]
fn sign_gives_expected_headers() {
    let h = sign(&creds(2), Method::GET, "/api/v1/accounts?currency=BTC", "", 1700000000000).unwrap();
    assert_eq!(h.key, "key-1");
    assert_eq!(h.sign, "oSjrb7ZqxjpicLsz1HqBy0huRSIxbz7ufMOLXuB5oK0=");
    assert_eq!(h.timestamp, "1700000000000");
    assert_eq!(h.passphrase, "xdJnf2cTsOQ9RSydA8HxhUkrf4m5Wor2J5FEfG8+lhU=");
    assert_eq!(h.key_version, "2");
}

#[test]
fn sign_is_deterministic() {
    let a = sign(&creds(2), Method::POST, "/api/v1/orders", "{\"size\":\"1\"}", 42).unwrap();
    let b = sign(&creds(2), Method::POST, "/api/v1/orders", "{\"size\":\"1\"}", 42).unwrap();
    assert_eq!(a, b);
}

#[test]
fn sign_changes_with_each_input() {
    let base = sign(&creds(2), Method::POST, "/api/v1/orders", "{}", 42).unwrap();
    let m = sign(&creds(2), Method::PUT, "/api/v1/orders", "{}", 42).unwrap();
    let e = sign(&creds(2), Method::POST, "/api/v1/orders?x=1", "{}", 42).unwrap();
    let b = sign(&creds(2), Method::POST, "/api/v1/orders", "{ }", 42).unwrap();
    let t = sign(&creds(2), Method::POST, "/api/v1/orders", "{}", 43).unwrap();
    assert_ne!(base.sign, m.sign);
    assert_ne!(base.sign, e.sign);
    assert_ne!(base.sign, b.sign);
    assert_ne!(base.sign, t.sign);
}

#[test]
fn passphrase_digest_ignores_request() {
    let a = sign(&creds(2), Method::GET, "/a", "", 1).unwrap();
    let b = sign(&creds(2), Method::DELETE, "/b?c=d", "body", 99999).unwrap();
    assert_eq!(a.passphrase, b.passphrase);
    assert_ne!(a.passphrase, "my-pass");
}

#[test]
fn old_key_scheme_sends_raw_passphrase() {
    let h = sign(&creds(1), Method::GET, "/a", "", 1).unwrap();
    assert_eq!(h.passphrase, "my-pass");
    assert_eq!(h.key_version, "1");
}

#[test]
fn malformed_key_is_rejected() {
    let mut c = creds(2);
    c.api_key = String::from("key\n1");
    assert_eq!(sign(&c, Method::GET, "/a", "", 1), Err(SignError::MalformedCredentials));
    let mut c = creds(1);
    c.passphrase = String::from("pa\u{7f}ss");
    assert_eq!(sign(&c, Method::GET, "/a", "", 1), Err(SignError::MalformedCredentials));
    let mut c = creds(2);
    c.passphrase = String::from("pa\u{7f}ss");
    assert!(sign(&c, Method::GET, "/a", "", 1).is_ok());
}

#[test]
fn public_bullet_is_unsigned() {
    let r = bullet_request(false, None, 5).unwrap();
    assert_eq!(r.path, "/api/v1/bullet-public");
    assert!(r.headers.is_none());
    assert_eq!(bullet_path(true), "/api/v1/bullet-private");
}

#[test]
fn private_bullet_is_signed() {
    let c = creds(2);
    let r = bullet_request(true, Some(&c), 1700000000000).unwrap();
    assert_eq!(r.path, "/api/v1/bullet-private");
    let h = r.headers.unwrap();
    assert_eq!(h.sign, "uDxZB6w8/umUQ6BS/w8FA1dYCidtUk/sug2kzh9yP1s=");
    assert_eq!(bullet_request(true, None, 1), Err(NegotiateError::MissingCredentials));
    let mut bad = creds(2);
    bad.api_key = String::from("\u{1}");
    assert_eq!(
        bullet_request(true, Some(&bad), 1),
        Err(NegotiateError::Credentials(SignError::MalformedCredentials))
    );
}

#[test]
fn empty_server_list_is_no_endpoint() {
    let answer = InstanceServers { instance_servers: vec![], token: String::from("T") };
    assert_eq!(accept_bullet(answer), Err(NegotiateError::NoEndpoint));
    let answer = InstanceServers { instance_servers: vec![server("wss://x")], token: String::from("T") };
    assert_eq!(accept_bullet(answer.clone()), Ok(answer));
}

#[test]
fn connect_url_carries_token_and_id() {
    assert_eq!(connect_url(&server("wss://x"), "T", "7"), "wss://x?token=T&connectId=7");
}
