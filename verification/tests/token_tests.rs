use delivery::config::Config;
use delivery::token::TokenStore;

#[test]
fn web_token_url_test() {
    let mut config = Config::default()
        .set_enterprise("ncc-1701")
        .set_server("earth")
        .set_api_protocol("http")
        .set_api_port("80");
    config.non_interactive = Some(true);
    let url = TokenStore::web_token_url(&config).unwrap();
    assert_eq!(url, "http://earth:80/e/ncc-1701/#/dashboard?token");
}

#[test]
fn create_from_empty_test() {
    let mut tstore = TokenStore::from_file("/tmp/api-tokens", "");
    assert_eq!(None, tstore.lookup("127.0.0.1", "acme", "bob"));
    let (previous, content) = tstore.write_token("127.0.0.1", "acme", "bob", "beefbeef");
    assert_eq!(None, previous);
    assert_eq!(&"beefbeef", tstore.lookup("127.0.0.1", "acme", "bob").unwrap());
    assert_eq!("127.0.0.1,acme,bob|beefbeef\n", content);
}

#[test]
fn store_file_round_trip() {
    let mut a = TokenStore::from_file("/tmp/t", "");
    a.set_token("s2", "e", "u", "t2");
    a.set_token("s1", "e", "u", "t1");
    let content = a.write_config();
    assert_eq!("s1,e,u|t1\ns2,e,u|t2\n", content);
    let b = TokenStore::from_file("/tmp/t", &content);
    assert_eq!(Some(&"t1".to_string()), b.lookup("s1", "e", "u"));
    assert_eq!(Some(&"t2".to_string()), b.lookup("s2", "e", "u"));
    assert_eq!(content, b.write_config());
}

#[test]
fn later_line_wins_and_bad_lines_are_skipped() {
    let t = TokenStore::from_file("/tmp/t", "a,b,c|one\nnot a token line\n  a,b,c|two  \r\nx|y|z\n");
    assert_eq!(Some(&"two".to_string()), t.lookup("a", "b", "c"));
    assert_eq!("a,b,c|two\n", t.write_config());
}

#[test]
fn set_token_returns_the_replaced_token() {
    let mut t = TokenStore::from_file("/tmp/t", "");
    assert_eq!(None, t.set_token("s", "e", "u", "one"));
    assert_eq!(Some("one".to_string()), t.set_token("s", "e", "u", "two"));
    assert_eq!(Some(&"two".to_string()), t.lookup("s", "e", "u"));
}

#[test]
fn token_key_format() {
    assert_eq!("s,e,u", TokenStore::key("s", "e", "u"));
    assert_eq!("/tmp/t", TokenStore::from_file("/tmp/t", "").path());
}

#[test]
fn stored_token_then_verify() {
    let config = Config::default().set_server("s").set_enterprise("e").set_user("u");
    let mut t = TokenStore::from_file("/tmp/t", "");
    t.set_token("s", "e", "u", "tok");
    let stored = TokenStore::stored_token(&config, Ok(t)).unwrap();
    assert_eq!(Some("tok".to_string()), stored);
    assert_eq!(Some("tok".to_string()), TokenStore::verify_token(stored.clone(), Some(Ok(true))).unwrap());
    assert_eq!(None, TokenStore::verify_token(stored, Some(Ok(false))).unwrap());
}

#[test]
fn written_file_lists_keys_in_order() {
    let mut tstore = TokenStore::from_file("/tmp/none", "");
    tstore.write_token("b.example", "e", "u", "t2");
    let (_, content) = tstore.write_token("a.example", "e", "u", "t1");
    assert_eq!(content, "a.example,e,u|t1\nb.example,e,u|t2\n");
}
