use delivery::config::Config;
use delivery::errors::Kind;
use delivery::user::User;

#[test]
fn create_a_user_with_defaults() {
    let u = User::default();
    assert_eq!(u.first, "".to_string());
    assert_eq!(u.user_type, "internal".to_string());
}

#[test]
fn user_verify_pub_key() {
    let mut u = User::default();
    assert!(!u.verify_pub_key());
    u.set_ssh_pub_key("SECRET");
    assert!(u.verify_pub_key());
}

#[test]
fn user_to_load() {
    let config = Config::default().set_user("kirk");
    assert_eq!("kirk", User::load_target(&config, None).unwrap());
    assert_eq!("link", User::load_target(&config, Some("link")).unwrap());
    assert!(User::load_target(&Config::default(), Some("link")).is_err());
}

#[test]
fn unknown_user_is_named() {
    match User::exists_outcome("link", false).unwrap_err().kind {
        Kind::UserNotFound(n) => assert_eq!("link", n),
        _ => panic!("wrong kind"),
    }
}
