use delivery::config::Config;

#[test]
fn test_api_url_with_port() {
    let mut conf = Config::default();
    conf.server = Some("127.0.0.1".to_string());
    conf.api_port = Some("2112".to_string());
    assert_eq!("127.0.0.1:2112".to_string(), conf.api_host_and_port().unwrap());
}

#[test]
fn test_api_url_without_port() {
    let mut conf = Config::default();
    conf.server = Some("127.0.0.1".to_string());
    assert!(conf.api_port.is_none());
    assert_eq!("127.0.0.1".to_string(), conf.api_host_and_port().unwrap());
}

#[test]
fn test_api_url_without_server() {
    let conf = Config::default();
    assert!(conf.server.is_none());
    assert!(conf.api_host_and_port().is_err());
}

#[test]
fn test_base_resource_with_port_without_a2() {
    let mut conf = Config::default();
    conf.server = Some("127.0.0.1".to_string());
    conf.api_port = Some("2112".to_string());
    assert_eq!("127.0.0.1:2112".to_string(), conf.api_base_resource().unwrap());
}

#[test]
fn test_api_base_resource_with_port_with_a2() {
    let mut conf = Config::default();
    conf.server = Some("127.0.0.1".to_string());
    conf.a2_mode = Some(true);
    conf.api_port = Some("2112".to_string());
    assert_eq!("127.0.0.1:2112/workflow".to_string(), conf.api_base_resource().unwrap());
}

#[test]
fn test_api_base_resource_without_port_with_a2() {
    let mut conf = Config::default();
    conf.server = Some("127.0.0.1".to_string());
    conf.a2_mode = Some(true);
    assert!(conf.api_port.is_none());
    assert_eq!("127.0.0.1/workflow".to_string(), conf.api_base_resource().unwrap());
}

#[test]
fn test_git_url_with_default_port() {
    let mut conf = Config::default();
    conf.server = Some("127.0.0.1".to_string());
    conf.user = Some("user".to_string());
    conf.enterprise = Some("ent".to_string());
    conf.organization = Some("org".to_string());
    conf.project = Some("proj".to_string());
    assert_eq!(
        "ssh://user@ent@127.0.0.1:8989/ent/org/proj".to_string(),
        conf.delivery_git_ssh_url().unwrap()
    );
}

#[test]
fn test_git_url_with_port() {
    let mut conf = Config::default();
    conf.server = Some("127.0.0.1".to_string());
    conf.user = Some("user".to_string());
    conf.enterprise = Some("ent".to_string());
    conf.organization = Some("org".to_string());
    conf.project = Some("proj".to_string());
    conf.git_port = Some("2112".to_string());
    assert_eq!(
        "ssh://user@ent@127.0.0.1:2112/ent/org/proj".to_string(),
        conf.delivery_git_ssh_url().unwrap()
    );
}

#[test]
fn test_git_url_without_server() {
    let conf = Config::default();
    assert!(conf.server.is_none());
    assert!(conf.delivery_git_ssh_url().is_err());
}

#[test]
fn test_users_url() {
    let mut conf = Config::default();
    conf.server = Some("automate.example.com".to_string());
    conf.enterprise = Some("test".to_string());
    assert_eq!("https://automate.example.com/e/test/#/users".to_string(), conf.users_url().unwrap());
}

#[test]
fn test_organizations_url() {
    let mut conf = Config::default();
    conf.server = Some("automate.example.com".to_string());
    conf.enterprise = Some("test".to_string());
    assert_eq!(
        "https://automate.example.com/e/test/#/organizations".to_string(),
        conf.organizations_url().unwrap()
    );
}

#[test]
fn test_projects_url() {
    let mut conf = Config::default();
    conf.server = Some("server".to_string());
    conf.enterprise = Some("test".to_string());
    conf.organization = Some("org".to_string());
    assert_eq!("https://server/e/test/#/organizations/org".to_string(), conf.projects_url().unwrap());
}

#[test]
fn missing_server_message() {
    let conf = Config::default();
    let e = conf.api_host_and_port().unwrap_err();
    assert!(matches!(e.kind, delivery::errors::Kind::MissingConfig));
    assert!(e.detail.unwrap().contains("Server not set"));
}

#[test]
fn fips_git_url_goes_through_local_tunnel() {
    let mut conf = Config::default();
    conf.server = Some("127.0.0.1".to_string());
    conf.user = Some("user".to_string());
    conf.enterprise = Some("ent".to_string());
    conf.organization = Some("org".to_string());
    conf.project = Some("proj".to_string());
    conf.fips = Some(true);
    conf.fips_git_port = Some("36534".to_string());
    assert_eq!(
        "ssh://user@ent@localhost:36534/ent/org/proj".to_string(),
        conf.delivery_git_ssh_url().unwrap()
    );
}

#[test]
fn override_with_keeps_unset_values() {
    let mut base = Config::default().set_server("a").set_user("u");
    let other = Config::empty().set_server("b");
    base.override_with(other);
    assert_eq!(Some("b".to_string()), base.server);
    assert_eq!(Some("u".to_string()), base.user);
}

#[test]
fn override_with_empty_changes_nothing() {
    let mut base = Config::default().set_server("a").set_enterprise("e");
    base.override_with(Config::empty());
    assert_eq!(Some("a".to_string()), base.server);
    assert_eq!(Some("e".to_string()), base.enterprise);
    assert_eq!(Some("https".to_string()), base.api_protocol);
}

#[test]
fn set_with_empty_value_keeps_old_one() {
    let c = Config::default().set_server("a").set_server("");
    assert_eq!(Some("a".to_string()), c.server);
}

/// The `cli.toml` text read into a configuration, each key by hand.
fn toml_config(text: &str) -> Config {
    let v: toml::Value = text.parse().unwrap();
    let s = |k: &str| v.get(k).and_then(|x| x.as_str()).map(String::from);
    let b = |k: &str| v.get(k).and_then(|x| x.as_bool());
    let mut c = Config::empty();
    c.server = s("server");
    c.api_port = s("api_port");
    c.api_protocol = s("api_protocol");
    c.user = s("user");
    c.enterprise = s("enterprise");
    c.organization = s("organization");
    c.project = s("project");
    c.git_port = s("git_port");
    c.pipeline = s("pipeline");
    c.token_file = s("token_file");
    c.generator = s("generator");
    c.non_interactive = b("non_interactive");
    c.auto_bump = b("auto_bump");
    c.config_json = s("config_json");
    c.saml = b("saml");
    c.fips = b("fips");
    c.fips_git_port = s("fips_git_port");
    c.fips_custom_cert_filename = s("fips_custom_cert_filename");
    c.a2_mode = b("a2_mode");
    c
}

#[test]
fn parse_config_with_defaults() {
    let toml = r#"
            server = "127.0.0.1"
            enterprise = "chef"
            user = "adam"
"#;
    let config_result = Config::parse_config(Ok(toml_config(toml)));
    match config_result {
        Ok(config) => {
            assert_eq!(Some(String::from("127.0.0.1")), config.server);
            assert_eq!(None, config.api_port);
            assert_eq!(Some("https".to_string()), config.api_protocol);
            assert_eq!(Some("8989".to_string()), config.git_port);
            assert_eq!(Some("master".to_string()), config.pipeline);
            assert_eq!(None, config.organization);
            assert_eq!(None, config.token_file);
            assert_eq!(None, config.generator);
            assert_eq!(None, config.non_interactive);
            assert_eq!(None, config.auto_bump);
            assert_eq!(None, config.config_json);
            assert_eq!(None, config.saml);
            assert_eq!(None, config.fips);
            assert_eq!(None, config.fips_git_port);
            assert_eq!(Some(false), config.a2_mode);
        }
        Err(e) => panic!("Failed to parse: {:?}", e.detail),
    }
}

#[test]
fn parse_config_override_defaults() {
    let toml = r#"
            server = "127.0.0.1"
            enterprise = "chef"
            user = "adam"
            git_port = "4151"
            api_protocol = "http"
            api_port = "7643"
            pipeline = "dev"
            non_interactive = true
            auto_bump = true
            config_json = "/path/to/my/custom/config.json"
            saml = true
            fips = true
            fips_git_port = "55555"
            a2_mode = true
"#;
    let config_result = Config::parse_config(Ok(toml_config(toml)));
    match config_result {
        Ok(config) => {
            assert_eq!(Some("4151".to_string()), config.git_port);
            assert_eq!(Some("7643".to_string()), config.api_port);
            assert_eq!(Some("http".to_string()), config.api_protocol);
            assert_eq!(Some("dev".to_string()), config.pipeline);
            assert_eq!(Some(String::from("127.0.0.1")), config.server);
            assert_eq!(None, config.organization);
            assert_eq!(Some(true), config.non_interactive);
            assert_eq!(Some(true), config.auto_bump);
            assert_eq!(
                Some("/path/to/my/custom/config.json".to_string()),
                config.config_json
            );
            assert_eq!(Some(true), config.saml);
            assert_eq!(Some(true), config.fips);
            assert_eq!(Some("55555".to_string()), config.fips_git_port);
            assert_eq!(Some(true), config.a2_mode);
        }
        Err(e) => panic!("Failed to parse: {:?}", e.detail),
    }
}
