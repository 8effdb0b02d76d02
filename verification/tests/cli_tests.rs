use delivery::cli::{
    init_command, init_project_specific, value_of, CheckoutClapOptions, CloneClapOptions, InitClapOptions,
    InitCommand, JobClapOptions, LocalClapOptions, PullClapOptions, ReviewClapOptions, StatusClapOptions,
};
use delivery::config::Config;
use delivery::delivery_config::project::{Phase, Stage};
use delivery::errors::Kind;
use delivery::fips::generate_stunnel_config;

fn strings(v: &[&str]) -> Vec<String> {
    v.iter().map(|s| s.to_string()).collect()
}

#[test]
fn value_of_single_name() {
    let keys = strings(&["for"]);
    assert_eq!(value_of(&keys, &vec![Some("griffindor".to_string())]).unwrap(), "griffindor");
    assert_eq!(value_of(&keys, &vec![None]).unwrap(), "");
}

#[test]
fn value_of_aliases() {
    let keys = strings(&["for", "pipeline"]);
    assert_eq!(value_of(&keys, &vec![Some("griffindor".to_string()), None]).unwrap(), "griffindor");
    assert_eq!(value_of(&keys, &vec![None, Some("hufflepuff".to_string())]).unwrap(), "hufflepuff");
    assert_eq!(value_of(&keys, &vec![None, None]).unwrap(), "");
}

#[test]
fn value_of_overlapping_aliases_fail() {
    let keys = strings(&["for", "pipeline"]);
    let e = value_of(&keys, &vec![Some("a".to_string()), Some("b".to_string())]).unwrap_err();
    assert!(matches!(e.kind, Kind::ClapArgAliasOverlap));
    assert_eq!(
        e.detail.unwrap(),
        "The arguments [\"for\", \"pipeline\"] are aliases, please just pass one."
    );
}

#[test]
fn local_options_name_a_phase_or_a_stage() {
    let unit = LocalClapOptions::new("unit", "");
    assert_eq!(unit.phase, Some(Phase::Unit));
    assert!(unit.stage.is_none());
    assert!(unit.remote_toml.is_none());
    let functional = LocalClapOptions::new("functional", "");
    assert_eq!(functional.phase, Some(Phase::Functional));
    let all = LocalClapOptions::new("all", "https://example.com/project.toml");
    assert!(all.phase.is_none());
    assert_eq!(all.stage, Some(Stage::All));
    assert_eq!(all.remote_toml.unwrap(), "https://example.com/project.toml");
    let none = LocalClapOptions::new("nothing", "");
    assert!(none.phase.is_none());
    assert!(none.stage.is_none());
}

#[test]
fn clone_options_override_config() {
    let mut opts = CloneClapOptions::default();
    opts.project = "minecraft".to_string();
    opts.user = "dummy".to_string();
    opts.server = "m.craft.com".to_string();
    opts.a2_mode = Some(true);
    let mut config = Config::default();
    config.user = Some("someone".to_string());
    config.enterprise = Some("world".to_string());
    let c = opts.merge_options_and_config(config, &Some("elsewhere".to_string())).unwrap();
    assert_eq!(c.user.unwrap(), "dummy");
    assert_eq!(c.server.unwrap(), "m.craft.com");
    assert_eq!(c.enterprise.unwrap(), "world");
    assert_eq!(c.project.unwrap(), "minecraft");
    assert_eq!(c.a2_mode, Some(true));
}

#[test]
fn clone_project_comes_from_cwd_when_unset() {
    let opts = CloneClapOptions::default();
    let c = opts.merge_options_and_config(Config::default(), &Some("here".to_string())).unwrap();
    assert_eq!(c.project.unwrap(), "here");
    let c = opts.merge_options_and_config(Config::default(), &None).unwrap();
    assert!(c.project.is_none());
}

#[test]
fn init_needs_a_project() {
    let opts = InitClapOptions::default();
    let e = opts.merge_options_and_config(Config::default(), &None).unwrap_err();
    assert!(matches!(e.kind, Kind::NoGitConfig));
    let c = opts.merge_options_and_config(Config::default(), &Some("frijol".to_string())).unwrap();
    assert_eq!(c.project.unwrap(), "frijol");
    assert_eq!(c.pipeline.unwrap(), "master");
}

#[test]
fn init_options_override_config() {
    let mut opts = InitClapOptions::default();
    opts.project = "frijol".to_string();
    opts.pipeline = "postres".to_string();
    opts.generator = "/original".to_string();
    opts.config_json = "receta.json".to_string();
    opts.org = "oaxaca".to_string();
    let c = opts.merge_options_and_config(Config::default(), &None).unwrap();
    assert_eq!(c.project.unwrap(), "frijol");
    assert_eq!(c.pipeline.unwrap(), "postres");
    assert_eq!(c.generator.unwrap(), "/original");
    assert_eq!(c.config_json.unwrap(), "receta.json");
    assert_eq!(c.organization.unwrap(), "oaxaca");
}

#[test]
fn local_job_gets_defaults() {
    let mut opts = JobClapOptions::default();
    opts.local = true;
    opts.project = "uchiha".to_string();
    let c = opts.merge_options_and_config(Config::default(), &None).unwrap();
    assert_eq!(c.user.unwrap(), "you");
    assert_eq!(c.server.unwrap(), "localhost");
    assert_eq!(c.enterprise.unwrap(), "local");
    assert_eq!(c.organization.unwrap(), "workstation");
    assert_eq!(c.project.unwrap(), "uchiha");
}

#[test]
fn server_job_keeps_config_values() {
    let mut opts = JobClapOptions::default();
    opts.project = "uchiha".to_string();
    opts.user = "naruto".to_string();
    let mut config = Config::default();
    config.server = Some("manga.com".to_string());
    let c = opts.merge_options_and_config(config, &None).unwrap();
    assert_eq!(c.user.unwrap(), "naruto");
    assert_eq!(c.server.unwrap(), "manga.com");
    assert!(c.enterprise.is_none());
}

#[test]
fn a2_job_uses_saml() {
    let mut opts = JobClapOptions::default();
    opts.project = "p".to_string();
    opts.a2_mode = Some(true);
    let c = opts.merge_options_and_config(Config::default(), &None).unwrap();
    assert_eq!(c.saml, Some(true));
    opts.a2_mode = None;
    let c = opts.merge_options_and_config(Config::default(), &None).unwrap();
    assert!(c.saml.is_none());
}

#[test]
fn review_auto_bump_only_when_unset() {
    let mut opts = ReviewClapOptions::default();
    opts.auto_bump = true;
    let c = opts.merge_options_and_config(Config::default(), &None).unwrap();
    assert_eq!(c.auto_bump, Some(true));
    let mut config = Config::default();
    config.auto_bump = Some(false);
    let c = opts.merge_options_and_config(config, &None).unwrap();
    assert_eq!(c.auto_bump, Some(false));
}

#[test]
fn checkout_and_pull_fill_project() {
    let mut opts = CheckoutClapOptions::default();
    opts.pipeline = "custom-pipe".to_string();
    let c = opts.merge_options_and_config(Config::default(), &Some("proj".to_string())).unwrap();
    assert_eq!(c.pipeline.unwrap(), "custom-pipe");
    assert_eq!(c.project.unwrap(), "proj");
    let mut config = Config::default();
    config.project = Some("mine".to_string());
    let c = PullClapOptions::default().merge_options_and_config(config, &Some("proj".to_string())).unwrap();
    assert_eq!(c.project.unwrap(), "mine");
}

#[test]
fn status_options_set_port_and_server() {
    let mut opts = StatusClapOptions::default();
    opts.api_port = "9999".to_string();
    opts.server = "death-star".to_string();
    let c = opts.merge_options_and_config(Config::default(), &None).unwrap();
    assert_eq!(c.api_port.unwrap(), "9999");
    assert_eq!(c.server.unwrap(), "death-star");
}

#[test]
fn project_specific_gives_git_url() {
    let mut config = Config::default();
    config.server = Some("127.0.0.1".to_string());
    config.user = Some("user".to_string());
    config.enterprise = Some("ent".to_string());
    config.organization = Some("org".to_string());
    let (c, url) = init_project_specific(config, &Some("proj".to_string())).unwrap();
    assert_eq!(c.project.unwrap(), "proj");
    assert_eq!(url, "ssh://user@ent@127.0.0.1:8989/ent/org/proj");
}

#[test]
fn project_specific_needs_a_server() {
    let e = init_project_specific(Config::default(), &Some("proj".to_string())).unwrap_err();
    assert!(matches!(e.kind, Kind::MissingConfig));
}

#[test]
fn init_command_merges_then_gives_url() {
    let mut opts = CheckoutClapOptions::default();
    opts.pipeline = "p".to_string();
    let mut config = Config::default();
    config.server = Some("127.0.0.1".to_string());
    config.user = Some("user".to_string());
    config.enterprise = Some("ent".to_string());
    config.organization = Some("org".to_string());
    let (c, url) = init_command(&opts, config, &Some("proj".to_string())).unwrap();
    assert_eq!(c.pipeline.unwrap(), "p");
    assert_eq!(url, "ssh://user@ent@127.0.0.1:8989/ent/org/proj");
}

#[test]
fn generate_stunnel_config_test() {
    let home = "/home/automate";
    let init = r#"fips = yes
client = yes
"#;
    let mut expected = init.to_string();
    expected += &format!("output = {}", "/home/automate/.chefdk/log/stunnel.log\n");
    expected += r#"foreground = quiet
[git]
accept = 36534
connect = automate.test:8989
checkHost = automate.test
verifyChain = yes
verify = 3
"#;
    expected += &format!("CAfile = {}", "/home/automate/.chefdk/etc/automate-nginx-cert.pem\n");
    let actual = generate_stunnel_config(home, "automate.test", "36534");
    assert_eq!(expected, actual);
}

/// The values a command line gives for `keys`, where only `arg` was given
/// `val`.
fn values_for(keys: &[&str], arg: &str, val: &str) -> (Vec<String>, Vec<Option<String>>) {
    let k = strings(keys);
    let v = keys.iter().map(|key| if *key == arg { Some(val.to_string()) } else { None }).collect();
    (k, v)
}

#[test]
fn test_value_of_trait() {
    // delivery checkout branch --for griffindor
    let (k, v) = values_for(&["for"], "for", "griffindor");
    assert_eq!("griffindor", value_of(&k, &v).unwrap());
    let (k, v) = values_for(&["not_for"], "for", "griffindor");
    assert_eq!("", value_of(&k, &v).unwrap());
    let (k, v) = values_for(&["for", "pipeline"], "for", "griffindor");
    assert_eq!("griffindor", value_of(&k, &v).unwrap());
    let (k, v) = values_for(&["not_for", "not_pipeline"], "for", "griffindor");
    assert_eq!("", value_of(&k, &v).unwrap());

    // delivery checkout branch --pipeline hufflepuff
    let (k, v) = values_for(&["pipeline"], "pipeline", "hufflepuff");
    assert_eq!("hufflepuff", value_of(&k, &v).unwrap());
    let (k, v) = values_for(&["not_pipeline"], "pipeline", "hufflepuff");
    assert_eq!("", value_of(&k, &v).unwrap());
    let (k, v) = values_for(&["for", "pipeline", "somethingelse"], "pipeline", "hufflepuff");
    assert_eq!("hufflepuff", value_of(&k, &v).unwrap());
    let (k, v) = values_for(&["not_for", "not_pipeline", "not_somethingelse"], "pipeline", "hufflepuff");
    assert_eq!("", value_of(&k, &v).unwrap());
}
