use delivery::cli::{CloneClapOptions, StatusClapOptions};
use delivery::command::clone::CloneCommand;
use delivery::command::init::{InitCommand, ScpChoice};
use delivery::command::status::StatusCommand;
use delivery::command::LocalCommand;
use delivery::config::Config;
use delivery::errors::{DeliveryError, Kind};
use delivery::json::server_status::{Lsyncd, Postgres, Rabbitmq, ServerStatus, Upstreams};

#[test]
fn clone_plan_prefers_given_url() {
    let mut c = Config::default().set_server("s").set_user("u").set_enterprise("e").set_organization("o").set_project("p");
    c.git_port = Some("22".to_string());
    let plan = CloneCommand::plan(&c, "p", "", "/w").unwrap();
    assert_eq!("ssh://u@e@s:22/e/o/p", plan.clone_url);
    assert_eq!("/w/p", plan.project_root);
    let plan = CloneCommand::plan(&c, "p", "git@x:y", "/w").unwrap();
    assert_eq!("git@x:y", plan.clone_url);
    let _ = CloneClapOptions::default();
}

#[test]
fn clone_into_existing_directory_fails() {
    let e = CloneCommand::destination_check("/w/p", true).unwrap_err();
    assert_eq!(Some("The destination path '/w/p' already exists.".to_string()), e.detail);
}

#[test]
fn clone_error_explanations() {
    let c = Config::default().set_server("s").set_user("u").set_enterprise("e").set_organization("o");
    let e = CloneCommand::check_pub_key(&c, false).unwrap_err();
    assert!(matches!(e.kind, Kind::MissingSshPubKey));
    assert_eq!(
        Some("The configured user 'u' does not have an ssh_pub_key.\nPlease login to the Automate server and configure your key at:\n\thttps://s/e/e/#/users".to_string()),
        e.detail
    );
    let e = CloneCommand::check_project(&c, "p", false).unwrap_err();
    assert!(matches!(e.kind, Kind::ProjectNotFound(_)));
    let git = DeliveryError::throw(Kind::CloneFailed, Some("remote: Unauthorized action".to_string()));
    assert!(matches!(CloneCommand::clone_error(&c, git).kind, Kind::UnauthorizedAction));
    let git = DeliveryError::throw(Kind::CloneFailed, Some("other".to_string()));
    assert!(matches!(CloneCommand::clone_error(&c, git).kind, Kind::CloneFailed));
}

#[test]
fn status_report_lines() {
    let _ = StatusClapOptions::default();
    let s = ServerStatus {
        configuration_mode: "standalone".to_string(),
        status: "up".to_string(),
        upstreams: vec![Upstreams {
            lsyncd: Lsyncd { status: "not_running".to_string() },
            postgres: Postgres { status: "up".to_string() },
            rabbitmq: Rabbitmq { status: "up".to_string(), node_health: None, vhost_aliveness: None },
        }],
        fips_mode: Some(false),
    };
    let c = Config::default().set_server("s");
    let lines = StatusCommand::report(&c, &s, 42).unwrap();
    assert_eq!(("white".to_string(), "Status information for Automate server s...\n".to_string(), true), lines[0]);
    assert_eq!(("green".to_string(), " (request took 42 ms)".to_string(), true), lines[3]);
    assert_eq!(("white".to_string(), "FIPS Mode: disabled".to_string(), true), lines[5]);
    assert_eq!(("red".to_string(), "not_running".to_string(), true), lines[9]);
    assert_eq!(16, lines.len());
}

#[test]
fn init_scp_choice() {
    assert!(matches!(InitCommand::choose_scp("gh", "bb", "r", "master", false).unwrap(), ScpChoice::Conflict));
    assert!(matches!(InitCommand::choose_scp("", "", "r", "master", false).unwrap(), ScpChoice::Provider(None)));
    match InitCommand::choose_scp("", "KEY", "r", "master", false).unwrap() {
        ScpChoice::Provider(Some(p)) => assert!(!p.verify_ssl),
        _ => panic!("expected bitbucket"),
    }
}

#[test]
fn init_branch_plan_and_config_check() {
    let p = InitCommand::branch_plan(true, true);
    assert_eq!("add-delivery-config", p.branch_name);
    assert!(p.commit_build_cookbook && !p.commit_config);
    let p = InitCommand::branch_plan(false, false);
    assert_eq!("initialize-delivery-pipeline", p.branch_name);
    assert!(InitCommand::config_file_check(true, false, false).unwrap().is_none());
    assert_eq!(2, InitCommand::config_file_check(false, true, false).unwrap().unwrap().len());
    assert!(matches!(InitCommand::config_file_check(false, false, false).unwrap_err().kind, Kind::MissingConfigFile));
}

#[test]
fn init_name_mismatch_answer() {
    assert!(InitCommand::name_mismatch_answer(" y \n").is_ok());
    assert!(matches!(InitCommand::name_mismatch_answer("n\n").unwrap_err().kind, Kind::ProjectSCPNameMismatch));
}

#[test]
fn local_phase_failure_carries_exit_code() {
    assert!(LocalCommand::phase_result(0).is_ok());
    assert!(matches!(LocalCommand::phase_result(3).unwrap_err().kind, Kind::PhaseFailed(3)));
}

#[test]
fn path_ends_with_components() {
    assert!(delivery::path::ends_with("/home/me/repo", "repo"));
    assert!(delivery::path::ends_with("/home/me/repo/", "me/repo"));
    assert!(!delivery::path::ends_with("/home/me/myrepo", "repo"));
    assert!(!delivery::path::ends_with("/home/me/repo", "/repo"));
}

#[test]
fn readme_step_decides_review() {
    assert_eq!(InitCommand::readme_step(false, false), (true, true));
    assert_eq!(InitCommand::readme_step(false, true), (false, false));
    assert_eq!(InitCommand::readme_step(true, false), (false, true));
}
