use delivery::delivery_config::project::{Phase, ProjectToml, Stage};
use delivery::delivery_config::{BuildCookbookLocation, DeliveryConfig, DeliveryConfigV1, JobDispatch};

fn pairs(v: &[(&str, &str)]) -> Vec<(String, String)> {
    v.iter().map(|(a, b)| (a.to_string(), b.to_string())).collect()
}

#[test]
fn mod_default() {
    let c_v1 = DeliveryConfigV1::default();
    assert_eq!(c_v1.version, "1".to_string());
    assert_eq!(c_v1.build_cookbook, "./.delivery/build_cookbook".to_string());
    assert_eq!(c_v1.skip_phases, Some(Vec::new()));
    assert_eq!(c_v1.build_nodes, Some(Vec::new()));
}

#[test]
fn v2_default() {
    let build_cookbook = pairs(&[("name", "build_cookbook"), ("path", ".delivery/build_cookbook")]);
    let c_v2 = DeliveryConfig::default();
    assert_eq!(c_v2.version, "2".to_string());
    assert_eq!(c_v2.skip_phases, Some(Vec::new()));
    assert_eq!(c_v2.job_dispatch.unwrap().version, "v2".to_string());
    assert_eq!(c_v2.dependencies, Some(Vec::new()));
    assert_eq!(c_v2.build_cookbook, build_cookbook);
    assert!(c_v2.build_nodes.is_none());
}

#[test]
fn job_dispatch_default() {
    let job_d = JobDispatch::default();
    assert_eq!(job_d.version, "v2".to_string());
    assert!(job_d.filters.is_none());
}

fn blank_bk_with_name() -> Vec<(String, String)> {
    pairs(&[("name", "cook_nice")])
}

#[test]
fn location_default() {
    let config = DeliveryConfig::default();
    assert_eq!(BuildCookbookLocation::Local, config.build_cookbook_location().unwrap());
}

#[test]
fn chef_server() {
    let mut config = DeliveryConfig::default();
    config.build_cookbook = pairs(&[("name", "cook_nice"), ("server", "true")]);
    assert_eq!(BuildCookbookLocation::ChefServer, config.build_cookbook_location().unwrap());
}

#[test]
fn supermarket() {
    let mut config = DeliveryConfig::default();
    config.build_cookbook = pairs(&[("name", "cook_nice"), ("supermarket", "true")]);
    assert_eq!(BuildCookbookLocation::Supermarket, config.build_cookbook_location().unwrap());
}

#[test]
fn workflow() {
    let mut config = DeliveryConfig::default();
    config.build_cookbook = pairs(&[("name", "cook_nice"), ("enterprise", "mx"), ("organization", "df")]);
    assert_eq!(BuildCookbookLocation::Workflow, config.build_cookbook_location().unwrap());
}

#[test]
fn git() {
    let mut config = DeliveryConfig::default();
    config.build_cookbook = pairs(&[("name", "cook_nice"), ("git", "git@github.com:marvel/cerebro.git")]);
    assert_eq!(BuildCookbookLocation::Git, config.build_cookbook_location().unwrap());
}

#[test]
fn failure_invalid_build_cookbook() {
    let mut config = DeliveryConfig::default();
    config.build_cookbook = blank_bk_with_name();
    assert!(config.build_cookbook_location().is_err());
}

#[test]
fn get() {
    let mut config = DeliveryConfig::default();
    config.build_cookbook = pairs(&[("name", "cook_nice"), ("enterprise", "mx"), ("organization", "df")]);
    assert_eq!("cook_nice".to_string(), config.build_cookbook_get("name").unwrap());
    assert_eq!("mx".to_string(), config.build_cookbook_get("enterprise").unwrap());
    assert_eq!("df".to_string(), config.build_cookbook_get("organization").unwrap());
    assert!(config.build_cookbook_get("so").is_err());
    assert!(config.build_cookbook_get("much").is_err());
    assert!(config.build_cookbook_get("fun").is_err());
}

#[test]
fn name() {
    let config = DeliveryConfig::default();
    assert_eq!("build_cookbook".to_string(), config.build_cookbook_name().unwrap());
}

#[test]
fn missing_field_message() {
    let config = DeliveryConfig::default();
    let e = config.build_cookbook_get("so").unwrap_err();
    assert_eq!(Some("Unable to find 'so' field.".to_string()), e.detail);
}

#[test]
fn v1_local_path_converts_to_path_entry() {
    let mut v1 = DeliveryConfigV1::default();
    v1.build_cookbook = "./.delivery/build_cookbook".to_string();
    let v2 = v1.convert_to_v2().unwrap();
    assert_eq!(v2.version, "1".to_string());
    assert_eq!(v2.build_cookbook, pairs(&[("name", "build_cookbook"), ("path", "./.delivery/build_cookbook")]));
    assert_eq!(BuildCookbookLocation::Local, v2.build_cookbook_location().unwrap());
    assert!(v2.job_dispatch.is_none());
}

#[test]
fn v1_name_converts_to_chef_server_entry() {
    let mut v1 = DeliveryConfigV1::default();
    v1.build_cookbook = "delivery-truck".to_string();
    let v2 = v1.convert_to_v2().unwrap();
    assert_eq!(v2.build_cookbook, pairs(&[("name", "delivery-truck"), ("server", "true")]));
    assert_eq!(BuildCookbookLocation::ChefServer, v2.build_cookbook_location().unwrap());
}

#[test]
fn v1_path_without_name_is_invalid() {
    let mut v1 = DeliveryConfigV1::default();
    v1.build_cookbook = "/".to_string();
    let e = v1.convert_to_v2().unwrap_err();
    assert!(matches!(e.kind, delivery::errors::Kind::NoValidBuildCookbook));
}

#[test]
fn load_config_reports_both_failures() {
    let v1_err = delivery::errors::DeliveryError::throw(delivery::errors::Kind::JsonParseError, None);
    let r = DeliveryConfig::load_config(Err("bad v2".to_string()), Some(Err(v1_err)));
    let e = r.unwrap_err();
    assert!(matches!(e.kind, delivery::errors::Kind::DeliveryConfigParse));
    let d = e.detail.unwrap();
    assert!(d.starts_with("  version 2: bad v2\n  version 1: "));
    assert!(d.ends_with("\n\nSee: https://docs.chef.io/config_json_delivery.html"));
}

#[test]
fn config_file_path_is_under_dot_delivery() {
    assert_eq!("/p/.delivery/config.json", DeliveryConfig::config_file_path("/p"));
}

#[test]
fn test_project_toml_with_defaults_plus_overrides() {
    let p_toml = ProjectToml::default();
    let unit = "mvn test".to_string();
    p_toml.local_phases.map(|mut phases| {
        assert_eq!(None, phases.unit);
        phases.unit = Some(unit.clone());
        assert_eq!(unit, phases.unit.unwrap());
    });
}

#[test]
fn test_local_phase_accessor() {
    let p_toml = ProjectToml::default();
    assert!(p_toml.local_phase(None).is_err());
    assert_eq!(p_toml.local_phase(Some(Phase::Unit)).unwrap(), p_toml.local_phases.unwrap().unit);
}

#[test]
fn test_stages_phases() {
    let verify = Stage::Verify;
    assert!(verify.phases().contains(&Phase::Syntax));
    assert!(verify.phases().contains(&Phase::Unit));
    assert!(verify.phases().contains(&Phase::Lint));

    let acceptance = Stage::Acceptance;
    assert!(acceptance.phases().contains(&Phase::Smoke));
    assert!(acceptance.phases().contains(&Phase::Deploy));
    assert!(acceptance.phases().contains(&Phase::Provision));
    assert!(acceptance.phases().contains(&Phase::Functional));
    assert!(acceptance.phases().contains(&Phase::Cleanup));

    let all = Stage::All;
    assert!(all.phases().contains(&Phase::Syntax));
    assert!(all.phases().contains(&Phase::Unit));
    assert!(all.phases().contains(&Phase::Lint));
    assert!(all.phases().contains(&Phase::Smoke));
    assert!(all.phases().contains(&Phase::Deploy));
    assert!(all.phases().contains(&Phase::Provision));
    assert!(all.phases().contains(&Phase::Functional));
    assert!(all.phases().contains(&Phase::Cleanup));
}

#[test]
fn all_stage_is_verify_then_acceptance() {
    let mut both = Stage::Verify.phases();
    both.extend(Stage::Acceptance.phases());
    assert_eq!(both, Stage::All.phases());
}

#[test]
fn phase_names_are_lowercase() {
    assert_eq!("functional", Phase::Functional.as_str());
    assert_eq!("unit", Phase::Unit.as_str());
}

#[test]
fn returns_path_to_toml() {
    assert_eq!("/tmp/.delivery/project.toml", ProjectToml::toml_file_path("/tmp"));
}

#[test]
fn missing_toml_file_error() {
    assert!(ProjectToml::validate_file(true).is_ok());
    let e = ProjectToml::validate_file(false).unwrap_err();
    assert!(matches!(e.kind, delivery::errors::Kind::MissingConfigFile));
    assert!(e.detail.unwrap().starts_with("The .delivery/project.toml file was not found."));
}

#[test]
fn local_phase_without_local_phases() {
    let t = ProjectToml { remote_file: Some("url".to_string()), local_phases: None };
    let e = t.local_phase(Some(Phase::Unit)).unwrap_err();
    assert!(matches!(e.kind, delivery::errors::Kind::LocalPhasesNotFound));
}
