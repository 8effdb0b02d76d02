use delivery::config::Config;
use delivery::delivery_config::DeliveryConfig;
use delivery::job::workspace::{BerksPlan, BuildCookbookPlan, Privilege, Workspace};

#[test]
fn test_workspace_new() {
    let w = Workspace::new("clown");
    assert_eq!(w.root, "clown");
    assert_eq!(w.chef, "clown/chef");
    assert_eq!(w.cache, "clown/cache");
    assert_eq!(w.repo, "clown/repo");
    assert_eq!(w.ssh_wrapper, "clown/bin/git_ssh");
}

#[test]
fn test_workspace_build() {
    let w = Workspace::new("/tmp/cli-workspace-build");
    assert_eq!(
        vec![
            "/tmp/cli-workspace-build",
            "/tmp/cli-workspace-build/chef/nodes",
            "/tmp/cli-workspace-build/chef/cookbooks",
            "/tmp/cli-workspace-build/cache",
            "/tmp/cli-workspace-build/repo",
        ],
        w.build()
    );
    assert_eq!("/tmp/cli-workspace-build/chef/nodes", w.clean_chef_nodes());
}

#[test]
fn run_list_of_phases() {
    assert_eq!("bc::unit,bc::lint", Workspace::run_list("bc", "unit lint"));
    assert_eq!("bc::default", Workspace::run_list("bc", "default"));
}

#[test]
fn job_command_drops_privileges_and_sets_home() {
    let w = Workspace::new("/w");
    let (args, env) = w.job_command("default", "bc", Privilege::Drop, false);
    assert_eq!(
        vec![
            "-z", "--force-formatter", "--user", "dbuild", "--group", "dbuild", "-j", "/w/chef/dna.json", "-c",
            "/w/chef/config.rb", "-r", "bc::default",
        ],
        args
    );
    assert_eq!(
        vec![
            ("HOME".to_string(), "/w/cache".to_string()),
            ("DELIVERY_BUILD_SETUP".to_string(), "TRUE".to_string()),
        ],
        env
    );
    let (args, env) = w.job_command("unit", "bc", Privilege::NoDrop, true);
    assert_eq!(8, args.len());
    assert_eq!(vec![("DELIVERY_BUILD_SETUP".to_string(), "FALSE".to_string())], env);
}

#[test]
fn repo_setup_commands() {
    let w = Workspace::new("/w");
    let cmds = w.setup_repo_for_change("url", "_reviews/master/c/1", "master", "", false);
    assert_eq!(vec!["clone", "url", "."], cmds[0]);
    assert_eq!(vec!["fetch", "origin", "_reviews/master/c/1"], cmds[7]);
    assert_eq!(9, cmds.len());
    let cmds = w.setup_repo_for_change("url", "b", "master", "abc", true);
    assert_eq!(vec!["reset", "--hard", "abc"], cmds[6]);
}

#[test]
fn build_cookbook_from_path_and_git() {
    let w = Workspace::new("/w");
    let config = DeliveryConfig::default();
    match w.build_cookbook_plan(&config, &Config::default()).unwrap() {
        BuildCookbookPlan::CopyFrom(p) => assert_eq!("/w/repo/.delivery/build_cookbook", p),
        _ => panic!("expected a local copy"),
    }
    let mut config = DeliveryConfig::default();
    config.build_cookbook = vec![("name".to_string(), "bc".to_string()), ("git".to_string(), "g".to_string())];
    match w.build_cookbook_plan(&config, &Config::default()).unwrap() {
        BuildCookbookPlan::GitClone(u, b) => {
            assert_eq!("g", u);
            assert_eq!("master", b);
        }
        _ => panic!("expected a clone"),
    }
}

#[test]
fn berks_or_move() {
    let w = Workspace::new("/w");
    match w.berks_plan("bc", false) {
        BerksPlan::Move(d, c) => {
            assert_eq!("/w/chef/cookbooks", d);
            assert_eq!(vec!["/w/chef/build_cookbook", "/w/chef/cookbooks/bc"], c.args);
        }
        _ => panic!("expected a move"),
    }
    assert!(matches!(w.berks_plan("bc", true), BerksPlan::Vendor(_)));
}

#[test]
fn supermarket_failures() {
    let e = Workspace::supermarket_failure(0, "o", "e", "site");
    assert_eq!(Some("Failed 'knife supermarket download'\nOUT: o\nERR: e\nSite: site".to_string()), e.detail);
    let e = Workspace::supermarket_failure(1, "o", "e", "site");
    assert_eq!(Some("Failed 'tar zxf'\nOUT: o\nERR: e".to_string()), e.detail);
}

#[test]
fn drop_permissions_targets() {
    let w = Workspace::new("/w");
    let (owner, paths) = w.set_drop_permissions();
    assert_eq!("dbuild:dbuild", owner);
    assert_eq!(vec!["/w/repo", "/w/chef/cookbooks", "/w/chef/nodes", "/w/cache"], paths);
}

#[test]
fn privileged_job_sets_up_first() {
    let runs = delivery::job::workspace::job_runs("unit", false, true);
    assert_eq!(runs.len(), 2);
    assert_eq!(runs[0].0, "default");
    assert_eq!(runs[0].1, Privilege::NoDrop);
    assert_eq!(runs[1].0, "unit");
    assert_eq!(runs[1].1, Privilege::Drop);
}

#[test]
fn unprivileged_or_skipped_default_runs_phases_only() {
    let runs = delivery::job::workspace::job_runs("lint syntax unit", false, false);
    assert_eq!(runs.len(), 1);
    assert_eq!(runs[0].0, "lint syntax unit");
    assert_eq!(runs[0].1, Privilege::NoDrop);
    let runs = delivery::job::workspace::job_runs("unit", true, true);
    assert_eq!(runs.len(), 1);
    assert_eq!(runs[0].1, Privilege::Drop);
}

#[test]
fn job_branch_defaults_to_review_branch() {
    assert_eq!(delivery::job::workspace::change_branch("evil", "master", "rasengan", "1"), "evil");
    assert_eq!(delivery::job::workspace::change_branch("", "master", "rasengan", ""), "_reviews/master/rasengan/latest");
    assert_eq!(delivery::job::workspace::change_branch("", "master", "rasengan", "3"), "_reviews/master/rasengan/3");
}
