use delivery::errors::{DeliveryError, Kind};
use delivery::git::{GitResult, ReviewResult};
use delivery::path::ancestors;
use delivery::project::{
    add_commit_build_cookbook, build_cookbook_committed, create_delivery_pipeline, create_delivery_project,
    create_feature_branch_if_missing, created, download_or_mv_custom_build_cookbook_generator,
    feature_branch_outcome, handle_review_result, missing_github_remote, project_from_cwd, project_or_from_cwd,
    push_project_content_to_delivery, review, root_dir, CreateStep, CustomCookbookSource, FeatureBranchStep,
    SourceCodeProvider, Type,
};

fn git_config_flags(dir: &str) -> Vec<bool> {
    ancestors(dir)
        .iter()
        .map(|a| std::path::Path::new(a).join(".git/config").exists())
        .collect()
}

#[test]
fn detect_error_if_root_project_is_not_a_git_repo() {
    let lib_path = "/project/src/libraries";
    match root_dir(lib_path, &git_config_flags(lib_path)) {
        Ok(_) => assert!(false),
        Err(_) => assert!(true),
    }
}

#[test]
fn root_dir_is_the_nearest_git_root() {
    let flags = vec![false, true, false, false];
    assert_eq!(4, ancestors("/a/b/c").len());
    assert_eq!("/a/b", root_dir("/a/b/c", &flags).unwrap());
    let e = root_dir("/a/b/c", &vec![false; 4]).unwrap_err();
    assert!(matches!(e.kind, Kind::NoGitConfig));
}

#[test]
fn project_name_from_root() {
    let flags = vec![false, true, false, false];
    assert_eq!("b", project_from_cwd("/a/b/c", &flags).unwrap());
    assert_eq!("given", project_or_from_cwd("given", "/a/b/c", &flags).unwrap());
    assert_eq!("b", project_or_from_cwd("", "/a/b/c", &flags).unwrap());
}

#[test]
fn scp_needs_known_kind_and_attributes() {
    let e = SourceCodeProvider::new("gitlab", "r", "o", "b", false).unwrap_err();
    assert!(matches!(e.kind, Kind::UnknownProjectType));
    let e = SourceCodeProvider::new("github", "", "o", "b", false).unwrap_err();
    assert!(matches!(e.kind, Kind::OptionConstraint));
    assert_eq!(
        Some("Missing Github Source Code Provider attributes, specify: repo-name, org-name and pipeline(default: master)".to_string()),
        e.detail
    );
    let p = SourceCodeProvider::new("bitbucket", "r", "k", "b", true).unwrap();
    assert_eq!(Type::Bitbucket, p.kind);
    assert!(!p.verify_ssl);
    assert_eq!("Bitbucket", p.kind_to_fancy_str().unwrap());
}

#[test]
fn scp_server_config_must_exist() {
    let p = SourceCodeProvider::new("github", "r", "o", "b", false).unwrap();
    assert!(p.verify_server_config(Ok(1)).is_ok());
    assert!(matches!(p.verify_server_config(Ok(0)).unwrap_err().kind, Kind::NoGithubSCPConfig));
}

#[test]
fn pipeline_created_unless_it_exists() {
    assert!(matches!(create_delivery_pipeline("o", "p", "master", true), CreateStep::AlreadyExists));
    match create_delivery_pipeline("o", "p", "master", false) {
        CreateStep::Create(path, payload) => {
            assert_eq!("orgs/o/projects/p/pipelines", path);
            assert_eq!("{\"name\":\"master\",\"base\":\"master\"}", payload);
        }
        _ => panic!("expected a creation"),
    }
    let step = create_delivery_project("o", "p", false);
    assert_eq!(true, created(&step, Ok((201, None))).unwrap());
    let step = create_delivery_project("o", "p", true);
    assert_eq!(false, created(&step, Ok((201, None))).unwrap());
}

#[test]
fn push_only_without_server_content() {
    assert_eq!(true, push_project_content_to_delivery(Ok(false)).unwrap());
    assert_eq!(false, push_project_content_to_delivery(Ok(true)).unwrap());
}

#[test]
fn origin_remote_detection() {
    let g = GitResult { stdout: "delivery\norigin\n".to_string(), stderr: String::new() };
    assert_eq!(false, missing_github_remote(Ok(g)).unwrap());
    let g = GitResult { stdout: "delivery\n".to_string(), stderr: String::new() };
    assert_eq!(true, missing_github_remote(Ok(g)).unwrap());
}

#[test]
fn existing_feature_branch_is_checked_out() {
    let e = DeliveryError::throw(Kind::GitFailed, Some("fatal: A branch named 'x' already exists.".to_string()));
    let step = create_feature_branch_if_missing("x", Err(e));
    assert!(matches!(step, FeatureBranchStep::CheckoutExisting));
    let ok = GitResult { stdout: String::new(), stderr: String::new() };
    assert_eq!(false, feature_branch_outcome(step, Ok(ok)).unwrap());
    let other = DeliveryError::throw(Kind::GitFailed, Some("boom".to_string()));
    assert!(matches!(create_feature_branch_if_missing("x", Err(other)), FeatureBranchStep::Failed(_)));
}

#[test]
fn build_cookbook_commit() {
    let ok = GitResult { stdout: String::new(), stderr: String::new() };
    assert_eq!("Adds Delivery build cookbook and config", add_commit_build_cookbook(true, Ok(ok)).unwrap());
    let empty = DeliveryError::throw(Kind::EmptyGitCommit, None);
    assert_eq!(false, build_cookbook_committed(Err(empty)).unwrap());
}

#[test]
fn generator_sources() {
    assert_eq!(CustomCookbookSource::Disk, download_or_mv_custom_build_cookbook_generator("/x/gen", true));
    assert_eq!(CustomCookbookSource::Cached, download_or_mv_custom_build_cookbook_generator("https://git/x", true));
    assert_eq!(CustomCookbookSource::Git, download_or_mv_custom_build_cookbook_generator("https://git/x", false));
}

#[test]
fn review_of_the_same_branch_is_refused() {
    assert!(matches!(review("master", "master").unwrap_err().kind, Kind::CannotReviewSameBranch));
    let args = review("master", "foo").unwrap();
    assert_eq!("foo:_for/master/foo", args[5]);
}

#[test]
fn review_result_url_is_opened_unless_asked_not_to() {
    let mut rr = ReviewResult::default();
    assert_eq!((None, false), handle_review_result(&rr, false));
    rr.url = Some("http://x".to_string());
    assert_eq!((Some("http://x".to_string()), true), handle_review_result(&rr, false));
    assert_eq!((Some("http://x".to_string()), false), handle_review_result(&rr, true));
}
