use delivery::errors::{DeliveryError, Kind};
use delivery::git::{
    check_repo_init, checkout_branch_name, git_push_review, parse_get_head, parse_git_push_output,
    parse_line_from_remote, server_content, GitResult, PushResultFlag, ReviewResult,
};

#[test]
fn test_parse_get_head() {
    let stdout = "  adam/review
  adam/test
  adam/test6
  builder
  first
  foo
  foo2
* master
  snazzy
  testerton";
    let result = parse_get_head(stdout);
    match result {
        Ok(branch) => {
            assert_eq!(&branch[..], "master");
        }
        Err(_) => panic!("No result"),
    };
}

#[test]
fn parse_get_head_when_detached() {
    let e = parse_get_head("  master\n  dev").unwrap_err();
    assert!(matches!(e.kind, Kind::NotOnABranch));
}

#[test]
fn test_check_repo_init_with_invalid_path() {
    let path = std::path::Path::new("/tmp/not_real/.git");
    assert!(check_repo_init(path.is_dir()).is_err());
}

#[test]
fn check_repo_init_with_git_dir() {
    assert!(check_repo_init(true).is_ok());
    assert!(matches!(check_repo_init(false).unwrap_err().kind, Kind::GitSetupFailed));
}

fn parse_line_from_remote_with_eol(remote_msg_eol: &str) {
    let mut review_result = ReviewResult::default();
    let random_msg = "A random message";
    let line1 = format!("remote: {}{}", random_msg, remote_msg_eol);
    parse_line_from_remote(&line1, &mut review_result);
    assert_eq!(random_msg, review_result.messages[0]);

    let change_id = "4bc3f44f-d81f-48a5-bd38-2c7963cb6d94";
    let change_url = format!(
        "https://delivery.shd.chef.co/e/Chef/#/organizations/sandbox/projects/radar/changes/{}",
        change_id
    );
    let line2 = format!("remote: {}{}", change_url, remote_msg_eol);
    parse_line_from_remote(&line2, &mut review_result);
    assert_eq!(change_url, review_result.url.unwrap());
    assert_eq!(change_id, review_result.change_id.unwrap());
}

#[test]
fn test_parse_line_from_remote() {
    parse_line_from_remote_with_eol("");
    parse_line_from_remote_with_eol("\u{1b}[K");
}

#[test]
fn push_output_with_new_ref() {
    let out = "To ssh://delivery\n*\trefs/heads/foo:refs/heads/_for/master/foo\t[new branch]\nDone";
    let rr = parse_git_push_output(out, "remote: hello").unwrap();
    assert_eq!(1, rr.push_results.len());
    assert_eq!(PushResultFlag::SuccessfulPushedNewRef, rr.push_results[0].flag);
    assert_eq!(vec!["hello".to_string()], rr.messages);
}

#[test]
fn failed_push_is_passed_on() {
    let e = delivery::errors::DeliveryError::throw(Kind::PushFailed, None);
    assert!(matches!(git_push_review(Err(e)).unwrap_err().kind, Kind::PushFailed));
}

#[test]
fn server_content_looks_for_the_pipeline_ref() {
    let g = GitResult { stdout: "abc\trefs/heads/master\n".to_string(), stderr: String::new() };
    assert!(server_content("master", Ok(g)).unwrap());
    let g = GitResult { stdout: String::new(), stderr: String::new() };
    assert!(!server_content("master", Ok(g)).unwrap());
}

#[test]
fn review_branch_name() {
    assert_eq!("foo/1", checkout_branch_name("foo", "1"));
    assert_eq!("foo", checkout_branch_name("foo", "latest"));
}

#[test]
fn pull_args_rebase_or_merge() {
    assert_eq!(delivery::git::pull_args("master", true), vec!["pull", "--rebase", "delivery", "master"]);
    assert_eq!(delivery::git::pull_args("dev", false), vec!["pull", "--no-rebase", "delivery", "dev"]);
}

#[test]
fn pull_of_missing_ref_is_branch_not_found() {
    let missing = Err(DeliveryError { kind: Kind::GitFailed, detail: Some("fatal: couldn't find remote ref nope".to_string()) });
    let e = delivery::git::pull_result(missing).unwrap_err();
    assert!(matches!(e.kind, Kind::BranchNotFoundOnDeliveryRemote));
    let other = Err(DeliveryError { kind: Kind::GitFailed, detail: Some("fatal: no network".to_string()) });
    let e = delivery::git::pull_result(other).unwrap_err();
    assert!(matches!(e.kind, Kind::GitFailed));
    assert_eq!(e.detail.unwrap(), "fatal: no network");
    let ok = Ok(delivery::git::GitResult { stdout: String::new(), stderr: String::new() });
    assert!(delivery::git::pull_result(ok).is_ok());
}
