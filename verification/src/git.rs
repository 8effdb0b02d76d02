//! Reading what git prints, and deciding what to run next.
use vstd::prelude::*;
use crate::errors::{DeliveryError, DeliveryResult, Kind, opt_view};
use crate::matching::{regex_captures, regex_captures_of, group, group_at, opt_views, branch_line};
use crate::text::{
    chars_of, contains, contains_seq, has_prefix, lines, lines_of, owned, starts_with, str_eq,
    trim, trim_seq, views, split_seq, lemma_split_step,
};

verus! {

/// What a git command printed.
#[derive(Debug)]
pub struct GitResult {
    pub stdout: String,
    pub stderr: String,
}

/// The outcome of pushing one ref, as `git push --porcelain` flags it.
#[derive(Debug, Clone, Copy, PartialEq, Eq, Structural)]
pub enum PushResultFlag {
    SuccessfulFastForward,
    SuccessfulForcedUpdate,
    SuccessfulDeletedRef,
    SuccessfulPushedNewRef,
    Rejected,
    UpToDate,
}

/// One pushed ref: its flag and the summary git gave for it.
#[derive(Debug)]
pub struct PushResult {
    pub flag: PushResultFlag,
    pub reason: String,
}

/// What a push for review reported: one result per ref, the server's
/// messages (lines prefixed with `remote:`), the change URL the server
/// sent last, and the change id read from that URL.
#[derive(Debug)]
pub struct ReviewResult {
    pub push_results: Vec<PushResult>,
    pub messages: Vec<String>,
    pub url: Option<String>,
    pub change_id: Option<String>,
}

/// The view of a review result.
pub struct ReviewView {
    pub push_results: Seq<(PushResultFlag, Seq<char>)>,
    pub messages: Seq<Seq<char>>,
    pub url: Option<Seq<char>>,
    pub change_id: Option<Seq<char>>,
}

/// The view of a list of push results.
pub open spec fn push_views(v: Seq<PushResult>) -> Seq<(PushResultFlag, Seq<char>)> {
    v.map_values(|p: PushResult| (p.flag, p.reason@))
}

impl View for ReviewResult {
    type V = ReviewView;

    open spec fn view(&self) -> ReviewView {
        ReviewView {
            push_results: push_views(self.push_results@),
            messages: views(self.messages@),
            url: opt_view(self.url),
            change_id: opt_view(self.change_id),
        }
    }
}

/// A review result with nothing in it.
pub open spec fn empty_review() -> ReviewView {
    ReviewView { push_results: Seq::empty(), messages: Seq::empty(), url: None, change_id: None }
}

impl Default for ReviewResult {
    fn default() -> (r: ReviewResult)
        ensures
            r@ == empty_review(),
    {
        let r = ReviewResult { push_results: Vec::new(), messages: Vec::new(), url: None, change_id: None };
        assert(push_views(r.push_results@) =~= Seq::empty());
        assert(views(r.messages@) =~= Seq::empty());
        r
    }
}

/// The pattern of a `git branch` line: a marker, a space, the branch.
pub open spec fn head_pattern() -> Seq<char> {
    "(.) (.+)"@
}

/// The branch that `git branch` marks with `*`. `Err(Some(line))` when a
/// line does not have the expected shape, `Err(None)` when no branch is
/// marked.
pub open spec fn head_from_lines(ls: Seq<Seq<char>>) -> Result<Seq<char>, Option<Seq<char>>>
    decreases ls.len(),
{
    if ls.len() == 0 {
        Err(None)
    } else {
        match regex_captures_of(head_pattern(), ls[0]) {
            None => Err(Some(ls[0])),
            Some(c) => if group(c, 1) == Some(seq!['*']) {
                match group(c, 2) {
                    Some(b) => Ok(b),
                    None => Err(Some(ls[0])),
                }
            } else {
                head_from_lines(ls.drop_first())
            },
        }
    }
}

/// `r` reports the head branch as `head_from_lines` decides it.
pub open spec fn head_result(r: DeliveryResult<String>, o: Result<Seq<char>, Option<Seq<char>>>) -> bool {
    match o {
        Ok(b) => r matches Ok(x) && x@ == b,
        Err(Some(l)) => r matches Err(e) && e.kind is BadGitOutputMatch && opt_view(e.detail) == Some(
            "Failed to match: "@ + l,
        ),
        Err(None) => r matches Err(e) && e.kind is NotOnABranch && e.detail is None,
    }
}

/// Whether a capture is exactly the single character `c`.
fn is_single(t: &Option<String>, c: char) -> (r: bool)
    ensures
        r == (opt_view(*t) == Some(seq![c])),
{
    match t {
        Some(s) => {
            let v = chars_of(s.as_str());
            if v.len() == 1 && v[0] == c {
                assert(v@ =~= seq![c]);
                true
            } else {
                assert(v.len() == 1 ==> v@ != seq![c] || v[0] == c);
                false
            }
        },
        None => false,
    }
}

/// The error for a line of git output that does not have the expected shape.
fn bad_line(line: &str) -> (e: DeliveryError)
    ensures
        e.kind is BadGitOutputMatch,
        opt_view(e.detail) == Some("Failed to match: "@ + line@),
{
    let mut d = owned("Failed to match: ");
    d.append(line);
    DeliveryError { kind: Kind::BadGitOutputMatch, detail: Some(d) }
}

/// Line `k` of `git branch` output is the first one marked `*`, and it
/// and every line before it have the shape of a `branch_line`.
pub open spec fn marked_at(ls: Seq<Seq<char>>, k: int) -> bool {
    &&& 0 <= k < ls.len()
    &&& forall|j: int| 0 <= j <= k ==> branch_line(#[trigger] ls[j])
    &&& forall|j: int| 0 <= j < k ==> (#[trigger] ls[j])[0] != '*'
    &&& ls[k][0] == '*'
}

/// The current branch, read from the output of `git branch`: for output
/// whose first marked line is `* ` and a name (see `marked_at`), exactly
/// that whole name.
pub fn parse_get_head(stdout: &str) -> (r: DeliveryResult<String>)
    ensures
        head_result(r, head_from_lines(lines_of(stdout@))),
        forall|k: int| #[trigger] marked_at(lines_of(stdout@), k) ==> (r matches Ok(x) && x@ == lines_of(stdout@)[k].subrange(
            2,
            lines_of(stdout@)[k].len() as int,
        )),
{
    let ls = lines(stdout);
    let ghost all = lines_of(stdout@);
    let mut i: usize = 0;
    assert(views(ls@).subrange(0, ls.len() as int) == views(ls@));
    while i < ls.len()
        invariant
            i <= ls.len(),
            views(ls@) == lines_of(stdout@),
            all == lines_of(stdout@),
            head_from_lines(lines_of(stdout@)) == head_from_lines(views(ls@).subrange(i as int, ls.len() as int)),
            forall|j: int| 0 <= j < i ==> !(branch_line(#[trigger] all[j]) && all[j][0] == '*'),
        decreases ls.len() - i,
    {
        let ghost rest = views(ls@).subrange(i as int, ls.len() as int);
        assert(rest[0] == ls@[i as int]@);
        assert(rest.drop_first() == views(ls@).subrange(i + 1, ls.len() as int));
        let line = ls[i].as_str();
        assert(line@ == all[i as int]);
        match regex_captures("(.) (.+)", line) {
            None => {
                proof {
                    assert forall|k: int| !#[trigger] marked_at(all, k) by {
                        if marked_at(all, k) {
                            if k < i {
                                assert(branch_line(all[k]));
                            } else {
                                assert(branch_line(all[i as int]));
                            }
                        }
                    }
                }
                return Err(bad_line(line));
            },
            Some(caps) => {
                let token = group_at(&caps, 1);
                if is_single(&token, '*') {
                    proof {
                        assert forall|k: int| #[trigger] marked_at(all, k) implies k == i by {
                            if k < i {
                                assert(branch_line(all[k]));
                            } else if k > i {
                                assert(branch_line(all[i as int]));
                                assert(all[i as int].subrange(0, 1) =~= seq![all[i as int][0]]);
                                assert(seq![all[i as int][0]][0] == '*');
                            }
                        }
                    }
                    match group_at(&caps, 2) {
                        Some(b) => {
                            return Ok(b);
                        },
                        None => {
                            return Err(bad_line(line));
                        },
                    }
                }
                proof {
                    if branch_line(all[i as int]) {
                        assert(all[i as int].subrange(0, 1) =~= seq![all[i as int][0]]);
                        assert(all[i as int][0] != '*');
                    }
                }
            },
        }
        i = i + 1;
    }
    proof {
        assert forall|k: int| !#[trigger] marked_at(all, k) by {
            if marked_at(all, k) {
                assert(branch_line(all[k]));
            }
        }
    }
    Err(DeliveryError { kind: Kind::NotOnABranch, detail: None })
}

/// The current branch, from the outcome of `git branch`; a failed command
/// is passed on unchanged.
pub fn get_head(branch: DeliveryResult<GitResult>) -> (r: DeliveryResult<String>)
    ensures
        match branch {
            Ok(g) => head_result(r, head_from_lines(lines_of(g.stdout@))),
            Err(e) => r matches Err(e2) && e2 == e,
        },
        branch matches Ok(g) ==> forall|k: int| #[trigger] marked_at(lines_of(g.stdout@), k) ==> (r matches Ok(x) && x@
            == lines_of(g.stdout@)[k].subrange(2, lines_of(g.stdout@)[k].len() as int)),
{
    match branch {
        Ok(g) => parse_get_head(g.stdout.as_str()),
        Err(e) => Err(e),
    }
}

/// The pattern of a line sent by the remote, without the `ESC[K` some git
/// versions append.
pub open spec fn remote_pattern() -> Seq<char> {
    "remote: ([^\\x{1b}]+)(?:\\x{1b}\\[K)?$"@
}

/// The pattern of a change id (a UUID) in a change URL.
pub open spec fn change_id_pattern() -> Seq<char> {
    "/([a-f0-9]{8}-(?:[a-f0-9]{4}-){3}[a-f0-9]{12})"@
}

/// What one line from the remote adds to a review: a URL (and the change
/// id in it) when the message starts with `http`, a message otherwise.
pub open spec fn remote_line_effect(rv: ReviewView, line: Seq<char>) -> ReviewView {
    match regex_captures_of(remote_pattern(), line) {
        None => rv,
        Some(c) => match group(c, 1) {
            None => rv,
            Some(cap) => if has_prefix(cap, "http"@) {
                let u = trim_seq(cap);
                ReviewView {
                    url: Some(u),
                    change_id: match regex_captures_of(change_id_pattern(), u) {
                        Some(c2) => group(c2, 1),
                        None => None,
                    },
                    ..rv
                }
            } else {
                ReviewView { messages: rv.messages.push(cap), ..rv }
            },
        },
    }
}

/// Records one line sent by the remote into a review result.
pub fn parse_line_from_remote(line: &str, review_result: &mut ReviewResult)
    ensures
        final(review_result)@ == remote_line_effect(old(review_result)@, line@),
{
    if let Some(caps) = regex_captures("remote: ([^\\x{1b}]+)(?:\\x{1b}\\[K)?$", line) {
        if let Some(cap) = group_at(&caps, 1) {
            if starts_with(cap.as_str(), "http") {
                let change_url = trim(cap.as_str());
                let id = match regex_captures("/([a-f0-9]{8}-(?:[a-f0-9]{4}-){3}[a-f0-9]{12})", change_url.as_str()) {
                    Some(c2) => group_at(&c2, 1),
                    None => None,
                };
                review_result.url = Some(change_url);
                review_result.change_id = id;
            } else {
                let ghost before = review_result.messages@;
                review_result.messages.push(cap);
                assert(views(review_result.messages@) == views(before).push(cap@));
            }
        }
    }
}

/// The review after the lines of the push's standard error: every line
/// that starts with `remote` is read as a line from the remote.
pub open spec fn remote_lines_effect(rv: ReviewView, ls: Seq<Seq<char>>) -> ReviewView
    decreases ls.len(),
{
    if ls.len() == 0 {
        rv
    } else {
        let next = if has_prefix(ls[0], "remote"@) {
            remote_line_effect(rv, ls[0])
        } else {
            rv
        };
        remote_lines_effect(next, ls.drop_first())
    }
}

/// The pattern of a porcelain push line: flag, tab, `from:to`, tab,
/// `[summary]`.
pub open spec fn push_pattern() -> Seq<char> {
    "(.)\\t(.+):(.+)\\t\\[(.+)\\]"@
}

/// The flag that a porcelain flag character stands for.
pub open spec fn flag_of(t: Option<Seq<char>>) -> Option<PushResultFlag> {
    if t == Some(seq![' ']) {
        Some(PushResultFlag::SuccessfulFastForward)
    } else if t == Some(seq!['+']) {
        Some(PushResultFlag::SuccessfulForcedUpdate)
    } else if t == Some(seq!['-']) {
        Some(PushResultFlag::SuccessfulDeletedRef)
    } else if t == Some(seq!['*']) {
        Some(PushResultFlag::SuccessfulPushedNewRef)
    } else if t == Some(seq!['!']) {
        Some(PushResultFlag::Rejected)
    } else if t == Some(seq!['=']) {
        Some(PushResultFlag::UpToDate)
    } else {
        None
    }
}

/// The results read from the porcelain lines of a push, skipping the
/// `To ...` and `Done` lines; `Err` holds the detail of the first line that
/// cannot be read.
pub open spec fn push_results_from(ls: Seq<Seq<char>>) -> Result<Seq<(PushResultFlag, Seq<char>)>, Seq<char>>
    decreases ls.len(),
{
    if ls.len() == 0 {
        Ok(Seq::empty())
    } else {
        let l = ls[0];
        if has_prefix(l, "To"@) || has_prefix(l, "Done"@) {
            push_results_from(ls.drop_first())
        } else {
            match regex_captures_of(push_pattern(), l) {
                None => Err("Failed to match: "@ + l),
                Some(c) => match flag_of(group(c, 1)) {
                    None => Err("Unknown result flag"@),
                    Some(f) => match group(c, 4) {
                        None => Err("Failed to match: "@ + l),
                        Some(reason) => match push_results_from(ls.drop_first()) {
                            Ok(rest) => Ok(seq![(f, reason)] + rest),
                            Err(d) => Err(d),
                        },
                    },
                },
            }
        }
    }
}

/// The flag of a porcelain flag character.
fn flag_exec(t: &Option<String>) -> (r: Option<PushResultFlag>)
    ensures
        r == flag_of(opt_view(*t)),
{
    if is_single(t, ' ') {
        Some(PushResultFlag::SuccessfulFastForward)
    } else if is_single(t, '+') {
        Some(PushResultFlag::SuccessfulForcedUpdate)
    } else if is_single(t, '-') {
        Some(PushResultFlag::SuccessfulDeletedRef)
    } else if is_single(t, '*') {
        Some(PushResultFlag::SuccessfulPushedNewRef)
    } else if is_single(t, '!') {
        Some(PushResultFlag::Rejected)
    } else if is_single(t, '=') {
        Some(PushResultFlag::UpToDate)
    } else {
        None
    }
}

/// Reads the output of `git push --porcelain`: the remote's lines from
/// standard error, then one result per pushed ref from standard output.
pub fn parse_git_push_output(push_output: &str, push_error: &str) -> (r: DeliveryResult<ReviewResult>)
    ensures
        match push_results_from(lines_of(push_output@)) {
            Ok(rs) => r matches Ok(rr) && rr@ == (ReviewView {
                push_results: rs,
                ..remote_lines_effect(empty_review(), lines_of(push_error@))
            }),
            Err(d) => r matches Err(e) && e.kind is BadGitOutputMatch && opt_view(e.detail) == Some(d),
        },
{
    let mut review_result = ReviewResult::default();
    let errs = lines(push_error);
    let mut i: usize = 0;
    assert(views(errs@).subrange(0, errs.len() as int) == views(errs@));
    while i < errs.len()
        invariant
            i <= errs.len(),
            views(errs@) == lines_of(push_error@),
            remote_lines_effect(empty_review(), lines_of(push_error@)) == remote_lines_effect(
                review_result@,
                views(errs@).subrange(i as int, errs.len() as int),
            ),
        decreases errs.len() - i,
    {
        let ghost rest = views(errs@).subrange(i as int, errs.len() as int);
        assert(rest[0] == errs@[i as int]@);
        assert(rest.drop_first() == views(errs@).subrange(i + 1, errs.len() as int));
        let line = errs[i].as_str();
        if starts_with(line, "remote") {
            parse_line_from_remote(line, &mut review_result);
        }
        i = i + 1;
    }
    let outs = lines(push_output);
    let mut results: Vec<PushResult> = Vec::new();
    let mut k: usize = 0;
    assert(views(outs@).subrange(0, outs.len() as int) == views(outs@));
    while k < outs.len()
        invariant
            k <= outs.len(),
            views(outs@) == lines_of(push_output@),
            push_results_from(lines_of(push_output@)) == match push_results_from(views(outs@).subrange(k as int, outs.len() as int)) {
                Ok(rest) => Ok(push_views(results@) + rest),
                Err(d) => Err(d),
            },
        decreases outs.len() - k,
    {
        let ghost rest = views(outs@).subrange(k as int, outs.len() as int);
        assert(rest[0] == outs@[k as int]@);
        assert(rest.drop_first() == views(outs@).subrange(k + 1, outs.len() as int));
        let line = outs[k].as_str();
        if !(starts_with(line, "To") || starts_with(line, "Done")) {
            match regex_captures("(.)\\t(.+):(.+)\\t\\[(.+)\\]", line) {
                None => {
                    return Err(bad_line(line));
                },
                Some(caps) => {
                    let t = group_at(&caps, 1);
                    match flag_exec(&t) {
                        None => {
                            return Err(DeliveryError {
                                kind: Kind::BadGitOutputMatch,
                                detail: Some(owned("Unknown result flag")),
                            });
                        },
                        Some(f) => match group_at(&caps, 4) {
                            None => {
                                return Err(bad_line(line));
                            },
                            Some(reason) => {
                                let ghost before = push_views(results@);
                                results.push(PushResult { flag: f, reason: reason });
                                assert(push_views(results@) == before.push((f, reason@)));
                                proof {
                                    let tail = views(outs@).subrange(k + 1, outs.len() as int);
                                    match push_results_from(tail) {
                                        Ok(rs) => {
                                            assert(before + (seq![(f, reason@)] + rs) == before.push((f, reason@)) + rs);
                                        },
                                        Err(_) => {},
                                    }
                                }
                            },
                        },
                    }
                },
            }
        }
        k = k + 1;
    }
    assert(push_views(results@) + Seq::<(PushResultFlag, Seq<char>)>::empty() == push_views(results@));
    review_result.push_results = results;
    Ok(review_result)
}

/// The arguments of the `git push` that submits `branch` for review on
/// `target`.
pub fn git_push_review_args(branch: &str, target: &str) -> (r: Vec<String>)
    ensures
        views(r@) == seq![
            "push"@,
            "--porcelain"@,
            "--progress"@,
            "--verbose"@,
            "delivery"@,
            branch@ + ":_for/"@ + target@ + "/"@ + branch@,
        ],
{
    let mut refspec = owned(branch);
    refspec.append(":_for/");
    refspec.append(target);
    refspec.append("/");
    refspec.append(branch);
    let mut r: Vec<String> = Vec::new();
    r.push(owned("push"));
    r.push(owned("--porcelain"));
    r.push(owned("--progress"));
    r.push(owned("--verbose"));
    r.push(owned("delivery"));
    r.push(refspec);
    assert(views(r@) =~= seq![
        "push"@,
        "--porcelain"@,
        "--progress"@,
        "--verbose"@,
        "delivery"@,
        branch@ + ":_for/"@ + target@ + "/"@ + branch@,
    ]);
    r
}

/// The review result of a push for review; a failed push is passed on.
pub fn git_push_review(push: DeliveryResult<GitResult>) -> (r: DeliveryResult<ReviewResult>)
    ensures
        match push {
            Ok(g) => match push_results_from(lines_of(g.stdout@)) {
                Ok(rs) => r matches Ok(rr) && rr@ == (ReviewView {
                    push_results: rs,
                    ..remote_lines_effect(empty_review(), lines_of(g.stderr@))
                }),
                Err(d) => r matches Err(e) && e.kind is BadGitOutputMatch && opt_view(e.detail) == Some(d),
            },
            Err(e) => r matches Err(e2) && e2 == e,
        },
{
    match push {
        Ok(g) => parse_git_push_output(g.stdout.as_str(), g.stderr.as_str()),
        Err(e) => Err(e),
    }
}

/// The color and text announcing one push result.
pub open spec fn push_message(flag: PushResultFlag, reason: Seq<char>) -> (Seq<char>, Seq<char>) {
    match flag {
        PushResultFlag::SuccessfulFastForward => ("green"@, "Updated change: "@ + reason),
        PushResultFlag::SuccessfulForcedUpdate => ("green"@, "Force updated change: "@ + reason),
        PushResultFlag::SuccessfulDeletedRef => ("red"@, "Deleted change: "@ + reason),
        PushResultFlag::SuccessfulPushedNewRef => ("green"@, "Created change: "@ + reason),
        PushResultFlag::Rejected => ("red"@, "Rejected change: "@ + reason),
        PushResultFlag::UpToDate => ("yellow"@, "Nothing added to the existing change"@),
    }
}

fn prefixed(prefix: &str, reason: &String) -> (r: String)
    ensures
        r@ == prefix@ + reason@,
{
    let mut s = owned(prefix);
    s.append(reason.as_str());
    s
}

/// The color and text announcing one push result.
pub fn push_result_message(result: &PushResult) -> (r: (String, String))
    ensures
        (r.0@, r.1@) == push_message(result.flag, result.reason@),
{
    match result.flag {
        PushResultFlag::SuccessfulFastForward => (owned("green"), prefixed("Updated change: ", &result.reason)),
        PushResultFlag::SuccessfulForcedUpdate => (owned("green"), prefixed("Force updated change: ", &result.reason)),
        PushResultFlag::SuccessfulDeletedRef => (owned("red"), prefixed("Deleted change: ", &result.reason)),
        PushResultFlag::SuccessfulPushedNewRef => (owned("green"), prefixed("Created change: ", &result.reason)),
        PushResultFlag::Rejected => (owned("red"), prefixed("Rejected change: ", &result.reason)),
        PushResultFlag::UpToDate => (owned("yellow"), owned("Nothing added to the existing change")),
    }
}

/// The colored lines announcing the results of a push, in order.
pub fn say_push_results(results: &Vec<PushResult>) -> (r: Vec<(String, String)>)
    ensures
        r.len() == results.len(),
        forall|i: int|
            0 <= i < r.len() ==> (#[trigger] r@[i].0@, r@[i].1@) == push_message(results@[i].flag, results@[i].reason@),
{
    let mut r: Vec<(String, String)> = Vec::new();
    let mut i: usize = 0;
    while i < results.len()
        invariant
            i <= results.len(),
            r.len() == i,
            forall|j: int|
                0 <= j < i ==> (#[trigger] r@[j].0@, r@[j].1@) == push_message(results@[j].flag, results@[j].reason@),
        decreases results.len() - i,
    {
        let m = push_result_message(&results[i]);
        r.push(m);
        i = i + 1;
    }
    r
}


/// The views of a list of argument lists.
pub open spec fn arg_lists(v: Seq<Vec<String>>) -> Seq<Seq<Seq<char>>> {
    v.map_values(|a: Vec<String>| views(a@))
}

/// The outcome of the `git init` that creates a repository: its own
/// error, or done.
pub fn create_repo(init: DeliveryResult<GitResult>) -> (r: DeliveryResult<()>)
    ensures
        match init {
            Ok(_) => r is Ok,
            Err(e) => r matches Err(x) && x == e,
        },
{
    match init {
        Ok(_) => Ok(()),
        Err(e) => Err(e),
    }
}

/// Whether a directory is a git repository: its `.git` directory exists.
pub fn check_repo_init(git_dir_exists: bool) -> (r: DeliveryResult<()>)
    ensures
        git_dir_exists ==> r is Ok,
        !git_dir_exists ==> (r matches Err(e) && e.kind is GitSetupFailed && e.detail is None),
{
    if git_dir_exists {
        Ok(())
    } else {
        Err(DeliveryError { kind: Kind::GitSetupFailed, detail: None })
    }
}

/// The message for a `delivery` remote that points elsewhere than `url`.
pub open spec fn remote_exists_message(url: Seq<char>) -> Seq<char> {
    "A git remote named 'delivery' already exists in this repo, but it is different than what was contained in your config file:\n\n"@
        + url
        + "\n\nPlease either update your cli.toml or your git remote. Run:\n\ngit remote -v show -n delivery\n\nto see your current delivery remote."@
}

/// The message for a `delivery` remote that points elsewhere than `url`.
pub fn remote_already_exists_error_msg(url: &str) -> (r: String)
    ensures
        r@ == remote_exists_message(url@),
{
    let mut s = owned(
        "A git remote named 'delivery' already exists in this repo, but it is different than what was contained in your config file:\n\n",
    );
    s.append(url);
    s.append(
        "\n\nPlease either update your cli.toml or your git remote. Run:\n\ngit remote -v show -n delivery\n\nto see your current delivery remote.",
    );
    s
}

/// `add` failed because a `delivery` remote already exists.
pub open spec fn remote_exists_failure(add: DeliveryResult<GitResult>) -> bool {
    add matches Err(e) && e.detail matches Some(m) && contains_seq(m@, "remote delivery already exists"@)
}

/// Whether adding the `delivery` remote failed because one already
/// exists, so that the existing remote must be shown and compared.
pub fn config_repo_needs_check(add: &DeliveryResult<GitResult>) -> (r: bool)
    ensures
        r == remote_exists_failure(*add),
{
    match add {
        Ok(_) => false,
        Err(e) => match &e.detail {
            Some(m) => contains(m.as_str(), "remote delivery already exists"),
            None => false,
        },
    }
}

/// The outcome of adding the `delivery` remote with `url`: `Ok(true)` when
/// it was added, `Ok(false)` when it already existed with that URL (as
/// `show` reports it), a `GitFailed` error when it exists with another URL,
/// and the failure otherwise.
pub fn config_repo(url: &str, add: DeliveryResult<GitResult>, show: Option<DeliveryResult<GitResult>>) -> (r: DeliveryResult<bool>)
    ensures
        match add {
            Ok(_) => r == Ok::<bool, DeliveryError>(true),
            Err(e) => if remote_exists_failure(add) {
                match show {
                    Some(Ok(g)) => if contains_seq(g.stdout@, url@) {
                        r == Ok::<bool, DeliveryError>(false)
                    } else {
                        r matches Err(e2) && e2.kind is GitFailed && opt_view(e2.detail) == Some(
                            remote_exists_message(url@),
                        )
                    },
                    Some(Err(e2)) => r matches Err(e3) && e3 == e2,
                    None => r matches Err(e3) && e3 == e,
                }
            } else {
                r matches Err(e3) && e3 == e
            },
        },
{
    let needs = config_repo_needs_check(&add);
    match add {
        Ok(_) => Ok(true),
        Err(e) => {
            if needs {
                match show {
                    Some(Ok(g)) => {
                        if contains(g.stdout.as_str(), url) {
                            Ok(false)
                        } else {
                            Err(DeliveryError {
                                kind: Kind::GitFailed,
                                detail: Some(remote_already_exists_error_msg(url)),
                            })
                        }
                    },
                    Some(Err(e2)) => Err(e2),
                    None => Err(e),
                }
            } else {
                Err(e)
            }
        },
    }
}

/// The local branch name for a change at a patchset: the change itself
/// for the latest patchset, `change/patchset` otherwise.
pub open spec fn checkout_branch_spec(change: Seq<char>, patchset: Seq<char>) -> Seq<char> {
    if patchset == "latest"@ {
        change
    } else {
        change + "/"@ + patchset
    }
}

/// The local branch name for a change at a patchset.
pub fn checkout_branch_name(change: &str, patchset: &str) -> (r: String)
    ensures
        r@ == checkout_branch_spec(change@, patchset@),
{
    if str_eq(patchset, "latest") {
        owned(change)
    } else {
        let mut s = owned(change);
        s.append("/");
        s.append(patchset);
        s
    }
}

/// The remote ref of a patchset under review.
pub open spec fn review_ref(pipeline: Seq<char>, change: Seq<char>, patchset: Seq<char>) -> Seq<char> {
    "delivery/_reviews/"@ + pipeline + "/"@ + change + "/"@ + patchset
}

fn review_ref_exec(pipeline: &str, change: &str, patchset: &str) -> (r: String)
    ensures
        r@ == review_ref(pipeline@, change@, patchset@),
{
    let mut s = owned("delivery/_reviews/");
    s.append(pipeline);
    s.append("/");
    s.append(change);
    s.append("/");
    s.append(patchset);
    s
}

fn args2(a: &str, b: &str) -> (r: Vec<String>)
    ensures
        views(r@) == seq![a@, b@],
{
    let mut r: Vec<String> = Vec::new();
    r.push(owned(a));
    r.push(owned(b));
    assert(views(r@) =~= seq![a@, b@]);
    r
}

/// The git commands that show the diff of a patchset: fetch from the
/// `delivery` remote, then diff against the pipeline (or the local HEAD).
pub fn diff(change: &str, patchset: &str, pipeline: &str, local: bool) -> (r: Vec<Vec<String>>)
    ensures
        arg_lists(r@) == seq![
            seq!["fetch"@, "delivery"@],
            seq![
                "diff"@,
                "--color=always"@,
                if local { "HEAD"@ } else { "delivery/"@ + pipeline@ },
                review_ref(pipeline@, change@, patchset@),
            ],
        ],
{
    let first = if local {
        owned("HEAD")
    } else {
        let mut s = owned("delivery/");
        s.append(pipeline);
        s
    };
    let mut d: Vec<String> = Vec::new();
    d.push(owned("diff"));
    d.push(owned("--color=always"));
    d.push(first);
    d.push(review_ref_exec(pipeline, change, patchset));
    assert(views(d@) =~= seq![
        "diff"@,
        "--color=always"@,
        if local { "HEAD"@ } else { "delivery/"@ + pipeline@ },
        review_ref(pipeline@, change@, patchset@),
    ]);
    let mut r: Vec<Vec<String>> = Vec::new();
    r.push(args2("fetch", "delivery"));
    r.push(d);
    assert(arg_lists(r@)[0] == views(r@[0]@));
    assert(arg_lists(r@)[1] == views(r@[1]@));
    assert(arg_lists(r@) =~= seq![
        seq!["fetch"@, "delivery"@],
        seq![
            "diff"@,
            "--color=always"@,
            if local { "HEAD"@ } else { "delivery/"@ + pipeline@ },
            review_ref(pipeline@, change@, patchset@),
        ],
    ]);
    r
}

/// The git command that clones a project from `git_url` into `project`.
pub fn clone(project: &str, git_url: &str) -> (r: Vec<String>)
    ensures
        views(r@) == seq!["clone"@, git_url@, project@],
{
    let mut r: Vec<String> = Vec::new();
    r.push(owned("clone"));
    r.push(owned(git_url));
    r.push(owned(project));
    assert(views(r@) =~= seq!["clone"@, git_url@, project@]);
    r
}

/// The git command that creates a local branch tracking a patchset.
pub fn checkout_review_args(change: &str, patchset: &str, pipeline: &str) -> (r: Vec<String>)
    ensures
        views(r@) == seq![
            "branch"@,
            "--track"@,
            checkout_branch_spec(change@, patchset@),
            review_ref(pipeline@, change@, patchset@),
        ],
{
    let mut r: Vec<String> = Vec::new();
    r.push(owned("branch"));
    r.push(owned("--track"));
    r.push(checkout_branch_name(change, patchset));
    r.push(review_ref_exec(pipeline, change, patchset));
    assert(views(r@) =~= seq![
        "branch"@,
        "--track"@,
        checkout_branch_spec(change@, patchset@),
        review_ref(pipeline@, change@, patchset@),
    ]);
    r
}

/// Whether the tracking branch of a checkout was created or already there.
#[derive(Debug, Clone, Copy, PartialEq, Eq, Structural)]
pub enum TrackOutcome {
    Created,
    AlreadyExists,
}

/// The outcome of creating the tracking branch of a checkout: created,
/// already existing (the failure mentions `already exists.`), or failed;
/// a failure with a detail becomes a `GitFailed` error with that detail.
pub fn checkout_review(track: DeliveryResult<GitResult>) -> (r: DeliveryResult<TrackOutcome>)
    ensures
        match track {
            Ok(_) => r == Ok::<TrackOutcome, DeliveryError>(TrackOutcome::Created),
            Err(e) => match e.detail {
                Some(m) => if contains_seq(m@, "already exists."@) {
                    r == Ok::<TrackOutcome, DeliveryError>(TrackOutcome::AlreadyExists)
                } else {
                    r matches Err(e2) && e2.kind is GitFailed && opt_view(e2.detail) == Some(m@)
                },
                None => r matches Err(e2) && e2 == e,
            },
        },
{
    match track {
        Ok(_) => Ok(TrackOutcome::Created),
        Err(e) => match e.detail {
            Some(m) => {
                if contains(m.as_str(), "already exists.") {
                    Ok(TrackOutcome::AlreadyExists)
                } else {
                    Err(DeliveryError { kind: Kind::GitFailed, detail: Some(m) })
                }
            },
            None => Err(DeliveryError { kind: e.kind, detail: None }),
        },
    }
}

/// The ref of a pipeline branch on the server.
pub open spec fn pipeline_ref(pipeline: Seq<char>) -> Seq<char> {
    "refs/heads/"@ + pipeline
}

/// The git command that lists a pipeline branch on the `delivery` remote.
pub fn server_content_args(pipeline: &str) -> (r: Vec<String>)
    ensures
        views(r@) == seq!["ls-remote"@, "delivery"@, pipeline_ref(pipeline@)],
{
    let mut p_ref = owned("refs/heads/");
    p_ref.append(pipeline);
    let mut r: Vec<String> = Vec::new();
    r.push(owned("ls-remote"));
    r.push(owned("delivery"));
    r.push(p_ref);
    assert(views(r@) =~= seq!["ls-remote"@, "delivery"@, pipeline_ref(pipeline@)]);
    r
}

/// Whether the server already holds the pipeline branch, from the output
/// of `git ls-remote`; a failed listing is passed on.
pub fn server_content(pipeline: &str, listing: DeliveryResult<GitResult>) -> (r: DeliveryResult<bool>)
    ensures
        match listing {
            Ok(g) => r == Ok::<bool, DeliveryError>(contains_seq(g.stdout@, pipeline_ref(pipeline@))),
            Err(e) => r matches Err(e2) && e2 == e,
        },
{
    match listing {
        Ok(g) => {
            let mut p_ref = owned("refs/heads/");
            p_ref.append(pipeline);
            Ok(contains(g.stdout.as_str(), p_ref.as_str()))
        },
        Err(e) => Err(e),
    }
}

/// Whether the pipeline branch exists locally with commits, from the output
/// of `git branch`. When it does, the arguments of the `git push` that
/// publishes it; when not, a `GitFailed` error without detail; a failed
/// listing is passed on.
pub fn git_push(pipeline: &str, branches: DeliveryResult<GitResult>) -> (r: DeliveryResult<Vec<String>>)
    ensures
        match branches {
            Ok(g) => if contains_seq(g.stdout@, pipeline@) {
                r matches Ok(a) && views(a@) == seq![
                    "push"@,
                    "--set-upstream"@,
                    "--porcelain"@,
                    "--progress"@,
                    "--verbose"@,
                    "delivery"@,
                    pipeline@,
                ]
            } else {
                r matches Err(e) && e.kind is GitFailed && e.detail is None
            },
            Err(e) => r matches Err(e2) && e2 == e,
        },
{
    match branches {
        Ok(g) => {
            if !contains(g.stdout.as_str(), pipeline) {
                return Err(DeliveryError { kind: Kind::GitFailed, detail: None });
            }
            let mut a: Vec<String> = Vec::new();
            a.push(owned("push"));
            a.push(owned("--set-upstream"));
            a.push(owned("--porcelain"));
            a.push(owned("--progress"));
            a.push(owned("--verbose"));
            a.push(owned("delivery"));
            a.push(owned(pipeline));
            assert(views(a@) =~= seq![
                "push"@,
                "--set-upstream"@,
                "--porcelain"@,
                "--progress"@,
                "--verbose"@,
                "delivery"@,
                pipeline@,
            ]);
            Ok(a)
        },
        Err(e) => Err(e),
    }
}

/// What to tell the user when the pipeline branch has no local commits
/// to push.
pub fn missing_pipeline_branch_messages(pipeline: &str) -> (r: Vec<String>)
    ensures
        views(r@) == seq![
            "A "@ + pipeline@ + " branch does not exist locally."@,
            "A "@ + pipeline@ + " branch with commits is needed to create the "@ + pipeline@ + " pipeline.\n"@,
            "If your project already has git history, you should pull it into "@ + pipeline@ + " locally."@,
            "For example, if your remote is named origin, and your git history is in "@ + pipeline@ + " run:\n"@,
            "git pull origin "@ + pipeline@ + "\n"@,
            "However, if this is a brand new project, make an initial commit by running:\n"@,
            "git checkout -b "@ + pipeline@,
            "git commit --allow-empty -m 'Initial commit.'\n"@,
            "Once you have commits on the "@ + pipeline@ + " branch, run `delivery init` again."@,
        ],
{
    let mut r: Vec<String> = Vec::new();
    let mut m = owned("A ");
    m.append(pipeline);
    m.append(" branch does not exist locally.");
    r.push(m);
    let mut m = owned("A ");
    m.append(pipeline);
    m.append(" branch with commits is needed to create the ");
    m.append(pipeline);
    m.append(" pipeline.\n");
    r.push(m);
    let mut m = owned("If your project already has git history, you should pull it into ");
    m.append(pipeline);
    m.append(" locally.");
    r.push(m);
    let mut m = owned("For example, if your remote is named origin, and your git history is in ");
    m.append(pipeline);
    m.append(" run:\n");
    r.push(m);
    let mut m = owned("git pull origin ");
    m.append(pipeline);
    m.append("\n");
    r.push(m);
    r.push(owned("However, if this is a brand new project, make an initial commit by running:\n"));
    let mut m = owned("git checkout -b ");
    m.append(pipeline);
    r.push(m);
    r.push(owned("git commit --allow-empty -m 'Initial commit.'\n"));
    let mut m = owned("Once you have commits on the ");
    m.append(pipeline);
    m.append(" branch, run `delivery init` again.");
    r.push(m);
    assert(views(r@) =~= seq![
        "A "@ + pipeline@ + " branch does not exist locally."@,
        "A "@ + pipeline@ + " branch with commits is needed to create the "@ + pipeline@ + " pipeline.\n"@,
        "If your project already has git history, you should pull it into "@ + pipeline@ + " locally."@,
        "For example, if your remote is named origin, and your git history is in "@ + pipeline@ + " run:\n"@,
        "git pull origin "@ + pipeline@ + "\n"@,
        "However, if this is a brand new project, make an initial commit by running:\n"@,
        "git checkout -b "@ + pipeline@,
        "git commit --allow-empty -m 'Initial commit.'\n"@,
        "Once you have commits on the "@ + pipeline@ + " branch, run `delivery init` again."@,
    ]);
    r
}

/// The arguments of the `git` command that pulls a pipeline from the
/// delivery remote, rebasing or merging.
pub fn pull_args(pipeline: &str, rebase: bool) -> (r: Vec<String>)
    ensures
        views(r@) == seq!["pull"@, if rebase { "--rebase"@ } else { "--no-rebase"@ }, "delivery"@, pipeline@],
{
    let mut v: Vec<String> = Vec::new();
    v.push(owned("pull"));
    v.push(owned(if rebase { "--rebase" } else { "--no-rebase" }));
    v.push(owned("delivery"));
    v.push(owned(pipeline));
    assert(views(v@) =~= seq!["pull"@, if rebase { "--rebase"@ } else { "--no-rebase"@ }, "delivery"@, pipeline@]);
    v
}

/// The outcome of a pull: a failure saying the remote has no such ref is
/// `BranchNotFoundOnDeliveryRemote`; other failures pass on unchanged.
pub fn pull_result(pulled: DeliveryResult<GitResult>) -> (r: DeliveryResult<()>)
    ensures
        match pulled {
            Ok(_) => r is Ok,
            Err(e) => match e.detail {
                Some(m) => if contains_seq(m@, "couldn't find remote ref"@) {
                    r matches Err(e2) && e2.kind is BranchNotFoundOnDeliveryRemote && e2.detail is None
                } else {
                    r matches Err(e2) && e2 == e
                },
                None => r matches Err(e2) && e2 == e,
            },
        },
{
    match pulled {
        Ok(_) => Ok(()),
        Err(e) => {
            let missing = match &e.detail {
                Some(m) => contains(m.as_str(), "couldn't find remote ref"),
                None => false,
            };
            if missing {
                Err(DeliveryError { kind: Kind::BranchNotFoundOnDeliveryRemote, detail: None })
            } else {
                Err(e)
            }
        },
    }
}

/// The porcelain flag characters of `git push` mean what git documents:
/// `' '` a fast-forward, `'+'` a forced update, `'-'` a deleted ref, `'*'`
/// a new ref, `'!'` a rejected ref, `'='` a ref already up to date; any
/// other text is no flag. A rejected ref is never taken for a success:
/// only `'!'` reads as rejected, and it is announced in red as a rejected
/// change.
pub proof fn law_push_flag_meaning(reason: Seq<char>)
    ensures
        flag_of(Some(seq![' '])) == Some(PushResultFlag::SuccessfulFastForward),
        flag_of(Some(seq!['+'])) == Some(PushResultFlag::SuccessfulForcedUpdate),
        flag_of(Some(seq!['-'])) == Some(PushResultFlag::SuccessfulDeletedRef),
        flag_of(Some(seq!['*'])) == Some(PushResultFlag::SuccessfulPushedNewRef),
        flag_of(Some(seq!['!'])) == Some(PushResultFlag::Rejected),
        flag_of(Some(seq!['='])) == Some(PushResultFlag::UpToDate),
        forall|t: Option<Seq<char>>| #![trigger flag_of(t)]
            flag_of(t) is Some ==> (t == Some(seq![' ']) || t == Some(seq!['+']) || t == Some(seq!['-'])
                || t == Some(seq!['*']) || t == Some(seq!['!']) || t == Some(seq!['='])),
        forall|t: Option<Seq<char>>| #![trigger flag_of(t)]
            flag_of(t) == Some(PushResultFlag::Rejected) <==> t == Some(seq!['!']),
        push_message(PushResultFlag::Rejected, reason) == ("red"@, "Rejected change: "@ + reason),
{
    assert(seq![' '][0] != seq!['!'][0]);
    assert(seq!['+'][0] != seq!['!'][0]);
    assert(seq!['-'][0] != seq!['!'][0]);
    assert(seq!['*'][0] != seq!['!'][0]);
    assert(seq!['='][0] != seq!['!'][0]);
    assert(seq![' '][0] != seq!['+'][0]);
    assert(seq![' '][0] != seq!['-'][0]);
    assert(seq![' '][0] != seq!['*'][0]);
    assert(seq![' '][0] != seq!['='][0]);
    assert(seq!['+'][0] != seq!['-'][0]);
    assert(seq!['+'][0] != seq!['*'][0]);
    assert(seq!['+'][0] != seq!['='][0]);
    assert(seq!['-'][0] != seq!['*'][0]);
    assert(seq!['-'][0] != seq!['='][0]);
    assert(seq!['*'][0] != seq!['='][0]);
    assert(seq!['!'][0] != seq!['='][0]);
}

/// A review ref reads back as its parts: split at `/`, it is `delivery`,
/// `_reviews`, the pipeline, the change, then the parts of the patchset,
/// for a pipeline and a change that hold no `/`.
pub proof fn law_review_ref_parts(pipeline: Seq<char>, change: Seq<char>, patchset: Seq<char>)
    requires
        forall|j: int| 0 <= j < pipeline.len() ==> pipeline[j] != '/',
        forall|j: int| 0 <= j < change.len() ==> change[j] != '/',
    ensures
        split_seq(review_ref(pipeline, change, patchset), '/') == seq!["delivery"@, "_reviews"@, pipeline, change]
            + split_seq(patchset, '/'),
{
    reveal_strlit("delivery/_reviews/");
    reveal_strlit("/");
    reveal_strlit("delivery");
    reveal_strlit("_reviews");
    let d = "delivery"@;
    let rv = "_reviews"@;
    let sl = seq!['/'];
    assert("/"@ =~= sl);
    let r4 = sl + patchset;
    let r3 = sl + (change + r4);
    let r2 = sl + (pipeline + r3);
    let r1 = sl + (rv + r2);
    assert(review_ref(pipeline, change, patchset) =~= d + r1);
    lemma_split_step(d, r1, '/');
    assert(r1.drop_first() =~= rv + r2);
    lemma_split_step(rv, r2, '/');
    assert(r2.drop_first() =~= pipeline + r3);
    lemma_split_step(pipeline, r3, '/');
    assert(r3.drop_first() =~= change + r4);
    lemma_split_step(change, r4, '/');
    assert(r4.drop_first() =~= patchset);
    assert(split_seq(review_ref(pipeline, change, patchset), '/') =~= seq![d, rv, pipeline, change] + split_seq(patchset, '/'));
}

} // verus!
