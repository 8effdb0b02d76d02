//! Regular-expression captures, computed by the `regex` crate.
use vstd::prelude::*;
use crate::errors::opt_view;
use crate::cookbook::{full_version_pattern, short_version_pattern};
use regex::Regex;

verus! {

/// What the `regex` crate reports for `pattern` on `text`: `None` when the
/// pattern does not compile or does not match anywhere in `text`;
/// otherwise the text of each capture group of the leftmost-first match,
/// group 0 being the whole match and `None` standing for a group that took
/// no part in it.
pub uninterp spec fn regex_captures_of(pattern: Seq<char>, text: Seq<char>) -> Option<Seq<Option<Seq<char>>>>;

/// The views of optional strings.
pub open spec fn opt_views(v: Seq<Option<String>>) -> Seq<Option<Seq<char>>> {
    v.map_values(|o: Option<String>| opt_view(o))
}

/// The view of a list of capture groups.
pub open spec fn captures_view(r: Option<Vec<Option<String>>>) -> Option<Seq<Option<Seq<char>>>> {
    match r {
        Some(v) => Some(opt_views(v@)),
        None => None,
    }
}

/// Capture group `i`, or `None` when there is no such group or it did not
/// take part in the match.
pub open spec fn group(caps: Seq<Option<Seq<char>>>, i: int) -> Option<Seq<char>> {
    if 0 <= i < caps.len() {
        caps[i]
    } else {
        None
    }
}

/// A non-empty run of ASCII spaces and tabs (each matched by `\\s`).
pub open spec fn blank_run(ws: Seq<char>) -> bool {
    ws.len() > 0 && forall|i: int| 0 <= i < ws.len() ==> (#[trigger] ws[i] == ' ' || ws[i] == '\t')
}

/// A non-empty run of ASCII digits (each matched by `\\d`).
pub open spec fn digit_run(d: Seq<char>) -> bool {
    d.len() > 0 && forall|i: int| 0 <= i < d.len() ==> '0' <= #[trigger] d[i] <= '9'
}

/// A line of `git branch` output: a mark character, a space, then a
/// non-empty name, with no line break anywhere.
pub open spec fn branch_line(l: Seq<char>) -> bool {
    l.len() >= 3 && l[1] == ' ' && forall|j: int| 0 <= j < l.len() ==> l[j] != '\n'
}

/// The line `version<ws>'<a>.<b>.<c>'`.
pub open spec fn version_line3(ws: Seq<char>, a: Seq<char>, b: Seq<char>, c: Seq<char>) -> Seq<char> {
    "version"@ + ws + seq!['\''] + a + seq!['.'] + b + seq!['.'] + c + seq!['\'']
}

/// The line `version<ws>'<a>.<b>'`.
pub open spec fn version_line2(ws: Seq<char>, a: Seq<char>, b: Seq<char>) -> Seq<char> {
    "version"@ + ws + seq!['\''] + a + seq!['.'] + b + seq!['\'']
}

/// Calls `regex::Regex::new` on `pattern`, then `Regex::captures` on
/// `text`, and hands back the text of every capture group. Trusted: the
/// result is what `regex_captures_of` names; an invalid pattern gives
/// `None`. For the two `metadata.rb` version patterns and a line that is
/// exactly a version declaration with ASCII blanks and digits, the
/// `regex` documentation of `\s`, `\d`, greedy repetition, groups and
/// leftmost-first matching gives the result: the full pattern captures the
/// whole line and the three numbers of a full declaration, and finds
/// nothing in a short one; the short pattern captures the whole line and
/// the two numbers of a short declaration. Likewise, the pattern
/// `(.) (.+)` on a `branch_line` matches from its first character (`.`
/// takes any character but a line break, `.+` greedily the rest):
/// group 1 is the mark, group 2 the rest of the line after the space.
#[verifier::external_body]
pub(crate) fn regex_captures(pattern: &str, text: &str) -> (r: Option<Vec<Option<String>>>)
    ensures
        captures_view(r) == regex_captures_of(pattern@, text@),
        pattern@ == full_version_pattern() ==> forall|ws: Seq<char>, a: Seq<char>, b: Seq<char>, c: Seq<char>|
            #![trigger version_line3(ws, a, b, c)]
            blank_run(ws) && digit_run(a) && digit_run(b) && digit_run(c) && text@ == version_line3(ws, a, b, c)
                ==> captures_view(r) == Some(seq![Some(text@), Some(a), Some(b), Some(c)]),
        pattern@ == full_version_pattern() ==> forall|ws: Seq<char>, a: Seq<char>, b: Seq<char>|
            #![trigger version_line2(ws, a, b)]
            blank_run(ws) && digit_run(a) && digit_run(b) && text@ == version_line2(ws, a, b) ==> captures_view(r) is None,
        pattern@ == short_version_pattern() ==> forall|ws: Seq<char>, a: Seq<char>, b: Seq<char>|
            #![trigger version_line2(ws, a, b)]
            blank_run(ws) && digit_run(a) && digit_run(b) && text@ == version_line2(ws, a, b)
                ==> captures_view(r) == Some(seq![Some(text@), Some(a), Some(b)]),
        pattern@ == "(.) (.+)"@ && branch_line(text@) ==> captures_view(r) == Some(
            seq![Some(text@), Some(text@.subrange(0, 1)), Some(text@.subrange(2, text@.len() as int))],
        ),
{
    match Regex::new(pattern) {
        Ok(re) => re.captures(text).map(
            |c| c.iter().map(|m| m.map(|m| m.as_str().to_string())).collect(),
        ),
        Err(_) => None,
    }
}

/// Capture group `i` of a list of captures.
pub fn group_at(caps: &Vec<Option<String>>, i: usize) -> (r: Option<String>)
    ensures
        opt_view(r) == group(opt_views(caps@), i as int),
{
    if i < caps.len() {
        match &caps[i] {
            Some(s) => Some(s.clone()),
            None => None,
        }
    } else {
        None
    }
}

} // verus!
