//! Cookbook versions as `metadata.rb` declares them, and their bumping.
use vstd::prelude::*;
use crate::errors::{DeliveryError, DeliveryResult, Kind, opt_view};
use crate::matching::{
    regex_captures, regex_captures_of, group, group_at, opt_views, blank_run, digit_run, version_line2, version_line3,
};
use crate::text::{
    decimal, lines, lines_of, parse_usize, parse_usize_spec, push_decimal, replace_all,
    replace_seq, views, owned, first_index_of, lemma_first_index_unique, lemma_decimal_digits,
    lemma_decimal_injective, is_digit, lemma_lines_last,
};

verus! {

/// A cookbook version `major.minor.patch`.
#[derive(Debug, Clone, Copy, PartialEq, Eq, Structural)]
pub struct MetadataVersion {
    pub major: usize,
    pub minor: usize,
    pub patch: usize,
}

/// The value held, or zero.
pub open spec fn or_zero(o: Option<usize>) -> usize {
    match o {
        Some(n) => n,
        None => 0,
    }
}

/// The text of a version: `major.minor.patch` in decimal.
pub open spec fn version_text(major: nat, minor: nat, patch: nat) -> Seq<char> {
    decimal(major) + "."@ + decimal(minor) + "."@ + decimal(patch)
}

/// The pattern of a full `version 'x.y.z'` line.
pub open spec fn full_version_pattern() -> Seq<char> {
    "version\\s+'(?P<major>\\d+)\\.(?P<minor>\\d+)\\.(?P<patch>\\d+)'"@
}

/// The pattern of a short `version 'x.y'` line.
pub open spec fn short_version_pattern() -> Seq<char> {
    "version\\s+'(?P<major>\\d+)\\.(?P<minor>\\d+)'"@
}

/// The number in capture group `i`, zero when it is absent or does not
/// parse as a `usize`.
pub open spec fn group_number(caps: Seq<Option<Seq<char>>>, i: int) -> usize {
    match group(caps, i) {
        Some(t) => or_zero(parse_usize_spec(t)),
        None => 0,
    }
}

/// The version read from the `major`, `minor` and `patch` groups.
pub open spec fn version_of_captures(caps: Seq<Option<Seq<char>>>) -> (usize, usize, usize) {
    (group_number(caps, 1), group_number(caps, 2), group_number(caps, 3))
}

/// The version a single line declares, if any: the full form is tried
/// first, then the short one.
pub open spec fn line_version(l: Seq<char>) -> Option<(usize, usize, usize)> {
    match regex_captures_of(full_version_pattern(), l) {
        Some(c) => Some(version_of_captures(c)),
        None => match regex_captures_of(short_version_pattern(), l) {
            Some(c) => Some(version_of_captures(c)),
            None => None,
        },
    }
}

/// The version declared by the first line that declares one.
pub open spec fn first_version(ls: Seq<Seq<char>>) -> Option<(usize, usize, usize)>
    decreases ls.len(),
{
    if ls.len() == 0 {
        None
    } else {
        match line_version(ls[0]) {
            Some(v) => Some(v),
            None => first_version(ls.drop_first()),
        }
    }
}

/// The version that a `metadata.rb` content declares.
pub open spec fn metadata_version_spec(content: Seq<char>) -> Option<(usize, usize, usize)> {
    first_version(lines_of(content))
}

/// The text of capture group `i`, empty when absent.
pub open spec fn group_text(caps: Seq<Option<Seq<char>>>, i: int) -> Seq<char> {
    match group(caps, i) {
        Some(t) => t,
        None => Seq::empty(),
    }
}

/// The version text a single line declares, as it is written there:
/// `x.y.z` for the full form, `x.y` for the short one.
pub open spec fn line_declared(l: Seq<char>) -> Option<Seq<char>> {
    match regex_captures_of(full_version_pattern(), l) {
        Some(c) => Some(group_text(c, 1) + "."@ + group_text(c, 2) + "."@ + group_text(c, 3)),
        None => match regex_captures_of(short_version_pattern(), l) {
            Some(c) => Some(group_text(c, 1) + "."@ + group_text(c, 2)),
            None => None,
        },
    }
}

/// The version text declared by the first line that declares a version.
pub open spec fn first_declared(ls: Seq<Seq<char>>) -> Option<Seq<char>>
    decreases ls.len(),
{
    if ls.len() == 0 {
        None
    } else {
        match line_declared(ls[0]) {
            Some(v) => Some(v),
            None => first_declared(ls.drop_first()),
        }
    }
}

/// A declared version text is never empty: it holds a dot.
proof fn lemma_first_declared_nonempty(ls: Seq<Seq<char>>)
    ensures
        first_declared(ls) matches Some(d) ==> d.len() > 0,
    decreases ls.len(),
{
    reveal_strlit(".");
    if ls.len() > 0 {
        lemma_first_declared_nonempty(ls.drop_first());
    }
}

/// The triple of a version.
pub open spec fn triple(v: MetadataVersion) -> (usize, usize, usize) {
    (v.major, v.minor, v.patch)
}

/// `r` carries the version `v`, or `v` is absent and `r` is a
/// `MissingMetadataVersion` error without detail.
pub open spec fn version_result(r: DeliveryResult<MetadataVersion>, v: Option<(usize, usize, usize)>) -> bool {
    match v {
        Some(t) => r matches Ok(m) && triple(m) == t,
        None => r matches Err(e) && e.kind is MissingMetadataVersion && e.detail is None,
    }
}

impl MetadataVersion {
    /// A version from optional parts; a missing part is zero.
    pub fn new(ma: Option<usize>, mi: Option<usize>, pa: Option<usize>) -> (r: MetadataVersion)
        ensures
            r.major == or_zero(ma),
            r.minor == or_zero(mi),
            r.patch == or_zero(pa),
    {
        MetadataVersion {
            major: match ma {
                Some(n) => n,
                None => 0,
            },
            minor: match mi {
                Some(n) => n,
                None => 0,
            },
            patch: match pa {
                Some(n) => n,
                None => 0,
            },
        }
    }

    /// The version as `major.minor.patch`.
    pub fn to_string(&self) -> (r: String)
        ensures
            r@ == version_text(self.major as nat, self.minor as nat, self.patch as nat),
    {
        let mut s = String::new();
        push_decimal(&mut s, self.major);
        s.append(".");
        push_decimal(&mut s, self.minor);
        s.append(".");
        push_decimal(&mut s, self.patch);
        s
    }
}

/// The path of the `metadata.rb` file of a project.
pub fn metadata_file(path: &str) -> (r: String)
    ensures
        r@ == path@ + "/metadata.rb"@,
{
    let mut s = owned(path);
    s.append("/metadata.rb");
    s
}

/// The version read from capture groups 1, 2 and 3.
pub fn generate_metadata_version(caps: &Vec<Option<String>>) -> (r: DeliveryResult<MetadataVersion>)
    ensures
        r matches Ok(m) && triple(m) == version_of_captures(opt_views(caps@)),
{
    let ma = match group_at(caps, 1) {
        Some(t) => parse_usize(t.as_str()),
        None => None,
    };
    let mi = match group_at(caps, 2) {
        Some(t) => parse_usize(t.as_str()),
        None => None,
    };
    let pa = match group_at(caps, 3) {
        Some(t) => parse_usize(t.as_str()),
        None => None,
    };
    Ok(MetadataVersion::new(ma, mi, pa))
}

/// A whole text that is one full version declaration.
pub open spec fn full_declaration(t: Seq<char>) -> bool {
    exists|ws: Seq<char>, a: Seq<char>, b: Seq<char>, c: Seq<char>|
        blank_run(ws) && digit_run(a) && digit_run(b) && digit_run(c) && t == #[trigger] version_line3(ws, a, b, c)
}

/// A whole text that is one short version declaration.
pub open spec fn short_declaration(t: Seq<char>) -> bool {
    exists|ws: Seq<char>, a: Seq<char>, b: Seq<char>|
        blank_run(ws) && digit_run(a) && digit_run(b) && t == #[trigger] version_line2(ws, a, b)
}

/// A declaration line holds no line break, so it is its own only line.
proof fn lemma_declaration_line(t: Seq<char>)
    requires
        full_declaration(t) || short_declaration(t),
    ensures
        lines_of(t) == seq![t],
{
    reveal_strlit("version");
    assert forall|j: int| 0 <= j < t.len() implies t[j] != '\n' by {
        if full_declaration(t) {
            let (ws, a, b, c) = choose|ws: Seq<char>, a: Seq<char>, b: Seq<char>, c: Seq<char>|
                blank_run(ws) && digit_run(a) && digit_run(b) && digit_run(c) && t == #[trigger] version_line3(ws, a, b, c);
            let v = "version"@;
            if j < 7 {
                assert(t[j] == v[j]);
            } else if j < 7 + ws.len() {
                assert(t[j] == ws[j - 7]);
            } else if j == 7 + ws.len() {
            } else if j < 8 + ws.len() + a.len() {
                assert(t[j] == a[j - 8 - ws.len()]);
            } else if j == 8 + ws.len() + a.len() {
            } else if j < 9 + ws.len() + a.len() + b.len() {
                assert(t[j] == b[j - 9 - ws.len() - a.len()]);
            } else if j == 9 + ws.len() + a.len() + b.len() {
            } else if j < 10 + ws.len() + a.len() + b.len() + c.len() {
                assert(t[j] == c[j - 10 - ws.len() - a.len() - b.len()]);
            }
        } else {
            let (ws, a, b) = choose|ws: Seq<char>, a: Seq<char>, b: Seq<char>|
                blank_run(ws) && digit_run(a) && digit_run(b) && t == #[trigger] version_line2(ws, a, b);
            let v = "version"@;
            if j < 7 {
                assert(t[j] == v[j]);
            } else if j < 7 + ws.len() {
                assert(t[j] == ws[j - 7]);
            } else if j == 7 + ws.len() {
            } else if j < 8 + ws.len() + a.len() {
                assert(t[j] == a[j - 8 - ws.len()]);
            } else if j == 8 + ws.len() + a.len() {
            } else if j < 9 + ws.len() + a.len() + b.len() {
                assert(t[j] == b[j - 9 - ws.len() - a.len()]);
            }
        }
    }
    lemma_lines_last(t);
}

/// The cookbook version declared in a `metadata.rb` content: the first line
/// of the form `version 'x.y.z'`, or `version 'x.y'` (patch 0). A content
/// that is exactly one such declaration, with ASCII blanks and digits,
/// gives its numbers (each read as a `usize`, zero when it does not fit).
pub fn metadata_version_from(content: &str) -> (r: DeliveryResult<MetadataVersion>)
    ensures
        version_result(r, metadata_version_spec(content@)),
        forall|ws: Seq<char>, a: Seq<char>, b: Seq<char>, c: Seq<char>|
            #![trigger version_line3(ws, a, b, c)]
            blank_run(ws) && digit_run(a) && digit_run(b) && digit_run(c) && content@ == version_line3(ws, a, b, c)
                ==> (r matches Ok(m) && triple(m) == (or_zero(parse_usize_spec(a)), or_zero(parse_usize_spec(b)), or_zero(parse_usize_spec(c)))),
        forall|ws: Seq<char>, a: Seq<char>, b: Seq<char>|
            #![trigger version_line2(ws, a, b)]
            blank_run(ws) && digit_run(a) && digit_run(b) && content@ == version_line2(ws, a, b)
                ==> (r matches Ok(m) && triple(m) == (or_zero(parse_usize_spec(a)), or_zero(parse_usize_spec(b)), 0usize)),
{
    let ls = lines(content);
    let mut i: usize = 0;
    let ghost decl = full_declaration(content@) || short_declaration(content@);
    proof {
        if decl {
            lemma_declaration_line(content@);
        }
    }
    assert(views(ls@).subrange(0, ls.len() as int) == views(ls@));
    while i < ls.len()
        invariant
            i <= ls.len(),
            views(ls@) == lines_of(content@),
            first_version(lines_of(content@)) == first_version(views(ls@).subrange(i as int, ls.len() as int)),
            decl == (full_declaration(content@) || short_declaration(content@)),
            decl ==> i == 0 && lines_of(content@) == seq![content@],
        decreases ls.len() - i,
    {
        let ghost rest = views(ls@).subrange(i as int, ls.len() as int);
        assert(rest[0] == ls@[i as int]@);
        assert(rest.drop_first() == views(ls@).subrange(i + 1, ls.len() as int));
        let l = ls[i].as_str();
        proof {
            if decl {
                assert(l@ == content@);
            }
        }
        if let Some(caps) = regex_captures("version\\s+'(?P<major>\\d+)\\.(?P<minor>\\d+)\\.(?P<patch>\\d+)'", l) {
            return generate_metadata_version(&caps);
        }
        proof {
            if full_declaration(content@) {
                let (ws, a, b, c) = choose|ws: Seq<char>, a: Seq<char>, b: Seq<char>, c: Seq<char>|
                    blank_run(ws) && digit_run(a) && digit_run(b) && digit_run(c) && content@ == #[trigger] version_line3(ws, a, b, c);
                assert(version_line3(ws, a, b, c) == l@);
            }
        }
        if let Some(caps) = regex_captures("version\\s+'(?P<major>\\d+)\\.(?P<minor>\\d+)'", l) {
            return generate_metadata_version(&caps);
        }
        proof {
            if short_declaration(content@) {
                let (ws, a, b) = choose|ws: Seq<char>, a: Seq<char>, b: Seq<char>|
                    blank_run(ws) && digit_run(a) && digit_run(b) && content@ == #[trigger] version_line2(ws, a, b);
                assert(version_line2(ws, a, b) == l@);
            }
        }
        i = i + 1;
    }
    Err(DeliveryError { kind: Kind::MissingMetadataVersion, detail: None })
}

/// The version with its patch number increased by one.
pub fn bump_patchset(version: MetadataVersion) -> (r: DeliveryResult<MetadataVersion>)
    requires
        version.patch < usize::MAX,
    ensures
        r matches Ok(v) && v.major == version.major && v.minor == version.minor && v.patch
            == version.patch + 1,
{
    Ok(MetadataVersion { patch: version.patch + 1, ..version })
}

/// What a version check of a cookbook decides, given the `metadata.rb` of
/// the change and the one on the target pipeline: `Some` of the bumped
/// pipeline version when the two declare the same version, `None` when the
/// change already moved the version on.
pub open spec fn bump_decision(current: (usize, usize, usize), pipeline: (usize, usize, usize)) -> Option<(usize, usize, usize)> {
    if current == pipeline {
        Some((pipeline.0, pipeline.1, (pipeline.2 + 1) as usize))
    } else {
        None
    }
}

/// Decides whether the change must bump its cookbook version.
/// `current_meta` is the change's `metadata.rb`, `None` when the project
/// has none: such a project is no cookbook and nothing is bumped. For a
/// cookbook, both `metadata.rb` contents must declare a version (the
/// change's is read first); when the versions are equal, the pipeline
/// version with its patch bumped is returned, otherwise `None`.
pub fn bump_version(current_meta: Option<&str>, pipeline_meta: &str) -> (r: DeliveryResult<Option<MetadataVersion>>)
    requires
        metadata_version_spec(pipeline_meta@) matches Some(p) ==> p.2 < usize::MAX,
    ensures
        match current_meta {
            None => r == Ok::<Option<MetadataVersion>, DeliveryError>(None),
            Some(cm) => match (metadata_version_spec(cm@), metadata_version_spec(pipeline_meta@)) {
                (None, _) => r matches Err(e) && e.kind is MissingMetadataVersion,
                (Some(_), None) => r matches Err(e) && e.kind is MissingMetadataVersion,
                (Some(c), Some(p)) => r matches Ok(o) && (match bump_decision(c, p) {
                    Some(t) => o matches Some(v) && triple(v) == t,
                    None => o is None,
                }) && (o is Some <==> c == p) && (o matches Some(v) ==> v.major == c.0 && v.minor == c.1
                    && v.patch == c.2 + 1),
            },
        },
{
    let cm = match current_meta {
        None => {
            return Ok(None);
        },
        Some(c) => c,
    };
    let current = metadata_version_from(cm)?;
    let pipeline = metadata_version_from(pipeline_meta)?;
    let current_v = current.to_string();
    let pipeline_v = pipeline.to_string();
    if current_v == pipeline_v {
        proof {
            law_version_text_injective(current, pipeline);
        }
        let bumped = bump_patchset(pipeline)?;
        Ok(Some(bumped))
    } else {
        Ok(None)
    }
}

/// The text of capture group `i`, empty when absent.
fn group_text_exec(caps: &Vec<Option<String>>, i: usize) -> (r: String)
    ensures
        r@ == group_text(opt_views(caps@), i as int),
{
    match group_at(caps, i) {
        Some(t) => t,
        None => String::new(),
    }
}

/// The version text as the first declaring line of a `metadata.rb`
/// content writes it.
fn declared_version(content: &str) -> (r: DeliveryResult<String>)
    ensures
        match first_declared(lines_of(content@)) {
            Some(d) => r matches Ok(x) && x@ == d,
            None => r matches Err(e) && e.kind is MissingMetadataVersion && e.detail is None,
        },
{
    let ls = lines(content);
    let mut i: usize = 0;
    assert(views(ls@).subrange(0, ls.len() as int) == views(ls@));
    while i < ls.len()
        invariant
            i <= ls.len(),
            views(ls@) == lines_of(content@),
            first_declared(lines_of(content@)) == first_declared(views(ls@).subrange(i as int, ls.len() as int)),
        decreases ls.len() - i,
    {
        let ghost rest = views(ls@).subrange(i as int, ls.len() as int);
        assert(rest[0] == ls@[i as int]@);
        assert(rest.drop_first() == views(ls@).subrange(i + 1, ls.len() as int));
        let l = ls[i].as_str();
        if let Some(caps) = regex_captures("version\\s+'(?P<major>\\d+)\\.(?P<minor>\\d+)\\.(?P<patch>\\d+)'", l) {
            let mut t = group_text_exec(&caps, 1);
            t.append(".");
            let b = group_text_exec(&caps, 2);
            t.append(b.as_str());
            t.append(".");
            let c = group_text_exec(&caps, 3);
            t.append(c.as_str());
            return Ok(t);
        }
        if let Some(caps) = regex_captures("version\\s+'(?P<major>\\d+)\\.(?P<minor>\\d+)'", l) {
            let mut t = group_text_exec(&caps, 1);
            t.append(".");
            let b = group_text_exec(&caps, 2);
            t.append(b.as_str());
            return Ok(t);
        }
        i = i + 1;
    }
    Err(DeliveryError { kind: Kind::MissingMetadataVersion, detail: None })
}

/// The new `metadata.rb` content: every occurrence of the version text, as
/// the declaring line writes it (`x.y.z` or `x.y`), replaced by `version`.
pub fn save_version(current_meta: &str, version: &str) -> (r: DeliveryResult<String>)
    ensures
        match first_declared(lines_of(current_meta@)) {
            None => r matches Err(e) && e.kind is MissingMetadataVersion && e.detail is None,
            Some(d) => r matches Ok(s) && s@ == replace_seq(current_meta@, d, version@),
        },
{
    let current_version = declared_version(current_meta)?;
    proof {
        lemma_first_declared_nonempty(lines_of(current_meta@));
    }
    Ok(replace_all(current_meta, current_version.as_str(), version))
}

/// The commit message recording a version bump.
pub fn bump_commit_message(version: &str) -> (r: String)
    ensures
        r@ == "Bump version to "@ + version@,
{
    let mut s = owned("Bump version to ");
    s.append(version);
    s
}

proof fn lemma_dot_split(a: Seq<char>, rest: Seq<char>, b: Seq<char>, rest2: Seq<char>)
    requires
        forall|j: int| 0 <= j < a.len() ==> is_digit(#[trigger] a[j]),
        forall|j: int| 0 <= j < b.len() ==> is_digit(#[trigger] b[j]),
        a + seq!['.'] + rest == b + seq!['.'] + rest2,
    ensures
        a == b,
        rest == rest2,
{
    let s = a + seq!['.'] + rest;
    let t = b + seq!['.'] + rest2;
    assert forall|j: int| 0 <= j < a.len() implies s[j] != '.' by {
        assert(s[j] == a[j]);
    }
    assert forall|j: int| 0 <= j < b.len() implies t[j] != '.' by {
        assert(t[j] == b[j]);
    }
    assert(s[a.len() as int] == '.');
    assert(t[b.len() as int] == '.');
    lemma_first_index_unique(s, '.', a.len() as int);
    lemma_first_index_unique(t, '.', b.len() as int);
    assert(a == s.subrange(0, a.len() as int));
    assert(b == t.subrange(0, b.len() as int));
    assert(rest == s.subrange(a.len() + 1 as int, s.len() as int));
    assert(rest2 == t.subrange(b.len() + 1 as int, t.len() as int));
}

/// Two versions have the same text exactly when they are the same version,
/// so comparing version texts compares versions.
pub proof fn law_version_text_injective(a: MetadataVersion, b: MetadataVersion)
    ensures
        (version_text(a.major as nat, a.minor as nat, a.patch as nat) == version_text(
            b.major as nat,
            b.minor as nat,
            b.patch as nat,
        )) <==> a == b,
{
    if version_text(a.major as nat, a.minor as nat, a.patch as nat) == version_text(b.major as nat, b.minor as nat, b.patch as nat) {
        reveal_strlit(".");
        assert("."@ == seq!['.']);
        lemma_decimal_digits(a.major as nat);
        lemma_decimal_digits(b.major as nat);
        lemma_decimal_digits(a.minor as nat);
        lemma_decimal_digits(b.minor as nat);
        let ra = decimal(a.minor as nat) + seq!['.'] + decimal(a.patch as nat);
        let rb = decimal(b.minor as nat) + seq!['.'] + decimal(b.patch as nat);
        assert(version_text(a.major as nat, a.minor as nat, a.patch as nat) == decimal(a.major as nat) + seq!['.'] + ra);
        assert(version_text(b.major as nat, b.minor as nat, b.patch as nat) == decimal(b.major as nat) + seq!['.'] + rb);
        lemma_dot_split(decimal(a.major as nat), ra, decimal(b.major as nat), rb);
        lemma_dot_split(decimal(a.minor as nat), decimal(a.patch as nat), decimal(b.minor as nat), decimal(b.patch as nat));
        lemma_decimal_injective(a.major as nat, b.major as nat);
        lemma_decimal_injective(a.minor as nat, b.minor as nat);
        lemma_decimal_injective(a.patch as nat, b.patch as nat);
    }
}

/// Bumping changes only the patch number, which grows by one, so the
/// bumped version always differs from the one it came from.
pub proof fn law_bump_changes_version(v: MetadataVersion)
    requires
        v.patch < usize::MAX,
    ensures
        version_text(v.major as nat, v.minor as nat, v.patch as nat) != version_text(
            v.major as nat,
            v.minor as nat,
            (v.patch + 1) as nat,
        ),
{
    let w = MetadataVersion { patch: (v.patch + 1) as usize, ..v };
    law_version_text_injective(v, w);
}

/// A change's cookbook version is bumped exactly when it declares the
/// same version as the target pipeline, equal in major, minor and patch;
/// the bump is the pipeline's version with its patch raised by one, so it
/// is always newer than both. A change that already moved its version on,
/// in any part, is left alone.
pub proof fn law_bump_only_same_version(current: (usize, usize, usize), pipeline: (usize, usize, usize))
    requires
        pipeline.2 < usize::MAX,
    ensures
        bump_decision(current, pipeline) is Some <==> (current.0 == pipeline.0 && current.1 == pipeline.1
            && current.2 == pipeline.2),
        bump_decision(current, pipeline) matches Some(t) ==> t.0 == current.0 && t.1 == current.1 && t.2
            == current.2 + 1,
{
}

} // verus!
