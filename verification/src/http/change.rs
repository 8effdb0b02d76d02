//! A change's description: its title and the text below it.
use vstd::prelude::*;
use crate::errors::{DeliveryError, DeliveryResult, Kind, fails_with, opt_view};
use crate::json::{json_pair, pair_object};
use crate::text::{
    join, join_seq, lemma_first_index_bounds, lemma_lines_last, lemma_lines_step, lemma_trim_end,
    lemma_trim_start, lines, lines_of, owned, strip_cr, trim, trim_seq, views, is_ws, first_index_of,
};

verus! {

/// The title and description of a change.
#[derive(Debug, Clone, PartialEq, PartialOrd)]
pub struct Description {
    pub title: String,
    pub description: String,
}

/// The JSON object a description is sent as.
pub open spec fn description_json(title: Seq<char>, desc: Seq<char>) -> Seq<char> {
    json_pair("title"@, title, "description"@, desc)
}

/// The description in a text: its first line is the title, the rest,
/// joined by line breaks and trimmed, the description.
pub open spec fn parse_text_spec(text: Seq<char>) -> (Seq<char>, Seq<char>) {
    let ls = lines_of(text);
    (ls[0], if ls.len() > 1 { trim_seq(join_seq(ls.drop_first(), "\n"@)) } else { Seq::empty() })
}

proof fn lemma_lines_nonempty(s: Seq<char>)
    requires
        s.len() > 0,
    ensures
        lines_of(s).len() > 0,
{
    lemma_first_index_bounds(s, '\n');
}

/// Joining a first part to a non-empty rest puts a separator between them.
proof fn lemma_join_front(a: Seq<char>, l: Seq<Seq<char>>, sep: Seq<char>)
    requires
        l.len() > 0,
    ensures
        join_seq(seq![a] + l, sep) == a + sep + join_seq(l, sep),
    decreases l.len(),
{
    if l.len() == 1 {
        assert((seq![a] + l).drop_last() =~= seq![a]);
        assert(join_seq(seq![a] + l, sep) == join_seq(seq![a], sep) + sep + l[0]);
        assert(join_seq(l, sep) == l[0]);
    } else {
        lemma_join_front(a, l.drop_last(), sep);
        assert((seq![a] + l).drop_last() =~= seq![a] + l.drop_last());
        assert((seq![a] + l).last() == l.last());
        assert(a + sep + (join_seq(l.drop_last(), sep) + sep + l.last()) =~= (a + sep + join_seq(l.drop_last(), sep)) + sep + l.last());
    }
}

/// The lines of a text that ends with a line break, joined by line
/// breaks again, give the text without that last break.
proof fn lemma_join_lines(x: Seq<char>)
    requires
        forall|j: int| 0 <= j < x.len() ==> x[j] != '\r',
    ensures
        join_seq(lines_of(x + seq!['\n']), seq!['\n']) == x,
    decreases x.len(),
{
    lemma_first_index_bounds(x, '\n');
    match first_index_of(x, '\n') {
        None => {
            let s = x + seq!['\n'];
            lemma_lines_step(x, seq!['\n']);
            assert(seq!['\n'].drop_first() =~= Seq::<char>::empty());
            lemma_lines_last(Seq::<char>::empty());
            assert(strip_cr(x) == x);
            assert(lines_of(s) =~= seq![x]);
        },
        Some(i) => {
            let a = x.subrange(0, i);
            let b = x.subrange(i + 1, x.len() as int);
            assert(x =~= a + (seq!['\n'] + b));
            lemma_join_lines(b);
            assert(x + seq!['\n'] =~= a + (seq!['\n'] + (b + seq!['\n'])));
            lemma_lines_step(a, seq!['\n'] + (b + seq!['\n']));
            assert((seq!['\n'] + (b + seq!['\n'])).drop_first() =~= b + seq!['\n']);
            assert(strip_cr(a) == a);
            lemma_lines_nonempty(b + seq!['\n']);
            lemma_join_front(a, lines_of(b + seq!['\n']), seq!['\n']);
            assert(a + seq!['\n'] + b =~= x);
        },
    }
}

/// The text `edit_change` writes for a description reads back as that
/// description: its title on the first line, a blank line, then its
/// description and a final line break, for a title without line breaks or
/// carriage returns and a description without carriage returns that starts
/// and ends with no whitespace.
pub proof fn law_parse_text_round_trip(title: Seq<char>, desc: Seq<char>)
    requires
        forall|j: int| 0 <= j < title.len() ==> title[j] != '\n' && title[j] != '\r',
        forall|j: int| 0 <= j < desc.len() ==> desc[j] != '\r',
        desc.len() > 0 ==> !is_ws(desc[0]) && !is_ws(desc.last()),
    ensures
        parse_text_spec(title + "\n\n"@ + desc + "\n"@) == (title, desc),
{
    reveal_strlit("\n\n");
    reveal_strlit("\n");
    let x = seq!['\n'] + desc;
    let text = title + "\n\n"@ + desc + "\n"@;
    assert(text =~= title + (seq!['\n'] + (x + seq!['\n'])));
    lemma_lines_step(title, seq!['\n'] + (x + seq!['\n']));
    assert((seq!['\n'] + (x + seq!['\n'])).drop_first() =~= x + seq!['\n']);
    assert(strip_cr(title) == title);
    assert forall|j: int| 0 <= j < x.len() implies x[j] != '\r' by {
        if j > 0 {
            assert(x[j] == desc[j - 1]);
        }
    }
    lemma_join_lines(x);
    lemma_lines_nonempty(x + seq!['\n']);
    let ls = lines_of(text);
    assert(ls =~= seq![title] + lines_of(x + seq!['\n']));
    assert(ls.drop_first() =~= lines_of(x + seq!['\n']));
    assert("\n"@ =~= seq!['\n']);
    assert(join_seq(ls.drop_first(), "\n"@) == x);
    if desc.len() == 0 {
        lemma_trim_start(x, 1);
        assert(x.subrange(1, 1) =~= Seq::<char>::empty());
        lemma_trim_end(Seq::<char>::empty(), 0);
        assert(Seq::<char>::empty().subrange(0, 0) =~= Seq::<char>::empty());
    } else {
        lemma_trim_start(x, 1);
        assert(x.subrange(1, x.len() as int) =~= desc);
        lemma_trim_end(desc, desc.len() as int);
        assert(desc.subrange(0, desc.len() as int) =~= desc);
    }
}

impl Description {
    /// The JSON payload for a title and a description.
    pub fn payload(title: &str, desc: &str) -> (r: DeliveryResult<String>)
        ensures
            r matches Ok(x) && x@ == description_json(title@, desc@),
    {
        pair_object("title", title, "description", desc)
    }

    /// The description as JSON.
    pub fn to_json(&self) -> (r: DeliveryResult<String>)
        ensures
            r matches Ok(x) && x@ == description_json(self.title@, self.description@),
    {
        pair_object("title", self.title.as_str(), "description", self.description.as_str())
    }

    /// Reads a description from text, as a commit message is written: the
    /// first line is the title.
    pub fn parse_text(text: &str) -> (r: DeliveryResult<Description>)
        requires
            text@.len() > 0,
        ensures
            r matches Ok(d) && (d.title@, d.description@) == parse_text_spec(text@),
    {
        proof {
            lemma_lines_nonempty(text@);
        }
        let mut items = lines(text);
        let title = items[0].clone();
        let desc = if items.len() > 1 {
            items.remove(0);
            assert(views(items@) == lines_of(text@).drop_first());
            let joined = join(&items, "\n");
            trim(joined.as_str())
        } else {
            String::new()
        };
        Ok(Description { title: title, description: desc })
    }
}

/// The API path of a change's description.
pub open spec fn description_path_spec(org: Seq<char>, proj: Seq<char>, change: Seq<char>) -> Seq<char> {
    "orgs/"@ + org + "/projects/"@ + proj + "/changes/"@ + change + "/description"@
}

/// The API path of a change's description.
pub fn description_path(org: &str, proj: &str, change: &str) -> (r: String)
    ensures
        r@ == description_path_spec(org@, proj@, change@),
{
    let mut p = owned("orgs/");
    p.append(org);
    p.append("/projects/");
    p.append(proj);
    p.append("/changes/");
    p.append(change);
    p.append("/description");
    p
}

/// The message when a change's description is not found.
pub open spec fn change_not_found_msg(org: Seq<char>) -> Seq<char> {
    "API request returned 404 (not found) while trying to fetch this change's description.\n"@
        + "This is usually because the Delivery organization in your config does not match the organization for this project.\n"@
        + "Your organization is current set to:\n\n"@ + org
        + "\n\nTo fix this, try editing your cli.toml file's organization setting to match the organization this project resides in."@
}

/// What the reply to fetching a description means. `parsed` is the
/// description read from the body of a `200`, `raw` the body as it came (`Err`
/// of the read error's text when it could not be read).
pub fn get_outcome(org: &str, status: u16, status_text: &str, parsed: DeliveryResult<Description>, raw: Result<String, String>) -> (r: DeliveryResult<Description>)
    ensures
        status == 200 ==> r == parsed,
        status == 404 ==> fails_with(r, Kind::ChangeNotFound, change_not_found_msg(org@)),
        status == 401 ==> fails_with(r, Kind::AuthenticationFailed, "API request returned 401 (unauthorized)"@),
        status != 200 && status != 404 && status != 401 ==> (r matches Err(e) && e.kind == Kind::ApiError(status, raw)
            && opt_view(e.detail) == Some("API request returned "@ + status_text@)),
{
    if status == 200 {
        parsed
    } else if status == 404 {
        let mut msg = owned("API request returned 404 (not found) while trying to fetch this change's description.\n");
        msg.append("This is usually because the Delivery organization in your config does not match the organization for this project.\n");
        msg.append("Your organization is current set to:\n\n");
        msg.append(org);
        msg.append("\n\nTo fix this, try editing your cli.toml file's organization setting to match the organization this project resides in.");
        Err(DeliveryError { kind: Kind::ChangeNotFound, detail: Some(msg) })
    } else if status == 401 {
        Err(DeliveryError { kind: Kind::AuthenticationFailed, detail: Some(owned("API request returned 401 (unauthorized)")) })
    } else {
        let mut msg = owned("API request returned ");
        msg.append(status_text);
        Err(DeliveryError { kind: Kind::ApiError(status, raw), detail: Some(msg) })
    }
}

/// What the reply to setting a description means; `raw` is its body (`Err` of the read
/// error's text when it could not be read).
pub fn set_outcome(status: u16, status_text: &str, raw: Result<String, String>) -> (r: DeliveryResult<()>)
    ensures
        status == 204 ==> r is Ok,
        status == 401 ==> fails_with(r, Kind::AuthenticationFailed, "API request returned 401"@),
        status != 204 && status != 401 ==> (r matches Err(e) && e.kind == Kind::ApiError(status, raw)
            && opt_view(e.detail) == Some("API request returned "@ + status_text@)),
{
    if status == 204 {
        Ok(())
    } else if status == 401 {
        Err(DeliveryError { kind: Kind::AuthenticationFailed, detail: Some(owned("API request returned 401")) })
    } else {
        let mut msg = owned("API request returned ");
        msg.append(status_text);
        Err(DeliveryError { kind: Kind::ApiError(status, raw), detail: Some(msg) })
    }
}

} // verus!
