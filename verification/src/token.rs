//! The token store: API tokens keyed by server, enterprise and user, kept
//! in a text file of `key|token` lines sorted by key.
use vstd::prelude::*;
use crate::config::{Config, host_and_port_spec, field, enterprise_missing, api_protocol_missing};
use crate::errors::{DeliveryResult, outcome};
use crate::text::{
    chars_of, is_ws, lemma_lines_step, lemma_split_last, lemma_split_step, lemma_trim_end,
    lemma_trim_start, lines, lines_of, owned, split_char, split_seq, str_eq, strip_cr, trim, trim_end_seq,
    trim_seq, trim_start_seq, views, first_index_of, lemma_first_index_bounds,
};

verus! {

/// Code-point order of two texts, as `str` orders them.
pub open spec fn lex_lt(a: Seq<char>, b: Seq<char>) -> bool
    decreases a.len(),
{
    if a.len() == 0 {
        b.len() > 0
    } else if b.len() == 0 {
        false
    } else if a[0] != b[0] {
        a[0] < b[0]
    } else {
        lex_lt(a.drop_first(), b.drop_first())
    }
}

/// No text is before itself.
pub proof fn lemma_lex_irreflexive(a: Seq<char>)
    ensures
        !lex_lt(a, a),
    decreases a.len(),
{
    if a.len() > 0 {
        lemma_lex_irreflexive(a.drop_first());
    }
}

/// Of two different texts, exactly one is before the other.
pub proof fn lemma_lex_total(a: Seq<char>, b: Seq<char>)
    ensures
        a != b ==> (lex_lt(a, b) || lex_lt(b, a)),
        !(lex_lt(a, b) && lex_lt(b, a)),
    decreases a.len(),
{
    if a.len() > 0 && b.len() > 0 {
        lemma_lex_total(a.drop_first(), b.drop_first());
        if a[0] == b[0] && a.drop_first() == b.drop_first() {
            assert(a == seq![a[0]] + a.drop_first());
            assert(b == seq![b[0]] + b.drop_first());
        }
    } else if a.len() == 0 && b.len() == 0 {
        assert(a == b);
    }
}

/// The order of texts is transitive.
pub proof fn lemma_lex_transitive(a: Seq<char>, b: Seq<char>, c: Seq<char>)
    requires
        lex_lt(a, b),
        lex_lt(b, c),
    ensures
        lex_lt(a, c),
    decreases a.len(),
{
    if a.len() > 0 && b.len() > 0 && c.len() > 0 {
        if a[0] == b[0] && b[0] == c[0] {
            lemma_lex_transitive(a.drop_first(), b.drop_first(), c.drop_first());
        }
    }
}

/// Whether `a` comes before `b` in code-point order.
pub fn lex_less(a: &str, b: &str) -> (r: bool)
    ensures
        r == lex_lt(a@, b@),
{
    let va = chars_of(a);
    let vb = chars_of(b);
    let mut i: usize = 0;
    assert(va@.subrange(0, va.len() as int) == va@);
    assert(vb@.subrange(0, vb.len() as int) == vb@);
    while i < va.len() && i < vb.len() && va[i] == vb[i]
        invariant
            va@ == a@,
            vb@ == b@,
            i <= va.len(),
            i <= vb.len(),
            lex_lt(a@, b@) == lex_lt(va@.subrange(i as int, va.len() as int), vb@.subrange(i as int, vb.len() as int)),
        decreases va.len() - i,
    {
        let ghost sa = va@.subrange(i as int, va.len() as int);
        let ghost sb = vb@.subrange(i as int, vb.len() as int);
        assert(sa.drop_first() == va@.subrange(i + 1, va.len() as int));
        assert(sb.drop_first() == vb@.subrange(i + 1, vb.len() as int));
        i = i + 1;
    }
    if i == va.len() {
        i < vb.len()
    } else if i == vb.len() {
        false
    } else {
        va[i] < vb[i]
    }
}

/// The map that a list of entries describes: later entries win.
pub open spec fn entries_map(s: Seq<(Seq<char>, Seq<char>)>) -> Map<Seq<char>, Seq<char>>
    decreases s.len(),
{
    if s.len() == 0 {
        Map::empty()
    } else {
        entries_map(s.drop_last()).insert(s.last().0, s.last().1)
    }
}

/// Keys strictly increase along the entries.
pub open spec fn sorted_keys(s: Seq<(Seq<char>, Seq<char>)>) -> bool {
    forall|i: int, j: int| 0 <= i < j < s.len() ==> lex_lt(s[i].0, s[j].0)
}

/// The entries of a map, each present key with the value at its index.
pub proof fn lemma_entries_map(s: Seq<(Seq<char>, Seq<char>)>)
    requires
        sorted_keys(s),
    ensures
        forall|i: int|
            0 <= i < s.len() ==> #[trigger] entries_map(s).contains_key(s[i].0) && entries_map(s)[s[i].0]
                == s[i].1,
        forall|k: Seq<char>|
            #[trigger] entries_map(s).contains_key(k) ==> exists|i: int| 0 <= i < s.len() && s[i].0 == k,
    decreases s.len(),
{
    if s.len() > 0 {
        let t = s.drop_last();
        assert(sorted_keys(t));
        lemma_entries_map(t);
        assert forall|i: int| 0 <= i < s.len() implies #[trigger] entries_map(s).contains_key(s[i].0)
            && entries_map(s)[s[i].0] == s[i].1 by {
            if i < s.len() - 1 {
                assert(t[i] == s[i]);
                assert(entries_map(t).contains_key(t[i].0));
                assert(lex_lt(s[i].0, s.last().0));
                lemma_lex_irreflexive(s[i].0);
            }
        }
        assert forall|k: Seq<char>| #[trigger] entries_map(s).contains_key(k) implies exists|i: int|
            0 <= i < s.len() && s[i].0 == k by {
            if k != s.last().0 {
                assert(entries_map(t).contains_key(k));
                let i = choose|i: int| 0 <= i < t.len() && t[i].0 == k;
                assert(s[i] == t[i]);
            } else {
                assert(s[s.len() - 1].0 == k);
            }
        }
    }
}

/// The store key of a token: `server,enterprise,user`.
pub open spec fn key_spec(server: Seq<char>, ent: Seq<char>, user: Seq<char>) -> Seq<char> {
    server + ","@ + ent + ","@ + user
}

/// The text of a store file: one `key|token` line per entry, in order.
pub open spec fn render_entries(s: Seq<(Seq<char>, Seq<char>)>) -> Seq<char>
    decreases s.len(),
{
    if s.len() == 0 {
        Seq::empty()
    } else {
        render_entries(s.drop_last()) + s.last().0 + "|"@ + s.last().1 + "\n"@
    }
}

/// The entry a store-file line holds: the trimmed line split at `|` must
/// give exactly two pieces, the key and the token.
pub open spec fn line_entry(l: Seq<char>) -> Option<(Seq<char>, Seq<char>)> {
    let items = split_seq(trim_seq(l), '|');
    if items.len() == 2 {
        Some((items[0], items[1]))
    } else {
        None
    }
}

/// The map read from store-file lines; malformed lines are skipped, and a
/// later line for a key wins.
pub open spec fn parse_lines(ls: Seq<Seq<char>>) -> Map<Seq<char>, Seq<char>>
    decreases ls.len(),
{
    if ls.len() == 0 {
        Map::empty()
    } else {
        match line_entry(ls.last()) {
            Some(e) => parse_lines(ls.drop_last()).insert(e.0, e.1),
            None => parse_lines(ls.drop_last()),
        }
    }
}

/// A key or token that a store-file line keeps as it is: no `|`, no line
/// break, and no whitespace at the outer end of the line.
pub open spec fn plain_key(k: Seq<char>) -> bool {
    &&& forall|j: int| 0 <= j < k.len() ==> k[j] != '|' && k[j] != '\n'
    &&& k.len() > 0 ==> !is_ws(k[0])
}

/// See `plain_key`; a token may not end in whitespace.
pub open spec fn plain_token(t: Seq<char>) -> bool {
    &&& forall|j: int| 0 <= j < t.len() ==> t[j] != '|' && t[j] != '\n'
    &&& t.len() > 0 ==> !is_ws(t.last())
}

/// Entries that the store file can hold unchanged.
pub open spec fn plain_entries(s: Seq<(Seq<char>, Seq<char>)>) -> bool {
    forall|i: int| 0 <= i < s.len() ==> plain_key(#[trigger] s[i].0) && plain_token(s[i].1)
}

proof fn lemma_lines_append(a: Seq<char>, l: Seq<char>)
    requires
        a.len() == 0 || a.last() == '\n',
        forall|j: int| 0 <= j < l.len() ==> l[j] != '\n',
    ensures
        lines_of(a + l + "\n"@) == lines_of(a).push(strip_cr(l)),
    decreases a.len(),
{
    reveal_strlit("\n");
    if a.len() == 0 {
        assert(a + l + "\n"@ == l + "\n"@);
        lemma_lines_step(l, "\n"@);
        assert(("\n"@).drop_first() == Seq::<char>::empty());
        assert(lines_of(Seq::<char>::empty()) == Seq::<Seq<char>>::empty());
        assert(lines_of(a) == Seq::<Seq<char>>::empty());
    } else {
        lemma_first_index_bounds(a, '\n');
        let i = first_index_of(a, '\n')->0;
        let c = a.subrange(0, i);
        let rest = a.subrange(i, a.len() as int);
        let tail = rest.drop_first();
        assert(a == c + rest);
        lemma_lines_step(c, rest);
        assert(a + l + "\n"@ == c + (rest + l + "\n"@));
        lemma_lines_step(c, rest + l + "\n"@);
        assert((rest + l + "\n"@).drop_first() == tail + l + "\n"@);
        assert(tail.len() == 0 || tail.last() == '\n');
        lemma_lines_append(tail, l);
        assert(seq![strip_cr(c)] + lines_of(tail).push(strip_cr(l)) == (seq![strip_cr(c)] + lines_of(tail)).push(strip_cr(l)));
    }
}

proof fn lemma_line_entry(k: Seq<char>, t: Seq<char>)
    requires
        plain_key(k),
        plain_token(t),
    ensures
        strip_cr(k + "|"@ + t) == k + "|"@ + t,
        line_entry(k + "|"@ + t) == Some((k, t)),
        forall|j: int| 0 <= j < (k + "|"@ + t).len() ==> (k + "|"@ + t)[j] != '\n',
{
    reveal_strlit("|");
    let l = k + "|"@ + t;
    assert(!is_ws('|'));
    assert(l[k.len() as int] == '|');
    if k.len() > 0 {
        assert(l[0] == k[0]);
    }
    if t.len() > 0 {
        assert(l.last() == t.last());
    }
    lemma_trim_start(l, 0);
    assert(l.subrange(0, l.len() as int) == l);
    lemma_trim_end(l, l.len() as int);
    assert(trim_seq(l) == l);
    assert(l == k + ("|"@ + t));
    lemma_split_step(k, "|"@ + t, '|');
    assert(("|"@ + t).drop_first() == t);
    lemma_split_last(t, '|');
    assert(split_seq(l, '|') == seq![k, t]);
    assert forall|j: int| 0 <= j < l.len() implies l[j] != '\n' by {
        if j < k.len() {
            assert(l[j] == k[j]);
        } else if j > k.len() {
            assert(l[j] == t[j - k.len() - 1]);
        }
    }
}

/// What the store file holds reads back as the tokens that were written,
/// for keys and tokens that a line keeps as they are.
pub proof fn law_token_file_round_trip(s: Seq<(Seq<char>, Seq<char>)>)
    requires
        plain_entries(s),
    ensures
        parse_lines(lines_of(render_entries(s))) == entries_map(s),
    decreases s.len(),
{
    reveal_strlit("|");
    reveal_strlit("\n");
    if s.len() == 0 {
        assert(lines_of(Seq::<char>::empty()) == Seq::<Seq<char>>::empty());
    } else {
        let t = s.drop_last();
        assert(plain_entries(t)) by {
            assert forall|i: int| 0 <= i < t.len() implies plain_key(#[trigger] t[i].0) && plain_token(t[i].1) by {
                assert(t[i] == s[i]);
            }
        }
        law_token_file_round_trip(t);
        let e = s.last();
        assert(plain_key(s[s.len() - 1].0));
        lemma_line_entry(e.0, e.1);
        let r = render_entries(t);
        if r.len() > 0 {
            assert(t.len() > 0);
            assert(r.last() == '\n');
        }
        lemma_lines_append(r, e.0 + "|"@ + e.1);
        assert(render_entries(s) == r + (e.0 + "|"@ + e.1) + "\n"@);
        let ls = lines_of(render_entries(s));
        assert(ls.drop_last() == lines_of(r));
        assert(ls.last() == e.0 + "|"@ + e.1);
    }
}

/// API tokens keyed by `server,enterprise,user`, and the file that backs
/// them.
#[derive(Debug)]
pub struct TokenStore {
    tokens: Vec<(String, String)>,
    path: String,
}

/// The view of a list of entries.
pub open spec fn entry_views(v: Seq<(String, String)>) -> Seq<(Seq<char>, Seq<char>)> {
    v.map_values(|e: (String, String)| (e.0@, e.1@))
}

impl TokenStore {
    /// The entries, sorted by key.
    pub closed spec fn entries(&self) -> Seq<(Seq<char>, Seq<char>)> {
        entry_views(self.tokens@)
    }

    /// The tokens by key.
    pub open spec fn token_map(&self) -> Map<Seq<char>, Seq<char>> {
        entries_map(self.entries())
    }

    /// The path of the backing file.
    pub closed spec fn path_view(&self) -> Seq<char> {
        self.path@
    }

    #[verifier::type_invariant]
    spec fn sorted(&self) -> bool {
        sorted_keys(entry_views(self.tokens@))
    }

    /// A store read from the content of its backing file at `path`: every
    /// well-formed `key|token` line, a later line winning for its key.
    pub fn from_file(path: &str, content: &str) -> (r: TokenStore)
        ensures
            r.token_map() == parse_lines(lines_of(content@)),
            r.path_view() == path@,
    {
        let mut store = TokenStore { tokens: Vec::new(), path: owned(path) };
        proof {
            assert(entry_views(store.tokens@) =~= Seq::empty());
        }
        let ls = lines(content);
        let mut i: usize = 0;
        while i < ls.len()
            invariant
                i <= ls.len(),
                views(ls@) == lines_of(content@),
                store.token_map() == parse_lines(views(ls@).subrange(0, i as int)),
                store.path_view() == path@,
            decreases ls.len() - i,
        {
            let ghost before = views(ls@).subrange(0, i as int);
            assert(views(ls@).subrange(0, i + 1) == before.push(ls@[i as int]@));
            assert(before.push(ls@[i as int]@).drop_last() == before);
            let line = trim(ls[i].as_str());
            let items = split_char(line.as_str(), '|');
            if items.len() == 2 {
                let _ = store.set_entry(items[0].clone(), items[1].clone());
            }
            i = i + 1;
        }
        assert(views(ls@).subrange(0, ls.len() as int) == views(ls@));
        store
    }

    /// The path of the backing file.
    pub fn path(&self) -> (r: String)
        ensures
            r@ == self.path_view(),
    {
        self.path.clone()
    }

    /// The store key of a token: `server,enterprise,user`.
    pub fn key(server: &str, ent: &str, user: &str) -> (r: String)
        ensures
            r@ == key_spec(server@, ent@, user@),
    {
        let mut k = owned(server);
        k.append(",");
        k.append(ent);
        k.append(",");
        k.append(user);
        k
    }

    fn find(&self, key: &str) -> (r: Option<usize>)
        ensures
            match r {
                Some(i) => i < self.tokens.len() && self.entries()[i as int].0 == key@,
                None => forall|i: int| 0 <= i < self.entries().len() ==> self.entries()[i].0 != key@,
            },
    {
        let mut i: usize = 0;
        while i < self.tokens.len()
            invariant
                i <= self.tokens.len(),
                forall|j: int| 0 <= j < i ==> self.entries()[j].0 != key@,
            decreases self.tokens.len() - i,
        {
            if str_eq(self.tokens[i].0.as_str(), key) {
                return Some(i);
            }
            i = i + 1;
        }
        None
    }

    /// The token stored for a server, enterprise and user, if any.
    pub fn lookup(&self, server: &str, ent: &str, user: &str) -> (r: Option<&String>)
        ensures
            match r {
                Some(t) => self.token_map().contains_key(key_spec(server@, ent@, user@)) && t@
                    == self.token_map()[key_spec(server@, ent@, user@)],
                None => !self.token_map().contains_key(key_spec(server@, ent@, user@)),
            },
    {
        proof {
            use_type_invariant(self);
            lemma_entries_map(self.entries());
        }
        let key = TokenStore::key(server, ent, user);
        match self.find(key.as_str()) {
            Some(i) => {
                assert(self.entries()[i as int] == (self.tokens@[i as int].0@, self.tokens@[i as int].1@));
                assert(entries_map(self.entries()).contains_key(self.entries()[i as int].0));
                Some(&self.tokens[i].1)
            },
            None => {
                proof {
                    if self.token_map().contains_key(key@) {
                        let j = choose|j: int| 0 <= j < self.entries().len() && self.entries()[j].0 == key@;
                    }
                }
                None
            },
        }
    }

    fn set_entry(&mut self, key: String, token: String) -> (r: Option<String>)
        ensures
            final(self).token_map() == old(self).token_map().insert(key@, token@),
            final(self).path_view() == old(self).path_view(),
            match r {
                Some(t) => old(self).token_map().contains_key(key@) && t@ == old(self).token_map()[key@],
                None => !old(self).token_map().contains_key(key@),
            },
    {
        proof {
            use_type_invariant(&*self);
            lemma_entries_map(self.entries());
        }
        let ghost old_entries = self.entries();
        let mut p: usize = 0;
        while p < self.tokens.len() && lex_less(self.tokens[p].0.as_str(), key.as_str())
            invariant
                p <= self.tokens.len(),
                old_entries == entry_views(self.tokens@),
                sorted_keys(old_entries),
                forall|j: int| 0 <= j < p ==> lex_lt(old_entries[j].0, key@),
            decreases self.tokens.len() - p,
        {
            p = p + 1;
        }
        if p < self.tokens.len() && str_eq(self.tokens[p].0.as_str(), key.as_str()) {
            let ghost k = key@;
            let ghost t = token@;
            let mut tokens: Vec<(String, String)> = Vec::new();
            std::mem::swap(&mut tokens, &mut self.tokens);
            let old_pair = tokens.remove(p);
            proof {
                assert(old_entries[p as int] == (old_pair.0@, old_pair.1@));
                assert(entries_map(old_entries).contains_key(old_entries[p as int].0));
            }
            tokens.insert(p, (key, token));
            let ghost new_entries = entry_views(tokens@);
            proof {
                assert(new_entries =~= old_entries.update(p as int, (k, t)));
                assert forall|i: int| 0 <= i < new_entries.len() implies #[trigger] new_entries[i].0
                    == old_entries[i].0 by {}
                assert forall|i: int, j: int| 0 <= i < j < new_entries.len() implies lex_lt(
                    new_entries[i].0,
                    new_entries[j].0,
                ) by {
                    assert(new_entries[i].0 == old_entries[i].0);
                    assert(new_entries[j].0 == old_entries[j].0);
                }
                assert(sorted_keys(new_entries));
                lemma_entries_map(new_entries);
                assert(entries_map(new_entries) =~= entries_map(old_entries).insert(k, t)) by {
                    assert(new_entries[p as int] == (k, t));
                    assert forall|x: Seq<char>| entries_map(new_entries).contains_key(x)
                        <==> entries_map(old_entries).insert(k, t).contains_key(x) by {
                        if x == k {
                            assert(entries_map(new_entries).contains_key(new_entries[p as int].0));
                        }
                        if entries_map(new_entries).contains_key(x) {
                            let i = choose|i: int| 0 <= i < new_entries.len() && new_entries[i].0 == x;
                            if i != p {
                                assert(new_entries[i] == old_entries[i]);
                                assert(entries_map(old_entries).contains_key(old_entries[i].0));
                            }
                        }
                        if entries_map(old_entries).contains_key(x) {
                            let i = choose|i: int| 0 <= i < old_entries.len() && old_entries[i].0 == x;
                            assert(new_entries[i].0 == old_entries[i].0);
                            assert(entries_map(new_entries).contains_key(new_entries[i].0));
                        }
                    }
                    assert forall|x: Seq<char>| #[trigger] entries_map(new_entries).contains_key(x)
                        implies entries_map(new_entries)[x] == entries_map(old_entries).insert(k, t)[x] by {
                        let i = choose|i: int| 0 <= i < new_entries.len() && new_entries[i].0 == x;
                        assert(entries_map(new_entries)[new_entries[i].0] == new_entries[i].1);
                        if i != p {
                            assert(old_entries[i] == new_entries[i]);
                            assert(entries_map(old_entries).contains_key(old_entries[i].0));
                            lemma_lex_irreflexive(k);
                            if i < p {
                                assert(lex_lt(old_entries[i].0, old_entries[p as int].0));
                            } else {
                                assert(lex_lt(old_entries[p as int].0, old_entries[i].0));
                            }
                            assert(x != k);
                        }
                    }
                }
            }
            self.tokens = tokens;
            Some(old_pair.1)
        } else {
            let ghost k = key@;
            let ghost t = token@;
            let mut tokens: Vec<(String, String)> = Vec::new();
            std::mem::swap(&mut tokens, &mut self.tokens);
            tokens.insert(p, (key, token));
            let ghost new_entries = entry_views(tokens@);
            proof {
                assert(new_entries =~= old_entries.insert(p as int, (k, t)));
                if p < old_entries.len() {
                    lemma_lex_total(old_entries[p as int].0, k);
                }
                assert forall|i: int, j: int| 0 <= i < j < new_entries.len() implies lex_lt(
                    new_entries[i].0,
                    new_entries[j].0,
                ) by {
                    if j == p {
                    } else if i == p {
                        lemma_lex_total(old_entries[p as int].0, k);
                        if j - 1 > p {
                            lemma_lex_transitive(k, old_entries[p as int].0, old_entries[j - 1].0);
                        }
                    } else if i < p && j > p {
                        assert(new_entries[j] == old_entries[j - 1]);
                    } else if i > p {
                        assert(new_entries[j] == old_entries[j - 1]);
                        assert(new_entries[i] == old_entries[i - 1]);
                    }
                }
                assert(forall|i: int| 0 <= i < old_entries.len() ==> old_entries[i].0 != k) by {
                    assert forall|i: int| 0 <= i < old_entries.len() implies old_entries[i].0 != k by {
                        if i < p {
                            lemma_lex_irreflexive(k);
                        } else if i > p {
                            lemma_lex_total(old_entries[p as int].0, k);
                            lemma_lex_irreflexive(k);
                            if lex_lt(k, old_entries[p as int].0) {
                                lemma_lex_transitive(k, old_entries[p as int].0, old_entries[i].0);
                            }
                        }
                    }
                }
                lemma_entries_map(new_entries);
                assert(!entries_map(old_entries).contains_key(k)) by {
                    if entries_map(old_entries).contains_key(k) {
                        let i = choose|i: int| 0 <= i < old_entries.len() && old_entries[i].0 == k;
                    }
                }
                assert(entries_map(new_entries) =~= entries_map(old_entries).insert(k, t)) by {
                    assert forall|x: Seq<char>| entries_map(new_entries).contains_key(x)
                        <==> entries_map(old_entries).insert(k, t).contains_key(x) by {
                        if x == k {
                            assert(new_entries[p as int].0 == k);
                            assert(entries_map(new_entries).contains_key(new_entries[p as int].0));
                        }
                        if entries_map(new_entries).contains_key(x) {
                            let i = choose|i: int| 0 <= i < new_entries.len() && new_entries[i].0 == x;
                            if i < p {
                                assert(new_entries[i] == old_entries[i]);
                                assert(entries_map(old_entries).contains_key(old_entries[i].0));
                            } else if i > p {
                                assert(new_entries[i] == old_entries[i - 1]);
                                assert(entries_map(old_entries).contains_key(old_entries[i - 1].0));
                            } else {
                                assert(new_entries[i].0 == k);
                            }
                        }
                        if entries_map(old_entries).contains_key(x) {
                            let i = choose|i: int| 0 <= i < old_entries.len() && old_entries[i].0 == x;
                            if i < p {
                                assert(new_entries[i] == old_entries[i]);
                                assert(entries_map(new_entries).contains_key(new_entries[i].0));
                            } else {
                                assert(new_entries[i + 1] == old_entries[i]);
                                assert(entries_map(new_entries).contains_key(new_entries[i + 1].0));
                            }
                        }
                    }
                    assert forall|x: Seq<char>| #[trigger] entries_map(new_entries).contains_key(x)
                        implies entries_map(new_entries)[x] == entries_map(old_entries).insert(k, t)[x] by {
                        let i = choose|i: int| 0 <= i < new_entries.len() && new_entries[i].0 == x;
                        assert(entries_map(new_entries)[new_entries[i].0] == new_entries[i].1);
                        if i < p {
                            assert(old_entries[i] == new_entries[i]);
                        } else if i > p {
                            assert(old_entries[i - 1] == new_entries[i]);
                        }
                    }
                }
            }
            self.tokens = tokens;
            None
        }
    }

    /// Stores a token for a server, enterprise and user, and returns the
    /// token it replaces, if any.
    pub fn set_token(&mut self, server: &str, ent: &str, user: &str, token: &str) -> (r: Option<String>)
        ensures
            final(self).token_map() == old(self).token_map().insert(key_spec(server@, ent@, user@), token@),
            final(self).path_view() == old(self).path_view(),
            match r {
                Some(t) => old(self).token_map().contains_key(key_spec(server@, ent@, user@)) && t@
                    == old(self).token_map()[key_spec(server@, ent@, user@)],
                None => !old(self).token_map().contains_key(key_spec(server@, ent@, user@)),
            },
    {
        let key = TokenStore::key(server, ent, user);
        self.set_entry(key, owned(token))
    }

    /// The content of the backing file: one `key|token` line per token,
    /// in strictly ascending key order (each key once; `token_map` is
    /// `entries_map` of the same entries).
    pub fn write_config(&self) -> (r: String)
        ensures
            r@ == render_entries(self.entries()),
            sorted_keys(self.entries()),
    {
        proof {
            use_type_invariant(self);
        }
        let mut s = String::new();
        let mut i: usize = 0;
        while i < self.tokens.len()
            invariant
                i <= self.tokens.len(),
                s@ == render_entries(self.entries().subrange(0, i as int)),
            decreases self.tokens.len() - i,
        {
            let ghost before = self.entries().subrange(0, i as int);
            assert(self.entries().subrange(0, i + 1) == before.push(self.entries()[i as int]));
            assert(before.push(self.entries()[i as int]).drop_last() == before);
            s.append(self.tokens[i].0.as_str());
            s.append("|");
            s.append(self.tokens[i].1.as_str());
            s.append("\n");
            i = i + 1;
        }
        assert(self.entries().subrange(0, self.tokens.len() as int) == self.entries());
        s
    }

    /// Stores a token and gives back the token it replaces together with
    /// the new content of the backing file.
    pub fn write_token(&mut self, server: &str, ent: &str, user: &str, token: &str) -> (r: (Option<String>, String))
        ensures
            final(self).token_map() == old(self).token_map().insert(key_spec(server@, ent@, user@), token@),
            final(self).path_view() == old(self).path_view(),
            r.1@ == render_entries(final(self).entries()),
            sorted_keys(final(self).entries()),
            match r.0 {
                Some(t) => old(self).token_map().contains_key(key_spec(server@, ent@, user@)) && t@
                    == old(self).token_map()[key_spec(server@, ent@, user@)],
                None => !old(self).token_map().contains_key(key_spec(server@, ent@, user@)),
            },
    {
        let previous = self.set_token(server, ent, user, token);
        let content = self.write_config();
        (previous, content)
    }

    /// After `set_token` (whose contract gives the `requires`), a lookup
    /// with the same server, enterprise and user finds the new token, and
    /// every other key keeps what it had.
    pub proof fn law_lookup_after_set(
        before: &TokenStore,
        after: &TokenStore,
        server: Seq<char>,
        ent: Seq<char>,
        user: Seq<char>,
        token: Seq<char>,
        other: Seq<char>,
    )
        requires
            after.token_map() == before.token_map().insert(key_spec(server, ent, user), token),
        ensures
            after.token_map().contains_key(key_spec(server, ent, user)),
            after.token_map()[key_spec(server, ent, user)] == token,
            other != key_spec(server, ent, user) ==> after.token_map().contains_key(other)
                == before.token_map().contains_key(other),
            other != key_spec(server, ent, user) && before.token_map().contains_key(other)
                ==> after.token_map()[other] == before.token_map()[other],
    {
    }


    /// The stored token of the configured server, enterprise and user,
    /// once the store is read (`tstore`); `None` when there is none.
    pub fn stored_token(config: &Config, tstore: DeliveryResult<TokenStore>) -> (r: DeliveryResult<Option<String>>)
        ensures
            match crate::http::token::verify_target_spec(config@) {
                Err(m) => crate::errors::missing(r, m),
                Ok((s, e, u)) => match tstore {
                    Err(x) => r matches Err(y) && y == x,
                    Ok(t) => if t.token_map().contains_key(key_spec(s, e, u)) {
                        r matches Ok(Some(tok)) && tok@ == t.token_map()[key_spec(s, e, u)]
                    } else {
                        r matches Ok(None)
                    },
                },
            },
    {
        let server = config.api_host_and_port()?;
        let ent = config.enterprise()?;
        let user = config.user()?;
        let t = match tstore {
            Err(x) => return Err(x),
            Ok(t) => t,
        };
        match t.lookup(server.as_str(), ent.as_str(), user.as_str()) {
            Some(tok) => Ok(Some(tok.clone())),
            None => Ok(None),
        }
    }

    /// A stored token, kept when the server accepts it (`valid`, asked
    /// only when one is stored); `None` means a new one must be requested.
    pub fn verify_token(stored: Option<String>, valid: Option<DeliveryResult<bool>>) -> (r: DeliveryResult<Option<String>>)
        requires
            stored is Some ==> valid is Some,
        ensures
            match stored {
                None => r matches Ok(None),
                Some(tok) => match valid {
                    Some(Err(x)) => r matches Err(y) && y == x,
                    Some(Ok(true)) => r matches Ok(Some(t)) && t@ == tok@,
                    Some(Ok(false)) => r matches Ok(None),
                    None => false,
                },
            },
    {
        match stored {
            None => Ok(None),
            Some(tok) => match valid {
                Some(Err(x)) => Err(x),
                Some(Ok(true)) => Ok(Some(tok)),
                _ => Ok(None),
            },
        }
    }

    /// The enterprise, user and API host and port a token is requested
    /// for, in the order they are read.
    pub fn request_target(config: &Config) -> (r: DeliveryResult<(String, String, String)>)
        ensures
            match field(config@.enterprise, enterprise_missing()) {
                Err(m) => crate::errors::missing(r, m),
                Ok(e) => match field(config@.user, crate::config::user_missing()) {
                    Err(m) => crate::errors::missing(r, m),
                    Ok(u) => match host_and_port_spec(config@) {
                        Err(m) => crate::errors::missing(r, m),
                        Ok(h) => r matches Ok(x) && x.0@ == e && x.1@ == u && x.2@ == h,
                    },
                },
            },
    {
        let ent = config.enterprise()?;
        let user = config.user()?;
        let server = config.api_host_and_port()?;
        Ok((ent, user, server))
    }

    /// Whether tokens come through SAML sign-in: as configured, else as
    /// the server says (`lookup`, asked only then).
    pub fn uses_saml(config: &Config, lookup: Option<DeliveryResult<bool>>) -> (r: DeliveryResult<bool>)
        requires
            config@.saml is None ==> lookup is Some,
        ensures
            match config@.saml {
                Some(b) => r == Ok::<bool, crate::errors::DeliveryError>(b),
                None => match lookup {
                    Some(x) => r == x,
                    None => false,
                },
            },
    {
        match config.saml {
            Some(b) => Ok(b),
            None => match lookup {
                Some(x) => x,
                None => Ok(false),
            },
        }
    }

    /// The web page where a new token can be retrieved.
    pub fn format_web_token_url(host: &str, ent: &str, proto: &str, path: &str) -> (r: String)
        ensures
            r@ == proto@ + "://"@ + host@ + "/e/"@ + ent@ + "/"@ + path@,
    {
        let mut s = owned(proto);
        s.append("://");
        s.append(host);
        s.append("/e/");
        s.append(ent);
        s.append("/");
        s.append(path);
        s
    }

    /// The web page where a new token can be retrieved, for the configured
    /// server and enterprise.
    pub fn web_token_url(config: &Config) -> (r: DeliveryResult<String>)
        ensures
            outcome(r, web_token_url_spec(config@)),
    {
        let host = config.api_host_and_port()?;
        let ent = config.enterprise()?;
        let proto = config.api_protocol()?;
        Ok(TokenStore::format_web_token_url(host.as_str(), ent.as_str(), proto.as_str(), "#/dashboard?token"))
    }
}

/// The web page where a new token can be retrieved.
pub open spec fn web_token_url_spec(c: crate::config::ConfigView) -> Result<Seq<char>, Seq<char>> {
    match host_and_port_spec(c) {
        Err(m) => Err(m),
        Ok(h) => match field(c.enterprise, enterprise_missing()) {
            Err(m) => Err(m),
            Ok(e) => match field(c.api_protocol, api_protocol_missing()) {
                Err(m) => Err(m),
                Ok(p) => Ok(p + "://"@ + h + "/e/"@ + e + "/"@ + "#/dashboard?token"@),
            },
        },
    }
}

} // verus!
