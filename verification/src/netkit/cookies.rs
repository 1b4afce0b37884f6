//! Cookies: a name-ordered map of them, and the three text forms they arrive
//! in -- a `Cookie:` request header, `Set-Cookie` response headers, and a
//! Netscape `cookies.txt` export.
//!
//! A map holds each name once, in code-point order of the names, which is the
//! order a `BTreeMap<String, String>` keeps and the order a rebuilt `Cookie`
//! header lists them in.
use vstd::prelude::*;

use crate::text;
use crate::text::{chars_of, string_range, starts_with_str, ends_with_str, trim_bounds, trim_str, trim_end_str, trim_start_char_str, index_in, split_ranges, line_ranges};

verus! {

/// A map's entries, as `(name, value)` pairs in the order it keeps them.
pub type Entries = Seq<(Seq<char>, Seq<char>)>;

/// Each name strictly before the next: ordered, and no name twice.
pub open spec fn sorted_keys(s: Entries) -> bool {
    forall|i: int, j: int| 0 <= i < j < s.len() ==> text::lex_lt(s[i].0, s[j].0)
}

/// The entries after setting `k` to `v`: an existing `k` has its value
/// replaced in place, a new one goes before the first greater name.
pub open spec fn entries_insert(s: Entries, k: Seq<char>, v: Seq<char>) -> Entries
    decreases s.len(),
{
    if s.len() == 0 {
        seq![(k, v)]
    } else if s[0].0 == k {
        seq![(k, v)] + s.drop_first()
    } else if text::lex_lt(k, s[0].0) {
        seq![(k, v)] + s
    } else {
        seq![s[0]] + entries_insert(s.drop_first(), k, v)
    }
}

/// The entries with `k` taken out.
pub open spec fn entries_remove(s: Entries, k: Seq<char>) -> Entries
    decreases s.len(),
{
    if s.len() == 0 {
        s
    } else if s[0].0 == k {
        s.drop_first()
    } else {
        seq![s[0]] + entries_remove(s.drop_first(), k)
    }
}

/// The value held under `k`.
pub open spec fn entries_get(s: Entries, k: Seq<char>) -> Option<Seq<char>>
    decreases s.len(),
{
    if s.len() == 0 {
        None
    } else if s[0].0 == k {
        Some(s[0].1)
    } else {
        entries_get(s.drop_first(), k)
    }
}

pub open spec fn entries_has(s: Entries, k: Seq<char>) -> bool {
    entries_get(s, k) is Some
}

/// `name=value`, the pairs joined with `; `, as a `Cookie` header writes them.
pub open spec fn header_text(s: Entries) -> Seq<char>
    decreases s.len(),
{
    if s.len() == 0 {
        seq![]
    } else if s.len() == 1 {
        s[0].0 + "="@ + s[0].1
    } else {
        header_text(s.drop_last()) + "; "@ + s.last().0 + "="@ + s.last().1
    }
}

/// One `name=value` pair as a header or a `Set-Cookie` line carries it:
/// trimmed, split at the first `=`, both halves trimmed, and no pair at all
/// without a name.
pub open spec fn cookie_pair(piece: Seq<char>) -> Option<(Seq<char>, Seq<char>)> {
    match text::split_once(text::trim(piece), '=') {
        None => None,
        Some((k, v)) => if text::trim(k).len() == 0 {
            None
        } else {
            Some((text::trim(k), text::trim(v)))
        },
    }
}

/// The pairs of `pieces`, inserted in order into `m`: a later name wins.
pub open spec fn insert_pairs(m: Entries, pieces: Seq<Seq<char>>) -> Entries
    decreases pieces.len(),
{
    if pieces.len() == 0 {
        m
    } else {
        let next = match cookie_pair(pieces[0]) {
            Some((k, v)) => entries_insert(m, k, v),
            None => m,
        };
        insert_pairs(next, pieces.drop_first())
    }
}

/// What a `Cookie:` request header holds.
pub open spec fn cookie_header_entries(header: Seq<char>) -> Entries {
    insert_pairs(seq![], text::split_char(header, ';'))
}

/// The `name=value` part of one `Set-Cookie` value: whatever precedes the
/// first `;`.
pub open spec fn set_cookie_head(raw: Seq<char>) -> Seq<char> {
    text::split_char(raw, ';')[0]
}

/// What a run of `Set-Cookie` values sets.
pub open spec fn set_cookie_entries(m: Entries, raws: Seq<Seq<char>>) -> Entries
    decreases raws.len(),
{
    if raws.len() == 0 {
        m
    } else {
        let next = match cookie_pair(set_cookie_head(raws[0])) {
            Some((k, v)) => entries_insert(m, k, v),
            None => m,
        };
        set_cookie_entries(next, raws.drop_first())
    }
}

/// A `cookies.txt` line once its trailing whitespace and any `#HttpOnly_`
/// prefix -- a real prefix on the domain field, not a comment -- are gone.
pub open spec fn netscape_cleaned(line: Seq<char>) -> Seq<char> {
    let l = text::trim_end(line);
    if text::starts_with(l, "#HttpOnly_"@) {
        l.subrange("#HttpOnly_"@.len() as int, l.len() as int)
    } else {
        l
    }
}

/// The `(name, value)` one `cookies.txt` line contributes for a site: none
/// for a comment, a blank line, a line of fewer than seven tab-separated
/// fields, or a domain that does not end with `suffix`.
pub open spec fn netscape_pair(line: Seq<char>, suffix: Seq<char>) -> Option<(Seq<char>, Seq<char>)> {
    let l = netscape_cleaned(line);
    if text::starts_with(l, "#"@) || text::trim(l).len() == 0 {
        None
    } else {
        let fields = text::split_char(l, '\t');
        if fields.len() < 7 {
            None
        } else if text::ends_with(text::trim_start_char(fields[0], '.'), suffix) {
            Some((fields[5], fields[6]))
        } else {
            None
        }
    }
}

pub open spec fn netscape_fold(m: Entries, ls: Seq<Seq<char>>, suffix: Seq<char>) -> Entries
    decreases ls.len(),
{
    if ls.len() == 0 {
        m
    } else {
        let next = match netscape_pair(ls[0], suffix) {
            Some((k, v)) => entries_insert(m, k, v),
            None => m,
        };
        netscape_fold(next, ls.drop_first(), suffix)
    }
}

/// What a Netscape `cookies.txt` holds for one site, later lines winning.
pub open spec fn netscape_entries(text: Seq<char>, suffix: Seq<char>) -> Entries {
    netscape_fold(seq![], text::lines(text), suffix)
}

// ----------------------------------------------------------------- lemmas

proof fn lemma_insert_prefix(s: Entries, k: Seq<char>, v: Seq<char>, i: int)
    requires
        0 <= i <= s.len(),
        forall|j: int| 0 <= j < i ==> s[j].0 != k && !text::lex_lt(k, #[trigger] s[j].0),
    ensures
        entries_insert(s, k, v) == s.take(i) + entries_insert(s.skip(i), k, v),
    decreases i,
{
    if i == 0 {
        assert(s.skip(0) =~= s);
        assert(s.take(0) + entries_insert(s, k, v) =~= entries_insert(s, k, v));
    } else {
        assert(s[0].0 != k && !text::lex_lt(k, s[0].0));
        lemma_insert_prefix(s.drop_first(), k, v, i - 1);
        assert(s.drop_first().skip(i - 1) =~= s.skip(i));
        assert(seq![s[0]] + s.drop_first().take(i - 1) =~= s.take(i));
    }
}

/// Inserting brings in no name but the one inserted.
pub proof fn lemma_insert_keys(s: Entries, k: Seq<char>, v: Seq<char>)
    ensures
        forall|i: int|
            0 <= i < entries_insert(s, k, v).len() ==> (#[trigger] entries_insert(s, k, v)[i]).0 == k
                || exists|j: int| 0 <= j < s.len() && entries_insert(s, k, v)[i].0 == s[j].0,
    decreases s.len(),
{
    let r = entries_insert(s, k, v);
    if s.len() == 0 {
    } else if s[0].0 == k {
        assert forall|i: int| 0 <= i < r.len() implies (#[trigger] r[i]).0 == k || exists|j: int|
            0 <= j < s.len() && r[i].0 == s[j].0 by {
            if i > 0 {
                assert(r[i] == s[i]);
            }
        }
    } else if text::lex_lt(k, s[0].0) {
        assert forall|i: int| 0 <= i < r.len() implies (#[trigger] r[i]).0 == k || exists|j: int|
            0 <= j < s.len() && r[i].0 == s[j].0 by {
            if i > 0 {
                assert(r[i] == s[i - 1]);
            }
        }
    } else {
        lemma_insert_keys(s.drop_first(), k, v);
        let t = entries_insert(s.drop_first(), k, v);
        assert forall|i: int| 0 <= i < r.len() implies (#[trigger] r[i]).0 == k || exists|j: int|
            0 <= j < s.len() && r[i].0 == s[j].0 by {
            if i == 0 {
                assert(r[0] == s[0]);
            } else {
                assert(r[i] == t[i - 1]);
                if t[i - 1].0 != k {
                    let j = choose|j: int|
                        0 <= j < s.drop_first().len() && t[i - 1].0 == s.drop_first()[j].0;
                    assert(r[i].0 == s[j + 1].0);
                }
            }
        }
    }
}

pub proof fn lemma_insert_sorted(s: Entries, k: Seq<char>, v: Seq<char>)
    requires
        sorted_keys(s),
    ensures
        sorted_keys(entries_insert(s, k, v)),
    decreases s.len(),
{
    let r = entries_insert(s, k, v);
    if s.len() == 0 {
    } else if s[0].0 == k {
        assert forall|i: int, j: int| 0 <= i < j < r.len() implies text::lex_lt(r[i].0, r[j].0) by {
            assert(r[j] == s[j]);
            if i > 0 {
                assert(r[i] == s[i]);
            }
        }
    } else if text::lex_lt(k, s[0].0) {
        assert forall|i: int, j: int| 0 <= i < j < r.len() implies text::lex_lt(r[i].0, r[j].0) by {
            assert(r[j] == s[j - 1]);
            if i > 0 {
                assert(r[i] == s[i - 1]);
            } else if j > 1 {
                text::lemma_lex_transitive(k, s[0].0, s[j - 1].0);
            }
        }
    } else {
        text::lemma_lex_total(s[0].0, k);
        let t = entries_insert(s.drop_first(), k, v);
        assert(sorted_keys(s.drop_first())) by {
            assert forall|i: int, j: int| 0 <= i < j < s.drop_first().len() implies text::lex_lt(
                s.drop_first()[i].0,
                s.drop_first()[j].0,
            ) by {
                assert(s.drop_first()[i] == s[i + 1] && s.drop_first()[j] == s[j + 1]);
            }
        }
        lemma_insert_sorted(s.drop_first(), k, v);
        lemma_insert_keys(s.drop_first(), k, v);
        assert forall|i: int, j: int| 0 <= i < j < r.len() implies text::lex_lt(r[i].0, r[j].0) by {
            assert(r[j] == t[j - 1]);
            if i > 0 {
                assert(r[i] == t[i - 1]);
            } else {
                assert(r[0] == s[0]);
                if t[j - 1].0 != k {
                    let m = choose|m: int|
                        0 <= m < s.drop_first().len() && t[j - 1].0 == s.drop_first()[m].0;
                    assert(s.drop_first()[m] == s[m + 1]);
                }
            }
        }
    }
}

/// Removing brings in no name at all.
pub proof fn lemma_remove_keys(s: Entries, k: Seq<char>)
    ensures
        forall|i: int|
            0 <= i < entries_remove(s, k).len() ==> exists|j: int|
                0 <= j < s.len() && (#[trigger] entries_remove(s, k)[i]).0 == s[j].0,
    decreases s.len(),
{
    let r = entries_remove(s, k);
    if s.len() == 0 {
    } else if s[0].0 == k {
        assert forall|i: int| 0 <= i < r.len() implies exists|j: int|
            0 <= j < s.len() && (#[trigger] r[i]).0 == s[j].0 by {
            assert(r[i] == s[i + 1]);
        }
    } else {
        lemma_remove_keys(s.drop_first(), k);
        let t = entries_remove(s.drop_first(), k);
        assert forall|i: int| 0 <= i < r.len() implies exists|j: int|
            0 <= j < s.len() && (#[trigger] r[i]).0 == s[j].0 by {
            if i == 0 {
                assert(r[0] == s[0]);
            } else {
                assert(r[i] == t[i - 1]);
                let m = choose|m: int| 0 <= m < s.drop_first().len() && t[i - 1].0 == s.drop_first()[m].0;
                assert(s.drop_first()[m] == s[m + 1]);
            }
        }
    }
}

proof fn lemma_remove_is(s: Entries, k: Seq<char>, i: int)
    requires
        0 <= i < s.len(),
        s[i].0 == k,
        forall|j: int| 0 <= j < i ==> (#[trigger] s[j]).0 != k,
    ensures
        entries_remove(s, k) == s.remove(i),
    decreases i,
{
    if i == 0 {
        assert(s.drop_first() =~= s.remove(0));
    } else {
        assert(s[0].0 != k);
        lemma_remove_is(s.drop_first(), k, i - 1);
        assert(seq![s[0]] + s.drop_first().remove(i - 1) =~= s.remove(i));
    }
}

proof fn lemma_remove_absent(s: Entries, k: Seq<char>)
    requires
        forall|j: int| 0 <= j < s.len() ==> (#[trigger] s[j]).0 != k,
    ensures
        entries_remove(s, k) == s,
    decreases s.len(),
{
    if s.len() > 0 {
        assert(s[0].0 != k);
        lemma_remove_absent(s.drop_first(), k);
        assert(seq![s[0]] + s.drop_first() =~= s);
    }
}

proof fn lemma_get_is(s: Entries, k: Seq<char>, i: int)
    requires
        0 <= i <= s.len(),
        forall|j: int| 0 <= j < i ==> (#[trigger] s[j]).0 != k,
    ensures
        entries_get(s, k) == (if i < s.len() && s[i].0 == k {
            Some(s[i].1)
        } else {
            entries_get(s.skip(i), k)
        }),
    decreases i,
{
    if i == 0 {
        assert(s.skip(0) =~= s);
    } else {
        assert(s[0].0 != k);
        lemma_get_is(s.drop_first(), k, i - 1);
        assert(s.drop_first().skip(i - 1) =~= s.skip(i));
    }
}

// ------------------------------------------------------------------- map

/// Cookies by name.
#[derive(Debug)]
pub struct CookieMap {
    entries: Vec<(String, String)>,
}

impl View for CookieMap {
    type V = Entries;

    closed spec fn view(&self) -> Entries {
        self.entries@.map_values(|e: (String, String)| (e.0@, e.1@))
    }
}

impl CookieMap {
    #[verifier::type_invariant]
    closed spec fn wf(self) -> bool {
        sorted_keys(self@)
    }

    pub fn new() -> (m: CookieMap)
        ensures
            m@ == Seq::<(Seq<char>, Seq<char>)>::empty(),
    {
        let m = CookieMap { entries: Vec::new() };
        assert(m@ =~= Seq::<(Seq<char>, Seq<char>)>::empty());
        m
    }

    pub fn len(&self) -> (n: usize)
        ensures
            n == self@.len(),
    {
        self.entries.len()
    }

    pub fn is_empty(&self) -> (b: bool)
        ensures
            b == (self@.len() == 0),
    {
        self.entries.len() == 0
    }

    /// Set `name` to `value`.
    pub fn insert(&mut self, name: String, value: String)
        ensures
            final(self)@ == entries_insert(old(self)@, name@, value@),
    {
        proof {
            use_type_invariant(&*self);
        }
        let ghost before = self@;
        let mut entries: Vec<(String, String)> = Vec::new();
        std::mem::swap(&mut entries, &mut self.entries);
        assert(entries@.map_values(|e: (String, String)| (e.0@, e.1@)) == before);
        let key = chars_of(name.as_str());
        let n = entries.len();
        let mut i: usize = 0;
        while i < n
            invariant
                n == entries.len(),
                i <= n,
                key@ == name@,
                entries@.map_values(|e: (String, String)| (e.0@, e.1@)) == before,
                sorted_keys(before),
                before == old(self)@,
                forall|j: int| 0 <= j < i ==> before[j].0 != name@ && !text::lex_lt(name@, #[trigger] before[j].0),
            decreases n - i,
        {
            let cur = chars_of(entries[i].0.as_str());
            let c = compare(&key, &cur);
            assert(before[i as int] == (entries@[i as int].0@, entries@[i as int].1@));
            if c == 0 {
                proof {
                    lemma_insert_prefix(before, name@, value@, i as int);
                    assert(before.skip(i as int)[0] == before[i as int]);
                    assert(before.skip(i as int).drop_first() =~= before.skip(i + 1));
                }
                entries.set(i, (name, value));
                proof {
                    assert(entries@.map_values(|e: (String, String)| (e.0@, e.1@)) =~= before.take(
                        i as int,
                    ) + entries_insert(before.skip(i as int), name@, value@));
                    lemma_insert_sorted(before, name@, value@);
                }
                self.entries = entries;
                return;
            }
            if c < 0 {
                proof {
                    lemma_insert_prefix(before, name@, value@, i as int);
                    assert(before.skip(i as int)[0] == before[i as int]);
                }
                entries.insert(i, (name, value));
                proof {
                    assert(entries@.map_values(|e: (String, String)| (e.0@, e.1@)) =~= before.take(
                        i as int,
                    ) + entries_insert(before.skip(i as int), name@, value@));
                    lemma_insert_sorted(before, name@, value@);
                }
                self.entries = entries;
                return;
            }
            i += 1;
        }
        proof {
            lemma_insert_prefix(before, name@, value@, n as int);
            assert(before.skip(n as int).len() == 0);
        }
        entries.push((name, value));
        proof {
            assert(entries@.map_values(|e: (String, String)| (e.0@, e.1@)) =~= before.take(n as int)
                + entries_insert(before.skip(n as int), name@, value@));
            lemma_insert_sorted(before, name@, value@);
        }
        self.entries = entries;
    }

    /// Take `name` out, if it is there.
    pub fn remove(&mut self, name: &str)
        ensures
            final(self)@ == entries_remove(old(self)@, name@),
    {
        proof {
            use_type_invariant(&*self);
        }
        let ghost before = self@;
        let mut entries: Vec<(String, String)> = Vec::new();
        std::mem::swap(&mut entries, &mut self.entries);
        assert(entries@.map_values(|e: (String, String)| (e.0@, e.1@)) == before);
        let key = chars_of(name);
        let n = entries.len();
        let mut i: usize = 0;
        while i < n
            invariant
                n == entries.len(),
                i <= n,
                key@ == name@,
                entries@.map_values(|e: (String, String)| (e.0@, e.1@)) == before,
                sorted_keys(before),
                before == old(self)@,
                forall|j: int| 0 <= j < i ==> (#[trigger] before[j]).0 != name@,
            decreases n - i,
        {
            let cur = chars_of(entries[i].0.as_str());
            assert(before[i as int] == (entries@[i as int].0@, entries@[i as int].1@));
            if compare(&key, &cur) == 0 {
                proof {
                    lemma_remove_is(before, name@, i as int);
                }
                entries.remove(i);
                proof {
                    assert(entries@.map_values(|e: (String, String)| (e.0@, e.1@)) =~= before.remove(
                        i as int,
                    ));
                    let r = before.remove(i as int);
                    assert forall|a: int, b: int| 0 <= a < b < r.len() implies text::lex_lt(
                        r[a].0,
                        r[b].0,
                    ) by {
                        let a2 = if a < i { a } else { a + 1 };
                        let b2 = if b < i { b } else { b + 1 };
                        assert(r[a] == before[a2] && r[b] == before[b2]);
                    }
                }
                self.entries = entries;
                return;
            }
            i += 1;
        }
        proof {
            lemma_remove_absent(before, name@);
        }
        self.entries = entries;
    }

    /// The value held under `name`.
    pub fn get(&self, name: &str) -> (r: Option<&String>)
        ensures
            match r {
                Some(v) => entries_get(self@, name@) == Some(v@),
                None => entries_get(self@, name@) is None,
            },
    {
        let key = chars_of(name);
        let n = self.entries.len();
        let mut i: usize = 0;
        while i < n
            invariant
                n == self.entries.len(),
                i <= n,
                key@ == name@,
                forall|j: int| 0 <= j < i ==> (#[trigger] self@[j]).0 != name@,
            decreases n - i,
        {
            let cur = chars_of(self.entries[i].0.as_str());
            assert(self@[i as int] == (self.entries@[i as int].0@, self.entries@[i as int].1@));
            if compare(&key, &cur) == 0 {
                proof {
                    lemma_get_is(self@, name@, i as int);
                }
                return Some(&self.entries[i].1);
            }
            i += 1;
        }
        proof {
            lemma_get_is(self@, name@, n as int);
        }
        None
    }

    pub fn contains_key(&self, name: &str) -> (b: bool)
        ensures
            b == entries_has(self@, name@),
    {
        self.get(name).is_some()
    }

    /// The names, in order.
    pub fn keys(&self) -> (r: Vec<String>)
        ensures
            r@.len() == self@.len(),
            forall|i: int| 0 <= i < r@.len() ==> (#[trigger] r@[i])@ == self@[i].0,
    {
        let mut out: Vec<String> = Vec::new();
        let n = self.entries.len();
        let mut i: usize = 0;
        while i < n
            invariant
                n == self.entries.len(),
                i <= n,
                out@.len() == i,
                forall|j: int| 0 <= j < i ==> (#[trigger] out@[j])@ == self@[j].0,
            decreases n - i,
        {
            out.push(self.entries[i].0.clone());
            i += 1;
        }
        out
    }

    /// The pairs, in order.
    pub fn pairs(&self) -> (r: Vec<(String, String)>)
        ensures
            r@.len() == self@.len(),
            forall|i: int|
                0 <= i < r@.len() ==> ((#[trigger] r@[i]).0@, r@[i].1@) == self@[i],
    {
        let mut out: Vec<(String, String)> = Vec::new();
        let n = self.entries.len();
        let mut i: usize = 0;
        while i < n
            invariant
                n == self.entries.len(),
                i <= n,
                out@.len() == i,
                forall|j: int| 0 <= j < i ==> ((#[trigger] out@[j]).0@, out@[j].1@) == self@[j],
            decreases n - i,
        {
            out.push((self.entries[i].0.clone(), self.entries[i].1.clone()));
            i += 1;
        }
        out
    }

    /// The same cookies, as a new map.
    pub fn duplicate(&self) -> (r: CookieMap)
        ensures
            r@ == self@,
    {
        proof {
            use_type_invariant(self);
        }
        let mut entries: Vec<(String, String)> = Vec::new();
        let n = self.entries.len();
        let mut i: usize = 0;
        while i < n
            invariant
                n == self.entries.len(),
                i <= n,
                entries@.len() == i,
                forall|j: int|
                    0 <= j < i ==> ((#[trigger] entries@[j]).0@, entries@[j].1@) == self@[j],
            decreases n - i,
        {
            entries.push((self.entries[i].0.clone(), self.entries[i].1.clone()));
            i += 1;
        }
        let r = CookieMap { entries };
        assert(r@ =~= self@);
        r
    }

    /// The `Cookie` header these make, or `None` when there are none.
    pub fn header(&self) -> (r: Option<String>)
        ensures
            match r {
                Some(h) => self@.len() > 0 && h@ == header_text(self@),
                None => self@.len() == 0,
            },
    {
        let n = self.entries.len();
        if n == 0 {
            return None;
        }
        let mut out = String::new();
        let mut i: usize = 0;
        while i < n
            invariant
                n == self.entries.len(),
                i <= n,
                out@ == header_text(self@.take(i as int)),
            decreases n - i,
        {
            if i > 0 {
                out.append("; ");
            }
            out.append(self.entries[i].0.as_str());
            out.append("=");
            out.append(self.entries[i].1.as_str());
            proof {
                let t = self@.take(i + 1);
                assert(t.drop_last() =~= self@.take(i as int));
                assert(t.last() == self@[i as int]);
                assert(self@[i as int] == (self.entries@[i as int].0@, self.entries@[i as int].1@));
                if i == 0 {
                    assert(self@.take(0) =~= Seq::<(Seq<char>, Seq<char>)>::empty());
                }
            }
            i += 1;
        }
        assert(self@.take(n as int) =~= self@);
        Some(out)
    }
}

/// How two names order: negative, zero or positive as `a` sorts before,
/// equal to or after `b`.
pub fn compare(a: &Vec<char>, b: &Vec<char>) -> (r: i8)
    ensures
        r == 0 <==> a@ == b@,
        r < 0 <==> text::lex_lt(a@, b@),
        r > 0 <==> text::lex_lt(b@, a@),
{
    let mut i: usize = 0;
    assert(a@.skip(0) =~= a@);
    assert(b@.skip(0) =~= b@);
    while i < a.len() && i < b.len()
        invariant
            i <= a.len(),
            i <= b.len(),
            a@.take(i as int) == b@.take(i as int),
            text::lex_lt(a@, b@) == text::lex_lt(a@.skip(i as int), b@.skip(i as int)),
            text::lex_lt(b@, a@) == text::lex_lt(b@.skip(i as int), a@.skip(i as int)),
        decreases a.len() - i,
    {
        assert(a@.skip(i as int)[0] == a@[i as int]);
        assert(b@.skip(i as int)[0] == b@[i as int]);
        if a[i] != b[i] {
            proof {
                text::lemma_lex_irreflexive(a@);
                text::lemma_lex_irreflexive(b@);
                assert(a@[i as int] != b@[i as int]);
                assert((a@[i as int] as int) != (b@[i as int] as int));
            }
            if a[i] < b[i] {
                return -1;
            } else {
                return 1;
            }
        }
        assert(a@.skip(i as int).drop_first() =~= a@.skip(i + 1));
        assert(b@.skip(i as int).drop_first() =~= b@.skip(i + 1));
        assert(a@.take(i + 1) =~= a@.take(i as int).push(a@[i as int]));
        assert(b@.take(i + 1) =~= b@.take(i as int).push(b@[i as int]));
        i += 1;
    }
    proof {
        text::lemma_lex_irreflexive(a@);
    }
    if a.len() == b.len() {
        assert(a@ =~= a@.take(i as int));
        assert(b@ =~= b@.take(i as int));
        0
    } else if a.len() < b.len() {
        assert(a@.skip(i as int).len() == 0);
        assert(a@ != b@);
        -1
    } else {
        assert(b@.skip(i as int).len() == 0);
        assert(a@ != b@);
        1
    }
}


/// The pair `v[from..to]` holds, as `cookie_pair` reads it.
fn pair_in(v: &Vec<char>, from: usize, to: usize) -> (r: Option<(String, String)>)
    requires
        from <= to <= v.len(),
    ensures
        match r {
            Some((k, x)) => cookie_pair(v@.subrange(from as int, to as int)) == Some((k@, x@)),
            None => cookie_pair(v@.subrange(from as int, to as int)) is None,
        },
{
    let ghost piece = v@.subrange(from as int, to as int);
    let (a, b) = trim_bounds(v, from, to);
    let ghost t = v@.subrange(a as int, b as int);
    match index_in(v, '=', a, b) {
        None => None,
        Some(e) => {
            let (ka, kb) = trim_bounds(v, a, e);
            let (va, vb) = trim_bounds(v, e + 1, b);
            assert(t.subrange(0, e - a) =~= v@.subrange(a as int, e as int));
            assert(t.subrange(e - a + 1, t.len() as int) =~= v@.subrange(e + 1, b as int));
            if ka == kb {
                None
            } else {
                Some((string_range(v, ka, kb), string_range(v, va, vb)))
            }
        },
    }
}

/// Insert what `cookie_pair` makes of each range's piece, in order.
fn insert_ranges(m: &mut CookieMap, v: &Vec<char>, ranges: &Vec<(usize, usize)>)
    requires
        text::ranges_within(ranges@, 0, v@.len() as int),
    ensures
        final(m)@ == insert_pairs(old(m)@, text::pieces(v@, ranges@)),
{
    let ghost all = text::pieces(v@, ranges@);
    let ghost goal = insert_pairs(old(m)@, all);
    let n = ranges.len();
    let mut i: usize = 0;
    assert(all.skip(0) =~= all);
    while i < n
        invariant
            n == ranges.len(),
            i <= n,
            all == text::pieces(v@, ranges@),
            text::ranges_within(ranges@, 0, v@.len() as int),
            insert_pairs(m@, all.skip(i as int)) == goal,
        decreases n - i,
    {
        let (a, b) = ranges[i];
        assert(ranges@[i as int] == (a, b));
        assert(all.skip(i as int)[0] == v@.subrange(a as int, b as int));
        assert(all.skip(i as int).drop_first() =~= all.skip(i + 1));
        match pair_in(v, a, b) {
            Some((k, x)) => m.insert(k, x),
            None => {},
        }
        i += 1;
    }
    assert(all.skip(n as int).len() == 0);
}

/// A `Cookie:` request header, as name/value pairs.
pub fn parse_cookie_header(header: &str) -> (m: CookieMap)
    ensures
        m@ == cookie_header_entries(header@),
{
    let v = chars_of(header);
    let ranges = split_ranges(&v, ';', 0, v.len());
    assert(v@.subrange(0, v@.len() as int) =~= v@);
    let mut m = CookieMap::new();
    insert_ranges(&mut m, &v, &ranges);
    m
}

/// Every `Set-Cookie` value of a response, as name/value pairs: the part
/// before the first `;` of each, later ones winning.
pub fn set_cookies(values: &Vec<String>) -> (m: CookieMap)
    ensures
        m@ == set_cookie_entries(seq![], values@.map_values(|s: String| s@)),
{
    let ghost all = values@.map_values(|s: String| s@);
    let mut m = CookieMap::new();
    let n = values.len();
    let mut i: usize = 0;
    assert(all.skip(0) =~= all);
    while i < n
        invariant
            n == values.len(),
            i <= n,
            all == values@.map_values(|s: String| s@),
            set_cookie_entries(m@, all.skip(i as int)) == set_cookie_entries(seq![], all),
        decreases n - i,
    {
        let v = chars_of(values[i].as_str());
        let ranges = split_ranges(&v, ';', 0, v.len());
        assert(v@.subrange(0, v@.len() as int) =~= v@);
        assert(all.skip(i as int)[0] == v@);
        assert(all.skip(i as int).drop_first() =~= all.skip(i + 1));
        proof {
            // `str::split` always yields at least one piece.
            text::lemma_split_nonempty(v@, ';');
        }
        let (a, b) = ranges[0];
        assert(text::pieces(v@, ranges@)[0] == v@.subrange(a as int, b as int));
        match pair_in(&v, a, b) {
            Some((k, x)) => m.insert(k, x),
            None => {},
        }
        i += 1;
    }
    assert(all.skip(n as int).len() == 0);
    m
}

/// The pair one `cookies.txt` line gives for a site, as `netscape_pair`
/// reads it.
fn netscape_line(line: &str, suffix: &str) -> (r: Option<(String, String)>)
    ensures
        match r {
            Some((k, x)) => netscape_pair(line@, suffix@) == Some((k@, x@)),
            None => netscape_pair(line@, suffix@) is None,
        },
{
    let t = trim_end_str(line);
    let tv = chars_of(t.as_str());
    let l = if starts_with_str(t.as_str(), "#HttpOnly_") {
        proof {
            reveal_strlit("#HttpOnly_");
        }
        string_range(&tv, 10, tv.len())
    } else {
        string_range(&tv, 0, tv.len())
    };
    assert(tv@.subrange(0, tv@.len() as int) =~= tv@);
    assert(l@ == netscape_cleaned(line@));
    if starts_with_str(l.as_str(), "#") {
        return None;
    }
    let lt = trim_str(l.as_str());
    if lt.as_str().is_empty() {
        return None;
    }
    let lv = chars_of(l.as_str());
    let fields = split_ranges(&lv, '\t', 0, lv.len());
    assert(lv@.subrange(0, lv@.len() as int) =~= lv@);
    if fields.len() < 7 {
        return None;
    }
    let ghost fs = text::split_char(l@, '\t');
    let (d0, d1) = fields[0];
    assert(fs[0] == lv@.subrange(d0 as int, d1 as int));
    let domain = string_range(&lv, d0, d1);
    let bare = trim_start_char_str(domain.as_str(), '.');
    if ends_with_str(bare.as_str(), suffix) {
        let (n0, n1) = fields[5];
        let (x0, x1) = fields[6];
        assert(fs[5] == lv@.subrange(n0 as int, n1 as int));
        assert(fs[6] == lv@.subrange(x0 as int, x1 as int));
        Some((string_range(&lv, n0, n1), string_range(&lv, x0, x1)))
    } else {
        None
    }
}

/// Pull cookies out of a Netscape-format `cookies.txt`, which is what browser
/// export extensions and `curl -c` write.
///
/// Lines are tab-separated: domain, subdomains-flag, path, secure, expiry,
/// name, value. `domain_suffix` filters to one site, so a whole-browser export
/// can be handed over as-is.
pub fn from_netscape(text: &str, domain_suffix: &str) -> (m: CookieMap)
    ensures
        m@ == netscape_entries(text@, domain_suffix@),
{
    let v = chars_of(text);
    let ranges = line_ranges(&v);
    let ghost all = text::lines(v@);
    let mut m = CookieMap::new();
    let n = ranges.len();
    let mut i: usize = 0;
    assert(all.skip(0) =~= all);
    while i < n
        invariant
            n == ranges.len(),
            i <= n,
            all == text::lines(v@),
            text::pieces(v@, ranges@) == all,
            text::ranges_within(ranges@, 0, v@.len() as int),
            netscape_fold(m@, all.skip(i as int), domain_suffix@) == netscape_entries(
                v@,
                domain_suffix@,
            ),
        decreases n - i,
    {
        let (a, b) = ranges[i];
        assert(ranges@[i as int] == (a, b));
        let line = string_range(&v, a, b);
        assert(all.skip(i as int)[0] == line@);
        assert(all.skip(i as int).drop_first() =~= all.skip(i + 1));
        match netscape_line(line.as_str(), domain_suffix) {
            Some((k, x)) => m.insert(k, x),
            None => {},
        }
        i += 1;
    }
    assert(all.skip(n as int).len() == 0);
    m
}

/// Cookie names as a log lists them: each in double quotes, joined with
/// `, ` -- the names only, never a value.
pub open spec fn quoted_names(es: Entries) -> Seq<char>
    decreases es.len(),
{
    if es.len() == 0 {
        seq![]
    } else if es.len() == 1 {
        "\""@ + es[0].0 + "\""@
    } else {
        quoted_names(es.drop_last()) + ", \""@ + es.last().0 + "\""@
    }
}

/// The names of a map's cookies, quoted, in order.
pub fn names_quoted(m: &CookieMap) -> (r: String)
    ensures
        r@ == quoted_names(m@),
{
    let keys = m.keys();
    let ghost es = m@;
    let n = keys.len();
    let mut out = String::new();
    let mut k: usize = 0;
    proof {
        reveal_strlit("\"");
        reveal_strlit(", \"");
    }
    while k < n
        invariant
            n == keys@.len() == es.len(),
            es == m@,
            forall|i: int| 0 <= i < n ==> (#[trigger] keys@[i])@ == es[i].0,
            k <= n,
            out@ == quoted_names(es.take(k as int)),
        decreases n - k,
    {
        assert(es.take(k + 1).drop_last() =~= es.take(k as int));
        assert(es.take(k + 1).last() == es[k as int]);
        if k > 0 {
            out.append(", \"");
        } else {
            out.append("\"");
        }
        out.append(keys[k].as_str());
        out.append("\"");
        proof {
            if k == 0 {
                assert(es.take(1).len() == 1);
                assert(out@ =~= "\""@ + es[0].0 + "\""@);
            } else {
                assert(out@ =~= quoted_names(es.take(k as int)) + ", \""@ + es[k as int].0 + "\""@);
            }
        }
        k += 1;
    }
    assert(es.take(n as int) =~= es);
    out
}

} // verus!
