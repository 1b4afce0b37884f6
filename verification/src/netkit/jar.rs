//! The cookies a jar keeps between runs.
//!
//! A cold start is scored as a new visitor, so the bot-manager cookie a
//! previous run earned is worth keeping. Only cookies the caller's `keep`
//! rule accepts are kept, one per host and name, and session cookies (no
//! expiry) are dropped at exit as a browser drops them. The jar that sends
//! them, and the store they are written to, are the caller's; what is kept
//! is decided here.
use vstd::prelude::*;

use crate::netkit::cookies::compare;
use crate::text;
use crate::text::chars_of;

verus! {

/// One kept cookie: where it was set, what it is, and when it expires, in
/// Unix seconds.
pub struct Kept {
    pub host: String,
    pub name: String,
    pub value: String,
    pub expires_at: u64,
}

pub type KeptView = (Seq<char>, Seq<char>, Seq<char>, u64);

pub open spec fn kept_view(k: Kept) -> KeptView {
    (k.host@, k.name@, k.value@, k.expires_at)
}

/// The order kept cookies are held in: by host, then by name.
pub open spec fn key_lt(a: KeptView, b: KeptView) -> bool {
    text::lex_lt(a.0, b.0) || (a.0 == b.0 && text::lex_lt(a.1, b.1))
}

/// Each cookie strictly before the next: ordered, and no host and name
/// twice.
pub open spec fn in_key_order(s: Seq<KeptView>) -> bool {
    forall|i: int, j: int| 0 <= i < j < s.len() ==> key_lt(s[i], s[j])
}

/// The cookies after keeping `k`: one with the same host and name is
/// replaced in place, a new one goes before the first greater.
pub open spec fn kept_insert(s: Seq<KeptView>, k: KeptView) -> Seq<KeptView>
    decreases s.len(),
{
    if s.len() == 0 {
        seq![k]
    } else if s[0].0 == k.0 && s[0].1 == k.1 {
        seq![k] + s.drop_first()
    } else if key_lt(k, s[0]) {
        seq![k] + s
    } else {
        seq![s[0]] + kept_insert(s.drop_first(), k)
    }
}

/// The value of the first kept cookie called `name`, whichever host set it.
pub open spec fn first_named(s: Seq<KeptView>, name: Seq<char>) -> Option<Seq<char>>
    decreases s.len(),
{
    if s.len() == 0 {
        None
    } else if s[0].1 == name {
        Some(s[0].2)
    } else {
        first_named(s.drop_first(), name)
    }
}

/// Those of `s` still live at `now`.
pub open spec fn live_at(s: Seq<KeptView>, now: u64) -> Seq<KeptView> {
    s.filter(|k: KeptView| k.3 > now)
}

/// What a store's cookies come to when loaded at `now`: each one still live
/// kept in turn, a later one replacing an earlier with its host and name.
pub open spec fn loaded(s: Seq<KeptView>, stored: Seq<KeptView>, now: u64) -> Seq<KeptView>
    decreases stored.len(),
{
    if stored.len() == 0 {
        s
    } else {
        let next = if stored[0].3 > now {
            kept_insert(s, stored[0])
        } else {
            s
        };
        loaded(next, stored.drop_first(), now)
    }
}

/// When a cookie set at `now` expires: at its `Expires`, else `Max-Age`
/// seconds on; a cookie with neither is a session cookie and does not.
pub open spec fn expiry_of(expires: Option<u64>, max_age: Option<u64>, now: u64) -> Option<u64> {
    match (expires, max_age) {
        (Some(at), _) => Some(at),
        (None, Some(age)) => Some((now + age) as u64),
        (None, None) => None,
    }
}

proof fn lemma_insert_keys(s: Seq<KeptView>, k: KeptView)
    ensures
        forall|i: int|
            0 <= i < kept_insert(s, k).len() ==> ((#[trigger] kept_insert(s, k)[i]).0 == k.0
                && kept_insert(s, k)[i].1 == k.1) || exists|j: int|
                0 <= j < s.len() && kept_insert(s, k)[i].0 == s[j].0 && kept_insert(s, k)[i].1 == s[j].1,
    decreases s.len(),
{
    let r = kept_insert(s, k);
    if s.len() == 0 {
    } else if s[0].0 == k.0 && s[0].1 == k.1 {
        assert forall|i: int| 0 <= i < r.len() implies ((#[trigger] r[i]).0 == k.0 && r[i].1 == k.1)
            || exists|j: int| 0 <= j < s.len() && r[i].0 == s[j].0 && r[i].1 == s[j].1 by {
            if i > 0 {
                assert(r[i] == s[i]);
            }
        }
    } else if key_lt(k, s[0]) {
        assert forall|i: int| 0 <= i < r.len() implies ((#[trigger] r[i]).0 == k.0 && r[i].1 == k.1)
            || exists|j: int| 0 <= j < s.len() && r[i].0 == s[j].0 && r[i].1 == s[j].1 by {
            if i > 0 {
                assert(r[i] == s[i - 1]);
            }
        }
    } else {
        lemma_insert_keys(s.drop_first(), k);
        let t = kept_insert(s.drop_first(), k);
        assert forall|i: int| 0 <= i < r.len() implies ((#[trigger] r[i]).0 == k.0 && r[i].1 == k.1)
            || exists|j: int| 0 <= j < s.len() && r[i].0 == s[j].0 && r[i].1 == s[j].1 by {
            if i == 0 {
                assert(r[0] == s[0]);
            } else {
                assert(r[i] == t[i - 1]);
                if !(t[i - 1].0 == k.0 && t[i - 1].1 == k.1) {
                    let j = choose|j: int|
                        0 <= j < s.drop_first().len() && t[i - 1].0 == s.drop_first()[j].0 && t[i
                            - 1].1 == s.drop_first()[j].1;
                    assert(r[i].0 == s[j + 1].0 && r[i].1 == s[j + 1].1);
                }
            }
        }
    }
}

proof fn lemma_key_transitive(a: KeptView, b: KeptView, c: KeptView)
    requires
        key_lt(a, b),
        key_lt(b, c),
    ensures
        key_lt(a, c),
{
    if text::lex_lt(a.0, b.0) && text::lex_lt(b.0, c.0) {
        text::lemma_lex_transitive(a.0, b.0, c.0);
    } else if text::lex_lt(a.0, b.0) {
    } else if text::lex_lt(b.0, c.0) {
    } else {
        text::lemma_lex_transitive(a.1, b.1, c.1);
    }
}

proof fn lemma_key_total(a: KeptView, b: KeptView)
    requires
        !(a.0 == b.0 && a.1 == b.1),
    ensures
        key_lt(a, b) || key_lt(b, a),
{
    if a.0 != b.0 {
        text::lemma_lex_total(a.0, b.0);
    } else {
        text::lemma_lex_total(a.1, b.1);
    }
}

/// Keeping a cookie keeps the cookies in order.
pub proof fn lemma_insert_ordered(s: Seq<KeptView>, k: KeptView)
    requires
        in_key_order(s),
    ensures
        in_key_order(kept_insert(s, k)),
    decreases s.len(),
{
    let r = kept_insert(s, k);
    if s.len() == 0 {
    } else if s[0].0 == k.0 && s[0].1 == k.1 {
        assert forall|i: int, j: int| 0 <= i < j < r.len() implies key_lt(r[i], r[j]) by {
            assert(r[j] == s[j]);
            if i > 0 {
                assert(r[i] == s[i]);
            } else {
                assert(key_lt(s[0], s[j]));
            }
        }
    } else if key_lt(k, s[0]) {
        assert forall|i: int, j: int| 0 <= i < j < r.len() implies key_lt(r[i], r[j]) by {
            assert(r[j] == s[j - 1]);
            if i > 0 {
                assert(r[i] == s[i - 1]);
            } else if j > 1 {
                lemma_key_transitive(k, s[0], s[j - 1]);
            }
        }
    } else {
        lemma_key_total(s[0], k);
        let t = kept_insert(s.drop_first(), k);
        assert(in_key_order(s.drop_first())) by {
            assert forall|i: int, j: int| 0 <= i < j < s.drop_first().len() implies key_lt(
                s.drop_first()[i],
                s.drop_first()[j],
            ) by {
                assert(s.drop_first()[i] == s[i + 1] && s.drop_first()[j] == s[j + 1]);
            }
        }
        lemma_insert_ordered(s.drop_first(), k);
        lemma_insert_keys(s.drop_first(), k);
        assert forall|i: int, j: int| 0 <= i < j < r.len() implies key_lt(r[i], r[j]) by {
            assert(r[j] == t[j - 1]);
            if i > 0 {
                assert(r[i] == t[i - 1]);
            } else {
                assert(r[0] == s[0]);
                if !(t[j - 1].0 == k.0 && t[j - 1].1 == k.1) {
                    let m = choose|m: int|
                        0 <= m < s.drop_first().len() && t[j - 1].0 == s.drop_first()[m].0 && t[j
                            - 1].1 == s.drop_first()[m].1;
                    assert(s.drop_first()[m] == s[m + 1]);
                    assert(key_lt(s[0], s[m + 1]));
                }
            }
        }
    }
}

proof fn lemma_key_asymmetric(a: KeptView, b: KeptView)
    requires
        key_lt(a, b),
    ensures
        !key_lt(b, a),
        !(a.0 == b.0 && a.1 == b.1),
{
    text::lemma_lex_irreflexive(a.0);
    text::lemma_lex_irreflexive(a.1);
    if key_lt(b, a) {
        lemma_key_transitive(a, b, a);
    }
}

/// A cookie after every kept one goes at the end.
proof fn lemma_insert_last(acc: Seq<KeptView>, k: KeptView)
    requires
        forall|i: int| 0 <= i < acc.len() ==> key_lt(#[trigger] acc[i], k),
    ensures
        kept_insert(acc, k) == acc.push(k),
    decreases acc.len(),
{
    if acc.len() > 0 {
        lemma_key_asymmetric(acc[0], k);
        assert forall|i: int| 0 <= i < acc.drop_first().len() implies key_lt(#[trigger] acc.drop_first()[i], k) by {
            assert(acc.drop_first()[i] == acc[i + 1]);
        }
        lemma_insert_last(acc.drop_first(), k);
        assert(seq![acc[0]] + acc.drop_first().push(k) =~= acc.push(k));
    }
}

/// Loading cookies already in order, all live, after ones before them all
/// keeps them as they are.
proof fn lemma_load_in_order(acc: Seq<KeptView>, t: Seq<KeptView>, now: u64)
    requires
        in_key_order(t),
        forall|i: int| 0 <= i < t.len() ==> (#[trigger] t[i]).3 > now,
        forall|i: int, j: int| 0 <= i < acc.len() && 0 <= j < t.len() ==> key_lt(#[trigger] acc[i], #[trigger] t[j]),
    ensures
        loaded(acc, t, now) == acc + t,
    decreases t.len(),
{
    if t.len() == 0 {
        assert(acc + t =~= acc);
    } else {
        assert forall|i: int| 0 <= i < acc.len() implies key_lt(#[trigger] acc[i], t[0]) by {
            assert(key_lt(acc[i], t[0]));
        }
        lemma_insert_last(acc, t[0]);
        let next = acc.push(t[0]);
        let rest = t.drop_first();
        assert forall|i: int, j: int| 0 <= i < next.len() && 0 <= j < rest.len() implies key_lt(
            #[trigger] next[i],
            #[trigger] rest[j],
        ) by {
            assert(rest[j] == t[j + 1]);
            if i < acc.len() {
                assert(next[i] == acc[i]);
                assert(key_lt(acc[i], t[j + 1]));
            } else {
                assert(next[i] == t[0]);
                assert(key_lt(t[0], t[j + 1]));
            }
        }
        assert forall|i: int, j: int| 0 <= i < j < rest.len() implies key_lt(rest[i], rest[j]) by {
            assert(rest[i] == t[i + 1] && rest[j] == t[j + 1]);
        }
        assert forall|i: int| 0 <= i < rest.len() implies (#[trigger] rest[i]).3 > now by {
            assert(rest[i] == t[i + 1]);
        }
        lemma_load_in_order(next, rest, now);
        assert(next + rest =~= acc + t);
    }
}

/// What is live of ordered cookies is in order, every one live, and each
/// one of them.
proof fn lemma_live_in_order(s: Seq<KeptView>, now: u64)
    requires
        in_key_order(s),
    ensures
        in_key_order(live_at(s, now)),
        forall|i: int| 0 <= i < live_at(s, now).len() ==> (#[trigger] live_at(s, now)[i]).3 > now,
        forall|i: int|
            0 <= i < live_at(s, now).len() ==> exists|j: int| 0 <= j < s.len() && #[trigger] live_at(s, now)[i] == s[j],
    decreases s.len(),
{
    let pred = |k: KeptView| k.3 > now;
    if s.len() == 0 {
        assert(live_at(s, now) =~= Seq::<KeptView>::empty()) by {
            s.lemma_filter_len(pred);
        }
    } else {
        let t = s.drop_last();
        let x = s.last();
        assert(in_key_order(t)) by {
            assert forall|i: int, j: int| 0 <= i < j < t.len() implies key_lt(t[i], t[j]) by {
                assert(t[i] == s[i] && t[j] == s[j]);
            }
        }
        lemma_live_in_order(t, now);
        assert(s =~= t.push(x));
        t.lemma_filter_push(x, pred);
        let lt = live_at(t, now);
        let ls = live_at(s, now);
        assert forall|i: int| 0 <= i < lt.len() implies key_lt(#[trigger] lt[i], x) by {
            let j = choose|j: int| 0 <= j < t.len() && lt[i] == t[j];
            assert(t[j] == s[j]);
            assert(key_lt(s[j], s[s.len() - 1]));
        }
        if x.3 > now {
            assert(ls == lt.push(x));
            assert forall|i: int, j: int| 0 <= i < j < ls.len() implies key_lt(ls[i], ls[j]) by {
                if j < lt.len() {
                    assert(ls[i] == lt[i] && ls[j] == lt[j]);
                } else {
                    assert(ls[i] == lt[i] && ls[j] == x);
                }
            }
            assert forall|i: int| 0 <= i < ls.len() implies exists|j: int| 0 <= j < s.len() && #[trigger] ls[i] == s[j] by {
                if i < lt.len() {
                    assert(ls[i] == lt[i]);
                    let j = choose|j: int| 0 <= j < t.len() && lt[i] == t[j];
                    assert(s[j] == t[j]);
                } else {
                    assert(ls[i] == s[s.len() - 1]);
                }
            }
            assert forall|i: int| 0 <= i < ls.len() implies (#[trigger] ls[i]).3 > now by {
                if i < lt.len() {
                    assert(ls[i] == lt[i]);
                }
            }
        } else {
            assert(ls == lt);
            assert forall|i: int| 0 <= i < ls.len() implies exists|j: int| 0 <= j < s.len() && #[trigger] ls[i] == s[j] by {
                let j = choose|j: int| 0 <= j < t.len() && lt[i] == t[j];
                assert(s[j] == t[j]);
            }
        }
    }
}

/// What a jar writes back at `now` is what loading it at `now` reads: the
/// live cookies, as they were.
pub proof fn lemma_saved_reloads(s: Seq<KeptView>, now: u64)
    requires
        in_key_order(s),
    ensures
        loaded(Seq::<KeptView>::empty(), live_at(s, now), now) == live_at(s, now),
{
    lemma_live_in_order(s, now);
    lemma_load_in_order(Seq::<KeptView>::empty(), live_at(s, now), now);
    assert(Seq::<KeptView>::empty() + live_at(s, now) =~= live_at(s, now));
}

/// Loading keeps only what is live at the moment of loading.
pub proof fn lemma_loaded_live(s: Seq<KeptView>, stored: Seq<KeptView>, now: u64)
    requires
        forall|i: int| 0 <= i < s.len() ==> (#[trigger] s[i]).3 > now,
    ensures
        forall|i: int|
            0 <= i < loaded(s, stored, now).len() ==> (#[trigger] loaded(s, stored, now)[i]).3 > now,
    decreases stored.len(),
{
    if stored.len() > 0 {
        let next = if stored[0].3 > now {
            kept_insert(s, stored[0])
        } else {
            s
        };
        if stored[0].3 > now {
            lemma_insert_keeps_live(s, stored[0], now);
        }
        lemma_loaded_live(next, stored.drop_first(), now);
        assert(loaded(s, stored, now) == loaded(next, stored.drop_first(), now));
    } else {
        assert(loaded(s, stored, now) == s);
    }
}

proof fn lemma_insert_keeps_live(s: Seq<KeptView>, k: KeptView, now: u64)
    requires
        forall|i: int| 0 <= i < s.len() ==> (#[trigger] s[i]).3 > now,
        k.3 > now,
    ensures
        forall|i: int| 0 <= i < kept_insert(s, k).len() ==> (#[trigger] kept_insert(s, k)[i]).3 > now,
    decreases s.len(),
{
    let r = kept_insert(s, k);
    if s.len() == 0 {
    } else if s[0].0 == k.0 && s[0].1 == k.1 {
        assert forall|i: int| 0 <= i < r.len() implies (#[trigger] r[i]).3 > now by {
            if i > 0 {
                assert(r[i] == s[i]);
            }
        }
    } else if key_lt(k, s[0]) {
        assert forall|i: int| 0 <= i < r.len() implies (#[trigger] r[i]).3 > now by {
            if i > 0 {
                assert(r[i] == s[i - 1]);
            }
        }
    } else {
        assert forall|i: int| 0 <= i < s.drop_first().len() implies (#[trigger] s.drop_first()[i]).3 > now by {
            assert(s.drop_first()[i] == s[i + 1]);
        }
        lemma_insert_keeps_live(s.drop_first(), k, now);
        let t = kept_insert(s.drop_first(), k);
        assert forall|i: int| 0 <= i < r.len() implies (#[trigger] r[i]).3 > now by {
            if i > 0 {
                assert(r[i] == t[i - 1]);
            }
        }
    }
}

proof fn lemma_insert_prefix(s: Seq<KeptView>, k: KeptView, i: int)
    requires
        0 <= i <= s.len(),
        forall|j: int| 0 <= j < i ==> !(s[j].0 == k.0 && s[j].1 == k.1) && !key_lt(k, #[trigger] s[j]),
    ensures
        kept_insert(s, k) == s.take(i) + kept_insert(s.skip(i), k),
    decreases i,
{
    if i > 0 {
        lemma_insert_prefix(s.drop_first(), k, i - 1);
        assert(s.drop_first().take(i - 1) =~= s.take(i).drop_first());
        assert(s.drop_first().skip(i - 1) =~= s.skip(i));
        assert(s.take(i) =~= seq![s[0]] + s.drop_first().take(i - 1));
    } else {
        assert(s.take(0) =~= Seq::<KeptView>::empty());
        assert(s.skip(0) =~= s);
    }
}

/// Whether `(h1, n1)` is before, the same as, or after `(h2, n2)`.
fn key_compare(h1: &Vec<char>, n1: &Vec<char>, h2: &Vec<char>, n2: &Vec<char>) -> (r: i8)
    ensures
        r == 0 <==> (h1@ == h2@ && n1@ == n2@),
        r < 0 <==> key_lt((h1@, n1@, seq![], 0), (h2@, n2@, seq![], 0)),
        r > 0 <==> key_lt((h2@, n2@, seq![], 0), (h1@, n1@, seq![], 0)),
{
    proof {
        text::lemma_lex_irreflexive(h1@);
        text::lemma_lex_irreflexive(n1@);
    }
    let c = compare(h1, h2);
    if c != 0 {
        proof {
            if c < 0 {
                if text::lex_lt(h2@, h1@) {
                    text::lemma_lex_transitive(h1@, h2@, h1@);
                }
            } else {
                if text::lex_lt(h1@, h2@) {
                    text::lemma_lex_transitive(h1@, h2@, h1@);
                }
            }
        }
        return c;
    }
    compare(n1, n2)
}

/// The kept cookies, one per host and name, in that order.
pub struct KeptCookies {
    entries: Vec<Kept>,
}

impl View for KeptCookies {
    type V = Seq<KeptView>;

    closed spec fn view(&self) -> Seq<KeptView> {
        self.entries@.map_values(|k: Kept| kept_view(k))
    }
}

impl KeptCookies {
    #[verifier::type_invariant]
    closed spec fn wf(self) -> bool {
        in_key_order(self@)
    }

    pub fn new() -> (m: KeptCookies)
        ensures
            m@ == Seq::<KeptView>::empty(),
    {
        let m = KeptCookies { entries: Vec::new() };
        assert(m@ =~= Seq::<KeptView>::empty());
        m
    }

    pub fn len(&self) -> (n: usize)
        ensures
            n == self@.len(),
    {
        self.entries.len()
    }

    /// Keep `k`, in place of any with its host and name.
    pub fn insert(&mut self, k: Kept)
        ensures
            final(self)@ == kept_insert(old(self)@, kept_view(k)),
    {
        proof {
            use_type_invariant(&*self);
        }
        let ghost before = self@;
        let ghost kv = kept_view(k);
        let mut entries: Vec<Kept> = Vec::new();
        std::mem::swap(&mut entries, &mut self.entries);
        assert(entries@.map_values(|e: Kept| kept_view(e)) == before);
        let host = chars_of(k.host.as_str());
        let name = chars_of(k.name.as_str());
        let n = entries.len();
        let mut i: usize = 0;
        while i < n
            invariant
                n == entries.len(),
                i <= n,
                host@ == kv.0,
                name@ == kv.1,
                kv == kept_view(k),
                entries@.map_values(|e: Kept| kept_view(e)) == before,
                in_key_order(before),
                before == old(self)@,
                forall|j: int|
                    0 <= j < i ==> !(before[j].0 == kv.0 && before[j].1 == kv.1) && !key_lt(kv, #[trigger] before[j]),
            decreases n - i,
        {
            let h = chars_of(entries[i].host.as_str());
            let m = chars_of(entries[i].name.as_str());
            let c = key_compare(&host, &name, &h, &m);
            assert(before[i as int] == kept_view(entries@[i as int]));
            if c <= 0 {
                proof {
                    lemma_insert_prefix(before, kv, i as int);
                    assert(before.skip(i as int)[0] == before[i as int]);
                    assert(before.skip(i as int).drop_first() =~= before.skip(i + 1));
                }
                if c == 0 {
                    entries.set(i, k);
                } else {
                    entries.insert(i, k);
                }
                proof {
                    assert(entries@.map_values(|e: Kept| kept_view(e)) =~= before.take(i as int)
                        + kept_insert(before.skip(i as int), kv));
                    lemma_insert_ordered(before, kv);
                }
                self.entries = entries;
                return;
            }
            i += 1;
        }
        proof {
            lemma_insert_prefix(before, kv, n as int);
            assert(before.skip(n as int).len() == 0);
        }
        entries.push(k);
        proof {
            assert(entries@.map_values(|e: Kept| kept_view(e)) =~= before.take(n as int) + kept_insert(
                before.skip(n as int),
                kv,
            ));
            lemma_insert_ordered(before, kv);
        }
        self.entries = entries;
    }

    /// A cookie a response set at `now`: kept when the rule keeps its name
    /// and it has an expiry, in place of any with its host and name.
    pub fn remember(
        &mut self,
        keep: bool,
        host: String,
        name: String,
        value: String,
        expires: Option<u64>,
        max_age: Option<u64>,
        now: u64,
    )
        requires
            expires is None && max_age is Some ==> now + max_age.unwrap() <= u64::MAX,
        ensures
            final(self)@ == (match expiry_of(expires, max_age, now) {
                Some(at) => if keep {
                    kept_insert(old(self)@, (host@, name@, value@, at))
                } else {
                    old(self)@
                },
                None => old(self)@,
            }),
    {
        if !keep {
            return;
        }
        let at = match (expires, max_age) {
            (Some(at), _) => at,
            (None, Some(age)) => now + age,
            (None, None) => return,
        };
        self.insert(Kept { host, name, value, expires_at: at });
    }

    /// What a store held, loaded at `now`: the cookies still live, a later
    /// one replacing an earlier with its host and name.
    pub fn from_stored(stored: Vec<Kept>, now: u64) -> (m: KeptCookies)
        ensures
            m@ == loaded(Seq::<KeptView>::empty(), stored@.map_values(|k: Kept| kept_view(k)), now),
    {
        let ghost all = stored@.map_values(|k: Kept| kept_view(k));
        let mut m = KeptCookies::new();
        let mut stored = stored;
        let n = stored.len();
        let mut i: usize = 0;
        assert(all.skip(0) =~= all);
        while i < n
            invariant
                n == all.len(),
                i <= n,
                stored@.map_values(|k: Kept| kept_view(k)) == all.skip(i as int),
                loaded(Seq::<KeptView>::empty(), all, now) == loaded(m@, all.skip(i as int), now),
            decreases n - i,
        {
            assert(stored@.len() == n - i);
            let k = stored.remove(0);
            assert(kept_view(k) == all.skip(i as int)[0]);
            assert(all.skip(i as int).drop_first() =~= all.skip(i + 1));
            assert(stored@.map_values(|k: Kept| kept_view(k)) =~= all.skip(i + 1));
            if k.expires_at > now {
                m.insert(k);
            }
            i += 1;
        }
        assert(all.skip(n as int).len() == 0);
        m
    }

    /// The cookies still live at `now`, in order, for writing to the store.
    pub fn live(&self, now: u64) -> (r: Vec<Kept>)
        ensures
            in_key_order(self@),
            r@.map_values(|k: Kept| kept_view(k)) == live_at(self@, now),
    {
        proof {
            use_type_invariant(self);
        }
        let ghost s = self@;
        let mut out: Vec<Kept> = Vec::new();
        let n = self.entries.len();
        let mut i: usize = 0;
        while i < n
            invariant
                n == self.entries.len(),
                s == self@,
                s == self.entries@.map_values(|k: Kept| kept_view(k)),
                i <= n,
                out@.map_values(|k: Kept| kept_view(k)) == live_at(s.take(i as int), now),
            decreases n - i,
        {
            let e = &self.entries[i];
            assert(s.take(i + 1) =~= s.take(i as int).push(kept_view(*e)));
            proof {
                s.take(i as int).lemma_filter_push(kept_view(*e), |k: KeptView| k.3 > now);
            }
            if e.expires_at > now {
                out.push(Kept {
                    host: e.host.clone(),
                    name: e.name.clone(),
                    value: e.value.clone(),
                    expires_at: e.expires_at,
                });
                assert(out@.map_values(|k: Kept| kept_view(k)) =~= live_at(s.take(i as int), now).push(
                    kept_view(*e),
                ));
            }
            i += 1;
        }
        assert(s.take(n as int) =~= s);
        out
    }

    /// The current value of a kept cookie by name, whichever host set it:
    /// how a token that arrives as a `Set-Cookie` is read back.
    pub fn get(&self, name: &str) -> (r: Option<String>)
        ensures
            r.deep_view() == first_named(self@, name@),
    {
        let ghost s = self@;
        let n = self.entries.len();
        let mut i: usize = 0;
        assert(s.skip(0) =~= s);
        while i < n
            invariant
                n == self.entries.len(),
                s == self@,
                s == self.entries@.map_values(|k: Kept| kept_view(k)),
                i <= n,
                first_named(s, name@) == first_named(s.skip(i as int), name@),
            decreases n - i,
        {
            assert(s.skip(i as int)[0] == kept_view(self.entries@[i as int]));
            assert(s.skip(i as int).drop_first() =~= s.skip(i + 1));
            if text::eq_str(self.entries[i].name.as_str(), name) {
                return Some(self.entries[i].value.clone());
            }
            i += 1;
        }
        None
    }
}

} // verus!
