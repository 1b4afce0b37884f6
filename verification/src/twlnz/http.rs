//! Which browser this client presents as, chosen by name.
use vstd::prelude::*;

use crate::text;
use crate::text::{ascii_lower_char, chars_of, eq_str, string_of};

verus! {

/// A name with everything but ASCII letters and digits dropped, lower-cased.
pub open spec fn squashed(s: Seq<char>) -> Seq<char>
    decreases s.len(),
{
    if s.len() == 0 {
        s
    } else if text::is_ascii_alnum(s.last()) {
        squashed(s.drop_last()).push(text::ascii_lower(s.last()))
    } else {
        squashed(s.drop_last())
    }
}

/// A name as profiles are compared by: punctuation and case do not count.
pub fn squash(name: &str) -> (r: String)
    ensures
        r@ == squashed(name@),
{
    let v = chars_of(name);
    let mut out: Vec<char> = Vec::new();
    let n = v.len();
    let mut i: usize = 0;
    while i < n
        invariant
            n == v@.len(),
            i <= n,
            out@ == squashed(v@.take(i as int)),
        decreases n - i,
    {
        let c = v[i];
        assert(v@.take(i + 1).drop_last() =~= v@.take(i as int));
        if ('a' <= c && c <= 'z') || ('A' <= c && c <= 'Z') || ('0' <= c && c <= '9') {
            out.push(ascii_lower_char(c));
        }
        i += 1;
    }
    assert(v@.take(n as int) =~= v@);
    string_of(&out)
}

/// Which of the profiles, by their names, `wanted` picks.
pub fn profile_index(wanted: &str, names: &Vec<String>) -> (r: Option<usize>)
    ensures
        match r {
            Some(i) => i < names@.len() && squashed(names@[i as int]@) == squashed(wanted@) && forall|
                j: int,
            | 0 <= j < i ==> squashed(#[trigger] names@[j]@) != squashed(wanted@),
            None => forall|j: int| 0 <= j < names@.len() ==> squashed(#[trigger] names@[j]@) != squashed(wanted@),
        },
{
    let w = squash(wanted);
    let n = names.len();
    let mut i: usize = 0;
    while i < n
        invariant
            n == names@.len(),
            i <= n,
            w@ == squashed(wanted@),
            forall|j: int| 0 <= j < i ==> squashed(#[trigger] names@[j]@) != squashed(wanted@),
        decreases n - i,
    {
        let s = squash(names[i].as_str());
        if eq_str(s.as_str(), w.as_str()) {
            return Some(i);
        }
        i += 1;
    }
    None
}

} // verus!
