//! The order of strings: character by character, by code point, a prefix first.
//!
//! This is the order of Rust's `str`, whose bytes are UTF-8: comparing UTF-8 bytes
//! orders strings as comparing their code points does.
use vstd::prelude::*;
use vstd::string::StrSliceExecFns;
use crate::select::opt_view;

verus! {

/// Whether `a` comes strictly before `b`.
pub open spec fn seq_lt(a: Seq<char>, b: Seq<char>) -> bool
    decreases a.len(),
{
    if a.len() == 0 {
        b.len() > 0
    } else if b.len() == 0 {
        false
    } else if a[0] != b[0] {
        (a[0] as int) < (b[0] as int)
    } else {
        seq_lt(a.drop_first(), b.drop_first())
    }
}

pub proof fn lemma_seq_lt_irreflexive(a: Seq<char>)
    ensures
        !seq_lt(a, a),
    decreases a.len(),
{
    if a.len() > 0 {
        lemma_seq_lt_irreflexive(a.drop_first());
    }
}

pub proof fn lemma_seq_lt_asymmetric(a: Seq<char>, b: Seq<char>)
    ensures
        seq_lt(a, b) ==> !seq_lt(b, a),
    decreases a.len(),
{
    if a.len() > 0 && b.len() > 0 && a[0] == b[0] {
        lemma_seq_lt_asymmetric(a.drop_first(), b.drop_first());
    }
}

pub proof fn lemma_seq_lt_transitive(a: Seq<char>, b: Seq<char>, c: Seq<char>)
    ensures
        seq_lt(a, b) && seq_lt(b, c) ==> seq_lt(a, c),
    decreases a.len(),
{
    if a.len() > 0 && b.len() > 0 && c.len() > 0 {
        lemma_seq_lt_transitive(a.drop_first(), b.drop_first(), c.drop_first());
    }
}

pub proof fn lemma_seq_lt_total(a: Seq<char>, b: Seq<char>)
    ensures
        a == b || seq_lt(a, b) || seq_lt(b, a),
    decreases a.len(),
{
    if a.len() > 0 && b.len() > 0 {
        if a[0] == b[0] {
            lemma_seq_lt_total(a.drop_first(), b.drop_first());
            if a.drop_first() == b.drop_first() {
                assert(a =~= seq![a[0]] + a.drop_first());
                assert(b =~= seq![b[0]] + b.drop_first());
            }
        } else {
            assert((a[0] as int) != (b[0] as int));
        }
    } else if a.len() == 0 && b.len() == 0 {
        assert(a =~= b);
    }
}

proof fn lemma_seq_lt_skip(a: Seq<char>, b: Seq<char>, i: int)
    requires
        0 <= i <= a.len(),
        i <= b.len(),
        a.take(i) == b.take(i),
    ensures
        seq_lt(a, b) == seq_lt(a.skip(i), b.skip(i)),
    decreases i,
{
    if i > 0 {
        assert(a[0] == a.take(i)[0]);
        assert(b[0] == b.take(i)[0]);
        assert(a.drop_first().take(i - 1) =~= a.take(i).drop_first());
        assert(b.drop_first().take(i - 1) =~= b.take(i).drop_first());
        lemma_seq_lt_skip(a.drop_first(), b.drop_first(), i - 1);
        assert(a.drop_first().skip(i - 1) =~= a.skip(i));
        assert(b.drop_first().skip(i - 1) =~= b.skip(i));
    } else {
        assert(a.skip(0) =~= a);
        assert(b.skip(0) =~= b);
    }
}

/// Whether the text `a` is equal to the text `b`.
pub fn text_eq(a: &str, b: &str) -> (r: bool)
    ensures
        r == (a@ == b@),
{
    let n = a.unicode_len();
    let m = b.unicode_len();
    if n != m {
        return false;
    }
    let mut i: usize = 0;
    while i < n
        invariant
            i <= n,
            n == a@.len(),
            m == b@.len(),
            n == m,
            forall|j: int| 0 <= j < i ==> a@[j] == b@[j],
        decreases n - i,
    {
        if a.get_char(i) != b.get_char(i) {
            return false;
        }
        i = i + 1;
    }
    assert(a@ =~= b@);
    true
}

/// Whether the text `a` comes strictly before the text `b`.
pub fn text_lt(a: &str, b: &str) -> (r: bool)
    ensures
        r == seq_lt(a@, b@),
{
    let n = a.unicode_len();
    let m = b.unicode_len();
    let mut i: usize = 0;
    while i < n && i < m
        invariant
            i <= n,
            i <= m,
            n == a@.len(),
            m == b@.len(),
            a@.take(i as int) == b@.take(i as int),
        decreases n - i,
    {
        let x = a.get_char(i);
        let y = b.get_char(i);
        if x != y {
            proof {
                lemma_seq_lt_skip(a@, b@, i as int);
                assert(a@.skip(i as int)[0] == x);
                assert(b@.skip(i as int)[0] == y);
            }
            return (x as u32) < (y as u32);
        }
        assert(a@.take(i + 1) =~= a@.take(i as int).push(x));
        assert(b@.take(i + 1) =~= b@.take(i as int).push(y));
        i = i + 1;
    }
    proof {
        lemma_seq_lt_skip(a@, b@, i as int);
        assert(a@.skip(i as int).len() == n - i);
        assert(b@.skip(i as int).len() == m - i);
    }
    i < m && i >= n
}

/// Whether the optional text `a` comes strictly before `b`; no text comes first.
pub open spec fn opt_lt(a: Option<Seq<char>>, b: Option<Seq<char>>) -> bool {
    match (a, b) {
        (None, Some(_)) => true,
        (Some(x), Some(y)) => seq_lt(x, y),
        _ => false,
    }
}

pub fn opt_text_lt(a: &Option<String>, b: &Option<String>) -> (r: bool)
    ensures
        r == opt_lt(opt_view(*a), opt_view(*b)),
{
    match (a, b) {
        (None, Some(_)) => true,
        (Some(x), Some(y)) => text_lt(x.as_str(), y.as_str()),
        _ => false,
    }
}

/// Whether the pair `(a1, a2)` comes strictly before `(b1, b2)`, first by first element.
pub open spec fn pair_lt(a1: Seq<char>, a2: Option<Seq<char>>, b1: Seq<char>, b2: Option<Seq<char>>) -> bool {
    seq_lt(a1, b1) || (a1 == b1 && opt_lt(a2, b2))
}

pub proof fn lemma_pair_lt_order(
    a1: Seq<char>, a2: Option<Seq<char>>,
    b1: Seq<char>, b2: Option<Seq<char>>,
    c1: Seq<char>, c2: Option<Seq<char>>,
)
    ensures
        !pair_lt(a1, a2, a1, a2),
        pair_lt(a1, a2, b1, b2) ==> !pair_lt(b1, b2, a1, a2),
        pair_lt(a1, a2, b1, b2) && pair_lt(b1, b2, c1, c2) ==> pair_lt(a1, a2, c1, c2),
        (a1 == b1 && a2 == b2) || pair_lt(a1, a2, b1, b2) || pair_lt(b1, b2, a1, a2),
{
    lemma_seq_lt_irreflexive(a1);
    lemma_seq_lt_asymmetric(a1, b1);
    lemma_seq_lt_transitive(a1, b1, c1);
    lemma_seq_lt_total(a1, b1);
    match a2 { Some(x) => { lemma_seq_lt_irreflexive(x); }, None => {} }
    match (a2, b2) {
        (Some(x), Some(y)) => {
            lemma_seq_lt_asymmetric(x, y);
            lemma_seq_lt_total(x, y);
            match c2 { Some(z) => { lemma_seq_lt_transitive(x, y, z); }, None => {} }
        },
        _ => {},
    }
}

} // verus!
