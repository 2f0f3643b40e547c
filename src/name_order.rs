//! Jail names sort in the order their jails were created.
use vstd::prelude::*;

use crate::jail::{jail_name_of, stamp_text, Timestamp};
use crate::naming::{digit, padded};
use crate::order::lex_le;

verus! {

/// Ten to the `w`.
pub open spec fn pow10(w: nat) -> nat
    decreases w,
{
    if w == 0 {
        1
    } else {
        10 * pow10((w - 1) as nat)
    }
}

/// `t1` comes strictly before `t2`.
pub open spec fn earlier(t1: Timestamp, t2: Timestamp) -> bool {
    if t1.year != t2.year {
        t1.year < t2.year
    } else if t1.month != t2.month {
        t1.month < t2.month
    } else if t1.day != t2.day {
        t1.day < t2.day
    } else if t1.hour != t2.hour {
        t1.hour < t2.hour
    } else if t1.minute != t2.minute {
        t1.minute < t2.minute
    } else {
        t1.second < t2.second
    }
}

proof fn lemma_concat(a: Seq<char>, b: Seq<char>, c: Seq<char>, d: Seq<char>)
    requires
        a.len() == c.len(),
    ensures
        lex_le(a + b, c + d) == if a == c {
            lex_le(b, d)
        } else {
            lex_le(a, c)
        },
    decreases a.len(),
{
    if a.len() == 0 {
        assert(a =~= c);
        assert(a + b =~= b);
        assert(c + d =~= d);
    } else {
        assert((a + b)[0] == a[0]);
        assert((c + d)[0] == c[0]);
        assert((a + b).drop_first() =~= a.drop_first() + b);
        assert((c + d).drop_first() =~= c.drop_first() + d);
        lemma_concat(a.drop_first(), b, c.drop_first(), d);
        if a[0] == c[0] {
            if a.drop_first() == c.drop_first() {
                assert(a =~= seq![a[0]] + a.drop_first());
                assert(c =~= seq![c[0]] + c.drop_first());
            } else {
                assert(a != c);
            }
        }
    }
}

/// Strictly ordered pieces of equal length, or equal pieces followed by
/// strictly ordered rests, make strictly ordered concatenations.
proof fn lemma_step(a: Seq<char>, b: Seq<char>, c: Seq<char>, d: Seq<char>)
    requires
        a.len() == c.len(),
        (a != c && lex_le(a, c)) || (a == c && lex_le(b, d) && b != d),
    ensures
        lex_le(a + b, c + d),
        a + b != c + d,
{
    lemma_concat(a, b, c, d);
    if a + b == c + d {
        assert((a + b).subrange(0, a.len() as int) =~= a);
        assert((c + d).subrange(0, c.len() as int) =~= c);
        assert((a + b).subrange(a.len() as int, (a + b).len() as int) =~= b);
        assert((c + d).subrange(c.len() as int, (c + d).len() as int) =~= d);
    }
}

proof fn lemma_padded_len(n: nat, w: nat)
    ensures
        padded(n, w).len() == w,
    decreases w,
{
    if w > 0 {
        lemma_padded_len(n / 10, (w - 1) as nat);
    }
}

proof fn lemma_padded_order(n: nat, m: nat, w: nat)
    requires
        n < m < pow10(w),
    ensures
        lex_le(padded(n, w), padded(m, w)),
        padded(n, w) != padded(m, w),
    decreases w,
{
    if w == 0 {
        assert(false);
    } else {
        let w1 = (w - 1) as nat;
        assert(pow10(w) == 10 * pow10(w1));
        assert(n / 10 <= m / 10);
        assert(m / 10 < pow10(w1));
        lemma_padded_len(n / 10, w1);
        lemma_padded_len(m / 10, w1);
        let dn = seq![digit(n % 10)];
        let dm = seq![digit(m % 10)];
        if n / 10 < m / 10 {
            lemma_padded_order(n / 10, m / 10, w1);
        } else {
            assert(n % 10 < m % 10);
            assert(digit(n % 10) < digit(m % 10));
            assert(lex_le(dn, dm)) by {
                assert(dn.drop_first() =~= Seq::<char>::empty());
            }
            assert(dn != dm) by {
                assert(dn[0] != dm[0]);
            }
        }
        lemma_step(padded(n / 10, w1), dn, padded(m / 10, w1), dm);
    }
}

proof fn lemma_padded_same(n: nat, m: nat, w: nat)
    requires
        n < pow10(w),
        m < pow10(w),
    ensures
        n == m <==> padded(n, w) == padded(m, w),
{
    if n < m {
        lemma_padded_order(n, m, w);
    } else if m < n {
        lemma_padded_order(m, n, w);
    }
}

/// Compares one fixed-width field, then what follows it.
proof fn lemma_field_then(n: nat, m: nat, w: nat, b: Seq<char>, d: Seq<char>)
    requires
        n < pow10(w),
        m < pow10(w),
        n < m || (n == m && lex_le(b, d) && b != d),
    ensures
        lex_le(padded(n, w) + b, padded(m, w) + d),
        padded(n, w) + b != padded(m, w) + d,
{
    lemma_padded_len(n, w);
    lemma_padded_len(m, w);
    if n < m {
        lemma_padded_order(n, m, w);
    }
    lemma_step(padded(n, w), b, padded(m, w), d);
}

/// Jail names sort as their creation times do: of two jails of one service
/// created at different seconds, the earlier has the lexically smaller name.
pub proof fn lemma_names_follow_time(service: Seq<char>, t1: Timestamp, t2: Timestamp)
    requires
        t1.wf(),
        t2.wf(),
        earlier(t1, t2),
    ensures
        lex_le(jail_name_of(service, t1), jail_name_of(service, t2)),
        jail_name_of(service, t1) != jail_name_of(service, t2),
{
    assert(pow10(0) == 1);
    assert(pow10(1) == 10);
    assert(pow10(2) == 100);
    assert(pow10(3) == 1000);
    assert(pow10(4) == 10000);
    let s1 = padded(t1.second as nat, 2);
    let s2 = padded(t2.second as nat, 2);
    let e = Seq::<char>::empty();
    assert(s1 + e =~= s1);
    assert(s2 + e =~= s2);
    let mi1 = padded(t1.minute as nat, 2) + s1;
    let mi2 = padded(t2.minute as nat, 2) + s2;
    let h1 = padded(t1.hour as nat, 2) + mi1;
    let h2 = padded(t2.hour as nat, 2) + mi2;
    let dash1 = seq!['-'] + h1;
    let dash2 = seq!['-'] + h2;
    let d1 = padded(t1.day as nat, 2) + dash1;
    let d2 = padded(t2.day as nat, 2) + dash2;
    let mo1 = padded(t1.month as nat, 2) + d1;
    let mo2 = padded(t2.month as nat, 2) + d2;
    let y1 = padded(t1.year as nat, 4) + mo1;
    let y2 = padded(t2.year as nat, 4) + mo2;
    let (ny1, ny2) = (t1.year as nat, t2.year as nat);
    let (nmo1, nmo2) = (t1.month as nat, t2.month as nat);
    let (nd1, nd2) = (t1.day as nat, t2.day as nat);
    let (nh1, nh2) = (t1.hour as nat, t2.hour as nat);
    let (nmi1, nmi2) = (t1.minute as nat, t2.minute as nat);
    let (ns1, ns2) = (t1.second as nat, t2.second as nat);
    if ny1 != ny2 {
        lemma_field_then(ny1, ny2, 4, mo1, mo2);
    } else if nmo1 != nmo2 {
        lemma_field_then(nmo1, nmo2, 2, d1, d2);
        lemma_field_then(ny1, ny2, 4, mo1, mo2);
    } else if nd1 != nd2 {
        lemma_field_then(nd1, nd2, 2, dash1, dash2);
        lemma_field_then(nmo1, nmo2, 2, d1, d2);
        lemma_field_then(ny1, ny2, 4, mo1, mo2);
    } else {
        assert(lex_le(h1, h2) && h1 != h2) by {
            if nh1 != nh2 {
                lemma_field_then(nh1, nh2, 2, mi1, mi2);
            } else if nmi1 != nmi2 {
                lemma_field_then(nmi1, nmi2, 2, s1, s2);
                lemma_field_then(nh1, nh2, 2, mi1, mi2);
            } else {
                lemma_field_then(ns1, ns2, 2, e, e);
                lemma_field_then(nmi1, nmi2, 2, s1, s2);
                lemma_field_then(nh1, nh2, 2, mi1, mi2);
            }
        }
        lemma_step(seq!['-'], h1, seq!['-'], h2);
        lemma_field_then(nd1, nd2, 2, dash1, dash2);
        lemma_field_then(nmo1, nmo2, 2, d1, d2);
        lemma_field_then(ny1, ny2, 4, mo1, mo2);
    }
    assert(stamp_text(t1) =~= y1);
    assert(stamp_text(t2) =~= y2);
    let p = service + seq!['-'];
    lemma_step(p, y1, p, y2);
    assert(jail_name_of(service, t1) =~= p + y1);
    assert(jail_name_of(service, t2) =~= p + y2);
}

} // verus!
