//! The fingerprint's input determines the image's inputs: its fields are
//! delimited so that no two different configurations give the same text.
use vstd::prelude::*;
use vstd::seq_lib::group_to_multiset_ensures;

use crate::image::{field, field_body, field_char, image_input, package_fields, tool_field_list, tool_fields};
use crate::text::joined;
use crate::order::{lemma_lex_total, lex_order};

verus! {

proof fn lemma_body_front(s: Seq<char>)
    requires
        s.len() > 0,
    ensures
        field_body(s) == field_char(s[0]) + field_body(s.drop_first()),
    decreases s.len(),
{
    if s.len() == 1 {
        assert(s.drop_first() =~= Seq::<char>::empty());
        assert(s.drop_last() =~= Seq::<char>::empty());
        assert(field_body(s) =~= field_char(s[0]) + field_body(s.drop_first()));
    } else {
        lemma_body_front(s.drop_last());
        assert(s.drop_last().drop_first() =~= s.drop_first().drop_last());
        assert(s.drop_first().last() == s.last());
        assert(field_body(s) =~= field_char(s[0]) + field_body(s.drop_first()));
    }
}

proof fn lemma_body_unique(a: Seq<char>, b: Seq<char>, r1: Seq<char>, r2: Seq<char>)
    requires
        field_body(a) + seq![';'] + r1 == field_body(b) + seq![';'] + r2,
    ensures
        a == b,
        r1 == r2,
    decreases a.len(),
{
    let l = field_body(a) + seq![';'] + r1;
    let m = field_body(b) + seq![';'] + r2;
    if a.len() == 0 {
        assert(field_body(a) =~= Seq::<char>::empty());
        assert(l[0] == ';');
        if b.len() > 0 {
            lemma_body_front(b);
            assert(m[0] == field_char(b[0])[0]);
        } else {
            assert(field_body(b) =~= Seq::<char>::empty());
            assert(r1 =~= l.drop_first());
            assert(r2 =~= m.drop_first());
        }
    } else if b.len() == 0 {
        assert(field_body(b) =~= Seq::<char>::empty());
        assert(m[0] == ';');
        lemma_body_front(a);
        assert(l[0] == field_char(a[0])[0]);
    } else {
        lemma_body_front(a);
        lemma_body_front(b);
        let ca = field_char(a[0]);
        let cb = field_char(b[0]);
        let ra = field_body(a.drop_first()) + seq![';'] + r1;
        let rb = field_body(b.drop_first()) + seq![';'] + r2;
        assert(l =~= ca + ra);
        assert(m =~= cb + rb);
        assert(l[0] == ca[0]);
        assert(m[0] == cb[0]);
        if ca.len() == 2 {
            assert(l[1] == ca[1]);
            assert(m[1] == cb[1]);
        }
        assert(ca == cb);
        assert(a[0] == b[0]);
        assert(ra =~= l.subrange(ca.len() as int, l.len() as int));
        assert(rb =~= m.subrange(cb.len() as int, m.len() as int));
        lemma_body_unique(a.drop_first(), b.drop_first(), r1, r2);
        assert(a =~= seq![a[0]] + a.drop_first());
        assert(b =~= seq![b[0]] + b.drop_first());
    }
}

/// A field and what follows it can be told apart.
proof fn lemma_field_unique(t1: char, a: Seq<char>, r1: Seq<char>, t2: char, b: Seq<char>, r2: Seq<char>)
    requires
        field(t1, a) + r1 == field(t2, b) + r2,
    ensures
        t1 == t2,
        a == b,
        r1 == r2,
{
    let l = field(t1, a) + r1;
    assert(l[0] == t1);
    assert((field(t2, b) + r2)[0] == t2);
    assert(l.drop_first() =~= field_body(a) + seq![';'] + r1);
    assert((field(t2, b) + r2).drop_first() =~= field_body(b) + seq![';'] + r2);
    lemma_body_unique(a, b, r1, r2);
}

proof fn lemma_joined_front(s: Seq<Seq<char>>)
    requires
        s.len() > 0,
    ensures
        joined(s) == s[0] + joined(s.drop_first()),
    decreases s.len(),
{
    if s.len() == 1 {
        assert(s.drop_first() =~= Seq::<Seq<char>>::empty());
        assert(s.drop_last() =~= Seq::<Seq<char>>::empty());
        assert(joined(s) =~= s[0] + joined(s.drop_first()));
    } else {
        lemma_joined_front(s.drop_last());
        assert(s.drop_last().drop_first() =~= s.drop_first().drop_last());
        assert(s.drop_first().last() == s.last());
        assert(joined(s) =~= s[0] + joined(s.drop_first()));
    }
}

/// Every element of `s` is a field tagged `tag`.
pub open spec fn all_fields(s: Seq<Seq<char>>, tag: char) -> bool {
    forall|i: int| 0 <= i < s.len() ==> is_field(#[trigger] s[i], tag)
}

/// Whether `x` is a field tagged `tag`.
pub open spec fn is_field(x: Seq<char>, tag: char) -> bool {
    exists|q: Seq<char>| x == field(tag, q)
}

/// Every element of `s` is the pair of fields of a runtime tool.
pub open spec fn all_tools(s: Seq<Seq<char>>) -> bool {
    forall|i: int| 0 <= i < s.len() ==> is_tool(#[trigger] s[i])
}

/// Whether `x` is the pair of fields of a runtime tool.
pub open spec fn is_tool(x: Seq<char>) -> bool {
    exists|t: (Seq<char>, Seq<char>)| x == tool_fields(t)
}

/// Whether `x` is empty or does not begin with `c`.
pub open spec fn not_led_by(x: Seq<char>, c: char) -> bool {
    x.len() == 0 || x[0] != c
}

proof fn lemma_packages_unique(l1: Seq<Seq<char>>, x1: Seq<char>, l2: Seq<Seq<char>>, x2: Seq<char>)
    requires
        all_fields(l1, 'p'),
        all_fields(l2, 'p'),
        joined(l1) + x1 == joined(l2) + x2,
        not_led_by(x1, 'p'),
        not_led_by(x2, 'p'),
    ensures
        l1 == l2,
        x1 == x2,
    decreases l1.len(),
{
    if l1.len() == 0 {
        assert(joined(l1) =~= Seq::<char>::empty());
        if l2.len() > 0 {
            lemma_joined_front(l2);
            let q = choose|q: Seq<char>| l2[0] == field('p', q);
            assert((joined(l2) + x2)[0] == 'p');
            assert((joined(l1) + x1) =~= x1);
        } else {
            assert(joined(l2) =~= Seq::<char>::empty());
            assert(x1 =~= joined(l1) + x1);
            assert(x2 =~= joined(l2) + x2);
            assert(l1 =~= l2);
        }
    } else if l2.len() == 0 {
        assert(joined(l2) =~= Seq::<char>::empty());
        lemma_joined_front(l1);
        let q = choose|q: Seq<char>| l1[0] == field('p', q);
        assert((joined(l1) + x1)[0] == 'p');
        assert((joined(l2) + x2) =~= x2);
    } else {
        lemma_joined_front(l1);
        lemma_joined_front(l2);
        let q1 = choose|q: Seq<char>| l1[0] == field('p', q);
        let q2 = choose|q: Seq<char>| l2[0] == field('p', q);
        let r1 = joined(l1.drop_first()) + x1;
        let r2 = joined(l2.drop_first()) + x2;
        assert(joined(l1) + x1 =~= field('p', q1) + r1);
        assert(joined(l2) + x2 =~= field('p', q2) + r2);
        lemma_field_unique('p', q1, r1, 'p', q2, r2);
        assert forall|i: int| 0 <= i < l1.drop_first().len() implies is_field(#[trigger] l1.drop_first()[i], 'p') by {
            assert(l1.drop_first()[i] == l1[i + 1]);
        }
        assert forall|i: int| 0 <= i < l2.drop_first().len() implies is_field(#[trigger] l2.drop_first()[i], 'p') by {
            assert(l2.drop_first()[i] == l2[i + 1]);
        }
        lemma_packages_unique(l1.drop_first(), x1, l2.drop_first(), x2);
        assert(l1 =~= seq![l1[0]] + l1.drop_first());
        assert(l2 =~= seq![l2[0]] + l2.drop_first());
    }
}

proof fn lemma_tools_unique(l1: Seq<Seq<char>>, x1: Seq<char>, l2: Seq<Seq<char>>, x2: Seq<char>)
    requires
        all_tools(l1),
        all_tools(l2),
        joined(l1) + x1 == joined(l2) + x2,
        not_led_by(x1, 't'),
        not_led_by(x2, 't'),
    ensures
        l1 == l2,
        x1 == x2,
    decreases l1.len(),
{
    if l1.len() == 0 {
        assert(joined(l1) =~= Seq::<char>::empty());
        if l2.len() > 0 {
            lemma_joined_front(l2);
            let t = choose|t: (Seq<char>, Seq<char>)| l2[0] == tool_fields(t);
            assert((joined(l2) + x2)[0] == 't');
            assert((joined(l1) + x1) =~= x1);
        } else {
            assert(joined(l2) =~= Seq::<char>::empty());
            assert(x1 =~= joined(l1) + x1);
            assert(x2 =~= joined(l2) + x2);
            assert(l1 =~= l2);
        }
    } else if l2.len() == 0 {
        assert(joined(l2) =~= Seq::<char>::empty());
        lemma_joined_front(l1);
        let t = choose|t: (Seq<char>, Seq<char>)| l1[0] == tool_fields(t);
        assert((joined(l1) + x1)[0] == 't');
        assert((joined(l2) + x2) =~= x2);
    } else {
        lemma_joined_front(l1);
        lemma_joined_front(l2);
        let t1 = choose|t: (Seq<char>, Seq<char>)| l1[0] == tool_fields(t);
        let t2 = choose|t: (Seq<char>, Seq<char>)| l2[0] == tool_fields(t);
        let r1 = joined(l1.drop_first()) + x1;
        let r2 = joined(l2.drop_first()) + x2;
        assert(joined(l1) + x1 =~= field('t', t1.0) + (field('v', t1.1) + r1));
        assert(joined(l2) + x2 =~= field('t', t2.0) + (field('v', t2.1) + r2));
        lemma_field_unique('t', t1.0, field('v', t1.1) + r1, 't', t2.0, field('v', t2.1) + r2);
        lemma_field_unique('v', t1.1, r1, 'v', t2.1, r2);
        assert forall|i: int| 0 <= i < l1.drop_first().len() implies is_tool(#[trigger] l1.drop_first()[i]) by {
            assert(l1.drop_first()[i] == l1[i + 1]);
        }
        assert forall|i: int| 0 <= i < l2.drop_first().len() implies is_tool(#[trigger] l2.drop_first()[i]) by {
            assert(l2.drop_first()[i] == l2[i + 1]);
        }
        lemma_tools_unique(l1.drop_first(), x1, l2.drop_first(), x2);
        assert(l1 =~= seq![l1[0]] + l1.drop_first());
        assert(l2 =~= seq![l2[0]] + l2.drop_first());
    }
}

/// Lists whose images under an injective `f` have the same elements have
/// the same elements.
proof fn lemma_unmap_multiset<A, B>(s1: Seq<A>, s2: Seq<A>, f: spec_fn(A) -> B)
    requires
        forall|x: A, y: A| #[trigger] f(x) == #[trigger] f(y) ==> x == y,
        s1.map_values(f).to_multiset() == s2.map_values(f).to_multiset(),
    ensures
        s1.to_multiset() == s2.to_multiset(),
    decreases s1.len(),
{
    broadcast use group_to_multiset_ensures;
    broadcast use vstd::seq_lib::to_multiset_remove, vstd::seq_lib::to_multiset_insert;

    let m1 = s1.map_values(f);
    let m2 = s2.map_values(f);
    if s1.len() == 0 {
        vstd::seq_lib::to_multiset_len(m1);
        vstd::seq_lib::to_multiset_len(m2);
        assert(s2.len() == 0);
        assert(s1 =~= s2);
    } else {
        let x = s1.last();
        assert(m1 =~= s1.drop_last().map_values(f).push(f(x)));
        assert(m1.to_multiset().contains(f(x)));
        assert(m2.contains(f(x)));
        let j = choose|j: int| 0 <= j < m2.len() && m2[j] == f(x);
        assert(f(s2[j]) == f(x));
        assert(s2[j] == x);
        let s2r = s2.remove(j);
        assert(s2r.map_values(f) =~= m2.remove(j));
        vstd::seq_lib::to_multiset_remove(m2, j);
        assert(s1.drop_last().map_values(f).to_multiset() =~= m1.to_multiset().remove(f(x)));
        lemma_unmap_multiset(s1.drop_last(), s2r, f);
        assert(s2 =~= s2r.insert(j, x));
        vstd::seq_lib::to_multiset_insert(s2r, j, x);
        assert(s1 =~= s1.drop_last().push(x));
    }
}

proof fn lemma_field_injective(tag: char)
    ensures
        forall|x: Seq<char>, y: Seq<char>| #[trigger] field(tag, x) == #[trigger] field(tag, y) ==> x == y,
{
    assert forall|x: Seq<char>, y: Seq<char>| #[trigger] field(tag, x) == #[trigger] field(tag, y) implies x == y by {
        assert(field(tag, x) + Seq::<char>::empty() =~= field(tag, x));
        assert(field(tag, y) + Seq::<char>::empty() =~= field(tag, y));
        lemma_field_unique(tag, x, Seq::<char>::empty(), tag, y, Seq::<char>::empty());
    }
}

proof fn lemma_tool_fields_injective()
    ensures
        forall|x: (Seq<char>, Seq<char>), y: (Seq<char>, Seq<char>)| #[trigger] tool_fields(x)
            == #[trigger] tool_fields(y) ==> x == y,
{
    assert forall|x: (Seq<char>, Seq<char>), y: (Seq<char>, Seq<char>)| #[trigger] tool_fields(x)
        == #[trigger] tool_fields(y) implies x == y by {
        assert(tool_fields(x) + Seq::<char>::empty() =~= field('t', x.0) + (field('v', x.1) + Seq::<char>::empty()));
        assert(tool_fields(y) + Seq::<char>::empty() =~= field('t', y.0) + (field('v', y.1) + Seq::<char>::empty()));
        lemma_field_unique('t', x.0, field('v', x.1) + Seq::<char>::empty(), 't', y.0, field('v', y.1) + Seq::<char>::empty());
        lemma_field_unique('v', x.1, Seq::<char>::empty(), 'v', y.1, Seq::<char>::empty());
    }
}

/// The user's field, if there is a user.
pub open spec fn user_field(u: Option<Seq<char>>) -> Seq<char> {
    match u {
        Some(n) => field('u', n),
        None => Seq::<char>::empty(),
    }
}

proof fn lemma_sorted_packages(p: Seq<Seq<char>>)
    ensures
        all_fields(package_fields(p).sort_by(lex_order()), 'p'),
        package_fields(p).sort_by(lex_order()).to_multiset() == package_fields(p).to_multiset(),
{
    broadcast use group_to_multiset_ensures;

    lemma_lex_total();
    let pf = package_fields(p);
    let sp = pf.sort_by(lex_order());
    pf.lemma_sort_by_ensures(lex_order());
    assert forall|i: int| 0 <= i < sp.len() implies is_field(#[trigger] sp[i], 'p') by {
        assert(sp.contains(sp[i]));
        assert(sp.to_multiset().count(sp[i]) > 0);
        assert(pf.contains(sp[i]));
        let j = choose|j: int| 0 <= j < pf.len() && pf[j] == sp[i];
        assert(sp[i] == field('p', p[j]));
    }
}

proof fn lemma_sorted_tools(t: Seq<(Seq<char>, Seq<char>)>)
    ensures
        all_tools(tool_field_list(t).sort_by(lex_order())),
        tool_field_list(t).sort_by(lex_order()).to_multiset() == tool_field_list(t).to_multiset(),
{
    broadcast use group_to_multiset_ensures;

    lemma_lex_total();
    let tf = tool_field_list(t);
    let st = tf.sort_by(lex_order());
    tf.lemma_sort_by_ensures(lex_order());
    assert forall|i: int| 0 <= i < st.len() implies is_tool(#[trigger] st[i]) by {
        assert(st.contains(st[i]));
        assert(st.to_multiset().count(st[i]) > 0);
        assert(tf.contains(st[i]));
        let j = choose|j: int| 0 <= j < tf.len() && tf[j] == st[i];
        assert(st[i] == tool_fields(t[j]));
    }
}

proof fn lemma_tools_then_user(t: Seq<(Seq<char>, Seq<char>)>, u: Option<Seq<char>>)
    ensures
        not_led_by(joined(tool_field_list(t).sort_by(lex_order())) + user_field(u), 'p'),
        not_led_by(user_field(u), 't'),
{
    let st = tool_field_list(t).sort_by(lex_order());
    lemma_sorted_tools(t);
    if st.len() > 0 {
        lemma_joined_front(st);
        let x = choose|x: (Seq<char>, Seq<char>)| st[0] == tool_fields(x);
        assert((joined(st) + user_field(u))[0] == 't');
    } else {
        assert(joined(st) =~= Seq::<char>::empty());
        assert(joined(st) + user_field(u) =~= user_field(u));
    }
}

/// The text that is hashed determines the configuration: two inputs that
/// give the same text have the same base version, the same user, and the
/// same packages and runtime tools up to order. A fingerprint therefore
/// changes with each of them, as far as SHA-256 has no collisions.
pub proof fn lemma_image_input_determines(
    base1: Seq<char>,
    packages1: Seq<Seq<char>>,
    tools1: Seq<(Seq<char>, Seq<char>)>,
    user1: Option<Seq<char>>,
    base2: Seq<char>,
    packages2: Seq<Seq<char>>,
    tools2: Seq<(Seq<char>, Seq<char>)>,
    user2: Option<Seq<char>>,
)
    requires
        image_input(base1, packages1, tools1, user1) == image_input(base2, packages2, tools2, user2),
    ensures
        base1 == base2,
        user1 == user2,
        packages1.to_multiset() == packages2.to_multiset(),
        tools1.to_multiset() == tools2.to_multiset(),
{
    let sp1 = package_fields(packages1).sort_by(lex_order());
    let sp2 = package_fields(packages2).sort_by(lex_order());
    let st1 = tool_field_list(tools1).sort_by(lex_order());
    let st2 = tool_field_list(tools2).sort_by(lex_order());
    let uf1 = user_field(user1);
    let uf2 = user_field(user2);
    lemma_sorted_packages(packages1);
    lemma_sorted_packages(packages2);
    lemma_sorted_tools(tools1);
    lemma_sorted_tools(tools2);
    let rest1 = joined(sp1) + (joined(st1) + uf1);
    let rest2 = joined(sp2) + (joined(st2) + uf2);
    assert(image_input(base1, packages1, tools1, user1) =~= field('b', base1) + rest1);
    assert(image_input(base2, packages2, tools2, user2) =~= field('b', base2) + rest2);
    lemma_field_unique('b', base1, rest1, 'b', base2, rest2);
    lemma_tools_then_user(tools1, user1);
    lemma_tools_then_user(tools2, user2);
    lemma_packages_unique(sp1, joined(st1) + uf1, sp2, joined(st2) + uf2);
    lemma_tools_unique(st1, uf1, st2, uf2);
    match user1 {
        Some(a) => match user2 {
            Some(b) => {
                assert(field('u', a) + Seq::<char>::empty() =~= field('u', a));
                assert(field('u', b) + Seq::<char>::empty() =~= field('u', b));
                lemma_field_unique('u', a, Seq::<char>::empty(), 'u', b, Seq::<char>::empty());
            },
            None => {
                assert(uf1.len() > 0);
            },
        },
        None => match user2 {
            Some(b) => {
                assert(uf2.len() > 0);
            },
            None => {},
        },
    }
    lemma_field_injective('p');
    lemma_unmap_multiset(packages1, packages2, |p: Seq<char>| field('p', p));
    lemma_tool_fields_injective();
    lemma_unmap_multiset(tools1, tools2, |t: (Seq<char>, Seq<char>)| tool_fields(t));
}

} // verus!
