//! Content-addressed images: their fingerprint and the machine that builds
//! or reuses them.
use sha2::Digest;
use vstd::prelude::*;

use crate::config::Config;
use crate::order::{lemma_lex_total, lemma_map_multiset, lex_order, sort_strings, views};
use vstd::seq_lib::lemma_sorted_unique;
use crate::text::{chars_of, joined, push_char};

verus! {

/// SHA-256 of the UTF-8 encoding of `text`.
pub uninterp spec fn sha256_of(text: Seq<char>) -> Seq<u8>;

/// Relies on sha2's `Sha256::digest`: the digest of the text's UTF-8 bytes,
/// 32 bytes long (its output type is a 32-byte array).
#[verifier::external_body]
fn sha256(text: &str) -> (r: Vec<u8>)
    ensures
        r@ == sha256_of(text@),
        r@.len() == 32,
{
    sha2::Sha256::digest(text.as_bytes()).to_vec()
}

/// The lower-case hexadecimal digit for `d` (below 16).
pub open spec fn hex_digit(d: nat) -> char {
    if d < 10 {
        crate::naming::digit(d)
    } else if d == 10 {
        'a'
    } else if d == 11 {
        'b'
    } else if d == 12 {
        'c'
    } else if d == 13 {
        'd'
    } else if d == 14 {
        'e'
    } else {
        'f'
    }
}

/// Two lower-case hexadecimal digits per byte, high digit first.
pub open spec fn hex_text(b: Seq<u8>) -> Seq<char>
    decreases b.len(),
{
    if b.len() == 0 {
        Seq::<char>::empty()
    } else {
        hex_text(b.drop_last()) + seq![hex_digit((b.last() / 16) as nat), hex_digit((b.last() % 16) as nat)]
    }
}

/// Relies on hex's `encode`: each byte becomes its two lower-case
/// hexadecimal digits, high digit first.
#[verifier::external_body]
fn hex_encode(b: &Vec<u8>) -> (r: String)
    ensures
        r@ == hex_text(b@),
{
    hex::encode(b)
}

proof fn lemma_hex_len(b: Seq<u8>)
    ensures
        hex_text(b).len() == 2 * b.len(),
    decreases b.len(),
{
    if b.len() > 0 {
        lemma_hex_len(b.drop_last());
    }
}

/// A character inside a field: the backslash and the field end are escaped.
pub open spec fn field_char(c: char) -> Seq<char> {
    if c == '\\' || c == ';' {
        seq!['\\', c]
    } else {
        seq![c]
    }
}

/// `s` with its backslashes and semicolons escaped.
pub open spec fn field_body(s: Seq<char>) -> Seq<char>
    decreases s.len(),
{
    if s.len() == 0 {
        Seq::<char>::empty()
    } else {
        field_body(s.drop_last()) + field_char(s.last())
    }
}

/// A field of the fingerprint's input: a tag saying what it holds, the
/// escaped value, and an unescaped `;` that ends it.
pub open spec fn field(tag: char, s: Seq<char>) -> Seq<char> {
    seq![tag] + field_body(s) + seq![';']
}

/// The fields of one runtime tool and its version.
pub open spec fn tool_fields(t: (Seq<char>, Seq<char>)) -> Seq<char> {
    field('t', t.0) + field('v', t.1)
}

/// The field of each package.
pub open spec fn package_fields(packages: Seq<Seq<char>>) -> Seq<Seq<char>> {
    packages.map_values(|p: Seq<char>| field('p', p))
}

/// The fields of each runtime tool.
pub open spec fn tool_field_list(tools: Seq<(Seq<char>, Seq<char>)>) -> Seq<Seq<char>> {
    tools.map_values(|t: (Seq<char>, Seq<char>)| tool_fields(t))
}

/// The text that is hashed: the base version, the package fields in sorted
/// order, the tool fields in sorted order, and the user if there is one.
pub open spec fn image_input(
    base: Seq<char>,
    packages: Seq<Seq<char>>,
    tools: Seq<(Seq<char>, Seq<char>)>,
    user: Option<Seq<char>>,
) -> Seq<char> {
    field('b', base) + joined(package_fields(packages).sort_by(lex_order())) + joined(
        tool_field_list(tools).sort_by(lex_order()),
    ) + match user {
        Some(u) => field('u', u),
        None => Seq::<char>::empty(),
    }
}

/// The fingerprint of an image: hexadecimal SHA-256 of its input.
pub open spec fn fingerprint(
    base: Seq<char>,
    packages: Seq<Seq<char>>,
    tools: Seq<(Seq<char>, Seq<char>)>,
    user: Option<Seq<char>>,
) -> Seq<char> {
    hex_text(sha256_of(image_input(base, packages, tools, user)))
}

/// The runtime tools of a configuration, as views.
pub open spec fn tool_views(c: Config) -> Seq<(Seq<char>, Seq<char>)> {
    c.mise@.map_values(|t: (String, String)| (t.0@, t.1@))
}

/// The fingerprint of the image that `c` needs on `base`.
pub open spec fn config_fingerprint(c: Config, base: Seq<char>) -> Seq<char> {
    fingerprint(base, views(c.packages@), tool_views(c), crate::remote::opt_view(c.user))
}

/// Appends `field(tag, s)` to `out`.
fn push_field(out: &mut String, tag: char, s: &str)
    ensures
        final(out)@ == old(out)@ + field(tag, s@),
{
    let v = chars_of(s);
    push_char(out, tag);
    let ghost start = out@;
    let mut i: usize = 0;
    while i < v.len()
        invariant
            i <= v.len(),
            v@ == s@,
            out@ == start + field_body(v@.subrange(0, i as int)),
        decreases v.len() - i,
    {
        assert(v@.subrange(0, i + 1).drop_last() =~= v@.subrange(0, i as int));
        let c = v[i];
        if c == '\\' || c == ';' {
            push_char(out, '\\');
        }
        push_char(out, c);
        i = i + 1;
        assert(out@ =~= start + field_body(v@.subrange(0, i as int)));
    }
    assert(v@.subrange(0, v.len() as int) =~= v@);
    push_char(out, ';');
    assert(out@ =~= old(out)@ + field(tag, s@));
}

/// Appends the strings of `v` to `out`.
fn push_joined(out: &mut String, v: &Vec<String>)
    ensures
        final(out)@ == old(out)@ + joined(views(v@)),
{
    let mut i: usize = 0;
    while i < v.len()
        invariant
            i <= v.len(),
            out@ == old(out)@ + joined(views(v@).subrange(0, i as int)),
        decreases v.len() - i,
    {
        assert(views(v@).subrange(0, i + 1).drop_last() =~= views(v@).subrange(0, i as int));
        assert(views(v@)[i as int] == v@[i as int]@);
        out.append(v[i].as_str());
        i = i + 1;
        assert(out@ =~= old(out)@ + joined(views(v@).subrange(0, i as int)));
    }
    assert(views(v@).subrange(0, v.len() as int) =~= views(v@));
}

/// The fingerprint of the image that `config` needs on `base_version`.
pub fn get_image_hash(config: &Config, base_version: &str) -> (r: String)
    ensures
        r@ == config_fingerprint(*config, base_version@),
        r@.len() == 64,
{
    let mut input = String::new();
    push_field(&mut input, 'b', base_version);
    let mut pf: Vec<String> = Vec::new();
    let mut i: usize = 0;
    while i < config.packages.len()
        invariant
            i <= config.packages.len(),
            views(pf@) == package_fields(views(config.packages@).subrange(0, i as int)),
        decreases config.packages.len() - i,
    {
        let mut f = String::new();
        push_field(&mut f, 'p', config.packages[i].as_str());
        assert(views(config.packages@)[i as int] == config.packages@[i as int]@);
        let ghost prev = views(pf@);
        pf.push(f);
        assert(views(pf@) =~= prev.push(field('p', config.packages@[i as int]@)));
        i = i + 1;
        assert(views(pf@) =~= package_fields(views(config.packages@).subrange(0, i as int)));
    }
    assert(views(config.packages@).subrange(0, config.packages.len() as int) =~= views(config.packages@));
    let pf = sort_strings(pf);
    push_joined(&mut input, &pf);
    let mut tf: Vec<String> = Vec::new();
    let mut i: usize = 0;
    while i < config.mise.len()
        invariant
            i <= config.mise.len(),
            views(tf@) == tool_field_list(tool_views(*config).subrange(0, i as int)),
        decreases config.mise.len() - i,
    {
        let mut f = String::new();
        push_field(&mut f, 't', config.mise[i].0.as_str());
        push_field(&mut f, 'v', config.mise[i].1.as_str());
        assert(tool_views(*config)[i as int] == (config.mise@[i as int].0@, config.mise@[i as int].1@));
        let ghost prev = views(tf@);
        tf.push(f);
        assert(views(tf@) =~= prev.push(tool_fields(tool_views(*config)[i as int])));
        i = i + 1;
        assert(views(tf@) =~= tool_field_list(tool_views(*config).subrange(0, i as int)));
    }
    assert(tool_views(*config).subrange(0, config.mise.len() as int) =~= tool_views(*config));
    let tf = sort_strings(tf);
    push_joined(&mut input, &tf);
    match &config.user {
        Some(u) => push_field(&mut input, 'u', u.as_str()),
        None => {},
    }
    assert(input@ =~= image_input(
        base_version@,
        views(config.packages@),
        tool_views(*config),
        crate::remote::opt_view(config.user),
    ));
    let digest = sha256(input.as_str());
    proof {
        lemma_hex_len(digest@);
    }
    hex_encode(&digest)
}

/// The fingerprint does not depend on the order in which packages and
/// runtime tools are listed: lists with the same elements give the same
/// fingerprint.
pub proof fn lemma_fingerprint_order_independent(
    base: Seq<char>,
    packages1: Seq<Seq<char>>,
    packages2: Seq<Seq<char>>,
    tools1: Seq<(Seq<char>, Seq<char>)>,
    tools2: Seq<(Seq<char>, Seq<char>)>,
    user: Option<Seq<char>>,
)
    requires
        packages1.to_multiset() == packages2.to_multiset(),
        tools1.to_multiset() == tools2.to_multiset(),
    ensures
        fingerprint(base, packages1, tools1, user) == fingerprint(base, packages2, tools2, user),
{
    lemma_lex_total();
    lemma_map_multiset(packages1, packages2, |p: Seq<char>| field('p', p));
    let a1 = package_fields(packages1);
    let a2 = package_fields(packages2);
    a1.lemma_sort_by_ensures(lex_order());
    a2.lemma_sort_by_ensures(lex_order());
    lemma_sorted_unique(a1.sort_by(lex_order()), a2.sort_by(lex_order()), lex_order());
    lemma_map_multiset(tools1, tools2, |t: (Seq<char>, Seq<char>)| tool_fields(t));
    let b1 = tool_field_list(tools1);
    let b2 = tool_field_list(tools2);
    b1.lemma_sort_by_ensures(lex_order());
    b2.lemma_sort_by_ensures(lex_order());
    lemma_sorted_unique(b1.sort_by(lex_order()), b2.sort_by(lex_order()), lex_order());
    assert(image_input(base, packages1, tools1, user) == image_input(base, packages2, tools2, user));
}

} // verus!
