//! Jails: their names, their addresses, and the machines that build and
//! remove them.
use chrono::{Datelike, Timelike};
use vstd::prelude::*;

use crate::base::base_path;
use crate::constants::BASE_DIR;
use crate::error::DeployError;
use crate::image_build::ImageInfo;
use crate::remote::{stepped, maybe_doas, must, must_run, prefix, runs, Action, Op, Outcome, Script, Step};
use crate::shell::{escape, shell_word};
use crate::teardown::{jail_path, jail_root};
use crate::text::{cat, cmd2, cmd3, cmd4, cmd5, has_prefix, starts_with};
use crate::naming::{decimal, padded, push_decimal, push_padded};
use crate::text::{chars_of, lines_of, nonblank_lines, push_char, split, split_on, string_of};

verus! {

/// Whether `v` holds a string equal to `s`.
pub fn contains_str(v: &Vec<String>, s: &str) -> (r: bool)
    ensures
        r == v@.map_values(|x: String| x@).contains(s@),
{
    let ghost vv = v@.map_values(|x: String| x@);
    let t = String::from_str(s);
    let mut i: usize = 0;
    while i < v.len()
        invariant
            i <= v.len() == vv.len(),
            vv == v@.map_values(|x: String| x@),
            t@ == s@,
            forall|k: int| 0 <= k < i ==> vv[k] != s@,
        decreases v.len() - i,
    {
        assert(vv[i as int] == v@[i as int]@);
        if v[i] == t {
            return true;
        }
        i = i + 1;
    }
    false
}

/// `split` always gives at least one piece.
pub proof fn lemma_split_len(s: Seq<char>, sep: char)
    ensures
        split(s, sep).len() >= 1,
    decreases s.len(),
{
    if s.len() > 0 {
        lemma_split_len(s.drop_last(), sep);
    }
}

/// The first three parts of the subnet's dotted address, if the subnet is
/// a /24 and its address has four parts.
pub open spec fn subnet_prefix(subnet: Seq<char>) -> Option<Seq<char>> {
    let halves = split(subnet, '/');
    let parts = split(halves[0], '.');
    if halves.len() == 2 && halves[1] == "24"@ && parts.len() == 4 {
        Some(parts[0] + seq!['.'] + parts[1] + seq!['.'] + parts[2])
    } else {
        None
    }
}

/// The address with host part `i` under `prefix`.
pub open spec fn host_address(prefix: Seq<char>, i: nat) -> Seq<char> {
    prefix + seq!['.'] + decimal(i)
}

/// Whether host part `i` is taken in the listing `used`.
pub open spec fn is_taken(prefix: Seq<char>, used: Seq<Seq<char>>, i: nat) -> bool {
    used.contains(host_address(prefix, i))
}

/// The lowest host part from `i` to 254 that is not taken.
pub open spec fn first_free(prefix: Seq<char>, used: Seq<Seq<char>>, i: nat) -> Option<nat>
    decreases 255 - i,
{
    if i > 254 {
        None
    } else if !is_taken(prefix, used, i) {
        Some(i)
    } else {
        first_free(prefix, used, i + 1)
    }
}

/// Picks the address for a new jail in a /24 subnet: under the subnet's first three parts,
/// the lowest host part from 2 to 254 that is not among the addresses
/// listed in `aliases` (one per line, as the alias interface reports them).
pub fn find_free_ip(subnet: &str, aliases: &str) -> (r: Result<String, DeployError>)
    ensures
        match subnet_prefix(subnet@) {
            None => r is Err && r->Err_0 is InvalidSubnet && r->Err_0->InvalidSubnet_0@ == subnet@,
            Some(p) => match first_free(p, nonblank_lines(aliases@), 2) {
                Some(k) => r is Ok && r->Ok_0@ == host_address(p, k),
                None => r is Err && r->Err_0 is NoAddressAvailable
                    && r->Err_0->NoAddressAvailable_0@ == subnet@,
            },
        },
{
    let halves = split_on(subnet, '/');
    proof {
        lemma_split_len(subnet@, '/');
    }
    assert(halves@.map_values(|p: String| p@)[0] == halves@[0]@);
    let parts = split_on(halves[0].as_str(), '.');
    let mask_ok = halves.len() == 2 && halves[1] == String::from_str("24");
    proof {
        if halves.len() == 2 {
            assert(halves@.map_values(|p: String| p@)[1] == halves@[1]@);
        }
    }
    if !mask_ok || parts.len() != 4 {
        return Err(DeployError::InvalidSubnet(String::from_str(subnet)));
    }
    assert(parts@.map_values(|p: String| p@)[0] == parts@[0]@);
    assert(parts@.map_values(|p: String| p@)[1] == parts@[1]@);
    assert(parts@.map_values(|p: String| p@)[2] == parts@[2]@);
    let mut prefix = parts[0].clone();
    push_char(&mut prefix, '.');
    prefix.append(parts[1].as_str());
    push_char(&mut prefix, '.');
    prefix.append(parts[2].as_str());
    let ghost p = prefix@;
    assert(subnet_prefix(subnet@) == Some(p));
    let used = lines_of(aliases);
    let ghost uv = nonblank_lines(aliases@);
    let mut i: u32 = 2;
    while i <= 254
        invariant
            2 <= i <= 255,
            prefix@ == p,
            subnet_prefix(subnet@) == Some(p),
            uv == nonblank_lines(aliases@),
            used@.map_values(|l: String| l@) == uv,
            first_free(p, uv, 2) == first_free(p, uv, i as nat),
        decreases 255 - i,
    {
        let mut candidate = prefix.clone();
        push_char(&mut candidate, '.');
        push_decimal(&mut candidate, i);
        assert(candidate@ =~= host_address(p, i as nat));
        if !contains_str(&used, candidate.as_str()) {
            return Ok(candidate);
        }
        i = i + 1;
    }
    Err(DeployError::NoAddressAvailable(String::from_str(subnet)))
}

/// A local date and time, to the second.
#[derive(Debug, Clone, Copy)]
pub struct Timestamp {
    pub year: i32,
    pub month: u32,
    pub day: u32,
    pub hour: u32,
    pub minute: u32,
    pub second: u32,
}

impl Timestamp {
    /// Fields in their calendar ranges, with a four-digit year.
    pub open spec fn wf(&self) -> bool {
        0 <= self.year <= 9999 && 1 <= self.month <= 12 && 1 <= self.day <= 31 && self.hour <= 23
            && self.minute <= 59 && self.second <= 59
    }
}

/// Relies on chrono's `Local::now` with `Datelike` and `Timelike`: the local
/// time, whose month, day, hour, minute and second chrono documents as
/// ranging over 1-12, 1-31, 0-23, 0-59 and 0-59.
#[verifier::external_body]
pub fn local_now() -> (r: Timestamp)
    ensures
        1 <= r.month <= 12,
        1 <= r.day <= 31,
        r.hour <= 23,
        r.minute <= 59,
        r.second <= 59,
{
    let now = chrono::Local::now();
    Timestamp {
        year: now.year(),
        month: now.month(),
        day: now.day(),
        hour: now.hour(),
        minute: now.minute(),
        second: now.second(),
    }
}

/// `YYYYMMDD-HHMMSS`.
pub open spec fn stamp_text(t: Timestamp) -> Seq<char> {
    padded(t.year as nat, 4) + padded(t.month as nat, 2) + padded(t.day as nat, 2) + seq!['-']
        + padded(t.hour as nat, 2) + padded(t.minute as nat, 2) + padded(t.second as nat, 2)
}

/// The name of the jail of `service` created at `t`.
pub open spec fn jail_name_of(service: Seq<char>, t: Timestamp) -> Seq<char> {
    service + seq!['-'] + stamp_text(t)
}

/// Names the jail of `service` created at `t`: `{service}-YYYYMMDD-HHMMSS`.
pub fn jail_name(service: &str, t: Timestamp) -> (r: String)
    requires
        t.wf(),
    ensures
        r@ == jail_name_of(service@, t),
{
    let mut r = String::from_str(service);
    push_char(&mut r, '-');
    push_padded(&mut r, t.year as u32, 4);
    push_padded(&mut r, t.month, 2);
    push_padded(&mut r, t.day, 2);
    push_char(&mut r, '-');
    push_padded(&mut r, t.hour, 2);
    push_padded(&mut r, t.minute, 2);
    push_padded(&mut r, t.second, 2);
    assert(r@ =~= jail_name_of(service@, t));
    r
}

/// `YYYY-MM-DD HH:MM:SS` from the last two dash-separated parts of a jail
/// name, when they have eight and six characters.
pub open spec fn creation_time(name: Seq<char>) -> Option<Seq<char>> {
    let parts = split(name, '-');
    let n = parts.len();
    if n >= 2 && parts[n - 2].len() == 8 && parts[n - 1].len() == 6 {
        let d = parts[n - 2];
        let t = parts[n - 1];
        Some(
            d.subrange(0, 4) + seq!['-'] + d.subrange(4, 6) + seq!['-'] + d.subrange(6, 8) + seq![
                ' ',
            ] + t.subrange(0, 2) + seq![':'] + t.subrange(2, 4) + seq![':'] + t.subrange(4, 6),
        )
    } else {
        None
    }
}

/// The creation time written in a jail name, for display.
pub fn parse_jail_timestamp(jail_name: &str) -> (r: Option<String>)
    ensures
        match creation_time(jail_name@) {
            None => r is None,
            Some(c) => r is Some && r->Some_0@ == c,
        },
{
    let parts = split_on(jail_name, '-');
    let n = parts.len();
    if n < 2 {
        return None;
    }
    assert(parts@.map_values(|p: String| p@)[n - 2] == parts@[n - 2]@);
    assert(parts@.map_values(|p: String| p@)[n - 1] == parts@[n - 1]@);
    let d = chars_of(parts[n - 2].as_str());
    let t = chars_of(parts[n - 1].as_str());
    if d.len() != 8 || t.len() != 6 {
        return None;
    }
    let mut r = string_of(&d, 0, 4);
    push_char(&mut r, '-');
    r.append(string_of(&d, 4, 6).as_str());
    push_char(&mut r, '-');
    r.append(string_of(&d, 6, 8).as_str());
    push_char(&mut r, ' ');
    r.append(string_of(&t, 0, 2).as_str());
    push_char(&mut r, ':');
    r.append(string_of(&t, 2, 4).as_str());
    push_char(&mut r, ':');
    r.append(string_of(&t, 4, 6).as_str());
    assert(r@ =~= creation_time(jail_name@)->Some_0);
    Some(r)
}

/// Whether `c` is a decimal digit.
pub open spec fn is_digit(c: char) -> bool {
    '0' <= c && c <= '9'
}

/// Whether `s` reads `YYYYMMDD-HHMMSS`.
pub open spec fn is_stamp(s: Seq<char>) -> bool {
    s.len() == 15 && s[8] == '-' && forall|i: int| 0 <= i < 15 && i != 8 ==> is_digit(#[trigger] s[i])
}

/// Whether `name` is the name of a jail of `service`: `{service}-YYYYMMDD-HHMMSS`.
pub open spec fn is_jail_of(name: Seq<char>, service: Seq<char>) -> bool {
    has_prefix(name, service + seq!['-']) && is_stamp(name.subrange(service.len() as int + 1, name.len() as int))
}

/// The names of `listing` (one per line) that are jails of `service`, in listed order.
pub open spec fn service_jails(listing: Seq<char>, service: Seq<char>) -> Seq<Seq<char>> {
    nonblank_lines(listing).filter(|n: Seq<char>| is_jail_of(n, service))
}

/// Executable form of `is_jail_of`.
pub fn is_service_jail(name: &str, service: &str) -> (r: bool)
    ensures
        r == is_jail_of(name@, service@),
{
    let mut p = String::from_str(service);
    push_char(&mut p, '-');
    assert(p@ =~= service@ + seq!['-']);
    if !starts_with(name, p.as_str()) {
        return false;
    }
    let v = chars_of(name);
    let k = chars_of(p.as_str()).len();
    assert(k == service@.len() + 1);
    if v.len() < k || v.len() - k != 15 {
        assert(!is_stamp(v@.subrange(k as int, v@.len() as int)));
        return false;
    }
    let ghost st = v@.subrange(k as int, v@.len() as int);
    if v[k + 8] != '-' {
        assert(st[8] == v@[k + 8]);
        return false;
    }
    let mut i: usize = 0;
    while i < 15
        invariant
            i <= 15,
            v@.len() == k + 15,
            k + 15 == v.len(),
            k == service@.len() + 1,
            v@ == name@,
            st == v@.subrange(k as int, v@.len() as int),
            forall|j: int| 0 <= j < i && j != 8 ==> is_digit(#[trigger] st[j]),
        decreases 15 - i,
    {
        if i != 8 && !('0' <= v[k + i] && v[k + i] <= '9') {
            assert(st[i as int] == v@[k + i]);
            assert(!is_digit(st[i as int]));
            return false;
        }
        assert(st[i as int] == v@[k + i]);
        i = i + 1;
    }
    true
}

/// The jails of `service` in `listing` (one name per line).
pub fn list_service_jails(listing: &str, service: &str) -> (r: Vec<String>)
    ensures
        crate::order::views(r@) == service_jails(listing@, service@),
{
    let names = lines_of(listing);
    let ghost all = nonblank_lines(listing@);
    let mut r: Vec<String> = Vec::new();
    let mut i: usize = 0;
    while i < names.len()
        invariant
            i <= names.len(),
            crate::order::views(names@) == all,
            all == nonblank_lines(listing@),
            crate::order::views(r@) == all.subrange(0, i as int).filter(|n: Seq<char>| is_jail_of(n, service@)),
        decreases names.len() - i,
    {
        proof {
            reveal(Seq::filter);
        }
        assert(all.subrange(0, i + 1).drop_last() =~= all.subrange(0, i as int));
        assert(all[i as int] == names@[i as int]@);
        let ghost prev = crate::order::views(r@);
        if is_service_jail(names[i].as_str(), service) {
            r.push(names[i].clone());
            assert(crate::order::views(r@) =~= prev.push(all[i as int]));
        }
        i = i + 1;
    }
    assert(all.subrange(0, names.len() as int) =~= all);
    r
}

/// A release without its patch level: everything before the first `-p`.
pub open spec fn without_patch(s: Seq<char>) -> Seq<char>
    decreases s.len(),
{
    if s.len() < 2 {
        s
    } else if s[0] == '-' && s[1] == 'p' {
        Seq::<char>::empty()
    } else {
        seq![s[0]] + without_patch(s.drop_first())
    }
}

/// Strips the patch level from a release (`14.1-RELEASE-p12` gives `14.1-RELEASE`).
pub fn strip_patch_level(release: &str) -> (r: String)
    ensures
        r@ == without_patch(release@),
{
    let v = chars_of(release);
    let n = v.len();
    let mut i: usize = 0;
    assert(v@.subrange(0, n as int) =~= v@);
    assert(v@.subrange(0, 0) + v@ =~= v@);
    while n > 0 && i < n - 1 && !(v[i] == '-' && v[i + 1] == 'p')
        invariant
            i <= n == v.len(),
            without_patch(v@) == v@.subrange(0, i as int) + without_patch(v@.subrange(i as int, n as int)),
        decreases n - i,
    {
        let ghost rest = v@.subrange(i as int, n as int);
        assert(rest.drop_first() =~= v@.subrange(i + 1, n as int));
        assert(v@.subrange(0, i + 1) =~= v@.subrange(0, i as int) + seq![v@[i as int]]);
        i = i + 1;
    }
    if n > 0 && i < n - 1 {
        assert(without_patch(v@.subrange(i as int, n as int)) =~= Seq::<char>::empty());
        assert(without_patch(v@) =~= v@.subrange(0, i as int));
        string_of(&v, 0, i)
    } else {
        assert(without_patch(v@.subrange(i as int, n as int)) == v@.subrange(i as int, n as int));
        assert(without_patch(v@) =~= v@);
        string_of(&v, 0, n)
    }
}

/// The address `find_free_ip` picks, if any.
pub open spec fn free_address(subnet: Seq<char>, aliases: Seq<char>) -> Option<Seq<char>> {
    match subnet_prefix(subnet) {
        None => None,
        Some(p) => match first_free(p, nonblank_lines(aliases), 2) {
            Some(k) => Some(host_address(p, k)),
            None => None,
        },
    }
}

/// A jail just created: its name, root and address.
#[derive(Debug)]
pub struct JailInfo {
    pub name: String,
    pub path: String,
    pub ip: String,
}

/// The command that lists the addresses aliased on the jails' interface.
pub open spec fn alias_query() -> Seq<char> {
    "ifconfig lo1 | grep 'inet ' | awk '{print $2}'"@
}

/// The command that aliases `ip` on the jails' interface.
pub open spec fn alias_command(ip: Seq<char>, doas: bool) -> Seq<char> {
    prefix(doas) + "ifconfig lo1 inet "@ + shell_word(ip) + "/32 alias"@
}

/// Where a jail's creation stands.
pub enum CreateStage {
    /// Waiting for the list of the base system's `usr` subtrees.
    ListUsr,
    /// Building the root filesystem.
    Building(Script),
    /// Waiting for the list of aliased addresses.
    Addressing,
    /// Waiting for the alias of the chosen address.
    Aliasing(String),
    /// Done.
    Over,
}

/// Creates a jail's root filesystem and gives it an address; the jail is
/// not started.
pub struct JailCreate {
    pub name: String,
    pub path: String,
    pub version: String,
    pub subnet: String,
    pub image: Option<ImageInfo>,
    /// The dataset that holds the jails, when they live on ZFS.
    pub jails_parent: Option<String>,
    /// Host path and jail path of each data directory.
    pub bindings: Vec<(String, String)>,
    pub doas: bool,
    pub stage: CreateStage,
}

/// The `j`th subtree of the root mounted read-only from the base system.
pub open spec fn root_layer(j: int) -> Seq<char> {
    if j == 0 {
        "bin"@
    } else if j == 1 {
        "lib"@
    } else if j == 2 {
        "libexec"@
    } else {
        "sbin"@
    }
}

/// The `j`th subtree of `usr` mounted read-only from the base system when present.
pub open spec fn usr_layer(j: int) -> Seq<char> {
    if j == 0 {
        "bin"@
    } else if j == 1 {
        "include"@
    } else if j == 2 {
        "lib"@
    } else if j == 3 {
        "lib32"@
    } else if j == 4 {
        "libdata"@
    } else if j == 5 {
        "libexec"@
    } else if j == 6 {
        "sbin"@
    } else {
        "share"@
    }
}

fn root_layer_name(i: usize) -> (r: &'static str)
    ensures
        r@ == root_layer(i as int),
{
    if i == 0 {
        "bin"
    } else if i == 1 {
        "lib"
    } else if i == 2 {
        "libexec"
    } else {
        "sbin"
    }
}

fn usr_layer_name(i: usize) -> (r: &'static str)
    ensures
        r@ == usr_layer(i as int),
{
    if i == 0 {
        "bin"
    } else if i == 1 {
        "include"
    } else if i == 2 {
        "lib"
    } else if i == 3 {
        "lib32"
    } else if i == 4 {
        "libdata"
    } else if i == 5 {
        "libexec"
    } else if i == 6 {
        "sbin"
    } else {
        "share"
    }
}

/// Whether `r` holds a step that does `x`.
pub open spec fn has_step(r: Seq<Step>, x: (bool, Option<Seq<char>>)) -> bool {
    exists|k: int| 0 <= k < r.len() && #[trigger] crate::remote::step_view(r[k]) == x
}

/// A list that begins with `s` holds every step of `s`.
proof fn lemma_keeps(s: Seq<Step>, r: Seq<Step>)
    requires
        s.len() <= r.len(),
        forall|k: int| 0 <= k < s.len() ==> r[k] == s[k],
    ensures
        forall|x: (bool, Option<Seq<char>>)| has_step(s, x) ==> #[trigger] has_step(r, x),
{
    assert forall|x: (bool, Option<Seq<char>>)| has_step(s, x) implies #[trigger] has_step(r, x) by {
        let k = choose|k: int| 0 <= k < s.len() && #[trigger] crate::remote::step_view(s[k]) == x;
        assert(crate::remote::step_view(r[k]) == x);
    }
}

/// A read-only mount of `src` at `dst`.
pub open spec fn ro_mount(src: Seq<char>, dst: Seq<char>, doas: bool) -> (bool, Option<Seq<char>>) {
    must_run(prefix(doas) + "mount_nullfs -o ro "@ + shell_word(src) + " "@ + shell_word(dst))
}

/// `p` without its leading slashes.
pub open spec fn strip_slashes(p: Seq<char>) -> Seq<char>
    decreases p.len(),
{
    if p.len() > 0 && p[0] == '/' {
        strip_slashes(p.drop_first())
    } else {
        p
    }
}

/// The read-write mount of the data directory `host` at `jail` inside the root `path`.
pub open spec fn binding_mount(path: Seq<char>, host: Seq<char>, jail: Seq<char>, doas: bool) -> (bool, Option<Seq<char>>) {
    must_run(prefix(doas) + "mount_nullfs "@ + shell_word(host) + " "@ + shell_word(path + "/"@ + strip_slashes(jail)))
}

/// What the root filesystem plan of `j` holds, given the listing of the
/// base system's `usr` subtrees: the alias interface first; the image's
/// clone where it can be cloned, else the read-only mounts of the image's
/// `/usr/local` (with an image) and of the base system's subtrees (those
/// of `usr` that the listing names); the devices; `tmp` and `var/tmp` at
/// mode 1777; and the mount of every data directory.
pub open spec fn layout_ok(j: JailCreate, usr_listing: Seq<char>, r: Seq<Step>) -> bool {
    let base = base_path(j.version@);
    &&& r.len() > 1
    &&& crate::remote::step_view(r[0]) == must_run(interface_command(j.doas))
    &&& j.clones() ==> crate::remote::step_view(r[1]) == must_run(
        clone_command(
            j.image->Some_0.dataset->Some_0@,
            crate::base::child_dataset(j.jails_parent->Some_0@, j.name@),
            j.path@,
            j.doas,
        ),
    )
    &&& (j.image is Some && !j.clones()) ==> has_step(
        r,
        ro_mount(j.image->Some_0.path@ + "/usr/local"@, j.path@ + "/usr/local"@, j.doas),
    )
    &&& !j.clones() ==> forall|l: int| 0 <= l < 4 ==> #[trigger] has_step(
        r,
        ro_mount(base + "/"@ + root_layer(l), j.path@ + "/"@ + root_layer(l), j.doas),
    )
    &&& !j.clones() ==> forall|l: int| 0 <= l < 8 && nonblank_lines(usr_listing).contains(usr_layer(l))
        ==> #[trigger] has_step(
        r,
        ro_mount(base + "/usr/"@ + usr_layer(l), j.path@ + "/usr/"@ + usr_layer(l), j.doas),
    )
    &&& has_step(r, must_run(prefix(j.doas) + "mount -t devfs devfs "@ + shell_word(j.path@ + "/dev"@)))
    &&& has_step(r, must_run(prefix(j.doas) + "chmod 1777 "@ + shell_word(j.path@ + "/tmp"@)))
    &&& has_step(r, must_run(prefix(j.doas) + "chmod 1777 "@ + shell_word(j.path@ + "/var/tmp"@)))
    &&& forall|l: int| 0 <= l < j.bindings@.len() && j.bindings@[l].0@.len() > 0 && j.bindings@[l].1@.len() > 0
        ==> #[trigger] has_step(r, binding_mount(j.path@, j.bindings@[l].0@, j.bindings@[l].1@, j.doas))
}

/// `path` without its leading slashes.
fn strip_leading_slashes(path: &str) -> (r: String)
    ensures
        r@ == strip_slashes(path@),
{
    let v = chars_of(path);
    let mut i: usize = 0;
    assert(v@.subrange(0, v.len() as int) =~= v@);
    while i < v.len() && v[i] == '/'
        invariant
            i <= v.len(),
            v@ == path@,
            strip_slashes(v@) == strip_slashes(v@.subrange(i as int, v.len() as int)),
        decreases v.len() - i,
    {
        assert(v@.subrange(i as int, v.len() as int).drop_first() =~= v@.subrange(i + 1, v.len() as int));
        i = i + 1;
    }
    string_of(&v, i, v.len())
}

/// The command that creates the jails' alias interface unless it exists.
pub open spec fn interface_command(doas: bool) -> Seq<char> {
    prefix(doas) + "ifconfig lo1 >/dev/null 2>&1 || "@ + prefix(doas) + "ifconfig lo1 create"@
}

/// The command that clones the image snapshot of dataset `image_ds` into
/// the jail dataset `jail_ds`, mounted at `path`.
pub open spec fn clone_command(image_ds: Seq<char>, jail_ds: Seq<char>, path: Seq<char>, doas: bool) -> Seq<char> {
    prefix(doas) + "zfs clone -o mountpoint="@ + shell_word(path) + " "@ + shell_word(image_ds + "@base"@)
        + (" "@ + shell_word(jail_ds))
}

impl JailCreate {
    /// Whether creation ends well after `outcome`: the chosen address has
    /// been aliased.
    pub open spec fn succeeds(&self, outcome: Outcome) -> bool {
        self.stage is Aliasing && outcome is Succeeded
    }

    /// Whether creation fails after `outcome`: a command failed, or no
    /// address is free.
    pub open spec fn fails(&self, outcome: Outcome) -> bool {
        ||| (outcome is Failed && (self.stage is ListUsr || self.stage is Addressing || self.stage is Aliasing))
        ||| (self.stage is Building && self.stage->Building_0.next_for(outcome) is Finish
            && self.stage->Building_0.next_for(outcome)->Finish_0 is Err)
        ||| (self.stage is Addressing && outcome is Succeeded && free_address(
            self.subnet@,
            outcome->Succeeded_0@,
        ) is None)
    }

    /// Whether the root is cloned from the image's snapshot: the image and
    /// the jails both live on ZFS.
    pub open spec fn clones(&self) -> bool {
        self.image is Some && self.image->Some_0.dataset is Some && self.jails_parent is Some
    }

    pub open spec fn wf(&self) -> bool {
        self.path@ == jail_path(self.name@)
    }

    /// The steps that build the root filesystem, given the `usr` subtrees
    /// that the base system has (`usr_listing`, one per line): the alias
    /// interface first, then a clone of the image where it can be cloned;
    /// otherwise copies of the writable directories and read-only mounts of
    /// the image's `/usr/local` and the base system's subtrees; then the
    /// devices, the temporary directories and the data directories.
    fn layout_steps(&self, usr_listing: &str) -> (r: Vec<Step>)
        requires
            self.wf(),
        ensures
            layout_ok(*self, usr_listing@, r@),
    {
        let doas = self.doas;
        let root = escape(self.path.as_str());
        let base = cat(BASE_DIR, "/").concat(self.version.as_str());
        let mut r: Vec<Step> = Vec::new();
        let iface = cmd2(doas, "ifconfig lo1 >/dev/null 2>&1 || ", maybe_doas("ifconfig lo1 create", doas).as_str());
        assert(iface@ =~= interface_command(doas));
        r.push(must(iface));
        let ghost first = r@[0];
        let ghost mut second = r@[0];
        let mut cloned = false;
        match &self.image {
            Some(img) => {
                match (&img.dataset, &self.jails_parent) {
                    (Some(ids), Some(jp)) => {
                        let snap = cat(ids.as_str(), "@base");
                        let target = cat(jp.as_str(), "/").concat(self.name.as_str());
                        let clone = cmd5(doas, "zfs clone -o mountpoint=", root.as_str(), " ",
                            escape(snap.as_str()).as_str(), cat(" ", escape(target.as_str()).as_str()).as_str());
                        assert(clone@ =~= clone_command(ids@, crate::base::child_dataset(jp@, self.name@), self.path@, doas));
                        r.push(must(clone));
                        proof {
                            second = r@[1];
                        }
                        cloned = true;
                    },
                    _ => {},
                }
                if !cloned {
                    r.push(must(cmd2(doas, "mkdir -p ", escape(cat(self.path.as_str(), "/usr").as_str()).as_str())));
                    let dirs: [&'static str; 4] = ["etc", "var", "root", "home"];
                    let mut i: usize = 0;
                    while i < 4
                        invariant
                            r@.len() >= 2,
                            r@[0] == first,
                            cloned == self.clones(),
                            cloned ==> r@[1] == second,
                        decreases 4 - i,
                    {
                        let src = escape(cat(img.path.as_str(), "/").concat(dirs[i]).as_str());
                        r.push(must(cmd4(doas, "cp -al ", src.as_str(), " ", cat(root.as_str(), "/").as_str())));
                        i = i + 1;
                    }
                    let local = escape(cat(self.path.as_str(), "/usr/local").as_str());
                    r.push(must(cmd2(doas, "mkdir -p ", local.as_str())));
                    let img_local = escape(cat(img.path.as_str(), "/usr/local").as_str());
                    r.push(must(cmd4(doas, "mount_nullfs -o ro ", img_local.as_str(), " ", local.as_str())));
                    assert(crate::remote::step_view(r@[r@.len() - 1]) == ro_mount(
                        img.path@ + "/usr/local"@,
                        self.path@ + "/usr/local"@,
                        doas,
                    ));
                }
            },
            None => {
                r.push(must(cmd2(doas, "mkdir -p ", root.as_str())));
                let dirs: [&'static str; 4] = ["etc", "var", "root", "tmp"];
                let mut i: usize = 0;
                while i < 4
                    invariant
                        r@.len() >= 2,
                        r@[0] == first,
                        cloned == self.clones(),
                        cloned ==> r@[1] == second,
                    decreases 4 - i,
                {
                    let src = escape(cat(base.as_str(), "/").concat(dirs[i]).as_str());
                    r.push(must(cmd4(doas, "cp -a ", src.as_str(), " ", cat(root.as_str(), "/").as_str())));
                    i = i + 1;
                }
                r.push(must(cmd2(doas, "cp /etc/resolv.conf ", escape(cat(self.path.as_str(), "/etc/").as_str()).as_str())));
                r.push(must(cmd2(doas, "mkdir -p ", escape(cat(self.path.as_str(), "/home").as_str()).as_str())));
                r.push(must(cmd2(doas, "mkdir -p ", escape(cat(self.path.as_str(), "/usr/local").as_str()).as_str())));
            },
        }
        let ghost bp = base_path(self.version@);
        assert(base@ == bp);
        let ghost s1 = r@;
        if !cloned {
            let mut i: usize = 0;
            while i < 4
                invariant
                    r@.len() >= 2,
                    r@[0] == first,
                    cloned == self.clones(),
                    !cloned,
                    base@ == bp,
                    doas == self.doas,
                    s1.len() <= r@.len(),
                    forall|k: int| 0 <= k < s1.len() ==> r@[k] == s1[k],
                    forall|l: int| 0 <= l < i ==> #[trigger] has_step(
                        r@,
                        ro_mount(bp + "/"@ + root_layer(l), self.path@ + "/"@ + root_layer(l), doas),
                    ),
                decreases 4 - i,
            {
                let d = root_layer_name(i);
                let src = escape(cat(base.as_str(), "/").concat(d).as_str());
                let dst = escape(cat(self.path.as_str(), "/").concat(d).as_str());
                let ghost prev = r@;
                r.push(must(cmd2(doas, "mkdir -p ", dst.as_str())));
                r.push(must(cmd4(doas, "mount_nullfs -o ro ", src.as_str(), " ", dst.as_str())));
                proof {
                    lemma_keeps(prev, r@);
                    assert(crate::remote::step_view(r@[r@.len() - 1]) == ro_mount(
                        bp + "/"@ + root_layer(i as int),
                        self.path@ + "/"@ + root_layer(i as int),
                        doas,
                    ));
                }
                i = i + 1;
            }
            proof {
                lemma_keeps(s1, r@);
            }
            let ghost s2 = r@;
            let present = lines_of(usr_listing);
            let mut i: usize = 0;
            while i < 8
                invariant
                    r@.len() >= 2,
                    r@[0] == first,
                    cloned == self.clones(),
                    !cloned,
                    base@ == bp,
                    doas == self.doas,
                    crate::order::views(present@) == nonblank_lines(usr_listing@),
                    s2.len() <= r@.len(),
                    forall|k: int| 0 <= k < s2.len() ==> r@[k] == s2[k],
                    forall|l: int| 0 <= l < i && nonblank_lines(usr_listing@).contains(usr_layer(l))
                        ==> #[trigger] has_step(
                        r@,
                        ro_mount(bp + "/usr/"@ + usr_layer(l), self.path@ + "/usr/"@ + usr_layer(l), doas),
                    ),
                decreases 8 - i,
            {
                let d = usr_layer_name(i);
                let ghost prev = r@;
                if contains_str(&present, d) {
                    let src = escape(cat(base.as_str(), "/usr/").concat(d).as_str());
                    let dst = escape(cat(self.path.as_str(), "/usr/").concat(d).as_str());
                    r.push(must(cmd2(doas, "mkdir -p ", dst.as_str())));
                    r.push(must(cmd4(doas, "mount_nullfs -o ro ", src.as_str(), " ", dst.as_str())));
                    proof {
                        assert(crate::remote::step_view(r@[r@.len() - 1]) == ro_mount(
                            bp + "/usr/"@ + usr_layer(i as int),
                            self.path@ + "/usr/"@ + usr_layer(i as int),
                            doas,
                        ));
                    }
                }
                proof {
                    lemma_keeps(prev, r@);
                }
                i = i + 1;
            }
            proof {
                lemma_keeps(s2, r@);
            }
        }
        let ghost s3 = r@;
        let dev = escape(cat(self.path.as_str(), "/dev").as_str());
        r.push(must(cmd2(doas, "mkdir -p ", dev.as_str())));
        r.push(must(cmd2(doas, "mount -t devfs devfs ", dev.as_str())));
        let tmp = escape(cat(self.path.as_str(), "/tmp").as_str());
        r.push(must(cmd2(doas, "mkdir -p ", tmp.as_str())));
        r.push(must(cmd2(doas, "chmod 1777 ", tmp.as_str())));
        let vtmp = escape(cat(self.path.as_str(), "/var/tmp").as_str());
        r.push(must(cmd2(doas, "mkdir -p ", vtmp.as_str())));
        r.push(must(cmd2(doas, "chmod 1777 ", vtmp.as_str())));
        proof {
            let n = r@.len();
            assert(crate::remote::step_view(r@[n - 5]) == must_run(prefix(doas) + "mount -t devfs devfs "@ + shell_word(self.path@ + "/dev"@)));
            assert(crate::remote::step_view(r@[n - 3]) == must_run(prefix(doas) + "chmod 1777 "@ + shell_word(self.path@ + "/tmp"@)));
            assert(crate::remote::step_view(r@[n - 1]) == must_run(prefix(doas) + "chmod 1777 "@ + shell_word(self.path@ + "/var/tmp"@)));
            lemma_keeps(s3, r@);
        }
        let ghost s4 = r@;
        let mut i: usize = 0;
        while i < self.bindings.len()
            invariant
                r@.len() >= 2,
                r@[0] == first,
                cloned == self.clones(),
                cloned ==> r@[1] == second,
                doas == self.doas,
                s4.len() <= r@.len(),
                forall|k: int| 0 <= k < s4.len() ==> r@[k] == s4[k],
                forall|l: int| 0 <= l < i && self.bindings@[l].0@.len() > 0 && self.bindings@[l].1@.len() > 0
                    ==> #[trigger] has_step(r@, binding_mount(self.path@, self.bindings@[l].0@, self.bindings@[l].1@, doas)),
            decreases self.bindings.len() - i,
        {
            let host_path = self.bindings[i].0.as_str();
            let jail_path_in = self.bindings[i].1.as_str();
            let ghost prev = r@;
            if !host_path.is_empty() && !jail_path_in.is_empty() {
                let h = escape(host_path);
                r.push(must(cmd2(doas, "mkdir -p ", h.as_str())));
                let target = cat(self.path.as_str(), "/").concat(strip_leading_slashes(jail_path_in).as_str());
                let t = escape(target.as_str());
                r.push(must(cmd2(doas, "mkdir -p ", t.as_str())));
                r.push(must(cmd4(doas, "mount_nullfs ", h.as_str(), " ", t.as_str())));
                proof {
                    assert(crate::remote::step_view(r@[r@.len() - 1]) == binding_mount(
                        self.path@,
                        self.bindings@[i as int].0@,
                        self.bindings@[i as int].1@,
                        doas,
                    ));
                }
            }
            proof {
                lemma_keeps(prev, r@);
            }
            i = i + 1;
        }
        proof {
            lemma_keeps(s4, r@);
        }
        r
    }

    /// Takes the outcome of the last operation.
    pub fn resume(&mut self, outcome: Outcome) -> (r: Action<Result<JailInfo, DeployError>>)
        requires
            old(self).wf(),
        ensures
            final(self).wf(),
            final(self).name == old(self).name,
            final(self).subnet == old(self).subnet,
            final(self).doas == old(self).doas,
            outcome is Failed && !(old(self).stage is Building) ==> r is Finish && r->Finish_0 is Err,
            old(self).stage is ListUsr && outcome is Succeeded ==> final(self).stage is Building && runs(
                r,
                interface_command(old(self).doas),
            ) && exists|steps: Seq<Step>|
                layout_ok(*old(self), outcome->Succeeded_0@, steps) && r == Action::<
                    Result<JailInfo, DeployError>,
                >::Perform(steps[0].op) && final(self).stage->Building_0.rest() == steps.drop_first(),
            old(self).stage is Building && old(self).stage->Building_0.next_for(outcome) is Perform ==> r
                == Action::<Result<JailInfo, DeployError>>::Perform(
                old(self).stage->Building_0.next_for(outcome)->Perform_0,
            ) && final(self).stage is Building && stepped(
                old(self).stage->Building_0,
                final(self).stage->Building_0,
            ),
            old(self).stage is Building && old(self).stage->Building_0.next_for(outcome) is Finish
                && old(self).stage->Building_0.next_for(outcome)->Finish_0 is Err ==> r == Action::<
                Result<JailInfo, DeployError>,
            >::Finish(
                Err(DeployError::Transport(old(self).stage->Building_0.next_for(outcome)->Finish_0->Err_0)),
            ),
            old(self).stage is Building && old(self).stage->Building_0.next_for(outcome) == Action::<
                Result<(), String>,
            >::Finish(Ok(())) ==> runs(r, alias_query()) && final(self).stage is Addressing,
            old(self).stage is Addressing && outcome is Succeeded ==> match free_address(
                old(self).subnet@,
                outcome->Succeeded_0@,
            ) {
                Some(ip) => runs(r, alias_command(ip, old(self).doas)) && final(self).stage is Aliasing
                    && final(self).stage->Aliasing_0@ == ip,
                None => r is Finish && r->Finish_0 is Err,
            },
            old(self).stage is Aliasing && outcome is Succeeded ==> r is Finish && r->Finish_0 is Ok
                && r->Finish_0->Ok_0.name == old(self).name && r->Finish_0->Ok_0.path == old(self).path
                && r->Finish_0->Ok_0.ip == old(self).stage->Aliasing_0,
    {
        let mut stage = CreateStage::Over;
        core::mem::swap(&mut stage, &mut self.stage);
        match stage {
            CreateStage::ListUsr => match outcome {
                Outcome::Succeeded(out) => {
                    let steps = self.layout_steps(out.as_str());
                    let ghost sv = steps@;
                    let (sc, a) = Script::new(steps);
                    self.stage = CreateStage::Building(sc);
                    match a {
                        Action::Perform(op) => Action::Perform(op),
                        Action::Finish(_) => {
                            self.stage = CreateStage::Addressing;
                            Action::Perform(Op::Exec(String::from_str("ifconfig lo1 | grep 'inet ' | awk '{print $2}'")))
                        },
                    }
                },
                Outcome::Failed(m) => Action::Finish(Err(DeployError::Transport(m))),
            },
            CreateStage::Building(mut sc) => match sc.resume(outcome) {
                Action::Perform(op) => {
                    self.stage = CreateStage::Building(sc);
                    Action::Perform(op)
                },
                Action::Finish(Ok(())) => {
                    self.stage = CreateStage::Addressing;
                    Action::Perform(Op::Exec(String::from_str("ifconfig lo1 | grep 'inet ' | awk '{print $2}'")))
                },
                Action::Finish(Err(m)) => Action::Finish(Err(DeployError::Transport(m))),
            },
            CreateStage::Addressing => match outcome {
                Outcome::Succeeded(out) => match find_free_ip(self.subnet.as_str(), out.as_str()) {
                    Ok(ip) => {
                        let c = cmd3(self.doas, "ifconfig lo1 inet ", escape(ip.as_str()).as_str(), "/32 alias");
                        self.stage = CreateStage::Aliasing(ip);
                        Action::Perform(Op::Exec(c))
                    },
                    Err(e) => Action::Finish(Err(e)),
                },
                Outcome::Failed(m) => Action::Finish(Err(DeployError::Transport(m))),
            },
            CreateStage::Aliasing(ip) => match outcome {
                Outcome::Succeeded(_) => Action::Finish(
                    Ok(JailInfo { name: self.name.clone(), path: self.path.clone(), ip }),
                ),
                Outcome::Failed(m) => Action::Finish(Err(DeployError::Transport(m))),
            },
            CreateStage::Over => Action::Finish(Err(DeployError::Transport(String::new()))),
        }
    }
}

/// Starts creating the jail `name` of release `version`, from `image` when
/// given, with an address from `subnet` and the data directories
/// `bindings` (host path, jail path): first the list of the base system's
/// `usr` subtrees.
pub fn create(
    name: &str,
    version: &str,
    subnet: &str,
    image: Option<ImageInfo>,
    bindings: Vec<(String, String)>,
    jails_parent: Option<String>,
    doas: bool,
) -> (r: (JailCreate, Action<Result<JailInfo, DeployError>>))
    ensures
        r.0.wf(),
        r.0.name@ == name@,
        r.0.subnet@ == subnet@,
        r.0.doas == doas,
        r.0.stage is ListUsr,
        runs(r.1, "ls "@ + shell_word(base_path(version@) + "/usr"@)),
{
    let usr = cat(BASE_DIR, "/").concat(version).concat("/usr");
    let probe = cat("ls ", escape(usr.as_str()).as_str());
    let m = JailCreate {
        name: String::from_str(name),
        path: jail_root(name),
        version: String::from_str(version),
        subnet: String::from_str(subnet),
        image,
        jails_parent,
        bindings,
        doas,
        stage: CreateStage::ListUsr,
    };
    (m, Action::Perform(Op::Exec(probe)))
}

} // verus!
