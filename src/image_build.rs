//! The machine that builds an image, or finds it ready.
use vstd::prelude::*;

use crate::base::child_dataset;
use crate::config::Config;
use crate::constants::IMAGES_DIR;
use crate::error::DeployError;
use crate::image::{config_fingerprint, fingerprint, get_image_hash, lemma_fingerprint_order_independent};
use crate::remote::{stepped, 
    may, may_run, must, must_run, mark_command, prefix, mark_marker, plan_view, probe_command, probe_marker,
    runs, start_plan, starts_plan, Action, Marker, Op, Outcome, Script, Step,
};
use crate::shell::{escape, shell_word};
use crate::text::{cat, chars_of, cmd2, cmd3, cmd4, cmd5, string_of};

verus! {

/// A prepared image: where it lives, and its dataset when on ZFS.
#[derive(Debug)]
pub struct ImageInfo {
    pub path: String,
    pub dataset: Option<String>,
}

/// The directory of the image whose fingerprint begins with `short`.
pub open spec fn image_path(short: Seq<char>) -> Seq<char> {
    IMAGES_DIR@ + "/"@ + short
}

/// What says that an image is complete: a snapshot of its dataset on ZFS,
/// a file in its directory otherwise.
pub open spec fn image_marker(short: Seq<char>, images_parent: Option<Seq<char>>) -> Marker {
    match images_parent {
        Some(p) => Marker::Snapshot(child_dataset(p, short) + "@base"@),
        None => Marker::File(image_path(short) + "/.ready"@),
    }
}

/// The name of the transient jail that builds the image `short`.
pub open spec fn build_jail(short: Seq<char>) -> Seq<char> {
    "build-"@ + short
}

/// What a failed build runs before it reports: stop the build jail, unmount
/// its devices, and destroy the image's storage, dataset or directory.
pub open spec fn discard_plan(short: Seq<char>, images_parent: Option<Seq<char>>, doas: bool) -> Seq<
    (bool, Option<Seq<char>>),
> {
    let path = shell_word(image_path(short));
    seq![
        may_run(prefix(doas) + "jail -r "@ + shell_word(build_jail(short))),
        may_run(prefix(doas) + "umount -f "@ + shell_word(image_path(short) + "/dev"@)),
    ] + match images_parent {
        Some(p) => seq![may_run(prefix(doas) + "zfs destroy -r "@ + shell_word(child_dataset(p, short)))],
        None => seq![
            may_run(prefix(doas) + "chflags -R noschg "@ + path),
            may_run(prefix(doas) + "rm -rf "@ + path),
        ],
    }
}

/// Where an image build stands.
pub enum ImageStage {
    /// Waiting for the marker check.
    Probe,
    /// Running the build; its last step creates the marker.
    Building(Script),
    /// Removing what a failed build left; the failure's message.
    Discarding(Script, String),
    /// Done.
    Over,
}

/// Builds the image that a configuration needs, or finds it ready.
pub struct ImageBuild {
    /// The first twelve characters of the fingerprint.
    pub short: String,
    pub doas: bool,
    /// The dataset that holds the images, when they live on ZFS.
    pub images_parent: Option<String>,
    /// The build steps, handed to a script when the image is not ready.
    pub build: Vec<Step>,
    /// The steps that remove a failed build.
    pub discard: Vec<Step>,
    pub stage: ImageStage,
}

/// The image as `ImageBuild` reports it.
pub open spec fn image_info_is(i: ImageInfo, short: Seq<char>, images_parent: Option<Seq<char>>) -> bool {
    i.path@ == image_path(short) && crate::remote::opt_view(i.dataset) == match images_parent {
        Some(p) => Some(child_dataset(p, short)),
        None => None,
    }
}

impl ImageBuild {
    /// Whether the build ends well after `outcome`: the marker was found,
    /// or the last build step (the marker's creation) has run.
    pub open spec fn succeeds(&self, outcome: Outcome) -> bool {
        (self.stage is Probe && outcome is Succeeded) || (self.stage is Building
            && self.stage->Building_0.next_for(outcome) == Action::<Result<(), String>>::Finish(Ok(())))
    }

    pub open spec fn marker(&self) -> Marker {
        image_marker(self.short@, crate::remote::opt_view(self.images_parent))
    }

    /// The machine's invariant: its plans are the ones its inputs call for.
    pub open spec fn wf(&self) -> bool {
        &&& self.stage is Probe ==> plan_view(self.build@).len() > 0 && plan_view(self.build@).last()
            == must_run(mark_command(self.marker(), self.doas))
        &&& (self.stage is Probe || self.stage is Building) ==> plan_view(self.discard@)
            == discard_plan(self.short@, crate::remote::opt_view(self.images_parent), self.doas)
    }

    fn info(&self) -> (r: ImageInfo)
        ensures
            image_info_is(r, self.short@, crate::remote::opt_view(self.images_parent)),
    {
        let path = cat(IMAGES_DIR, "/").concat(self.short.as_str());
        let dataset = match &self.images_parent {
            Some(p) => Some(cat(p.as_str(), "/").concat(self.short.as_str())),
            None => None,
        };
        ImageInfo { path, dataset }
    }

    /// Takes the outcome of the last operation.
    pub fn resume(&mut self, outcome: Outcome) -> (r: Action<Result<ImageInfo, DeployError>>)
        requires
            old(self).wf(),
        ensures
            final(self).wf(),
            final(self).short == old(self).short,
            final(self).images_parent == old(self).images_parent,
            final(self).doas == old(self).doas,
            old(self).stage is Probe && outcome is Succeeded ==> r is Finish && r->Finish_0 is Ok
                && image_info_is(r->Finish_0->Ok_0, old(self).short@, crate::remote::opt_view(old(self).images_parent)),
            old(self).stage is Probe && outcome is Failed ==> final(self).stage is Building
                && starts_plan(final(self).stage->Building_0, r, plan_view(old(self).build@)),
            old(self).stage is Building ==> match old(self).stage->Building_0.next_for(outcome) {
                Action::Finish(Ok(())) => r is Finish && r->Finish_0 is Ok && image_info_is(
                    r->Finish_0->Ok_0,
                    old(self).short@,
                    crate::remote::opt_view(old(self).images_parent),
                ),
                Action::Finish(Err(m)) => final(self).stage is Discarding
                    && final(self).stage->Discarding_1 == m
                    && starts_plan(final(self).stage->Discarding_0, r, plan_view(old(self).discard@)),
                Action::Perform(op) => r == Action::<Result<ImageInfo, DeployError>>::Perform(op)
                    && final(self).stage is Building && stepped(
                    old(self).stage->Building_0,
                    final(self).stage->Building_0,
                ),
            },
            old(self).stage is Discarding ==> match old(self).stage->Discarding_0.next_for(outcome) {
                Action::Perform(op) => r == Action::<Result<ImageInfo, DeployError>>::Perform(op)
                    && final(self).stage is Discarding && final(self).stage->Discarding_1
                    == old(self).stage->Discarding_1 && stepped(
                    old(self).stage->Discarding_0,
                    final(self).stage->Discarding_0,
                ),
                Action::Finish(_) => r is Finish && r->Finish_0 is Err && r->Finish_0->Err_0 is Transport
                    && r->Finish_0->Err_0->Transport_0 == old(self).stage->Discarding_1,
            },
    {
        let mut stage = ImageStage::Over;
        core::mem::swap(&mut stage, &mut self.stage);
        match stage {
            ImageStage::Probe => match outcome {
                Outcome::Succeeded(_) => {
                    self.stage = ImageStage::Over;
                    Action::Finish(Ok(self.info()))
                },
                Outcome::Failed(_) => {
                    let mut build: Vec<Step> = Vec::new();
                    core::mem::swap(&mut build, &mut self.build);
                    assert(plan_view(build@).len() == build@.len());
                    let (sc, a) = start_plan(build);
                    self.stage = ImageStage::Building(sc);
                    match a {
                        Action::Perform(op) => Action::Perform(op),
                        Action::Finish(_) => Action::Finish(Err(DeployError::Transport(String::new()))),
                    }
                },
            },
            ImageStage::Building(mut sc) => match sc.resume(outcome) {
                Action::Perform(op) => {
                    self.stage = ImageStage::Building(sc);
                    Action::Perform(op)
                },
                Action::Finish(Ok(())) => Action::Finish(Ok(self.info())),
                Action::Finish(Err(m)) => {
                    let mut discard: Vec<Step> = Vec::new();
                    core::mem::swap(&mut discard, &mut self.discard);
                    assert(plan_view(discard@).len() == discard@.len());
                    let (dsc, a) = start_plan(discard);
                    self.stage = ImageStage::Discarding(dsc, m);
                    match a {
                        Action::Perform(op) => Action::Perform(op),
                        Action::Finish(_) => Action::Finish(Err(DeployError::Transport(String::new()))),
                    }
                },
            },
            ImageStage::Discarding(mut sc, m) => match sc.resume(outcome) {
                Action::Perform(op) => {
                    self.stage = ImageStage::Discarding(sc, m);
                    Action::Perform(op)
                },
                Action::Finish(_) => Action::Finish(Err(DeployError::Transport(m))),
            },
            ImageStage::Over => Action::Finish(Err(DeployError::Transport(String::new()))),
        }
    }
}

/// The words of `v`, each quoted for the shell, separated by spaces.
pub open spec fn shell_line(v: Seq<Seq<char>>) -> Seq<char>
    decreases v.len(),
{
    if v.len() == 0 {
        Seq::<char>::empty()
    } else if v.len() == 1 {
        shell_word(v[0])
    } else {
        shell_line(v.drop_last()) + seq![' '] + shell_word(v.last())
    }
}

/// Quotes each word of `v` for the shell and joins them with spaces.
pub fn shell_words(v: &Vec<String>) -> (r: String)
    ensures
        r@ == shell_line(crate::order::views(v@)),
{
    let ghost vv = crate::order::views(v@);
    let mut r = String::new();
    let mut i: usize = 0;
    while i < v.len()
        invariant
            i <= v.len(),
            vv == crate::order::views(v@),
            r@ == shell_line(vv.subrange(0, i as int)),
        decreases v.len() - i,
    {
        let ghost before = vv.subrange(0, i as int);
        assert(vv.subrange(0, i + 1).drop_last() =~= before);
        assert(vv[i as int] == v@[i as int]@);
        proof {
            reveal_strlit(" ");
        }
        if i > 0 {
            r.append(" ");
        }
        r.append(escape(v[i].as_str()).as_str());
        i = i + 1;
        if i == 1 {
            assert(vv.subrange(0, 1) =~= seq![vv[0]]);
        }
        assert(r@ =~= shell_line(vv.subrange(0, i as int)));
    }
    assert(vv.subrange(0, v.len() as int) =~= vv);
    r
}

/// The command that installs runtime tool `t` at its version in the build jail `jail`.
pub open spec fn tool_command(c: Config, jail: Seq<char>, t: (String, String)) -> Seq<char> {
    let inner = shell_word(
        "export CC=gcc CXX=g++ MAKE=gmake && mise use --global "@ + shell_word(t.0@ + "@"@ + t.1@),
    );
    match c.user {
        Some(u) => prefix(c.doas) + "jexec "@ + jail + " su - "@ + shell_word(u@) + " -c "@ + inner,
        None => prefix(c.doas) + "jexec "@ + jail + " bash -c "@ + inner,
    }
}

/// Clearing what a failed attempt left, and filling the root from the base system.
pub open spec fn image_fill(c: Config, version: Seq<char>, short: Seq<char>, images_parent: Option<Seq<char>>, base_parent: Option<Seq<char>>) -> Seq<(bool, Option<Seq<char>>)> {
    let d = c.doas;
    let path = image_path(short);
    let wpath = shell_word(path);
    let clear = match images_parent {
        Some(ip) => {
            let ds = shell_word(child_dataset(ip, short));
            seq![may_run(prefix(d) + "zfs destroy -r "@ + ds)] + match base_parent {
                Some(bp) => seq![must_run(prefix(d) + "zfs clone -o mountpoint="@ + wpath + " "@
                    + shell_word(child_dataset(bp, version) + "@clean"@) + (" "@ + ds))],
                None => seq![must_run(prefix(d) + "zfs create -o mountpoint="@ + wpath + " "@ + ds)],
            }
        },
        None => seq![
            may_run(prefix(d) + "chflags -R noschg "@ + wpath),
            must_run(prefix(d) + "rm -rf "@ + wpath),
            must_run(prefix(d) + "mkdir -p "@ + wpath),
        ],
    };
    let copy = if base_parent is None || images_parent is None {
        let empty = shell_word(path + "/var/empty"@);
        seq![
            must_run(prefix(d) + "rsync -a --exclude var/empty "@ + shell_word(crate::base::base_path(version) + "/"@)
                + " "@ + shell_word(path + "/"@)),
            must_run(prefix(d) + "mkdir -p "@ + empty),
            must_run(prefix(d) + "chmod 555 "@ + empty),
        ]
    } else {
        Seq::<(bool, Option<Seq<char>>)>::empty()
    };
    clear + copy
}

/// Mounting the devices, starting the build jail with the host's network,
/// and installing the packages and the user.
pub open spec fn image_setup(c: Config, short: Seq<char>) -> Seq<(bool, Option<Seq<char>>)> {
    let d = c.doas;
    let path = image_path(short);
    let j = shell_word(build_jail(short));
    let dev = shell_word(path + "/dev"@);
    seq![
        must_run(prefix(d) + "mkdir -p "@ + dev),
        must_run(prefix(d) + "mount -t devfs devfs "@ + dev),
        must_run(prefix(d) + "cp /etc/resolv.conf "@ + shell_word(path + "/etc/"@)),
        must_run(prefix(d) + "jail -c name="@ + j + " path="@ + shell_word(path) + (" host.hostname="@ + j
            + " ip4=inherit allow.raw_sockets=1 persist"@)),
        must_run(prefix(d) + "pkg -j "@ + j + " install -y git bash"@),
    ] + (if c.packages@.len() > 0 {
        seq![must_run(prefix(d) + "pkg -j "@ + j + " install -y "@ + shell_line(crate::order::views(c.packages@)))]
    } else {
        Seq::<(bool, Option<Seq<char>>)>::empty()
    }) + match c.user {
        Some(u) => seq![must_run(prefix(d) + "jexec "@ + j + " id "@ + shell_word(u@) + " >/dev/null 2>&1 || "@
            + (prefix(d) + "jexec "@ + j + " pw useradd -n "@ + shell_word(u@) + " -m -s /usr/local/bin/bash"@))],
        None => Seq::<(bool, Option<Seq<char>>)>::empty(),
    }
}

/// Installing the runtime tools, each at its version.
pub open spec fn image_tools(c: Config, short: Seq<char>) -> Seq<(bool, Option<Seq<char>>)> {
    let j = shell_word(build_jail(short));
    if c.mise@.len() > 0 {
        seq![must_run(prefix(c.doas) + "pkg -j "@ + j + " install -y mise gmake gcc python3 pkgconf"@)]
            + c.mise@.map_values(|t: (String, String)| must_run(tool_command(c, j, t)))
    } else {
        Seq::<(bool, Option<Seq<char>>)>::empty()
    }
}

/// The whole build plan of image `short` for `c` on release `version`,
/// with images and base systems in the datasets given (or in plain
/// directories): clear what a failed attempt left (the dataset, or the
/// directory); fill the root (a clone of the base system's snapshot, or a
/// copy of its tree); mount the devices; start a build jail with the
/// host's network; install the packages, the user and the runtime tools;
/// clean the package cache; stop the jail and unmount the devices; create
/// the marker last.
pub open spec fn image_plan(
    c: Config,
    version: Seq<char>,
    short: Seq<char>,
    images_parent: Option<Seq<char>>,
    base_parent: Option<Seq<char>>,
) -> Seq<(bool, Option<Seq<char>>)> {
    let d = c.doas;
    let j = shell_word(build_jail(short));
    image_fill(c, version, short, images_parent, base_parent) + image_setup(c, short) + image_tools(c, short) + seq![
        may_run(prefix(d) + "pkg -j "@ + j + " clean -y"@),
        must_run(prefix(d) + "jail -r "@ + j),
        must_run(prefix(d) + "umount "@ + shell_word(image_path(short) + "/dev"@)),
        must_run(mark_command(image_marker(short, images_parent), d)),
    ]
}

/// Appends the steps of `image_fill`.
fn push_fill(
    r: &mut Vec<Step>,
    config: &Config,
    version: &str,
    short: &str,
    images_parent: &Option<String>,
    base_parent: &Option<String>,
)
    ensures
        plan_view(final(r)@) == plan_view(old(r)@) + image_fill(
            *config,
            version@,
            short@,
            crate::remote::opt_view(*images_parent),
            crate::remote::opt_view(*base_parent),
        ),
{
    let ghost g0 = plan_view(r@);
    let doas = config.doas;
    let path = cat(IMAGES_DIR, "/").concat(short);
    let wpath = escape(path.as_str());
    let base = cat(crate::constants::BASE_DIR, "/").concat(version);
    match images_parent {
        Some(ip) => {
            let ds = escape(cat(ip.as_str(), "/").concat(short).as_str());
            r.push(may(cmd2(doas, "zfs destroy -r ", ds.as_str())));
            match base_parent {
                Some(bp) => {
                    let snap = cat(bp.as_str(), "/").concat(version).concat("@clean");
                    r.push(must(cmd5(doas, "zfs clone -o mountpoint=", wpath.as_str(), " ",
                        escape(snap.as_str()).as_str(), cat(" ", ds.as_str()).as_str())));
                },
                None => {
                    r.push(must(cmd4(doas, "zfs create -o mountpoint=", wpath.as_str(), " ", ds.as_str())));
                },
            }
        },
        None => {
            r.push(may(cmd2(doas, "chflags -R noschg ", wpath.as_str())));
            r.push(must(cmd2(doas, "rm -rf ", wpath.as_str())));
            r.push(must(cmd2(doas, "mkdir -p ", wpath.as_str())));
        },
    }
    if base_parent.is_none() || images_parent.is_none() {
        let src = escape(cat(base.as_str(), "/").as_str());
        let dst = escape(cat(path.as_str(), "/").as_str());
        r.push(must(cmd4(doas, "rsync -a --exclude var/empty ", src.as_str(), " ", dst.as_str())));
        let empty = escape(cat(path.as_str(), "/var/empty").as_str());
        r.push(must(cmd2(doas, "mkdir -p ", empty.as_str())));
        r.push(must(cmd2(doas, "chmod 555 ", empty.as_str())));
    }
    assert(plan_view(r@) =~= g0 + image_fill(
        *config,
        version@,
        short@,
        crate::remote::opt_view(*images_parent),
        crate::remote::opt_view(*base_parent),
    ));
}

/// Appends the steps of `image_setup`.
fn push_setup(r: &mut Vec<Step>, config: &Config, short: &str)
    ensures
        plan_view(final(r)@) == plan_view(old(r)@) + image_setup(*config, short@),
{
    let ghost g0 = plan_view(r@);
    let doas = config.doas;
    let path = cat(IMAGES_DIR, "/").concat(short);
    let wpath = escape(path.as_str());
    let jname = escape(cat("build-", short).as_str());
    let dev = escape(cat(path.as_str(), "/dev").as_str());
    r.push(must(cmd2(doas, "mkdir -p ", dev.as_str())));
    r.push(must(cmd2(doas, "mount -t devfs devfs ", dev.as_str())));
    let etc = escape(cat(path.as_str(), "/etc/").as_str());
    r.push(must(cmd2(doas, "cp /etc/resolv.conf ", etc.as_str())));
    let start = cmd5(doas, "jail -c name=", jname.as_str(), " path=", wpath.as_str(),
        cat(" host.hostname=", jname.as_str()).concat(" ip4=inherit allow.raw_sockets=1 persist").as_str());
    r.push(must(start));
    r.push(must(cmd3(doas, "pkg -j ", jname.as_str(), " install -y git bash")));
    if config.packages.len() > 0 {
        let words = shell_words(&config.packages);
        r.push(must(cmd4(doas, "pkg -j ", jname.as_str(), " install -y ", words.as_str())));
    }
    match &config.user {
        Some(u) => {
            let wu = escape(u.as_str());
            let add = cmd5(doas, "jexec ", jname.as_str(), " pw useradd -n ", wu.as_str(), " -m -s /usr/local/bin/bash");
            let check = cmd5(doas, "jexec ", jname.as_str(), " id ", wu.as_str(), " >/dev/null 2>&1 || ");
            r.push(must(check.concat(add.as_str())));
        },
        None => {},
    }
    assert(plan_view(r@) =~= g0 + image_setup(*config, short@));
}

/// Appends the steps of `image_tools`.
fn push_tools(r: &mut Vec<Step>, config: &Config, short: &str)
    ensures
        plan_view(final(r)@) == plan_view(old(r)@) + image_tools(*config, short@),
{
    let ghost g0 = plan_view(r@);
    let doas = config.doas;
    let jname = escape(cat("build-", short).as_str());
    if config.mise.len() > 0 {
        r.push(must(cmd3(doas, "pkg -j ", jname.as_str(), " install -y mise gmake gcc python3 pkgconf")));
        let ghost g6 = plan_view(r@);
        let mut i: usize = 0;
        while i < config.mise.len()
            invariant
                i <= config.mise.len(),
                doas == config.doas,
                jname@ == shell_word(build_jail(short@)),
                g6 == g0 + seq![must_run(prefix(doas) + "pkg -j "@ + jname@ + " install -y mise gmake gcc python3 pkgconf"@)],
                plan_view(r@) == g6 + config.mise@.subrange(0, i as int).map_values(
                    |t: (String, String)| must_run(tool_command(*config, jname@, t)),
                ),
            decreases config.mise.len() - i,
        {
            let ghost prev = plan_view(r@);
            let spec_text = cat(config.mise[i].0.as_str(), "@").concat(config.mise[i].1.as_str());
            let inner = cat("export CC=gcc CXX=g++ MAKE=gmake && mise use --global ", escape(spec_text.as_str()).as_str());
            let winner = escape(inner.as_str());
            let run = match &config.user {
                Some(u) => cmd5(doas, "jexec ", jname.as_str(), " su - ", escape(u.as_str()).as_str(),
                    cat(" -c ", winner.as_str()).as_str()),
                None => cmd4(doas, "jexec ", jname.as_str(), " bash -c ", winner.as_str()),
            };
            assert(run@ =~= tool_command(*config, jname@, config.mise@[i as int]));
            r.push(must(run));
            assert(plan_view(r@) =~= prev.push(must_run(run@)));
            assert(config.mise@.subrange(0, i + 1).map_values(|t: (String, String)| must_run(tool_command(*config, jname@, t)))
                =~= config.mise@.subrange(0, i as int).map_values(|t: (String, String)| must_run(tool_command(*config, jname@, t))).push(must_run(run@)));
            i = i + 1;
        }
        assert(config.mise@.subrange(0, i as int) =~= config.mise@);
    }
    assert(plan_view(r@) =~= g0 + image_tools(*config, short@));
}

/// The steps that build the image in place: `image_plan`.
fn build_steps(
    config: &Config,
    version: &str,
    short: &str,
    images_parent: &Option<String>,
    base_parent: &Option<String>,
) -> (r: Vec<Step>)
    ensures
        plan_view(r@).len() > 0,
        plan_view(r@).last() == must_run(
            mark_command(image_marker(short@, crate::remote::opt_view(*images_parent)), config.doas),
        ),
        plan_view(r@) == image_plan(
            *config,
            version@,
            short@,
            crate::remote::opt_view(*images_parent),
            crate::remote::opt_view(*base_parent),
        ),
{
    let doas = config.doas;
    let mut r: Vec<Step> = Vec::new();
    push_fill(&mut r, config, version, short, images_parent, base_parent);
    push_setup(&mut r, config, short);
    push_tools(&mut r, config, short);
    let ghost g = plan_view(r@);
    let path = cat(IMAGES_DIR, "/").concat(short);
    let jname = escape(cat("build-", short).as_str());
    let dev = escape(cat(path.as_str(), "/dev").as_str());
    r.push(may(cmd3(doas, "pkg -j ", jname.as_str(), " clean -y")));
    r.push(must(cmd2(doas, "jail -r ", jname.as_str())));
    r.push(must(cmd2(doas, "umount ", dev.as_str())));
    let marker = match images_parent {
        Some(ip) => cat(ip.as_str(), "/").concat(short).concat("@base"),
        None => cat(path.as_str(), "/.ready"),
    };
    let mark = mark_marker(images_parent.is_some(), marker.as_str(), doas);
    proof {
        let m = image_marker(short@, crate::remote::opt_view(*images_parent));
        assert(m == if images_parent.is_some() { Marker::Snapshot(marker@) } else { Marker::File(marker@) });
    }
    r.push(must(mark));
    assert(plan_view(r@) =~= image_plan(
        *config,
        version@,
        short@,
        crate::remote::opt_view(*images_parent),
        crate::remote::opt_view(*base_parent),
    ));
    r
}

/// The steps that remove what a failed build of image `short` left.
fn discard_steps(short: &str, images_parent: &Option<String>, doas: bool) -> (r: Vec<Step>)
    ensures
        plan_view(r@) == discard_plan(short@, crate::remote::opt_view(*images_parent), doas),
{
    let path = cat(IMAGES_DIR, "/").concat(short);
    let wpath = escape(path.as_str());
    let jname = cat("build-", short);
    let mut r: Vec<Step> = Vec::new();
    r.push(may(cmd2(doas, "jail -r ", escape(jname.as_str()).as_str())));
    let dev = cat(path.as_str(), "/dev");
    r.push(may(cmd2(doas, "umount -f ", escape(dev.as_str()).as_str())));
    match images_parent {
        Some(ip) => {
            let ds = cat(ip.as_str(), "/").concat(short);
            r.push(may(cmd2(doas, "zfs destroy -r ", escape(ds.as_str()).as_str())));
        },
        None => {
            r.push(may(cmd2(doas, "chflags -R noschg ", wpath.as_str())));
            r.push(may(cmd2(doas, "rm -rf ", wpath.as_str())));
        },
    }
    assert(plan_view(r@) =~= discard_plan(short@, crate::remote::opt_view(*images_parent), doas));
    r
}

/// The first twelve characters of a fingerprint.
pub open spec fn short_of(fingerprint: Seq<char>) -> Seq<char> {
    fingerprint.subrange(0, 12)
}

/// Starts making sure that the image `config` needs on release `version`
/// exists, with images and base systems on the datasets given (or in plain
/// directories): first the check for the image's marker.
pub fn ensure_image(
    config: &Config,
    version: &str,
    images_parent: Option<String>,
    base_parent: Option<String>,
) -> (r: (ImageBuild, Action<Result<ImageInfo, DeployError>>))
    ensures
        r.0.wf(),
        r.0.stage is Probe,
        r.0.short@ == short_of(config_fingerprint(*config, version@)),
        r.0.images_parent == images_parent,
        r.0.doas == config.doas,
        runs(r.1, probe_command(r.0.marker())),
        plan_view(r.0.build@) == image_plan(
            *config,
            version@,
            r.0.short@,
            crate::remote::opt_view(images_parent),
            crate::remote::opt_view(base_parent),
        ),
{
    let hash = get_image_hash(config, version);
    let hv = chars_of(hash.as_str());
    let short = string_of(&hv, 0, 12);
    let build = build_steps(config, version, short.as_str(), &images_parent, &base_parent);
    let discard = discard_steps(short.as_str(), &images_parent, config.doas);
    let marker = match &images_parent {
        Some(ip) => cat(ip.as_str(), "/").concat(short.as_str()).concat("@base"),
        None => cat(IMAGES_DIR, "/").concat(short.as_str()).concat("/.ready"),
    };
    let probe = probe_marker(images_parent.is_some(), marker.as_str());
    let m = ImageBuild {
        short,
        doas: config.doas,
        images_parent,
        build,
        discard,
        stage: ImageStage::Probe,
    };
    proof {
        let mk = m.marker();
        assert(mk == if m.images_parent.is_some() { Marker::Snapshot(marker@) } else { Marker::File(marker@) });
    }
    (m, Action::Perform(Op::Exec(probe)))
}

/// An image built for one configuration is found ready for any other with
/// the same base, user, packages and runtime tools, whatever their order:
/// the marker that the build creates last is the one that `ensure_image`
/// looks for first (and on finding it, `resume` reports the image without
/// building).
pub proof fn lemma_image_found_ready(
    base: Seq<char>,
    packages1: Seq<Seq<char>>,
    packages2: Seq<Seq<char>>,
    tools1: Seq<(Seq<char>, Seq<char>)>,
    tools2: Seq<(Seq<char>, Seq<char>)>,
    user: Option<Seq<char>>,
    images_parent: Option<Seq<char>>,
)
    requires
        packages1.to_multiset() == packages2.to_multiset(),
        tools1.to_multiset() == tools2.to_multiset(),
    ensures
        image_marker(short_of(fingerprint(base, packages1, tools1, user)), images_parent)
            == image_marker(short_of(fingerprint(base, packages2, tools2, user)), images_parent),
{
    lemma_fingerprint_order_independent(base, packages1, packages2, tools1, tools2, user);
}

/// A failed build leaves neither marker nor storage: what it runs before
/// reporting ends by destroying the dataset or directory of the image, which
/// holds the marker.
pub proof fn lemma_failed_build_leaves_nothing(
    short: Seq<char>,
    images_parent: Option<Seq<char>>,
    doas: bool,
)
    ensures
        match images_parent {
            Some(p) => image_marker(short, images_parent) == Marker::Snapshot(
                child_dataset(p, short) + "@base"@,
            ) && discard_plan(short, images_parent, doas).last() == may_run(
                prefix(doas) + "zfs destroy -r "@ + shell_word(child_dataset(p, short)),
            ),
            None => image_marker(short, images_parent) == Marker::File(image_path(short) + "/.ready"@)
                && discard_plan(short, images_parent, doas).last() == may_run(
                prefix(doas) + "rm -rf "@ + shell_word(image_path(short)),
            ),
        },
{
}

} // verus!
