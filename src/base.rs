//! Base systems: an OS release's file tree, fetched once per host and
//! marked ready only after extraction succeeded.
use vstd::prelude::*;

use crate::constants::BASE_DIR;
use crate::error::DeployError;
use crate::remote::{stepped, 
    may, may_run, must, must_run, plan_view, mark_command, mark_marker, prefix, probe_command,
    probe_marker, runs, start_plan, starts_plan, Action, Marker, Outcome, Script, Step,
};
use crate::shell::{escape, shell_word};
use crate::text::{cat, cmd2, cmd4};

verus! {

/// Where the release `v` is extracted.
pub open spec fn base_path(v: Seq<char>) -> Seq<char> {
    BASE_DIR@ + "/"@ + v
}

/// The dataset of release `v` under the base systems' dataset `parent`.
pub open spec fn child_dataset(parent: Seq<char>, v: Seq<char>) -> Seq<char> {
    parent + "/"@ + v
}

/// What says that release `v` is ready: a snapshot of its dataset when the
/// base systems live on ZFS, a file in its tree otherwise.
pub open spec fn base_marker(v: Seq<char>, parent: Option<Seq<char>>) -> Marker {
    match parent {
        Some(p) => Marker::Snapshot(child_dataset(p, v) + "@clean"@),
        None => Marker::File(base_path(v) + "/.ready"@),
    }
}

/// The command that streams the release archive into the extractor.
pub open spec fn fetch_command(v: Seq<char>, doas: bool) -> Seq<char> {
    prefix(doas) + "fetch -o - "@ + shell_word(
        "https://download.freebsd.org/ftp/releases/amd64/"@ + v + "/base.txz"@,
    ) + " | "@ + prefix(doas) + "tar -xf - -C "@ + shell_word(base_path(v))
}

/// The steps that provision release `v` when it is not ready: clear what a
/// failed attempt left, create the storage, fetch and extract, copy the
/// host's time zone, and last create the marker.
pub open spec fn base_plan(v: Seq<char>, doas: bool, parent: Option<Seq<char>>) -> Seq<
    (bool, Option<Seq<char>>),
> {
    let path = shell_word(base_path(v));
    let storage = match parent {
        Some(p) => seq![
            may_run(prefix(doas) + "zfs destroy -r "@ + shell_word(child_dataset(p, v))),
            must_run(prefix(doas) + "zfs create -o mountpoint="@ + path + " "@ + shell_word(child_dataset(p, v))),
        ],
        None => seq![
            must_run(prefix(doas) + "rm -rf "@ + path),
            must_run(prefix(doas) + "mkdir -p "@ + path),
        ],
    };
    storage + seq![
        must_run(fetch_command(v, doas)),
        may_run(prefix(doas) + "cp /etc/localtime "@ + shell_word(base_path(v) + "/etc/localtime"@)),
        must_run(mark_command(base_marker(v, parent), doas)),
    ]
}

/// Where provisioning stands.
pub enum BaseStage {
    /// Waiting for the marker check.
    Probe,
    /// Running the provisioning steps.
    Provisioning(Script),
}

/// Makes sure that an OS release's tree exists on a host.
pub struct BaseProvision {
    pub version: String,
    pub doas: bool,
    /// The dataset that holds the base systems, when they live on ZFS.
    pub parent: Option<String>,
    pub stage: BaseStage,
}

fn base_dir_of(version: &str) -> (r: String)
    ensures
        r@ == base_path(version@),
{
    let r = cat(BASE_DIR, "/").concat(version);
    r
}

fn dataset_of(parent: &str, version: &str) -> (r: String)
    ensures
        r@ == child_dataset(parent@, version@),
{
    let r = cat(parent, "/").concat(version);
    r
}

impl BaseProvision {
    /// Whether provisioning ends well after `outcome`: the marker was
    /// found, or the last provisioning step has run.
    pub open spec fn succeeds(&self, outcome: Outcome) -> bool {
        (self.stage is Probe && outcome is Succeeded) || (self.stage is Provisioning
            && self.stage->Provisioning_0.next_for(outcome) == Action::<Result<(), String>>::Finish(Ok(())))
    }

    pub open spec fn marker(&self) -> Marker {
        base_marker(self.version@, crate::remote::opt_view(self.parent))
    }

    /// The provisioning steps.
    fn plan(&self) -> (r: Vec<Step>)
        ensures
            plan_view(r@) == base_plan(self.version@, self.doas, crate::remote::opt_view(self.parent)),
    {
        let doas = self.doas;
        let v = self.version.as_str();
        let path = base_dir_of(v);
        let wpath = escape(path.as_str());
        let mut r: Vec<Step> = Vec::new();
        let snapshot = match &self.parent {
            Some(p) => {
                let ds = dataset_of(p.as_str(), v);
                let wds = escape(ds.as_str());
                r.push(may(cmd2(doas, "zfs destroy -r ", wds.as_str())));
                r.push(must(cmd4(doas, "zfs create -o mountpoint=", wpath.as_str(), " ", wds.as_str())));
                ds.concat("@clean")
            },
            None => {
                r.push(must(cmd2(doas, "rm -rf ", wpath.as_str())));
                r.push(must(cmd2(doas, "mkdir -p ", wpath.as_str())));
                cat(path.as_str(), "/.ready")
            },
        };
        let url = cat("https://download.freebsd.org/ftp/releases/amd64/", v).concat("/base.txz");
        let tar = cmd2(doas, "tar -xf - -C ", wpath.as_str());
        let fetch = cmd4(doas, "fetch -o - ", escape(url.as_str()).as_str(), " | ", tar.as_str());
        assert(fetch@ =~= fetch_command(self.version@, doas));
        r.push(must(fetch));
        let lt = cat(path.as_str(), "/etc/localtime");
        r.push(may(cmd2(doas, "cp /etc/localtime ", escape(lt.as_str()).as_str())));
        r.push(must(mark_marker(self.parent.is_some(), snapshot.as_str(), doas)));
        assert(plan_view(r@) =~= base_plan(self.version@, doas, crate::remote::opt_view(self.parent)));
        r
    }

    /// Takes the outcome of the last operation. A failure of the fetch (the
    /// provisioning step that leaves two behind it) names the release.
    pub fn resume(&mut self, outcome: Outcome) -> (r: Action<Result<(), DeployError>>)
        ensures
            final(self).version == old(self).version,
            final(self).doas == old(self).doas,
            final(self).parent == old(self).parent,
            old(self).stage is Probe && outcome is Succeeded ==> r == Action::<
                Result<(), DeployError>,
            >::Finish(Ok(())),
            old(self).stage is Probe && outcome is Failed ==> final(self).stage is Provisioning
                && starts_plan(
                final(self).stage->Provisioning_0,
                r,
                base_plan(old(self).version@, old(self).doas, crate::remote::opt_view(old(self).parent)),
            ),
            old(self).stage is Provisioning ==> match old(self).stage->Provisioning_0.next_for(outcome) {
                Action::Finish(Ok(())) => r == Action::<Result<(), DeployError>>::Finish(Ok(())),
                Action::Finish(Err(m)) => if old(self).stage->Provisioning_0.rest().len() == 2 {
                    r is Finish && r->Finish_0 is Err && r->Finish_0->Err_0 is BaseFetch
                        && r->Finish_0->Err_0->BaseFetch_0 == old(self).version
                        && r->Finish_0->Err_0->BaseFetch_1 == m
                } else {
                    r is Finish && r->Finish_0 is Err && r->Finish_0->Err_0 is Transport
                        && r->Finish_0->Err_0->Transport_0 == m
                },
                Action::Perform(op) => r == Action::<Result<(), DeployError>>::Perform(op)
                    && final(self).stage is Provisioning && stepped(
                    old(self).stage->Provisioning_0,
                    final(self).stage->Provisioning_0,
                ),
            },
    {
        match &mut self.stage {
            BaseStage::Probe => match outcome {
                Outcome::Succeeded(_) => Action::Finish(Ok(())),
                Outcome::Failed(_) => {
                    let steps = self.plan();
                    assert(plan_view(steps@).len() == steps@.len());
                    let (sc, a) = start_plan(steps);
                    self.stage = BaseStage::Provisioning(sc);
                    match a {
                        Action::Perform(op) => Action::Perform(op),
                        Action::Finish(_) => Action::Finish(Ok(())),
                    }
                },
            },
            BaseStage::Provisioning(sc) => {
                let fetching = sc.pending.len() == 2;
                match sc.resume(outcome) {
                    Action::Perform(op) => Action::Perform(op),
                    Action::Finish(Ok(())) => Action::Finish(Ok(())),
                    Action::Finish(Err(m)) => if fetching {
                        Action::Finish(Err(DeployError::BaseFetch(self.version.clone(), m)))
                    } else {
                        Action::Finish(Err(DeployError::Transport(m)))
                    },
                }
            },
        }
    }
}

/// Starts making sure that release `version` is ready on a host whose base
/// systems live in the dataset `parent` (or in plain directories): first
/// the marker check.
pub fn ensure_base(version: &str, doas: bool, parent: Option<String>) -> (r: (
    BaseProvision,
    Action<Result<(), DeployError>>,
))
    ensures
        r.0.version@ == version@,
        r.0.doas == doas,
        r.0.parent == parent,
        r.0.stage is Probe,
        runs(r.1, probe_command(r.0.marker())),
{
    let snapshot = parent.is_some();
    let name = match &parent {
        Some(p) => dataset_of(p.as_str(), version).concat("@clean"),
        None => base_dir_of(version).concat("/.ready"),
    };
    let probe = probe_marker(snapshot, name.as_str());
    let m = BaseProvision {
        version: String::from_str(version),
        doas,
        parent,
        stage: BaseStage::Probe,
    };
    (m, Action::Perform(crate::remote::Op::Exec(probe)))
}

/// Provisioning a release fetches it at most once: the check that comes
/// first looks for the marker that the last provisioning step creates (and
/// on finding it, `resume` ends without running anything), and the fetch
/// comes before that step.
pub proof fn lemma_base_fetch_once(v: Seq<char>, doas: bool, parent: Option<Seq<char>>)
    ensures
        base_plan(v, doas, parent).last() == must_run(mark_command(base_marker(v, parent), doas)),
        base_plan(v, doas, parent)[2] == must_run(fetch_command(v, doas)),
        base_plan(v, doas, parent).len() == 5,
{
}

} // verus!
