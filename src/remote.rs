//! Operations on a remote host, and the small machines that sequence them.
//!
//! The transport itself lives outside the library: it performs one `Op` at a
//! time and reports an `Outcome`; the machines here decide what comes next.
use vstd::prelude::*;

use crate::shell::{escape, shell_word};
use crate::text::{cat, cmd2, cmd3, starts_with, trim, trimmed};

verus! {

/// One operation that the transport performs on a host.
#[derive(Debug)]
pub enum Op {
    /// Run a shell command; its standard output is reported back.
    Exec(String),
    /// Write `content` to the file at `path`, through doas when `privileged`.
    WriteFile { content: String, path: String, privileged: bool },
    /// Mirror the local tree `source` into the remote directory `dest`.
    Sync { source: String, dest: String, excludes: Vec<String>, privileged: bool },
}

/// What the transport reports for one operation.
#[derive(Debug)]
pub enum Outcome {
    /// The operation succeeded; the captured standard output.
    Succeeded(String),
    /// The operation failed or timed out; a description with its error output.
    Failed(String),
}

/// What a machine asks for next.
#[derive(Debug)]
pub enum Action<T> {
    /// Perform this operation and report its outcome.
    Perform(Op),
    /// The machine is done, with this result.
    Finish(T),
}

/// An operation in a script; a failed `required` step ends the script.
#[derive(Debug)]
pub struct Step {
    pub op: Op,
    pub required: bool,
}

/// The command a step runs, if it runs one.
pub open spec fn exec_of(s: Step) -> Option<Seq<char>> {
    match s.op {
        Op::Exec(c) => Some(c@),
        _ => None,
    }
}

/// A step that runs `command` and must succeed.
pub fn must(command: String) -> (r: Step)
    ensures
        r.op == Op::Exec(command),
        r.required,
{
    Step { op: Op::Exec(command), required: true }
}

/// A step that runs `command` and whose failure is ignored.
pub fn may(command: String) -> (r: Step)
    ensures
        r.op == Op::Exec(command),
        !r.required,
{
    Step { op: Op::Exec(command), required: false }
}

/// `doas ` when privileged, nothing otherwise.
pub open spec fn prefix(doas: bool) -> Seq<char> {
    if doas {
        "doas "@
    } else {
        Seq::<char>::empty()
    }
}

/// `cmd`, run through doas when `doas` is set.
pub fn maybe_doas(cmd: &str, doas: bool) -> (r: String)
    ensures
        r@ == prefix(doas) + cmd@,
{
    if doas {
        cat("doas ", cmd)
    } else {
        let r = String::from_str(cmd);
        assert(r@ =~= prefix(doas) + cmd@);
        r
    }
}

/// Runs a list of steps in order. It ends at the first failed required
/// step, with that failure's message; failed optional steps are passed over.
pub struct Script {
    /// The steps not yet handed out, the next one last.
    pub pending: Vec<Step>,
    /// Whether the step whose outcome is awaited must succeed.
    pub awaiting_required: bool,
}

/// `s` from its last element to its first.
pub open spec fn backwards(s: Seq<Step>) -> Seq<Step> {
    Seq::new(s.len(), |i: int| s[s.len() - 1 - i])
}

/// What a script does with the steps `rest` still to hand out.
pub open spec fn script_next(rest: Seq<Step>) -> Action<Result<(), String>> {
    if rest.len() == 0 {
        Action::Finish(Ok(()))
    } else {
        Action::Perform(rest[0].op)
    }
}

/// Whether `sc`, just started on a plan that does `plan`, asked for its first step with `a`.
pub open spec fn starts_plan<T>(sc: Script, a: Action<T>, plan: Seq<(bool, Option<Seq<char>>)>) -> bool {
    plan.len() > 0 && a is Perform && step_view(Step { op: a->Perform_0, required: sc.awaiting_required })
        == plan[0] && plan_view(sc.rest()) == plan.drop_first()
}

/// Starts a script on a plan of at least one step.
pub fn start_plan(steps: Vec<Step>) -> (r: (Script, Action<Result<(), String>>))
    requires
        steps@.len() > 0,
    ensures
        starts_plan(r.0, r.1, plan_view(steps@)),
        r.0.rest() == steps@.drop_first(),
{
    let ghost sv = steps@;
    let r = Script::new(steps);
    assert(plan_view(sv.drop_first()) =~= plan_view(sv).drop_first());
    r
}

/// `new` is `old` after handing out its next step.
pub open spec fn stepped(old: Script, new: Script) -> bool {
    old.rest().len() > 0 && new.rest() == old.rest().drop_first() && new.awaiting_required
        == old.rest()[0].required
}

impl Script {
    /// What the script asks for after `outcome`.
    pub open spec fn next_for(&self, outcome: Outcome) -> Action<Result<(), String>> {
        if outcome is Failed && self.awaiting_required {
            Action::Finish(Err(outcome->Failed_0))
        } else {
            script_next(self.rest())
        }
    }

    /// The steps not yet handed out, in order.
    pub open spec fn rest(&self) -> Seq<Step> {
        backwards(self.pending@)
    }

    /// Hands out the next step, or finishes.
    fn advance(&mut self) -> (r: Action<Result<(), String>>)
        ensures
            r == script_next(old(self).rest()),
            old(self).rest().len() > 0 ==> final(self).rest() == old(self).rest().drop_first()
                && final(self).awaiting_required == old(self).rest()[0].required,
            old(self).rest().len() == 0 ==> final(self).rest().len() == 0,
    {
        match self.pending.pop() {
            Some(st) => {
                assert(old(self).rest().drop_first() =~= self.rest());
                self.awaiting_required = st.required;
                Action::Perform(st.op)
            },
            None => Action::Finish(Ok(())),
        }
    }

    /// A script over `steps`, and what it asks for first.
    pub fn new(steps: Vec<Step>) -> (r: (Script, Action<Result<(), String>>))
        ensures
            r.1 == script_next(steps@),
            steps@.len() > 0 ==> r.0.rest() == steps@.drop_first() && r.0.awaiting_required
                == steps@[0].required,
            steps@.len() == 0 ==> r.0.rest().len() == 0,
    {
        let ghost all = steps@;
        let mut steps = steps;
        let mut pending: Vec<Step> = Vec::new();
        while steps.len() > 0
            invariant
                steps@.len() <= all.len(),
                steps@ == all.subrange(0, steps@.len() as int),
                backwards(pending@) == all.subrange(steps@.len() as int, all.len() as int),
            decreases steps.len(),
        {
            let st = steps.pop().unwrap();
            let ghost k: int = steps@.len() as int;
            assert(st == all[k as int]);
            let ghost prev = pending@;
            assert(backwards(prev) == all.subrange(k + 1, all.len() as int));
            pending.push(st);
            assert forall|i: int| 0 <= i < pending@.len() implies #[trigger] backwards(pending@)[i]
                == all.subrange(k as int, all.len() as int)[i] by {
                if i > 0 {
                    assert(backwards(pending@)[i] == pending@[pending@.len() - 1 - i]);
                    assert(pending@[pending@.len() - 1 - i] == prev[prev.len() - 1 - (i - 1)]);
                    assert(backwards(prev)[i - 1] == prev[prev.len() - 1 - (i - 1)]);
                    assert(all.subrange(k + 1, all.len() as int)[i - 1] == all[k + i]);
                } else {
                    assert(backwards(pending@)[0] == pending@[pending@.len() - 1]);
                }
            }
            assert(backwards(pending@) =~= all.subrange(k as int, all.len() as int));
        }
        assert(all.subrange(0, all.len() as int) =~= all);
        let mut sc = Script { pending, awaiting_required: false };
        let a = sc.advance();
        (sc, a)
    }

    /// Takes the outcome of the awaited step.
    pub fn resume(&mut self, outcome: Outcome) -> (r: Action<Result<(), String>>)
        ensures
            r == old(self).next_for(outcome),
            r is Perform ==> stepped(*old(self), *final(self)),
            !(outcome is Failed && old(self).awaiting_required) && old(self).rest().len() > 0
                ==> final(self).rest() == old(self).rest().drop_first()
                && final(self).awaiting_required == old(self).rest()[0].required,
    {
        match outcome {
            Outcome::Failed(m) => {
                if self.awaiting_required {
                    return Action::Finish(Err(m));
                }
            },
            Outcome::Succeeded(_) => {},
        }
        self.advance()
    }
}

/// Whether `a` asks to run exactly the command `cmd`.
pub open spec fn runs<T>(a: Action<T>, cmd: Seq<char>) -> bool {
    a is Perform && a->Perform_0 is Exec && a->Perform_0->Exec_0@ == cmd
}

/// The view of an optional string.
pub open spec fn opt_view(o: Option<String>) -> Option<Seq<char>> {
    match o {
        Some(s) => Some(s@),
        None => None,
    }
}

/// The first field of the last line of `df` on `path`: the device or dataset behind it.
pub open spec fn df_command(path: Seq<char>) -> Seq<char> {
    "df "@ + shell_word(path) + " | tail -n 1 | awk '{print $1}'"@
}

/// Asks ZFS for the dataset `name`, directly or through doas.
pub open spec fn zfs_list_command(doas: bool, name: Seq<char>) -> Seq<char> {
    prefix(doas) + "zfs list -H -o name "@ + shell_word(name) + " 2>/dev/null"@
}

/// What `df` reported, if it can name a dataset: not empty and not a path.
pub open spec fn dataset_candidate(out: Seq<char>) -> Option<Seq<char>> {
    let c = trim(out);
    if c.len() == 0 || c[0] == '/' {
        None
    } else {
        Some(c)
    }
}

/// The dataset that `zfs list` printed, if any.
pub open spec fn listed_dataset(out: Seq<char>) -> Option<Seq<char>> {
    if trim(out).len() == 0 {
        None
    } else {
        Some(trim(out))
    }
}

/// Where a dataset lookup stands.
pub enum DatasetStage {
    /// Waiting for `df`.
    Df,
    /// Waiting for `zfs list` on the candidate.
    List(String),
    /// Waiting for `doas zfs list` on the candidate.
    DoasList(String),
}

/// Finds the ZFS dataset behind a path; on a host or path without ZFS it
/// finds none.
pub struct DatasetProbe {
    pub stage: DatasetStage,
}

fn finish_listed(out: &str) -> (r: Option<String>)
    ensures
        opt_view(r) == listed_dataset(out@),
{
    let t = trimmed(out);
    if t.as_str().is_empty() {
        None
    } else {
        Some(t)
    }
}

/// Starts looking up the dataset behind `path`.
pub fn get_zfs_dataset(path: &str) -> (r: (DatasetProbe, Action<Option<String>>))
    ensures
        r.0.stage is Df,
        runs(r.1, df_command(path@)),
{
    let cmd = cat(cat("df ", escape(path).as_str()).as_str(), " | tail -n 1 | awk '{print $1}'");
    (DatasetProbe { stage: DatasetStage::Df }, Action::Perform(Op::Exec(cmd)))
}

impl DatasetProbe {
    /// Takes the outcome of the last command.
    pub fn resume(&mut self, outcome: Outcome) -> (r: Action<Option<String>>)
        ensures
            match old(self).stage {
                DatasetStage::Df => match outcome {
                    Outcome::Failed(_) => r == Action::<Option<String>>::Finish(None),
                    Outcome::Succeeded(out) => match dataset_candidate(out@) {
                        None => r == Action::<Option<String>>::Finish(None),
                        Some(c) => runs(r, zfs_list_command(false, c)) && final(self).stage is List
                            && final(self).stage->List_0@ == c,
                    },
                },
                DatasetStage::List(c) => match outcome {
                    Outcome::Failed(_) => runs(r, zfs_list_command(true, c@)) && final(self).stage
                        is DoasList && final(self).stage->DoasList_0@ == c@,
                    Outcome::Succeeded(out) => r is Finish && opt_view(r->Finish_0)
                        == listed_dataset(out@),
                },
                DatasetStage::DoasList(_) => match outcome {
                    Outcome::Failed(_) => r == Action::<Option<String>>::Finish(None),
                    Outcome::Succeeded(out) => r is Finish && opt_view(r->Finish_0)
                        == listed_dataset(out@),
                },
            },
    {
        match &self.stage {
            DatasetStage::Df => match outcome {
                Outcome::Failed(_) => Action::Finish(None),
                Outcome::Succeeded(out) => {
                    let c = trimmed(out.as_str());
                    let slash = starts_with(c.as_str(), "/");
                    proof {
                        reveal_strlit("/");
                        if c@.len() > 0 {
                            assert(c@.subrange(0, 1)[0] == c@[0]);
                            if c@[0] == '/' {
                                assert(c@.subrange(0, 1) =~= "/"@);
                            }
                        }
                    }
                    assert(slash == (c@.len() > 0 && c@[0] == '/'));
                    if c.as_str().is_empty() || slash {
                        return Action::Finish(None);
                    }
                    let cmd = cat(
                        cat("zfs list -H -o name ", escape(c.as_str()).as_str()).as_str(),
                        " 2>/dev/null",
                    );
                    assert(cmd@ =~= zfs_list_command(false, c@));
                    self.stage = DatasetStage::List(c);
                    Action::Perform(Op::Exec(cmd))
                },
            },
            DatasetStage::List(c) => match outcome {
                Outcome::Failed(_) => {
                    let cmd = cat(
                        cat("doas zfs list -H -o name ", escape(c.as_str()).as_str()).as_str(),
                        " 2>/dev/null",
                    );
                    proof {
                        reveal_strlit("doas ");
                        reveal_strlit("zfs list -H -o name ");
                        reveal_strlit("doas zfs list -H -o name ");
                    }
                    assert(cmd@ =~= zfs_list_command(true, c@));
                    let c2 = c.clone();
                    self.stage = DatasetStage::DoasList(c2);
                    Action::Perform(Op::Exec(cmd))
                },
                Outcome::Succeeded(out) => Action::Finish(finish_listed(out.as_str())),
            },
            DatasetStage::DoasList(_) => match outcome {
                Outcome::Failed(_) => Action::Finish(None),
                Outcome::Succeeded(out) => Action::Finish(finish_listed(out.as_str())),
            },
        }
    }
}

/// The release that `uname -r` printed.
pub fn get_os_release(output: &str) -> (r: String)
    ensures
        r@ == trim(output@),
{
    trimmed(output)
}

/// What a step does: whether it must succeed, and the command it runs.
pub open spec fn step_view(s: Step) -> (bool, Option<Seq<char>>) {
    (s.required, exec_of(s))
}

/// What the steps of a plan do.
pub open spec fn plan_view(steps: Seq<Step>) -> Seq<(bool, Option<Seq<char>>)> {
    steps.map_values(|s: Step| step_view(s))
}

/// A step that runs `c` and must succeed.
pub open spec fn must_run(c: Seq<char>) -> (bool, Option<Seq<char>>) {
    (true, Some(c))
}

/// A step that runs `c` and may fail.
pub open spec fn may_run(c: Seq<char>) -> (bool, Option<Seq<char>>) {
    (false, Some(c))
}

/// A completion marker: written only once a build has fully succeeded.
pub enum Marker {
    /// A ZFS snapshot with this full name.
    Snapshot(Seq<char>),
    /// A file at this path.
    File(Seq<char>),
}

/// The command that succeeds exactly when the marker exists.
pub open spec fn probe_command(m: Marker) -> Seq<char> {
    match m {
        Marker::Snapshot(n) => zfs_list_command(false, n),
        Marker::File(p) => "test -f "@ + shell_word(p),
    }
}

/// The command that creates the marker.
pub open spec fn mark_command(m: Marker, doas: bool) -> Seq<char> {
    match m {
        Marker::Snapshot(n) => prefix(doas) + "zfs snapshot "@ + shell_word(n),
        Marker::File(p) => prefix(doas) + "touch "@ + shell_word(p),
    }
}

/// Executable form of `probe_command` for a snapshot (`snapshot`) or a file.
pub fn probe_marker(snapshot: bool, name: &str) -> (r: String)
    ensures
        r@ == probe_command(if snapshot { Marker::Snapshot(name@) } else { Marker::File(name@) }),
{
    let w = escape(name);
    if snapshot {
        let r = cmd3(false, "zfs list -H -o name ", w.as_str(), " 2>/dev/null");
        assert(r@ =~= zfs_list_command(false, name@));
        r
    } else {
        let r = cat("test -f ", w.as_str());
        r
    }
}

/// Executable form of `mark_command` for a snapshot (`snapshot`) or a file.
pub fn mark_marker(snapshot: bool, name: &str, doas: bool) -> (r: String)
    ensures
        r@ == mark_command(if snapshot { Marker::Snapshot(name@) } else { Marker::File(name@) }, doas),
{
    let w = escape(name);
    let r = if snapshot {
        cmd2(doas, "zfs snapshot ", w.as_str())
    } else {
        cmd2(doas, "touch ", w.as_str())
    };
    r
}

/// What an operation does, over views.
pub enum OpView {
    Run(Seq<char>),
    /// Content, path, privileged.
    Write(Seq<char>, Seq<char>, bool),
    /// Source, destination, exclusions, privileged.
    Mirror(Seq<char>, Seq<char>, Seq<Seq<char>>, bool),
}

pub open spec fn op_view(op: Op) -> OpView {
    match op {
        Op::Exec(c) => OpView::Run(c@),
        Op::WriteFile { content, path, privileged } => OpView::Write(content@, path@, privileged),
        Op::Sync { source, dest, excludes, privileged } => OpView::Mirror(
            source@,
            dest@,
            crate::order::views(excludes@),
            privileged,
        ),
    }
}

/// Whether each step must succeed, and what it does.
pub open spec fn full_view(steps: Seq<Step>) -> Seq<(bool, OpView)> {
    steps.map_values(|s: Step| (s.required, op_view(s.op)))
}

} // verus!
