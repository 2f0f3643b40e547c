//! Removing a jail: best effort, every step's failure ignored so that the
//! rest still runs.
use vstd::prelude::*;

use crate::base::child_dataset;
use crate::constants::JAILS_DIR;
use crate::remote::{stepped, runs, may, may_run, plan_view, prefix, start_plan, starts_plan, step_view, Action, Op, Outcome, Script, Step};
use crate::shell::{escape, shell_word};
use crate::text::{trim, cat, cmd2, cmd3, has_prefix, lines_of, nonblank_lines, starts_with, trimmed};

verus! {

/// The root of the jail `name`.
pub open spec fn jail_path(name: Seq<char>) -> Seq<char> {
    JAILS_DIR@ + "/"@ + name
}

/// The command that prints the address of the running jail `name`, or `-`.
pub open spec fn jail_ip_query(name: Seq<char>) -> Seq<char> {
    "jls -j "@ + shell_word(name) + " ip4.addr 2>/dev/null || echo '-'"@
}

/// The command that lists the mount points whose line mentions `path`.
pub open spec fn mount_query(path: Seq<char>) -> Seq<char> {
    "mount | grep -F "@ + shell_word(path) + " | awk '{print $3}'"@
}

/// Whether the mount point `m` lies in the tree at `path`.
pub open spec fn within(m: Seq<char>, path: Seq<char>) -> bool {
    m == path || has_prefix(m, path + "/"@)
}

/// Whether `c` is a command of the removal of the jail `name` rooted at
/// `path`, whose address is `ip`: it touches that jail, its address, the
/// mounts inside its tree and its storage, and nothing else.
pub open spec fn removal_command(
    c: Seq<char>,
    name: Seq<char>,
    path: Seq<char>,
    ip: Option<Seq<char>>,
    jails_parent: Option<Seq<char>>,
    doas: bool,
) -> bool {
    ||| c == jail_ip_query(name)
    ||| c == prefix(doas) + "jail -r "@ + shell_word(name) + " 2>/dev/null"@
    ||| (ip is Some && c == prefix(doas) + "ifconfig lo1 inet "@ + shell_word(ip->Some_0) + " -alias"@)
    ||| c == mount_query(path)
    ||| (exists|m: Seq<char>| #[trigger] within(m, path) && c == prefix(doas) + "umount -f "@ + shell_word(m))
    ||| (jails_parent is Some && c == prefix(doas) + "zfs destroy -r "@ + shell_word(
        child_dataset(jails_parent->Some_0, name),
    ))
    ||| c == prefix(doas) + "chflags -R noschg "@ + shell_word(path)
    ||| c == prefix(doas) + "rm -rf "@ + shell_word(path)
}

/// What stops the jail `name`: the jail is removed, then its address alias
/// when the address is known.
pub open spec fn stop_plan(name: Seq<char>, ip: Option<Seq<char>>, doas: bool) -> Seq<(bool, Option<Seq<char>>)> {
    seq![may_run(prefix(doas) + "jail -r "@ + shell_word(name) + " 2>/dev/null"@)] + match ip {
        Some(a) => seq![may_run(prefix(doas) + "ifconfig lo1 inet "@ + shell_word(a) + " -alias"@)],
        None => Seq::<(bool, Option<Seq<char>>)>::empty(),
    }
}

/// The unmounts of the listed mount points that lie in `path`, last listed first.
pub open spec fn unmount_plan(mounts: Seq<Seq<char>>, path: Seq<char>, doas: bool) -> Seq<(bool, Option<Seq<char>>)>
    decreases mounts.len(),
{
    if mounts.len() == 0 {
        Seq::<(bool, Option<Seq<char>>)>::empty()
    } else {
        unmount_plan(mounts.drop_first(), path, doas) + if within(mounts[0], path) {
            seq![may_run(prefix(doas) + "umount -f "@ + shell_word(mounts[0]))]
        } else {
            Seq::<(bool, Option<Seq<char>>)>::empty()
        }
    }
}

/// What removes the jail `name` rooted at `path`, given the mount points
/// listed under it: the unmounts, deepest first, then the dataset when the
/// jails live on ZFS, then the directory, every step best effort.
pub open spec fn removal_plan(
    mounts: Seq<Seq<char>>,
    name: Seq<char>,
    path: Seq<char>,
    jails_parent: Option<Seq<char>>,
    doas: bool,
) -> Seq<(bool, Option<Seq<char>>)> {
    unmount_plan(mounts, path, doas) + match jails_parent {
        Some(p) => seq![may_run(prefix(doas) + "zfs destroy -r "@ + shell_word(child_dataset(p, name)))],
        None => Seq::<(bool, Option<Seq<char>>)>::empty(),
    } + seq![
        may_run(prefix(doas) + "chflags -R noschg "@ + shell_word(path)),
        may_run(prefix(doas) + "rm -rf "@ + shell_word(path)),
    ]
}

/// The mount points in the outcome of the mount listing (none if it failed).
pub open spec fn listed_mounts(outcome: Outcome) -> Seq<Seq<char>> {
    match outcome {
        Outcome::Succeeded(out) => nonblank_lines(out@),
        Outcome::Failed(_) => nonblank_lines(Seq::<char>::empty()),
    }
}

/// Where a removal stands.
pub enum TeardownStage {
    /// Waiting for the jail's address.
    QueryIp,
    /// Stopping the jail and removing its address.
    Stopping(Script),
    /// Waiting for the list of mounts.
    ListMounts,
    /// Unmounting and removing the storage.
    Removing(Script),
    /// Done.
    Over,
}

/// Removes a jail: stops it, removes its address alias, unmounts what is
/// mounted in its tree (deepest first, from the live mount table), and
/// destroys its dataset or directory.
pub struct Teardown {
    pub name: String,
    pub path: String,
    pub ip: Option<String>,
    /// The dataset that holds the jails, when they live on ZFS.
    pub jails_parent: Option<String>,
    pub doas: bool,
    pub stage: TeardownStage,
}

impl Teardown {
    pub open spec fn concerns(&self, c: Seq<char>) -> bool {
        removal_command(
            c,
            self.name@,
            self.path@,
            crate::remote::opt_view(self.ip),
            crate::remote::opt_view(self.jails_parent),
            self.doas,
        )
    }

    /// Every step still to run concerns this jail alone.
    pub open spec fn all_concern(&self, steps: Seq<Step>) -> bool {
        forall|i: int| 0 <= i < steps.len() ==> (#[trigger] steps[i]).op is Exec && self.concerns(
            steps[i].op->Exec_0@,
        )
    }

    pub open spec fn wf(&self) -> bool {
        &&& self.path@ == jail_path(self.name@)
        &&& self.stage is Stopping ==> self.all_concern(self.stage->Stopping_0.rest())
        &&& self.stage is Removing ==> self.all_concern(self.stage->Removing_0.rest())
            && !self.stage->Removing_0.awaiting_required && (forall|i: int|
            0 <= i < self.stage->Removing_0.rest().len()
                ==> !(#[trigger] self.stage->Removing_0.rest()[i]).required)
    }

    fn stop_steps(&self) -> (r: Vec<Step>)
        requires
            self.path@ == jail_path(self.name@),
        ensures
            self.all_concern(r@),
            r@.len() > 0,
            plan_view(r@) == stop_plan(self.name@, crate::remote::opt_view(self.ip), self.doas),
    {
        let mut r: Vec<Step> = Vec::new();
        r.push(may(cmd3(self.doas, "jail -r ", escape(self.name.as_str()).as_str(), " 2>/dev/null")));
        match &self.ip {
            Some(ip) => {
                r.push(may(cmd3(self.doas, "ifconfig lo1 inet ", escape(ip.as_str()).as_str(), " -alias")));
            },
            None => {},
        }
        assert(plan_view(r@) =~= stop_plan(self.name@, crate::remote::opt_view(self.ip), self.doas));
        r
    }

    fn removal_steps(&self, mounts: &str) -> (r: Vec<Step>)
        requires
            self.path@ == jail_path(self.name@),
        ensures
            self.all_concern(r@),
            r@.len() >= 2,
            step_view(r@.last()) == may_run(prefix(self.doas) + "rm -rf "@ + shell_word(self.path@)),
            (forall|i: int| 0 <= i < r@.len() ==> !(#[trigger] r@[i]).required),
            plan_view(r@) == removal_plan(
                nonblank_lines(mounts@),
                self.name@,
                self.path@,
                crate::remote::opt_view(self.jails_parent),
                self.doas,
            ),
    {
        let doas = self.doas;
        let lines = lines_of(mounts);
        let inside = cat(self.path.as_str(), "/");
        let mut r: Vec<Step> = Vec::new();
        let ghost lv = nonblank_lines(mounts@);
        let mut i: usize = lines.len();
        assert(lv.subrange(lines.len() as int, lines.len() as int) =~= Seq::<Seq<char>>::empty());
        while i > 0
            invariant
                i <= lines.len(),
                inside@ == self.path@ + "/"@,
                doas == self.doas,
                crate::order::views(lines@) == lv,
                self.all_concern(r@),
                forall|k: int| 0 <= k < r@.len() ==> !(#[trigger] r@[k]).required,
                plan_view(r@) == unmount_plan(lv.subrange(i as int, lv.len() as int), self.path@, doas),
            decreases i,
        {
            i = i - 1;
            let ghost tail = lv.subrange(i as int, lv.len() as int);
            assert(tail.drop_first() =~= lv.subrange(i + 1, lv.len() as int));
            assert(tail[0] == lines@[i as int]@);
            let ghost prev = plan_view(r@);
            let m = lines[i].as_str();
            if lines[i] == self.path || starts_with(m, inside.as_str()) {
                let c = cmd2(doas, "umount -f ", escape(m).as_str());
                proof {
                    assert(within(m@, self.path@) && c@ == prefix(doas) + "umount -f "@ + shell_word(m@));
                }
                r.push(may(c));
                assert(plan_view(r@) =~= prev.push(may_run(prefix(doas) + "umount -f "@ + shell_word(m@))));
            } else {
                assert(!within(m@, self.path@));
            }
            assert(plan_view(r@) =~= unmount_plan(tail, self.path@, doas));
        }
        assert(lv.subrange(0, lv.len() as int) =~= lv);
        let ghost um = plan_view(r@);
        match &self.jails_parent {
            Some(p) => {
                let ds = cat(p.as_str(), "/").concat(self.name.as_str());
                r.push(may(cmd2(doas, "zfs destroy -r ", escape(ds.as_str()).as_str())));
            },
            None => {},
        }
        let wpath = escape(self.path.as_str());
        r.push(may(cmd2(doas, "chflags -R noschg ", wpath.as_str())));
        r.push(may(cmd2(doas, "rm -rf ", wpath.as_str())));
        assert(plan_view(r@) =~= removal_plan(lv, self.name@, self.path@, crate::remote::opt_view(self.jails_parent), doas));
        r
    }

    fn start_stopping(&mut self) -> (r: Action<()>)
        requires
            old(self).path@ == jail_path(old(self).name@),
        ensures
            final(self).wf(),
            final(self).name == old(self).name,
            final(self).path == old(self).path,
            final(self).ip == old(self).ip,
            final(self).jails_parent == old(self).jails_parent,
            final(self).doas == old(self).doas,
            r is Perform ==> r->Perform_0 is Exec && final(self).concerns(r->Perform_0->Exec_0@),
            final(self).stage is Stopping,
            starts_plan(
                final(self).stage->Stopping_0,
                r,
                stop_plan(old(self).name@, crate::remote::opt_view(old(self).ip), old(self).doas),
            ),
    {
        let steps = self.stop_steps();
        let (sc, a) = start_plan(steps);
        self.stage = TeardownStage::Stopping(sc);
        match a {
            Action::Perform(op) => Action::Perform(op),
            Action::Finish(_) => Action::Finish(()),
        }
    }

    /// Whether the steps still to run end by removing the jail's root, and
    /// none of them stops the removal when it fails.
    pub open spec fn ends_with_root_removal(&self, steps: Seq<Step>) -> bool {
        &&& steps.len() > 0
        &&& step_view(steps.last()) == may_run(prefix(self.doas) + "rm -rf "@ + shell_word(self.path@))
        &&& forall|i: int| 0 <= i < steps.len() ==> !(#[trigger] steps[i]).required
    }

    /// Whether the removal is over after `outcome`: the last removal step
    /// has been handed out and answered, or it was over already.
    pub open spec fn done(&self, outcome: Outcome) -> bool {
        (self.stage is Removing && self.stage->Removing_0.next_for(outcome) is Finish) || self.stage is Over
    }

    /// The address that the removal uses after the `jls` query answered
    /// `outcome`: the one it knew, else what `jls` printed unless that is
    /// empty or `-`.
    pub open spec fn address_after(&self, outcome: Outcome) -> Option<Seq<char>> {
        match self.ip {
            Some(a) => Some(a@),
            None => match outcome {
                Outcome::Succeeded(out) => if trim(out@).len() > 0 && trim(out@) != "-"@ {
                    Some(trim(out@))
                } else {
                    None
                },
                Outcome::Failed(_) => None,
            },
        }
    }

    /// One step of the removal: `new` is this removal after `outcome`, and
    /// `r` is what it asks for next.
    pub open spec fn moves(&self, new: Teardown, outcome: Outcome, r: Action<()>) -> bool {
        &&& new.name == self.name && new.path == self.path && new.jails_parent == self.jails_parent
            && new.doas == self.doas
        &&& self.stage is QueryIp ==> crate::remote::opt_view(new.ip) == self.address_after(outcome)
            && new.stage is Stopping && starts_plan(
            new.stage->Stopping_0,
            r,
            stop_plan(self.name@, self.address_after(outcome), self.doas),
        )
        &&& !(self.stage is QueryIp) ==> new.ip == self.ip
        &&& self.stage is Stopping ==> match self.stage->Stopping_0.next_for(outcome) {
            Action::Perform(op) => r == Action::<()>::Perform(op) && new.stage is Stopping && stepped(
                self.stage->Stopping_0,
                new.stage->Stopping_0,
            ),
            Action::Finish(_) => runs(r, mount_query(self.path@)) && new.stage is ListMounts,
        }
        &&& self.stage is ListMounts ==> new.stage is Removing && starts_plan(
            new.stage->Removing_0,
            r,
            removal_plan(
                listed_mounts(outcome),
                self.name@,
                self.path@,
                crate::remote::opt_view(self.jails_parent),
                self.doas,
            ),
        )
        &&& self.stage is Removing ==> match self.stage->Removing_0.next_for(outcome) {
            Action::Perform(op) => r == Action::<()>::Perform(op) && new.stage is Removing && stepped(
                self.stage->Removing_0,
                new.stage->Removing_0,
            ),
            Action::Finish(_) => r is Finish,
        }
        &&& r is Finish <==> self.done(outcome)
    }

    /// Takes the outcome of the last operation. Every command it asks for
    /// concerns this jail alone; once the mounts are listed, the steps that
    /// remain end by removing the jail's root.
    pub fn resume(&mut self, outcome: Outcome) -> (r: Action<()>)
        requires
            old(self).wf(),
        ensures
            final(self).wf(),
            final(self).name == old(self).name,
            final(self).path == old(self).path,
            final(self).jails_parent == old(self).jails_parent,
            final(self).doas == old(self).doas,
            old(self).ip is Some ==> final(self).ip == old(self).ip,
            old(self).moves(*final(self), outcome, r),
            r is Perform ==> r->Perform_0 is Exec && final(self).concerns(r->Perform_0->Exec_0@),
            old(self).stage is ListMounts ==> final(self).stage is Removing && r is Perform
                && final(self).ends_with_root_removal(final(self).stage->Removing_0.rest())
                && starts_plan(
                final(self).stage->Removing_0,
                r,
                removal_plan(
                    listed_mounts(outcome),
                    old(self).name@,
                    old(self).path@,
                    crate::remote::opt_view(old(self).jails_parent),
                    old(self).doas,
                ),
            ),
            old(self).stage is QueryIp ==> final(self).stage is Stopping && starts_plan(
                final(self).stage->Stopping_0,
                r,
                stop_plan(old(self).name@, crate::remote::opt_view(final(self).ip), old(self).doas),
            ),
            old(self).stage is Stopping ==> match old(self).stage->Stopping_0.next_for(outcome) {
                Action::Perform(op) => r == Action::<()>::Perform(op) && final(self).stage is Stopping
                    && stepped(old(self).stage->Stopping_0, final(self).stage->Stopping_0),
                Action::Finish(_) => runs(r, mount_query(old(self).path@)) && final(self).stage is ListMounts,
            },
            old(self).stage is Removing ==> match old(self).stage->Removing_0.next_for(outcome) {
                Action::Perform(op) => r == Action::<()>::Perform(op) && final(self).stage is Removing
                    && stepped(old(self).stage->Removing_0, final(self).stage->Removing_0),
                Action::Finish(_) => r is Finish,
            },
            old(self).stage is Removing && old(self).ends_with_root_removal(old(self).stage->Removing_0.rest())
                ==> r is Perform && r == Action::<()>::Perform(old(self).stage->Removing_0.rest()[0].op)
                && (old(self).stage->Removing_0.rest().len() > 1 ==> final(self).stage is Removing
                && final(self).ends_with_root_removal(final(self).stage->Removing_0.rest())),
    {
        let mut stage = TeardownStage::Over;
        core::mem::swap(&mut stage, &mut self.stage);
        match stage {
            TeardownStage::QueryIp => {
                if self.ip.is_none() {
                    match outcome {
                        Outcome::Succeeded(out) => {
                            let t = trimmed(out.as_str());
                            let dash = String::from_str("-");
                            if !t.as_str().is_empty() && t != dash {
                                self.ip = Some(t);
                            }
                        },
                        Outcome::Failed(_) => {},
                    }
                }
                self.start_stopping()
            },
            TeardownStage::Stopping(mut sc) => match sc.resume(outcome) {
                Action::Perform(op) => {
                    self.stage = TeardownStage::Stopping(sc);
                    Action::Perform(op)
                },
                Action::Finish(_) => {
                    let q = cmd3(false, "mount | grep -F ", escape(self.path.as_str()).as_str(), " | awk '{print $3}'");
                    self.stage = TeardownStage::ListMounts;
                    Action::Perform(Op::Exec(q))
                },
            },
            TeardownStage::ListMounts => {
                let steps = match &outcome {
                    Outcome::Succeeded(out) => self.removal_steps(out.as_str()),
                    Outcome::Failed(_) => {
                        proof {
                            reveal_strlit("");
                        }
                        assert(""@ =~= Seq::<char>::empty());
                        self.removal_steps("")
                    },
                };
                let ghost sv = steps@;
                assert(plan_view(steps@).len() == steps@.len());
                let (sc, a) = start_plan(steps);
                assert(sv.drop_first().len() > 0 ==> sv.drop_first().last() == sv.last());
                self.stage = TeardownStage::Removing(sc);
                match a {
                    Action::Perform(op) => Action::Perform(op),
                    Action::Finish(_) => Action::Finish(()),
                }
            },
            TeardownStage::Removing(mut sc) => match sc.resume(outcome) {
                Action::Perform(op) => {
                    self.stage = TeardownStage::Removing(sc);
                    Action::Perform(op)
                },
                Action::Finish(_) => Action::Finish(()),
            },
            TeardownStage::Over => Action::Finish(()),
        }
    }
}

/// The root of the jail `name`.
pub fn jail_root(name: &str) -> (r: String)
    ensures
        r@ == jail_path(name@),
{
    cat(JAILS_DIR, "/").concat(name)
}

/// Starts removing the jail `name`. Where its address is not known, it is
/// asked of the running jail first.
pub fn teardown(name: &str, ip: Option<String>, jails_parent: Option<String>, doas: bool) -> (r: (
    Teardown,
    Action<()>,
))
    ensures
        r.0.wf(),
        r.0.name@ == name@,
        r.0.path@ == jail_path(name@),
        r.0.jails_parent == jails_parent,
        r.0.doas == doas,
        ip is Some ==> r.0.ip == ip,
        r.1 is Perform ==> r.1->Perform_0 is Exec && r.0.concerns(r.1->Perform_0->Exec_0@),
        ip is None ==> r.0.stage is QueryIp && runs(r.1, jail_ip_query(name@)),
        ip is Some ==> r.0.stage is Stopping && starts_plan(
            r.0.stage->Stopping_0,
            r.1,
            stop_plan(name@, crate::remote::opt_view(ip), doas),
        ),
{
    let known = ip.is_some();
    let mut t = Teardown {
        name: String::from_str(name),
        path: jail_root(name),
        ip,
        jails_parent,
        doas,
        stage: TeardownStage::Over,
    };
    if known {
        let a = t.start_stopping();
        (t, a)
    } else {
        let q = cmd3(false, "jls -j ", escape(name).as_str(), " ip4.addr 2>/dev/null || echo '-'");
        t.stage = TeardownStage::QueryIp;
        (t, Action::Perform(Op::Exec(q)))
    }
}

} // verus!
