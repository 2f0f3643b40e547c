//! Removing everything a service has on a host.
use vstd::prelude::*;

use crate::constants::{ACTIVE_DIR, CADDY_CONF_DIR, JAILS_DIR};
use crate::error::DeployError;
use crate::order::views;
use crate::remote::{stepped, 
    get_zfs_dataset, maybe_doas, may, may_run, plan_view, prefix, runs, start_plan, starts_plan, Action,
    DatasetProbe, Op, Outcome, Script, Step,
};
use crate::shell::{escape, shell_word};
use crate::teardown::{jail_ip_query, teardown, Teardown};
use crate::text::{cat, cmd2, cmd3};

verus! {

/// The command that lists the jails of `service`: the entries of the
/// jails' directory named `{service}-...`.
pub open spec fn listing_command(service: Seq<char>) -> Seq<char> {
    "ls /usr/local/bsdeploy/jails/ | grep -e "@ + shell_word("^"@ + service + "-"@) + " || true"@
}

/// Executable form of `listing_command`.
pub fn jail_listing(service: &str) -> (r: String)
    ensures
        r@ == listing_command(service@),
{
    cmd3(false, "ls /usr/local/bsdeploy/jails/ | grep -e ", escape(cat("^", service).concat("-").as_str()).as_str(), " || true")
}

/// The commands that remove a service's active link and proxy
/// configuration, then reload the proxy, each best effort.
pub open spec fn service_removal_plan(service: Seq<char>, doas: bool) -> Seq<(bool, Option<Seq<char>>)> {
    seq![
        may_run(prefix(doas) + "rm -f "@ + shell_word(ACTIVE_DIR@ + "/"@ + service)),
        may_run(prefix(doas) + "rm -f "@ + shell_word(CADDY_CONF_DIR@ + "/"@ + service + ".caddy"@)),
        may_run(prefix(doas) + "service caddy reload"@),
    ]
}

/// The last steps of removing a service: its active link, its proxy
/// configuration, and a proxy reload, each best effort.
pub fn removal_steps(service: &str, doas: bool) -> (r: Vec<Step>)
    ensures
        plan_view(r@) == service_removal_plan(service@, doas),
{
    let mut r: Vec<Step> = Vec::new();
    let link = cat(ACTIVE_DIR, "/").concat(service);
    r.push(may(cmd2(doas, "rm -f ", escape(link.as_str()).as_str())));
    let conf = cat(CADDY_CONF_DIR, "/").concat(service).concat(".caddy");
    r.push(may(cmd2(doas, "rm -f ", escape(conf.as_str()).as_str())));
    r.push(may(maybe_doas("service caddy reload", doas)));
    assert(plan_view(r@) =~= service_removal_plan(service@, doas));
    r
}

/// The jails of `service` that the outcome of the listing names (none if it failed).
pub open spec fn listed_jails(outcome: Outcome, service: Seq<char>) -> Seq<Seq<char>> {
    match outcome {
        Outcome::Succeeded(out) => crate::jail::service_jails(out@, service),
        Outcome::Failed(_) => Seq::<Seq<char>>::empty(),
    }
}

/// Where a service's removal stands.
pub enum DestroyStage {
    /// Looking up the dataset that holds the jails.
    Survey(DatasetProbe),
    /// Waiting for the list of the service's jails.
    List,
    /// Removing one jail; the others still to remove.
    Jails(Teardown, Vec<String>),
    /// Removing the link and the proxy configuration.
    Finishing(Script),
    /// Done.
    Over,
}

/// The removal of a service from one host. It never fails: every step is
/// best effort.
pub struct HostDestroy {
    pub service: String,
    pub jails_parent: Option<String>,
    pub doas: bool,
    pub stage: DestroyStage,
}

impl HostDestroy {
    pub open spec fn wf(&self) -> bool {
        self.stage is Jails ==> self.stage->Jails_0.wf()
    }

    /// Starts removing the first of `rest`, or finishes.
    fn next_jail(&mut self, rest: Vec<String>) -> (r: Action<Result<(), DeployError>>)
        ensures
            final(self).wf(),
            final(self).service == old(self).service,
            final(self).doas == old(self).doas,
            r is Finish ==> r->Finish_0 is Ok,
            rest@.len() > 0 ==> final(self).stage is Jails && final(self).stage->Jails_0.name@ == rest@[0]@
                && views(final(self).stage->Jails_1@) == views(rest@).drop_first() && runs(
                r,
                jail_ip_query(rest@[0]@),
            ),
            rest@.len() == 0 ==> final(self).stage is Finishing && starts_plan(
                final(self).stage->Finishing_0,
                r,
                service_removal_plan(old(self).service@, old(self).doas),
            ),
    {
        let mut rest = rest;
        if rest.len() > 0 {
            let ghost before = rest@;
            let name = rest.remove(0);
            assert(views(rest@) =~= views(before).drop_first());
            let (t, a) = teardown(name.as_str(), None, self.jails_parent.clone(), self.doas);
            self.stage = DestroyStage::Jails(t, rest);
            match a {
                Action::Perform(op) => Action::Perform(op),
                Action::Finish(_) => Action::Finish(Ok(())),
            }
        } else {
            self.finish()
        }
    }

    fn finish(&mut self) -> (r: Action<Result<(), DeployError>>)
        ensures
            final(self).wf(),
            final(self).service == old(self).service,
            final(self).doas == old(self).doas,
            r is Finish ==> r->Finish_0 is Ok,
            final(self).stage is Finishing,
            starts_plan(final(self).stage->Finishing_0, r, service_removal_plan(old(self).service@, old(self).doas)),
    {
        let steps = removal_steps(self.service.as_str(), self.doas);
        assert(plan_view(steps@).len() == steps@.len());
        let (sc, a) = start_plan(steps);
        self.stage = DestroyStage::Finishing(sc);
        match a {
            Action::Perform(op) => Action::Perform(op),
            Action::Finish(_) => Action::Finish(Ok(())),
        }
    }

    /// Takes the outcome of the last operation.
    pub fn resume(&mut self, outcome: Outcome) -> (r: Action<Result<(), DeployError>>)
        requires
            old(self).wf(),
        ensures
            final(self).wf(),
            final(self).service == old(self).service,
            r is Finish ==> r->Finish_0 is Ok,
            old(self).stage is Survey ==> (final(self).stage is Survey && r is Perform) || (
            final(self).stage is List && runs(r, listing_command(old(self).service@))),
            old(self).stage is List ==> {
                let v = listed_jails(outcome, old(self).service@);
                &&& v.len() > 0 ==> final(self).stage is Jails && final(self).stage->Jails_0.name@ == v[0]
                    && views(final(self).stage->Jails_1@) == v.drop_first() && runs(r, jail_ip_query(v[0]))
                &&& v.len() == 0 ==> final(self).stage is Finishing && starts_plan(
                    final(self).stage->Finishing_0,
                    r,
                    service_removal_plan(old(self).service@, old(self).doas),
                )
            },
            old(self).stage is Jails ==> {
                let t = old(self).stage->Jails_0;
                let rest = views(old(self).stage->Jails_1@);
                &&& !t.done(outcome) ==> final(self).stage is Jails && views(final(self).stage->Jails_1@) == rest
                    && r is Perform && t.moves(final(self).stage->Jails_0, outcome, Action::<()>::Perform(r->Perform_0))
                    && r->Perform_0 is Exec && final(self).stage->Jails_0.concerns(r->Perform_0->Exec_0@)
                &&& t.done(outcome) && rest.len() > 0 ==> final(self).stage is Jails && final(self).stage->Jails_0.name@
                    == rest[0] && views(final(self).stage->Jails_1@) == rest.drop_first() && runs(
                    r,
                    jail_ip_query(rest[0]),
                )
                &&& t.done(outcome) && rest.len() == 0 ==> final(self).stage is Finishing && starts_plan(
                    final(self).stage->Finishing_0,
                    r,
                    service_removal_plan(old(self).service@, old(self).doas),
                )
            },
            old(self).stage is Finishing ==> match old(self).stage->Finishing_0.next_for(outcome) {
                Action::Perform(op) => r == Action::<Result<(), DeployError>>::Perform(op)
                    && final(self).stage is Finishing && stepped(
                    old(self).stage->Finishing_0,
                    final(self).stage->Finishing_0,
                ),
                Action::Finish(_) => r == Action::<Result<(), DeployError>>::Finish(Ok(())),
            },
    {
        let mut stage = DestroyStage::Over;
        core::mem::swap(&mut stage, &mut self.stage);
        match stage {
            DestroyStage::Survey(mut p) => match p.resume(outcome) {
                Action::Perform(op) => {
                    self.stage = DestroyStage::Survey(p);
                    Action::Perform(op)
                },
                Action::Finish(ds) => {
                    self.jails_parent = ds;
                    self.stage = DestroyStage::List;
                    Action::Perform(Op::Exec(jail_listing(self.service.as_str())))
                },
            },
            DestroyStage::List => {
                let names = match &outcome {
                    Outcome::Succeeded(out) => crate::jail::list_service_jails(out.as_str(), self.service.as_str()),
                    Outcome::Failed(_) => Vec::new(),
                };
                assert(views(names@) =~= listed_jails(outcome, self.service@));
                self.next_jail(names)
            },
            DestroyStage::Jails(mut t, rest) => match t.resume(outcome) {
                Action::Perform(op) => {
                    self.stage = DestroyStage::Jails(t, rest);
                    Action::Perform(op)
                },
                Action::Finish(_) => self.next_jail(rest),
            },
            DestroyStage::Finishing(mut sc) => match sc.resume(outcome) {
                Action::Perform(op) => {
                    self.stage = DestroyStage::Finishing(sc);
                    Action::Perform(op)
                },
                Action::Finish(_) => Action::Finish(Ok(())),
            },
            DestroyStage::Over => Action::Finish(Ok(())),
        }
    }
}

/// Starts removing the jails, active link and proxy configuration of
/// `service` from a host: first the dataset that holds the jails.
pub fn destroy_host(service: &str, doas: bool) -> (r: (HostDestroy, Action<Result<(), DeployError>>))
    ensures
        r.0.wf(),
        r.0.stage is Survey,
        crate::remote::runs(r.1, crate::remote::df_command(JAILS_DIR@)),
{
    let (p, a) = get_zfs_dataset(JAILS_DIR);
    let d = HostDestroy { service: String::from_str(service), jails_parent: None, doas, stage: DestroyStage::Survey(p) };
    (d, match a {
        Action::Perform(op) => Action::Perform(op),
        Action::Finish(_) => Action::Finish(Ok(())),
    })
}

} // verus!
