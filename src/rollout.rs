//! The deployment of a service to one host, as a machine: it hands out one
//! remote operation at a time and takes back its outcome. Any failure after
//! the new jail exists removes that jail before the failure is reported.
use vstd::prelude::*;

use crate::base::{ensure_base, BaseProvision};
use crate::caddy::proxy_steps;
use crate::config::Config;
use crate::constants::{BASE_DIR, DEFAULT_IP_RANGE, IMAGES_DIR, JAILS_DIR, JAILS_TO_KEEP};
use crate::deploy::{
    determine_base_version, old_jails, pipeline_steps, prune_victims, stop_command, version_override,
};
use crate::destroy::jail_listing;
use crate::error::DeployError;
use crate::image_build::{ensure_image, ImageBuild};
use crate::jail::{create, jail_name, local_now, JailCreate, JailInfo};
use crate::remote::{full_view, stepped, get_zfs_dataset, may, Action, DatasetProbe, Op, Outcome, Script, Step};
use crate::teardown::{teardown, Teardown};
use crate::caddy::{caddyfile, proxy_conf_path};
use crate::config::ProxyConfig;
use crate::deploy::{other_jails, pid_path, prune_set, stop_script};
use crate::destroy::listing_command;
use crate::naming::decimal;
use crate::order::views;
use crate::remote::{may_run, plan_view, prefix, runs, starts_plan};
use crate::shell::shell_word;
use crate::teardown::jail_ip_query;
use crate::text::cat;

verus! {

/// Where a deployment stands.
pub enum DeployStage {
    /// Waiting for the host's release.
    Version,
    /// Looking up the datasets of the base systems (0), images (1) and jails (2).
    Survey(DatasetProbe, usize),
    /// Making sure the base system is there.
    Base(BaseProvision),
    /// Making sure the image is there.
    Image(ImageBuild),
    /// Creating the new jail.
    Create(JailCreate),
    /// From the build-phase start to the service start, on the new jail.
    Pipeline(Script),
    /// Removing the new jail after this failure.
    RollingBack(Teardown, DeployError),
    /// Pointing the proxy at the new jail.
    Proxy(Script),
    /// Waiting for the list of the service's jails, to stop the old ones.
    ListOld,
    /// Stopping the service in the old jails.
    StoppingOld(Script),
    /// Waiting for the list of the service's jails, to prune them.
    ListPrune,
    /// Removing one old jail; the others still to remove.
    Pruning(Teardown, Vec<String>),
    /// Done.
    Over,
}

/// The deployment of a service to one host.
pub struct Deployment {
    pub config: Config,
    /// The environment file, already written.
    pub env_content: String,
    /// A manually managed certificate and its key, when the proxy has one.
    pub certificates: Option<(String, String)>,
    pub version: String,
    pub base_dataset: Option<String>,
    pub images_dataset: Option<String>,
    pub jails_dataset: Option<String>,
    /// The new jail, once created.
    pub jail: Option<JailInfo>,
    pub stage: DeployStage,
}

/// The directory whose dataset the survey looks up at step `k`.
fn survey_dir(k: usize) -> (r: &'static str)
    ensures
        k == 0 ==> r@ == BASE_DIR@,
{
    if k == 0 {
        BASE_DIR
    } else if k == 1 {
        IMAGES_DIR
    } else {
        JAILS_DIR
    }
}

/// The command that stops the service inside the jail `jail`.
pub open spec fn stop_jail_command(c: Config, jail: Seq<char>) -> Seq<char> {
    prefix(c.doas) + "jexec "@ + shell_word(jail) + " sh -c "@ + shell_word(stop_script(pid_path(c)))
}

/// The best-effort stops of the service in each of `jails`, in order.
pub open spec fn stop_plan_for(c: Config, jails: Seq<Seq<char>>) -> Seq<(bool, Option<Seq<char>>)> {
    jails.map_values(|j: Seq<char>| may_run(stop_jail_command(c, j)))
}

/// The service's jails other than `current` that a listing outcome names.
pub open spec fn old_listed(outcome: Outcome, service: Seq<char>, current: Seq<char>) -> Seq<Seq<char>> {
    match outcome {
        Outcome::Succeeded(out) => other_jails(out@, service, current),
        Outcome::Failed(_) => Seq::<Seq<char>>::empty(),
    }
}

/// The jails to prune that a listing outcome gives.
pub open spec fn prune_listed(outcome: Outcome, service: Seq<char>, current: Seq<char>) -> Seq<Seq<char>> {
    match outcome {
        Outcome::Succeeded(out) => prune_set(out@, service, current, JAILS_TO_KEEP as nat),
        Outcome::Failed(_) => Seq::<Seq<char>>::empty(),
    }
}

/// The address and port the proxy sends traffic to.
pub open spec fn backend_of(ip: Seq<char>, port: u16) -> Seq<char> {
    ip + ":"@ + decimal(port as nat)
}

/// Whether `steps` point the proxy of `service` at `backend`: they end by
/// writing its configuration file and reloading the proxy.
pub open spec fn proxy_plan(steps: Seq<Step>, proxy: ProxyConfig, service: Seq<char>, backend: Seq<char>, doas: bool) -> bool {
    &&& steps.len() >= 2
    &&& steps[steps.len() - 2].required && steps[steps.len() - 2].op is WriteFile
    &&& steps[steps.len() - 2].op->WriteFile_content@ == caddyfile(proxy, service, backend)
    &&& steps[steps.len() - 2].op->WriteFile_path@ == proxy_conf_path(service)
    &&& steps.last().required && steps.last().op is Exec
    &&& steps.last().op->Exec_0@ == prefix(doas) + "service caddy reload"@
}

fn copy_info(i: &JailInfo) -> (r: JailInfo)
    ensures
        r == *i,
{
    JailInfo { name: i.name.clone(), path: i.path.clone(), ip: i.ip.clone() }
}

impl Deployment {
    /// The steps of the pipeline still to run are the end of its plan.
    pub open spec fn pipeline_rest_ok(&self) -> bool {
        let j = self.jail->Some_0;
        let plan = crate::deploy::pipeline_plan(self.config, j.name@, j.path@, j.ip@, self.env_content@);
        let rest = crate::remote::full_view(self.stage->Pipeline_0.rest());
        rest.len() <= plan.len() && rest == plan.subrange(plan.len() - rest.len(), plan.len() as int)
    }

    pub open spec fn wf(&self) -> bool {
        &&& self.stage is Image ==> self.stage->Image_0.wf()
        &&& self.stage is Pipeline ==> self.jail is Some && self.pipeline_rest_ok()
        &&& self.stage is Create ==> self.stage->Create_0.wf()
        &&& self.stage is RollingBack ==> self.stage->RollingBack_0.wf()
        &&& self.stage is Pruning ==> self.stage->Pruning_0.wf()
        &&& (self.stage is Pipeline || self.stage is Proxy || self.stage is ListOld
            || self.stage is StoppingOld || self.stage is ListPrune || self.stage is Pruning)
            ==> self.jail is Some
    }

    fn start_survey(&mut self, k: usize) -> (r: Action<Result<JailInfo, DeployError>>)
        ensures
            final(self).wf(),
            final(self).jail == old(self).jail,
            final(self).config == old(self).config,
            final(self).version == old(self).version,
            final(self).stage is Survey,
            r is Perform,
            k == 0 ==> crate::remote::runs(r, crate::remote::df_command(BASE_DIR@)),
    {
        let (p, a) = get_zfs_dataset(survey_dir(k));
        self.stage = DeployStage::Survey(p, k);
        match a {
            Action::Perform(op) => Action::Perform(op),
            Action::Finish(_) => Action::Finish(Err(DeployError::Transport(String::new()))),
        }
    }

    fn start_image(&mut self) -> (r: Action<Result<JailInfo, DeployError>>)
        ensures
            final(self).wf(),
            final(self).jail == old(self).jail,
            final(self).stage is Image,
            final(self).stage->Image_0.short@ == crate::image_build::short_of(
                crate::image::config_fingerprint(old(self).config, old(self).version@),
            ),
            runs(r, crate::remote::probe_command(final(self).stage->Image_0.marker())),
    {
        let (m, a) = ensure_image(&self.config, self.version.as_str(), self.images_dataset.clone(), self.base_dataset.clone());
        self.stage = DeployStage::Image(m);
        forward_op(a)
    }

    fn start_create(&mut self, image: crate::image_build::ImageInfo) -> (r: Action<Result<JailInfo, DeployError>>)
        ensures
            final(self).wf(),
            final(self).jail == old(self).jail,
            final(self).config == old(self).config,
            (final(self).stage is Create && final(self).stage->Create_0.stage is ListUsr && r is Perform) || r
                == Action::<Result<JailInfo, DeployError>>::Finish(Err(DeployError::ClockOutOfRange)),
    {
        let t = local_now();
        if t.year < 0 || t.year > 9999 {
            self.stage = DeployStage::Over;
            return Action::Finish(Err(DeployError::ClockOutOfRange));
        }
        let name = jail_name(self.config.service.as_str(), t);
        let subnet = match &self.config.jail {
            Some(j) => match &j.ip_range {
                Some(r) => r.clone(),
                None => String::from_str(DEFAULT_IP_RANGE),
            },
            None => String::from_str(DEFAULT_IP_RANGE),
        };
        let mut bindings: Vec<(String, String)> = Vec::new();
        let mut i: usize = 0;
        while i < self.config.data_directories.len()
            decreases self.config.data_directories.len() - i,
        {
            bindings.push(self.config.data_directories[i].get_paths());
            i = i + 1;
        }
        let (m, a) = create(name.as_str(), self.version.as_str(), subnet.as_str(), Some(image), bindings,
            self.jails_dataset.clone(), self.config.doas);
        self.stage = DeployStage::Create(m);
        a
    }

    fn start_rollback(&mut self, name: &str, ip: Option<String>, e: DeployError) -> (r: Action<Result<JailInfo, DeployError>>)
        ensures
            final(self).wf(),
            final(self).jail == old(self).jail,
            final(self).stage is RollingBack,
            final(self).stage->RollingBack_0.name@ == name@,
            ip is Some ==> final(self).stage->RollingBack_0.ip == ip,
            final(self).stage->RollingBack_0.doas == old(self).config.doas,
            final(self).stage->RollingBack_0.jails_parent == old(self).jails_dataset,
            final(self).stage->RollingBack_1 == e,
            final(self).jails_dataset == old(self).jails_dataset,
            final(self).config == old(self).config,
            r is Perform ==> r->Perform_0 is Exec && final(self).stage->RollingBack_0.concerns(r->Perform_0->Exec_0@),
            r is Finish ==> r->Finish_0 is Err,
            ip is Some ==> final(self).stage->RollingBack_0.stage is Stopping && starts_plan(
                final(self).stage->RollingBack_0.stage->Stopping_0,
                r,
                crate::teardown::stop_plan(name@, crate::remote::opt_view(ip), old(self).config.doas),
            ),
            final(self).stage->RollingBack_0.wf(),
            r is Perform,
    {
        let (t, a) = teardown(name, ip, self.jails_dataset.clone(), self.config.doas);
        self.stage = DeployStage::RollingBack(t, e);
        match a {
            Action::Perform(op) => Action::Perform(op),
            Action::Finish(_) => Action::Finish(Err(DeployError::Transport(String::new()))),
        }
    }

    fn finish_ok(&mut self) -> (r: Action<Result<JailInfo, DeployError>>)
        ensures
            final(self).wf(),
            final(self).jail == old(self).jail,
            final(self).config == old(self).config,
            old(self).jail is Some ==> r == Action::<Result<JailInfo, DeployError>>::Finish(
                Ok(old(self).jail->Some_0),
            ),
    {
        self.stage = DeployStage::Over;
        match &self.jail {
            Some(j) => Action::Finish(Ok(copy_info(j))),
            None => Action::Finish(Err(DeployError::Transport(String::new()))),
        }
    }

    fn start_list_prune(&mut self) -> (r: Action<Result<JailInfo, DeployError>>)
        requires
            old(self).jail is Some,
        ensures
            final(self).wf(),
            final(self).jail == old(self).jail,
            final(self).config == old(self).config,
            final(self).stage is ListPrune,
            runs(r, listing_command(old(self).config.service@)),
    {
        self.stage = DeployStage::ListPrune;
        Action::Perform(Op::Exec(jail_listing(self.config.service.as_str())))
    }

    fn start_list_old(&mut self) -> (r: Action<Result<JailInfo, DeployError>>)
        requires
            old(self).jail is Some,
        ensures
            final(self).wf(),
            final(self).jail == old(self).jail,
            final(self).config == old(self).config,
            final(self).stage is ListOld,
            runs(r, listing_command(old(self).config.service@)),
    {
        self.stage = DeployStage::ListOld;
        Action::Perform(Op::Exec(jail_listing(self.config.service.as_str())))
    }

    fn start_proxy(&mut self) -> (r: Action<Result<JailInfo, DeployError>>)
        requires
            old(self).jail is Some,
        ensures
            final(self).wf(),
            final(self).jail == old(self).jail,
            final(self).config == old(self).config,
            old(self).config.proxy is Some ==> final(self).stage is Proxy && exists|steps: Seq<Step>|
                proxy_plan(
                    steps,
                    old(self).config.proxy->Some_0,
                    old(self).config.service@,
                    backend_of(old(self).jail->Some_0.ip@, old(self).config.proxy->Some_0.port),
                    old(self).config.doas,
                ) && r == Action::<Result<JailInfo, DeployError>>::Perform(steps[0].op)
                    && final(self).stage->Proxy_0.rest() == steps.drop_first(),
            old(self).config.proxy is None ==> final(self).stage is ListOld && runs(
                r,
                listing_command(old(self).config.service@),
            ),
    {
        let steps = match (&self.config.proxy, &self.jail) {
            (Some(proxy), Some(j)) => {
                let backend = cat(j.ip.as_str(), ":");
                let mut port = String::new();
                crate::naming::push_decimal(&mut port, proxy.port as u32);
                let backend = backend.concat(port.as_str());
                assert(backend@ =~= backend_of(j.ip@, proxy.port));
                proxy_steps(proxy, self.config.service.as_str(), backend.as_str(), &self.certificates, self.config.doas)
            },
            _ => Vec::new(),
        };
        let ghost sv = steps@;
        let (sc, a) = Script::new(steps);
        self.stage = DeployStage::Proxy(sc);
        match a {
            Action::Perform(op) => Action::Perform(op),
            Action::Finish(_) => self.start_list_old(),
        }
    }

    /// Removes the first jail of `victims`, or finishes.
    fn prune_next(&mut self, victims: Vec<String>) -> (r: Action<Result<JailInfo, DeployError>>)
        requires
            old(self).jail is Some,
        ensures
            final(self).wf(),
            final(self).jail == old(self).jail,
            final(self).config == old(self).config,
            victims@.len() > 0 ==> final(self).stage is Pruning && final(self).stage->Pruning_0.name@
                == victims@[0]@ && views(final(self).stage->Pruning_1@) == views(victims@).drop_first()
                && runs(r, jail_ip_query(victims@[0]@)),
            victims@.len() == 0 ==> r == Action::<Result<JailInfo, DeployError>>::Finish(
                Ok(old(self).jail->Some_0),
            ),
    {
        let mut victims = victims;
        if victims.len() > 0 {
            let ghost before = victims@;
            let v = victims.remove(0);
            assert(views(victims@) =~= views(before).drop_first());
            let (t, a) = teardown(v.as_str(), None, self.jails_dataset.clone(), self.config.doas);
            self.stage = DeployStage::Pruning(t, victims);
            match a {
                Action::Perform(op) => Action::Perform(op),
                Action::Finish(_) => Action::Finish(Err(DeployError::Transport(String::new()))),
            }
        } else {
            self.finish_ok()
        }
    }

    /// Takes the outcome of the last operation.
    pub fn resume(&mut self, outcome: Outcome) -> (r: Action<Result<JailInfo, DeployError>>)
        requires
            old(self).wf(),
        ensures
            final(self).wf(),
            old(self).stage is Base && old(self).stage->Base_0.succeeds(outcome) ==> final(self).stage is Image
                && final(self).stage->Image_0.short@ == crate::image_build::short_of(
                crate::image::config_fingerprint(old(self).config, old(self).version@),
            ) && runs(r, crate::remote::probe_command(final(self).stage->Image_0.marker())),
            old(self).stage is Image && old(self).stage->Image_0.succeeds(outcome) ==> (final(self).stage is Create
                && final(self).stage->Create_0.stage is ListUsr && r is Perform) || r == Action::<
                Result<JailInfo, DeployError>,
            >::Finish(Err(DeployError::ClockOutOfRange)),
            old(self).stage is Create && old(self).stage->Create_0.succeeds(outcome) ==> final(self).stage
                is Pipeline && final(self).jail is Some && final(self).jail->Some_0.name
                == old(self).stage->Create_0.name && final(self).jail->Some_0.path
                == old(self).stage->Create_0.path && final(self).jail->Some_0.ip
                == old(self).stage->Create_0.stage->Aliasing_0 && runs(
                r,
                crate::deploy::build_phase_start(
                    final(self).jail->Some_0.name@,
                    final(self).jail->Some_0.path@,
                    old(self).config.doas,
                ),
            ),
            old(self).stage is Create && old(self).stage->Create_0.fails(outcome) ==> final(self).stage
                is RollingBack && final(self).stage->RollingBack_0.name@ == old(self).stage->Create_0.name@
                && r is Perform,
            old(self).stage is Version && outcome is Failed ==> r == Action::<Result<JailInfo, DeployError>>::Finish(
                Err(DeployError::Transport(outcome->Failed_0)),
            ),
            old(self).stage is Version && outcome is Succeeded ==> final(self).stage is Survey
                && final(self).version@ == crate::deploy::base_version_for(
                old(self).config,
                outcome->Succeeded_0@,
            ) && crate::remote::runs(r, crate::remote::df_command(BASE_DIR@)),
            old(self).stage is Pipeline && old(self).stage->Pipeline_0.next_for(outcome) is Finish
                && old(self).stage->Pipeline_0.next_for(outcome)->Finish_0 is Err ==> {
                &&& final(self).stage is RollingBack
                &&& final(self).stage->RollingBack_0.name@ == old(self).jail->Some_0.name@
                &&& final(self).stage->RollingBack_0.ip == Some(old(self).jail->Some_0.ip)
                &&& final(self).stage->RollingBack_1 == DeployError::Transport(
                    old(self).stage->Pipeline_0.next_for(outcome)->Finish_0->Err_0,
                )
                &&& final(self).stage->RollingBack_0.jails_parent == old(self).jails_dataset
                &&& final(self).stage->RollingBack_0.doas == old(self).config.doas
                &&& final(self).stage->RollingBack_0.path@ == crate::teardown::jail_path(old(self).jail->Some_0.name@)
                &&& final(self).stage->RollingBack_0.stage is Stopping
                &&& starts_plan(
                    final(self).stage->RollingBack_0.stage->Stopping_0,
                    r,
                    crate::teardown::stop_plan(
                        old(self).jail->Some_0.name@,
                        Some(old(self).jail->Some_0.ip@),
                        old(self).config.doas,
                    ),
                )
                &&& r is Perform ==> r->Perform_0 is Exec && final(self).stage->RollingBack_0.concerns(
                    r->Perform_0->Exec_0@,
                )
            },
            old(self).stage is Pipeline && old(self).stage->Pipeline_0.next_for(outcome) is Perform ==> r
                == Action::<Result<JailInfo, DeployError>>::Perform(
                old(self).stage->Pipeline_0.next_for(outcome)->Perform_0,
            ) && final(self).stage is Pipeline && stepped(
                old(self).stage->Pipeline_0,
                final(self).stage->Pipeline_0,
            ),
            old(self).stage is Pipeline && old(self).stage->Pipeline_0.next_for(outcome) == Action::<
                Result<(), String>,
            >::Finish(Ok(())) ==> match old(self).config.proxy {
                Some(p) => final(self).stage is Proxy && exists|steps: Seq<Step>|
                    proxy_plan(
                        steps,
                        p,
                        old(self).config.service@,
                        backend_of(old(self).jail->Some_0.ip@, p.port),
                        old(self).config.doas,
                    ) && r == Action::<Result<JailInfo, DeployError>>::Perform(steps[0].op)
                        && final(self).stage->Proxy_0.rest() == steps.drop_first(),
                None => final(self).stage is ListOld && runs(r, listing_command(old(self).config.service@)),
            },
            old(self).stage is Proxy ==> match old(self).stage->Proxy_0.next_for(outcome) {
                Action::Perform(op) => r == Action::<Result<JailInfo, DeployError>>::Perform(op)
                    && final(self).stage is Proxy && stepped(old(self).stage->Proxy_0, final(self).stage->Proxy_0),
                Action::Finish(Ok(())) => final(self).stage is ListOld && runs(
                    r,
                    listing_command(old(self).config.service@),
                ),
                Action::Finish(Err(m)) => r == Action::<Result<JailInfo, DeployError>>::Finish(
                    Err(DeployError::Transport(m)),
                ),
            },
            old(self).stage is ListOld ==> {
                let o = old_listed(outcome, old(self).config.service@, old(self).jail->Some_0.name@);
                &&& o.len() > 0 ==> final(self).stage is StoppingOld && starts_plan(
                    final(self).stage->StoppingOld_0,
                    r,
                    stop_plan_for(old(self).config, o),
                )
                &&& o.len() == 0 ==> final(self).stage is ListPrune && runs(
                    r,
                    listing_command(old(self).config.service@),
                )
            },
            old(self).stage is StoppingOld ==> match old(self).stage->StoppingOld_0.next_for(outcome) {
                Action::Perform(op) => r == Action::<Result<JailInfo, DeployError>>::Perform(op)
                    && final(self).stage is StoppingOld && stepped(
                    old(self).stage->StoppingOld_0,
                    final(self).stage->StoppingOld_0,
                ),
                Action::Finish(_) => final(self).stage is ListPrune && runs(
                    r,
                    listing_command(old(self).config.service@),
                ),
            },
            old(self).stage is ListPrune ==> {
                let v = prune_listed(outcome, old(self).config.service@, old(self).jail->Some_0.name@);
                &&& v.len() > 0 ==> final(self).stage is Pruning && final(self).stage->Pruning_0.name@ == v[0]
                    && views(final(self).stage->Pruning_1@) == v.drop_first() && runs(r, jail_ip_query(v[0]))
                &&& v.len() == 0 ==> r == Action::<Result<JailInfo, DeployError>>::Finish(
                    Ok(old(self).jail->Some_0),
                )
            },
            old(self).stage is Pruning ==> {
                let t = old(self).stage->Pruning_0;
                let rest = views(old(self).stage->Pruning_1@);
                &&& !t.done(outcome) ==> final(self).stage is Pruning && views(final(self).stage->Pruning_1@)
                    == rest && r is Perform && t.moves(
                    final(self).stage->Pruning_0,
                    outcome,
                    Action::<()>::Perform(r->Perform_0),
                ) && r->Perform_0 is Exec && final(self).stage->Pruning_0.concerns(r->Perform_0->Exec_0@)
                &&& t.done(outcome) && rest.len() > 0 ==> final(self).stage is Pruning
                    && final(self).stage->Pruning_0.name@ == rest[0] && views(final(self).stage->Pruning_1@)
                    == rest.drop_first() && runs(r, jail_ip_query(rest[0]))
                &&& t.done(outcome) && rest.len() == 0 ==> r == Action::<Result<JailInfo, DeployError>>::Finish(
                    Ok(old(self).jail->Some_0),
                )
            },
            old(self).stage is Base && old(self).stage->Base_0.stage is Provisioning
                && old(self).stage->Base_0.stage->Provisioning_0.next_for(outcome) is Perform ==> r
                == Action::<Result<JailInfo, DeployError>>::Perform(
                old(self).stage->Base_0.stage->Provisioning_0.next_for(outcome)->Perform_0,
            ) && final(self).stage is Base && final(self).stage->Base_0.stage is Provisioning && stepped(
                old(self).stage->Base_0.stage->Provisioning_0,
                final(self).stage->Base_0.stage->Provisioning_0,
            ),
            old(self).stage is Image && old(self).stage->Image_0.stage is Building
                && old(self).stage->Image_0.stage->Building_0.next_for(outcome) is Perform ==> r
                == Action::<Result<JailInfo, DeployError>>::Perform(
                old(self).stage->Image_0.stage->Building_0.next_for(outcome)->Perform_0,
            ) && final(self).stage is Image && final(self).stage->Image_0.stage is Building && stepped(
                old(self).stage->Image_0.stage->Building_0,
                final(self).stage->Image_0.stage->Building_0,
            ),
            old(self).stage is Image && old(self).stage->Image_0.stage is Discarding
                && old(self).stage->Image_0.stage->Discarding_0.next_for(outcome) is Perform ==> r
                == Action::<Result<JailInfo, DeployError>>::Perform(
                old(self).stage->Image_0.stage->Discarding_0.next_for(outcome)->Perform_0,
            ) && final(self).stage is Image && final(self).stage->Image_0.stage is Discarding && stepped(
                old(self).stage->Image_0.stage->Discarding_0,
                final(self).stage->Image_0.stage->Discarding_0,
            ),
            old(self).stage is Create && old(self).stage->Create_0.stage is Building
                && old(self).stage->Create_0.stage->Building_0.next_for(outcome) is Perform ==> r
                == Action::<Result<JailInfo, DeployError>>::Perform(
                old(self).stage->Create_0.stage->Building_0.next_for(outcome)->Perform_0,
            ) && final(self).stage is Create && final(self).stage->Create_0.stage is Building && stepped(
                old(self).stage->Create_0.stage->Building_0,
                final(self).stage->Create_0.stage->Building_0,
            ),
            old(self).stage is Survey ==> (final(self).stage is Survey && r is Perform) || (final(self).stage
                is Base && runs(r, crate::remote::probe_command(final(self).stage->Base_0.marker()))),
            old(self).stage is Base ==> (final(self).stage is Base && r is Perform) || (final(self).stage
                is Image && final(self).stage->Image_0.short@ == crate::image_build::short_of(
                crate::image::config_fingerprint(old(self).config, old(self).version@),
            ) && runs(r, crate::remote::probe_command(final(self).stage->Image_0.marker()))) || (r is Finish
                && r->Finish_0 is Err),
            old(self).stage is Image ==> (final(self).stage is Image && r is Perform) || (final(self).stage
                is Create && final(self).stage->Create_0.stage is ListUsr) || (r is Finish && r->Finish_0
                is Err),
            old(self).stage is Create ==> (final(self).stage is Create && r is Perform) || (final(self).stage
                is Pipeline && final(self).jail is Some && runs(
                r,
                crate::deploy::build_phase_start(
                    final(self).jail->Some_0.name@,
                    final(self).jail->Some_0.path@,
                    old(self).config.doas,
                ),
            )) || (final(self).stage is RollingBack),
            old(self).stage is RollingBack ==> {
                let t = old(self).stage->RollingBack_0;
                &&& !t.done(outcome) ==> final(self).stage is RollingBack && final(self).stage->RollingBack_1
                    == old(self).stage->RollingBack_1 && r is Perform && t.moves(
                    final(self).stage->RollingBack_0,
                    outcome,
                    Action::<()>::Perform(r->Perform_0),
                ) && r->Perform_0 is Exec && final(self).stage->RollingBack_0.concerns(r->Perform_0->Exec_0@)
                &&& t.done(outcome) ==> r == Action::<Result<JailInfo, DeployError>>::Finish(
                    Err(old(self).stage->RollingBack_1),
                )
            },
    {
        let mut stage = DeployStage::Over;
        core::mem::swap(&mut stage, &mut self.stage);
        match stage {
            DeployStage::Version => match outcome {
                Outcome::Succeeded(out) => {
                    self.version = determine_base_version(&self.config, out.as_str());
                    self.start_survey(0)
                },
                Outcome::Failed(m) => Action::Finish(Err(DeployError::Transport(m))),
            },
            DeployStage::Survey(mut p, k) => match p.resume(outcome) {
                Action::Perform(op) => {
                    self.stage = DeployStage::Survey(p, k);
                    Action::Perform(op)
                },
                Action::Finish(ds) => {
                    if k == 0 {
                        self.base_dataset = ds;
                        self.start_survey(1)
                    } else if k == 1 {
                        self.images_dataset = ds;
                        self.start_survey(2)
                    } else {
                        self.jails_dataset = ds;
                        let (b, a) = ensure_base(self.version.as_str(), self.config.doas, self.base_dataset.clone());
                        self.stage = DeployStage::Base(b);
                        match a {
                            Action::Perform(op) => Action::Perform(op),
                            Action::Finish(_) => self.start_image(),
                        }
                    }
                },
            },
            DeployStage::Base(mut b) => match b.resume(outcome) {
                Action::Perform(op) => {
                    self.stage = DeployStage::Base(b);
                    Action::Perform(op)
                },
                Action::Finish(Ok(())) => self.start_image(),
                Action::Finish(Err(e)) => Action::Finish(Err(e)),
            },
            DeployStage::Image(mut m) => match m.resume(outcome) {
                Action::Perform(op) => {
                    self.stage = DeployStage::Image(m);
                    Action::Perform(op)
                },
                Action::Finish(Ok(info)) => self.start_create(info),
                Action::Finish(Err(e)) => Action::Finish(Err(e)),
            },
            DeployStage::Create(mut m) => match m.resume(outcome) {
                Action::Perform(op) => {
                    self.stage = DeployStage::Create(m);
                    Action::Perform(op)
                },
                Action::Finish(Ok(info)) => {
                    let steps = pipeline_steps(&self.config, &info, self.env_content.as_str());
                    let ghost sv = steps@;
                    self.jail = Some(info);
                    let (sc, a) = Script::new(steps);
                    proof {
                        let plan = full_view(sv);
                        assert(full_view(sv.drop_first()) =~= plan.subrange(plan.len() - (plan.len() - 1), plan.len() as int));
                    }
                    self.stage = DeployStage::Pipeline(sc);
                    match a {
                        Action::Perform(op) => Action::Perform(op),
                        Action::Finish(_) => self.start_proxy(),
                    }
                },
                Action::Finish(Err(e)) => {
                    let name = m.name.clone();
                    self.start_rollback(name.as_str(), None, e)
                },
            },
            DeployStage::Pipeline(mut sc) => {
                let ghost old_rest = sc.rest();
                match sc.resume(outcome) {
                    Action::Perform(op) => {
                        self.stage = DeployStage::Pipeline(sc);
                        proof {
                            let j = self.jail->Some_0;
                            let plan = crate::deploy::pipeline_plan(self.config, j.name@, j.path@, j.ip@, self.env_content@);
                            let ofv = full_view(old_rest);
                            assert(ofv == plan.subrange(plan.len() - ofv.len(), plan.len() as int));
                            assert(full_view(old_rest.drop_first()) =~= ofv.drop_first());
                            let rest = full_view(self.stage->Pipeline_0.rest());
                            assert(rest =~= plan.subrange(plan.len() - rest.len(), plan.len() as int));
                        }
                        Action::Perform(op)
                    },
                    Action::Finish(Ok(())) => self.start_proxy(),
                    Action::Finish(Err(m)) => {
                        let (name, ip) = match &self.jail {
                            Some(j) => (j.name.clone(), j.ip.clone()),
                            None => (String::new(), String::new()),
                        };
                        self.start_rollback(name.as_str(), Some(ip), DeployError::Transport(m))
                    },
                }
            },
            DeployStage::RollingBack(mut t, e) => match t.resume(outcome) {
                Action::Perform(op) => {
                    self.stage = DeployStage::RollingBack(t, e);
                    Action::Perform(op)
                },
                Action::Finish(_) => Action::Finish(Err(e)),
            },
            DeployStage::Proxy(mut sc) => match sc.resume(outcome) {
                Action::Perform(op) => {
                    self.stage = DeployStage::Proxy(sc);
                    Action::Perform(op)
                },
                Action::Finish(Ok(())) => self.start_list_old(),
                Action::Finish(Err(m)) => Action::Finish(Err(DeployError::Transport(m))),
            },
            DeployStage::ListOld => {
                let mut steps: Vec<Step> = Vec::new();
                let ghost o = old_listed(outcome, self.config.service@, self.jail->Some_0.name@);
                match (&outcome, &self.jail) {
                    (Outcome::Succeeded(out), Some(j)) => {
                        let others = old_jails(out.as_str(), self.config.service.as_str(), j.name.as_str());
                        let mut i: usize = 0;
                        while i < others.len()
                            invariant
                                i <= others.len(),
                                views(others@) == o,
                                plan_view(steps@) == stop_plan_for(self.config, o.subrange(0, i as int)),
                            decreases others.len() - i,
                        {
                            let ghost prev = plan_view(steps@);
                            assert(o[i as int] == others@[i as int]@);
                            let c = stop_command(&self.config, others[i].as_str());
                            assert(c@ == stop_jail_command(self.config, o[i as int]));
                            steps.push(may(c));
                            assert(plan_view(steps@) =~= prev.push(may_run(stop_jail_command(self.config, o[i as int]))));
                            assert(o.subrange(0, i + 1) =~= o.subrange(0, i as int).push(o[i as int]));
                            i = i + 1;
                            assert(plan_view(steps@) =~= stop_plan_for(self.config, o.subrange(0, i as int)));
                        }
                        assert(o.subrange(0, others.len() as int) =~= o);
                    },
                    _ => {
                        assert(plan_view(steps@) =~= stop_plan_for(self.config, o));
                    },
                }
                assert(plan_view(steps@).len() == steps@.len());
                let (sc, a) = Script::new(steps);
                proof {
                    if steps@.len() > 0 {
                        assert(plan_view(steps@.drop_first()) =~= plan_view(steps@).drop_first());
                    }
                }
                self.stage = DeployStage::StoppingOld(sc);
                match a {
                    Action::Perform(op) => Action::Perform(op),
                    Action::Finish(_) => self.start_list_prune(),
                }
            },
            DeployStage::StoppingOld(mut sc) => match sc.resume(outcome) {
                Action::Perform(op) => {
                    self.stage = DeployStage::StoppingOld(sc);
                    Action::Perform(op)
                },
                Action::Finish(_) => self.start_list_prune(),
            },
            DeployStage::ListPrune => match (&outcome, &self.jail) {
                (Outcome::Succeeded(out), Some(j)) => {
                    let victims = prune_victims(out.as_str(), self.config.service.as_str(), j.name.as_str(), JAILS_TO_KEEP);
                    self.prune_next(victims)
                },
                _ => self.finish_ok(),
            },
            DeployStage::Pruning(mut t, rest) => match t.resume(outcome) {
                Action::Perform(op) => {
                    self.stage = DeployStage::Pruning(t, rest);
                    Action::Perform(op)
                },
                Action::Finish(_) => self.prune_next(rest),
            },
            DeployStage::Over => Action::Finish(Err(DeployError::Transport(String::new()))),
        }
    }
}

/// The same operation, or a failure if the image machine finished at once.
fn forward_op(a: Action<Result<crate::image_build::ImageInfo, DeployError>>) -> (r: Action<Result<JailInfo, DeployError>>)
    ensures
        a is Perform ==> r == Action::<Result<JailInfo, DeployError>>::Perform(a->Perform_0),
        a is Finish ==> r is Finish && r->Finish_0 is Err,
{
    match a {
        Action::Perform(op) => Action::Perform(op),
        Action::Finish(_) => Action::Finish(Err(DeployError::Transport(String::new()))),
    }
}

/// Starts deploying `config` to one host, with its environment file
/// `env_content` (see `build_env_content`) and, when the proxy manages its
/// certificate by hand, that certificate and key.
pub fn deploy_to_host(config: Config, env_content: String, certificates: Option<(String, String)>) -> (r: (
    Deployment,
    Action<Result<JailInfo, DeployError>>,
))
    ensures
        r.0.wf(),
        r.0.config == config,
        r.0.jail is None,
        crate::deploy::has_version_override(config) ==> r.0.version@ == crate::deploy::base_version_for(
            config,
            Seq::<char>::empty(),
        ) && crate::remote::runs(r.1, crate::remote::df_command(BASE_DIR@)),
        !crate::deploy::has_version_override(config) ==> r.0.stage is Version && crate::remote::runs(
            r.1,
            "uname -r"@,
        ),
{
    let over = version_override(&config);
    let mut d = Deployment {
        config,
        env_content,
        certificates,
        version: String::new(),
        base_dataset: None,
        images_dataset: None,
        jails_dataset: None,
        jail: None,
        stage: DeployStage::Version,
    };
    match over {
        Some(v) => {
            d.version = v;
            let a = d.start_survey(0);
            (d, a)
        },
        None => (d, Action::Perform(Op::Exec(String::from_str("uname -r")))),
    }
}

} // verus!
