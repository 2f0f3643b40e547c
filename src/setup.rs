//! Preparing a host: packages, user, datasets, directories, environment
//! and proxy.
use vstd::prelude::*;

use crate::caddy::{generate_caddyfile, write_ssl_certificates};
use crate::config::Config;
use crate::constants::{
    APP_DATA_DIR, BSDEPLOY_BASE, CADDYFILE_PATH, CADDY_CERTS_DIR, CADDY_CONF_DIR, CONFIG_DIR,
    DEFAULT_ZFS_POOL, LOG_DIR, RUN_DIR,
};
use crate::error::DeployError;
use crate::image_build::shell_words;
use crate::remote::{stepped, 
    full_view, get_zfs_dataset, maybe_doas, may, may_run, must, must_run, plan_view, prefix, Action, DatasetProbe,
    Op, OpView, Outcome, Script, Step,
};
use crate::config::{binding_paths, DataDirectory};
use crate::image_build::shell_line;
use crate::order::views;
use crate::shell::shell_word;
use crate::text::split;
use crate::shell::escape;
use crate::text::{cat, cmd2, cmd4, split_on};

verus! {

/// The pool that holds the root dataset `root` (its first component), or
/// the default pool.
pub fn pool_of(root: &Option<String>) -> (r: String)
    ensures
        root is None ==> r@ == DEFAULT_ZFS_POOL@,
        root is Some ==> r@ == crate::text::split(root->Some_0@, '/')[0],
{
    match root {
        Some(ds) => {
            let parts = split_on(ds.as_str(), '/');
            proof {
                crate::jail::lemma_split_len(ds@, '/');
            }
            assert(parts@.map_values(|p: String| p@)[0] == parts@[0]@);
            parts[0].clone()
        },
        None => String::from_str(DEFAULT_ZFS_POOL),
    }
}

/// The packages the proxy and the deployments need, the service's user,
/// and the declared packages.
pub open spec fn setup_base_plan(c: Config) -> Seq<(bool, Option<Seq<char>>)> {
    let d = c.doas;
    seq![must_run(prefix(d) + "pkg update"@), must_run(prefix(d) + "pkg install -y caddy rsync git bash"@)]
        + match c.user {
        Some(u) => seq![must_run("id "@ + shell_word(u@) + " >/dev/null 2>&1 || "@ + (prefix(d) + "pw useradd -n "@
            + shell_word(u@) + " -m -s /usr/local/bin/bash"@))],
        None => Seq::<(bool, Option<Seq<char>>)>::empty(),
    } + if c.packages@.len() > 0 {
        seq![must_run(prefix(d) + "pkg install -y "@ + shell_line(views(c.packages@)))]
    } else {
        Seq::<(bool, Option<Seq<char>>)>::empty()
    }
}

/// The `i`th suffix of the datasets this tool keeps: its root, then base
/// systems, images and jails.
pub open spec fn dataset_suffix(i: int) -> Seq<char> {
    if i == 0 {
        Seq::<char>::empty()
    } else if i == 1 {
        "/base"@
    } else if i == 2 {
        "/images"@
    } else {
        "/jails"@
    }
}

fn dataset_suffix_text(i: usize) -> (r: &'static str)
    ensures
        r@ == dataset_suffix(i as int),
{
    proof {
        reveal_strlit("");
    }
    if i == 0 {
        ""
    } else if i == 1 {
        "/base"
    } else if i == 2 {
        "/images"
    } else {
        "/jails"
    }
}

/// On a ZFS host whose root is the dataset `root`, the creation (unless it
/// exists) of each dataset of this tool in the root's pool, each mounted
/// at its directory; nothing without ZFS.
pub open spec fn setup_zfs_plan(root: Option<Seq<char>>, doas: bool) -> Seq<(bool, Option<Seq<char>>)> {
    match root {
        Some(ds) => {
            let top = split(ds, '/')[0] + "/bsdeploy"@;
            Seq::new(4, |i: int| may_run("zfs list -H -o name "@ + shell_word(top + dataset_suffix(i))
                + " >/dev/null 2>&1 || "@ + (prefix(doas) + "zfs create -o mountpoint="@ + shell_word(
                BSDEPLOY_BASE@ + dataset_suffix(i)) + " "@ + shell_word(top + dataset_suffix(i)))))
        },
        None => Seq::<(bool, Option<Seq<char>>)>::empty(),
    }
}

/// The host directories: the service's application and configuration
/// directories, each data directory, and for a service user its run and
/// log directories and the ownership of all of them.
pub open spec fn setup_dirs_plan(c: Config) -> Seq<(bool, Option<Seq<char>>)> {
    let d = c.doas;
    let svc = shell_word(c.service@);
    seq![
        must_run(prefix(d) + "mkdir -p "@ + (APP_DATA_DIR@ + "/"@ + svc + "/app"@)),
        must_run(prefix(d) + "mkdir -p "@ + (CONFIG_DIR@ + "/"@ + svc)),
    ] + c.data_directories@.map_values(|dd: DataDirectory| must_run(prefix(d) + "mkdir -p "@ + shell_word(binding_paths(dd).0)))
        + match c.user {
        Some(u) => {
            let owner = shell_word(u@) + ":"@ + shell_word(u@);
            let run_dir = RUN_DIR@ + "/"@ + svc;
            let log_dir = LOG_DIR@ + "/"@ + svc;
            seq![
                must_run(prefix(d) + "mkdir -p "@ + run_dir),
                must_run(prefix(d) + "mkdir -p "@ + log_dir),
                must_run(prefix(d) + "chown "@ + owner + " "@ + run_dir),
                must_run(prefix(d) + "chown "@ + owner + " "@ + log_dir),
                must_run(prefix(d) + "chown -R "@ + owner + " "@ + (APP_DATA_DIR@ + "/"@ + svc)),
            ] + c.data_directories@.map_values(|dd: DataDirectory| must_run(prefix(d) + "chown -R "@ + owner + " "@
                + shell_word(binding_paths(dd).0)))
        },
        None => Seq::<(bool, Option<Seq<char>>)>::empty(),
    }
}

/// The command that adds the import of the per-service configurations to
/// the proxy's main file: it writes the file when missing, and appends the
/// line only when the file lacks it, so the line is there exactly once.
pub open spec fn import_command(doas: bool) -> Seq<char> {
    "if [ ! -f "@ + CADDYFILE_PATH@ + " ]; then echo 'import conf.d/*.caddy' | "@ + (prefix(doas) + "tee"@) + " "@
        + CADDYFILE_PATH@ + " > /dev/null; elif ! grep -q 'import conf.d/\\*.caddy' "@ + CADDYFILE_PATH@
        + "; then echo 'import conf.d/*.caddy' | "@ + (prefix(doas) + "tee"@) + " -a "@ + CADDYFILE_PATH@
        + " > /dev/null; fi"@
}

fn push_base(r: &mut Vec<Step>, config: &Config)
    ensures
        plan_view(final(r)@) == plan_view(old(r)@) + setup_base_plan(*config),
{
    let ghost g = plan_view(r@);
    let doas = config.doas;
    r.push(must(maybe_doas("pkg update", doas)));
    r.push(must(maybe_doas("pkg install -y caddy rsync git bash", doas)));
    match &config.user {
        Some(u) => {
            let wu = escape(u.as_str());
            let add = crate::text::cmd3(doas, "pw useradd -n ", wu.as_str(), " -m -s /usr/local/bin/bash");
            r.push(must(cat("id ", wu.as_str()).concat(" >/dev/null 2>&1 || ").concat(add.as_str())));
        },
        None => {},
    }
    if config.packages.len() > 0 {
        r.push(must(cmd2(doas, "pkg install -y ", shell_words(&config.packages).as_str())));
    }
    assert(plan_view(r@) =~= g + setup_base_plan(*config));
}

fn push_zfs(r: &mut Vec<Step>, root_dataset: &Option<String>, doas: bool)
    ensures
        plan_view(final(r)@) == plan_view(old(r)@) + setup_zfs_plan(crate::remote::opt_view(*root_dataset), doas),
{
    let ghost g = plan_view(r@);
    match root_dataset {
        Some(rd) => {
            let top = pool_of(root_dataset).concat("/bsdeploy");
            let ghost z = setup_zfs_plan(crate::remote::opt_view(*root_dataset), doas);
            let mut i: usize = 0;
            while i < 4
                invariant
                    i <= 4,
                    top@ == split(rd@, '/')[0] + "/bsdeploy"@,
                    z == setup_zfs_plan(crate::remote::opt_view(*root_dataset), doas),
                    *root_dataset == Some(*rd),
                    plan_view(r@) == g + z.subrange(0, i as int),
                decreases 4 - i,
            {
                let sfx = dataset_suffix_text(i);
                let ds = escape(cat(top.as_str(), sfx).as_str());
                let mp = escape(cat(BSDEPLOY_BASE, sfx).as_str());
                let create = cmd4(doas, "zfs create -o mountpoint=", mp.as_str(), " ", ds.as_str());
                let c = cat("zfs list -H -o name ", ds.as_str()).concat(" >/dev/null 2>&1 || ").concat(create.as_str());
                let ghost prev = plan_view(r@);
                r.push(may(c));
                assert(z[i as int] == may_run(c@));
                assert(z.subrange(0, i + 1) =~= z.subrange(0, i as int).push(z[i as int]));
                assert(plan_view(r@) =~= prev.push(may_run(c@)));
                i = i + 1;
            }
            assert(z.subrange(0, 4) =~= z);
        },
        None => {
            assert(plan_view(r@) =~= g + setup_zfs_plan(crate::remote::opt_view(*root_dataset), doas));
        },
    }
}

fn push_dirs(r: &mut Vec<Step>, config: &Config)
    ensures
        plan_view(final(r)@) == plan_view(old(r)@) + setup_dirs_plan(*config),
{
    let ghost g = plan_view(r@);
    let doas = config.doas;
    let service = escape(config.service.as_str());
    let app_dir = cat(APP_DATA_DIR, "/").concat(service.as_str()).concat("/app");
    r.push(must(cmd2(doas, "mkdir -p ", app_dir.as_str())));
    let config_dir = cat(CONFIG_DIR, "/").concat(service.as_str());
    r.push(must(cmd2(doas, "mkdir -p ", config_dir.as_str())));
    let ghost g1 = plan_view(r@);
    let ghost svc = shell_word(config.service@);
    assert(g1 =~= g + seq![
        must_run(prefix(doas) + "mkdir -p "@ + (APP_DATA_DIR@ + "/"@ + svc + "/app"@)),
        must_run(prefix(doas) + "mkdir -p "@ + (CONFIG_DIR@ + "/"@ + svc)),
    ]);
    let ghost dirs = config.data_directories@;
    let ghost mk = dirs.map_values(|dd: DataDirectory| must_run(prefix(doas) + "mkdir -p "@ + shell_word(binding_paths(dd).0)));
    let mut i: usize = 0;
    while i < config.data_directories.len()
        invariant
            i <= config.data_directories.len(),
            dirs == config.data_directories@,
            doas == config.doas,
            mk == dirs.map_values(|dd: DataDirectory| must_run(prefix(doas) + "mkdir -p "@ + shell_word(binding_paths(dd).0))),
            plan_view(r@) == g1 + mk.subrange(0, i as int),
            g1 == g + seq![
                must_run(prefix(doas) + "mkdir -p "@ + (APP_DATA_DIR@ + "/"@ + svc + "/app"@)),
                must_run(prefix(doas) + "mkdir -p "@ + (CONFIG_DIR@ + "/"@ + svc)),
            ],
            svc == shell_word(config.service@),
            service@ == svc,
        decreases config.data_directories.len() - i,
    {
        let ghost prev = plan_view(r@);
        let (hp, _) = config.data_directories[i].get_paths();
        let c = cmd2(doas, "mkdir -p ", escape(hp.as_str()).as_str());
        r.push(must(c));
        assert(mk[i as int] == must_run(c@));
        assert(mk.subrange(0, i + 1) =~= mk.subrange(0, i as int).push(mk[i as int]));
        assert(plan_view(r@) =~= prev.push(must_run(c@)));
        i = i + 1;
    }
    assert(mk.subrange(0, i as int) =~= mk);
    let ghost g2 = plan_view(r@);
    match &config.user {
        Some(u) => {
            let wu = escape(u.as_str());
            let owner = cat(wu.as_str(), ":").concat(wu.as_str());
            let run_dir = cat(RUN_DIR, "/").concat(service.as_str());
            let log_dir = cat(LOG_DIR, "/").concat(service.as_str());
            r.push(must(cmd2(doas, "mkdir -p ", run_dir.as_str())));
            r.push(must(cmd2(doas, "mkdir -p ", log_dir.as_str())));
            r.push(must(cmd4(doas, "chown ", owner.as_str(), " ", run_dir.as_str())));
            r.push(must(cmd4(doas, "chown ", owner.as_str(), " ", log_dir.as_str())));
            let data = cat(APP_DATA_DIR, "/").concat(service.as_str());
            r.push(must(cmd4(doas, "chown -R ", owner.as_str(), " ", data.as_str())));
            let ghost g3 = plan_view(r@);
            let ghost owner_v = owner@;
            assert(owner_v == shell_word(u@) + ":"@ + shell_word(u@));
            assert(g3 =~= g2 + seq![
                must_run(prefix(doas) + "mkdir -p "@ + (RUN_DIR@ + "/"@ + svc)),
                must_run(prefix(doas) + "mkdir -p "@ + (LOG_DIR@ + "/"@ + svc)),
                must_run(prefix(doas) + "chown "@ + owner_v + " "@ + (RUN_DIR@ + "/"@ + svc)),
                must_run(prefix(doas) + "chown "@ + owner_v + " "@ + (LOG_DIR@ + "/"@ + svc)),
                must_run(prefix(doas) + "chown -R "@ + owner_v + " "@ + (APP_DATA_DIR@ + "/"@ + svc)),
            ]);
            let ghost ch = dirs.map_values(|dd: DataDirectory| must_run(prefix(doas) + "chown -R "@ + owner_v + " "@
                + shell_word(binding_paths(dd).0)));
            let mut i: usize = 0;
            while i < config.data_directories.len()
                invariant
                    i <= config.data_directories.len(),
                    dirs == config.data_directories@,
                    doas == config.doas,
                    ch == dirs.map_values(|dd: DataDirectory| must_run(prefix(doas) + "chown -R "@ + owner_v + " "@
                        + shell_word(binding_paths(dd).0))),
                    plan_view(r@) == g3 + ch.subrange(0, i as int),
                    g3 == g2 + seq![
                        must_run(prefix(doas) + "mkdir -p "@ + (RUN_DIR@ + "/"@ + svc)),
                        must_run(prefix(doas) + "mkdir -p "@ + (LOG_DIR@ + "/"@ + svc)),
                        must_run(prefix(doas) + "chown "@ + owner_v + " "@ + (RUN_DIR@ + "/"@ + svc)),
                        must_run(prefix(doas) + "chown "@ + owner_v + " "@ + (LOG_DIR@ + "/"@ + svc)),
                        must_run(prefix(doas) + "chown -R "@ + owner_v + " "@ + (APP_DATA_DIR@ + "/"@ + svc)),
                    ],
                    g2 == g1 + mk,
                    g1 == g + seq![
                        must_run(prefix(doas) + "mkdir -p "@ + (APP_DATA_DIR@ + "/"@ + svc + "/app"@)),
                        must_run(prefix(doas) + "mkdir -p "@ + (CONFIG_DIR@ + "/"@ + svc)),
                    ],
                    owner_v == shell_word(u@) + ":"@ + shell_word(u@),
                    owner@ == owner_v,
                    config.user == Some(*u),
                decreases config.data_directories.len() - i,
            {
                let ghost prev = plan_view(r@);
                let (hp, _) = config.data_directories[i].get_paths();
                let c = cmd4(doas, "chown -R ", owner.as_str(), " ", escape(hp.as_str()).as_str());
                r.push(must(c));
                assert(ch[i as int] == must_run(c@));
                assert(ch.subrange(0, i + 1) =~= ch.subrange(0, i as int).push(ch[i as int]));
                assert(plan_view(r@) =~= prev.push(must_run(c@)));
                i = i + 1;
            }
            assert(ch.subrange(0, i as int) =~= ch);
        },
        None => {},
    }
    assert(plan_view(r@) =~= g + setup_dirs_plan(*config));
}

/// The steps that prepare a host for `config`, given the dataset of its
/// root (none without ZFS), the environment file, and the manually managed
/// certificate and key, if any.
pub fn setup_steps(
    config: &Config,
    root_dataset: &Option<String>,
    env_content: &str,
    certificates: &Option<(String, String)>,
) -> (r: Vec<Step>)
    ensures
        r@.len() >= 4,
        plan_view(r@)[0] == must_run(prefix(config.doas) + "pkg update"@),
        r@.last().op is Exec && r@.last().op->Exec_0@ == crate::remote::prefix(config.doas)
            + "service caddy restart"@,
        plan_view(r@).subrange(0, (setup_base_plan(*config).len() + setup_zfs_plan(
            crate::remote::opt_view(*root_dataset),
            config.doas,
        ).len() + setup_dirs_plan(*config).len()) as int) == setup_base_plan(*config) + setup_zfs_plan(
            crate::remote::opt_view(*root_dataset),
            config.doas,
        ) + setup_dirs_plan(*config),
        full_view(r@)[(setup_base_plan(*config).len() + setup_zfs_plan(
            crate::remote::opt_view(*root_dataset),
            config.doas,
        ).len() + setup_dirs_plan(*config).len()) as int] == (true, OpView::Write(
            env_content@,
            CONFIG_DIR@ + "/"@ + shell_word(config.service@) + "/env"@,
            config.doas,
        )),
        plan_view(r@)[(setup_base_plan(*config).len() + setup_zfs_plan(
            crate::remote::opt_view(*root_dataset),
            config.doas,
        ).len() + setup_dirs_plan(*config).len() + 3) as int] == must_run(import_command(config.doas)),
{
    let doas = config.doas;
    let service = escape(config.service.as_str());
    let mut r: Vec<Step> = Vec::new();
    push_base(&mut r, config);
    push_zfs(&mut r, root_dataset, doas);
    push_dirs(&mut r, config);
    let ghost head = plan_view(r@);
    assert(head =~= setup_base_plan(*config) + setup_zfs_plan(crate::remote::opt_view(*root_dataset), doas)
        + setup_dirs_plan(*config));
    let ghost n = r@.len();
    let config_dir = cat(CONFIG_DIR, "/").concat(service.as_str());
    r.push(Step {
        op: Op::WriteFile {
            content: String::from_str(env_content),
            path: cat(config_dir.as_str(), "/env"),
            privileged: doas,
        },
        required: true,
    });
    r.push(must(maybe_doas("sysrc caddy_enable=YES", doas)));
    r.push(must(cmd2(doas, "mkdir -p ", CADDY_CONF_DIR)));
    let tee = maybe_doas("tee", doas);
    let import_line = cat("if [ ! -f ", CADDYFILE_PATH).concat(" ]; then echo 'import conf.d/*.caddy' | ").concat(
        tee.as_str(),
    ).concat(" ").concat(CADDYFILE_PATH).concat(" > /dev/null; elif ! grep -q 'import conf.d/\\*.caddy' ").concat(
        CADDYFILE_PATH,
    ).concat("; then echo 'import conf.d/*.caddy' | ").concat(tee.as_str()).concat(" -a ").concat(CADDYFILE_PATH).concat(
        " > /dev/null; fi",
    );
    assert(import_line@ =~= import_command(doas));
    r.push(must(import_line));
    let ghost fixed = r@;
    assert(plan_view(fixed).subrange(0, n as int) =~= head);
    match &config.proxy {
        Some(proxy) => {
            if proxy.ssl.is_some() {
                match certificates {
                    Some(c) => {
                        let mut w = write_ssl_certificates(config.service.as_str(), c.0.as_str(), c.1.as_str(), doas);
                        r.append(&mut w);
                    },
                    None => {
                        r.push(must(cmd2(doas, "mkdir -p ", CADDY_CERTS_DIR)));
                    },
                }
            }
            let mut port = String::new();
            crate::naming::push_decimal(&mut port, proxy.port as u32);
            let backend = cat(":", port.as_str());
            let content = generate_caddyfile(proxy, config.service.as_str(), backend.as_str());
            let path = cat(CADDY_CONF_DIR, "/").concat(config.service.as_str()).concat(".caddy");
            r.push(Step { op: Op::WriteFile { content, path, privileged: doas }, required: true });
        },
        None => {},
    }
    assert(r@.subrange(0, fixed.len() as int) =~= fixed);
    r.push(must(maybe_doas("service caddy enable", doas)));
    r.push(must(maybe_doas("service caddy restart", doas)));
    assert(r@.subrange(0, fixed.len() as int) =~= fixed);
    assert(r@[n as int] == fixed[n as int]);
    assert(r@[n as int + 3] == fixed[n as int + 3]);
    assert(plan_view(r@).subrange(0, n as int) =~= head);
    assert(head[0] == must_run(prefix(doas) + "pkg update"@));
    assert(plan_view(r@).subrange(0, n as int)[0] == plan_view(r@)[0]);
    r
}

/// Where a host's setup stands.
pub enum SetupStage {
    /// Looking up the dataset of the root.
    Root(DatasetProbe),
    /// Running the setup steps.
    Running(Script),
    /// Done.
    Over,
}

/// The setup of one host.
pub struct HostSetup {
    pub config: Config,
    pub env_content: String,
    pub certificates: Option<(String, String)>,
    pub stage: SetupStage,
}

impl HostSetup {
    /// Takes the outcome of the last operation.
    pub fn resume(&mut self, outcome: Outcome) -> (r: Action<Result<(), DeployError>>)
        ensures
            old(self).stage is Root ==> (final(self).stage is Root && r is Perform) || (final(self).stage is Running
                && crate::remote::runs(r, prefix(old(self).config.doas) + "pkg update"@)),
            old(self).stage is Running ==> match old(self).stage->Running_0.next_for(outcome) {
                Action::Perform(op) => r == Action::<Result<(), DeployError>>::Perform(op)
                    && final(self).stage is Running && stepped(
                    old(self).stage->Running_0,
                    final(self).stage->Running_0,
                ),
                Action::Finish(Ok(())) => r == Action::<Result<(), DeployError>>::Finish(Ok(())),
                Action::Finish(Err(m)) => r == Action::<Result<(), DeployError>>::Finish(
                    Err(DeployError::Transport(m)),
                ),
            },
    {
        let mut stage = SetupStage::Over;
        core::mem::swap(&mut stage, &mut self.stage);
        match stage {
            SetupStage::Root(mut p) => match p.resume(outcome) {
                Action::Perform(op) => {
                    self.stage = SetupStage::Root(p);
                    Action::Perform(op)
                },
                Action::Finish(root) => {
                    let steps = setup_steps(&self.config, &root, self.env_content.as_str(), &self.certificates);
                    let (sc, a) = Script::new(steps);
                    self.stage = SetupStage::Running(sc);
                    match a {
                        Action::Perform(op) => Action::Perform(op),
                        Action::Finish(_) => Action::Finish(Ok(())),
                    }
                },
            },
            SetupStage::Running(mut sc) => match sc.resume(outcome) {
                Action::Perform(op) => {
                    self.stage = SetupStage::Running(sc);
                    Action::Perform(op)
                },
                Action::Finish(Ok(())) => Action::Finish(Ok(())),
                Action::Finish(Err(m)) => Action::Finish(Err(DeployError::Transport(m))),
            },
            SetupStage::Over => Action::Finish(Ok(())),
        }
    }
}

/// Starts preparing one host for `config`: first the dataset of its root.
pub fn setup_host(config: Config, env_content: String, certificates: Option<(String, String)>) -> (r: (
    HostSetup,
    Action<Result<(), DeployError>>,
))
    ensures
        r.0.stage is Root,
        crate::remote::runs(r.1, crate::remote::df_command("/"@)),
{
    let (p, a) = get_zfs_dataset("/");
    (HostSetup { config, env_content, certificates, stage: SetupStage::Root(p) }, match a {
        Action::Perform(op) => Action::Perform(op),
        Action::Finish(_) => Action::Finish(Ok(())),
    })
}

} // verus!
