//! The per-host deployment: what to run before and after the jail's
//! creation, and the machine that sequences it with rollback.
use vstd::prelude::*;

use crate::config::{binding_paths, Config, DataDirectory};
use crate::constants::{JAIL_APP_DIR, JAIL_ENV_FILE, LOG_DIR, RUN_DIR};
use crate::error::DeployError;
use crate::jail::{list_service_jails, service_jails, strip_patch_level, without_patch};
use crate::order::{lex_order, sort_strings, views};
use crate::shell::{escape, escape_env_value, quote_body, shell_word};
use crate::remote::{full_view, prefix, OpView};
use crate::text::{cat, has_prefix, starts_with, trim, trimmed};

verus! {

/// The release to deploy on: the configured one, else the host's release
/// (`os_release`, as `uname -r` printed it) without its patch level.
pub open spec fn base_version_for(c: Config, os_release: Seq<char>) -> Seq<char> {
    match c.jail {
        Some(j) => match j.base_version {
            Some(v) => v@,
            None => without_patch(trim(os_release)),
        },
        None => without_patch(trim(os_release)),
    }
}

/// Whether the configuration names the release itself.
pub open spec fn has_version_override(c: Config) -> bool {
    c.jail is Some && c.jail->Some_0.base_version is Some
}

/// Chooses the release to deploy on.
pub fn determine_base_version(config: &Config, os_release: &str) -> (r: String)
    ensures
        r@ == base_version_for(*config, os_release@),
{
    match &config.jail {
        Some(j) => match &j.base_version {
            Some(v) => return v.clone(),
            None => {},
        },
        None => {},
    }
    let release = trimmed(os_release);
    strip_patch_level(release.as_str())
}

/// The configured release, if any.
pub fn version_override(config: &Config) -> (r: Option<String>)
    ensures
        r is Some <==> has_version_override(*config),
        r is Some ==> r->Some_0@ == base_version_for(*config, Seq::<char>::empty()),
{
    match &config.jail {
        Some(j) => match &j.base_version {
            Some(v) => Some(v.clone()),
            None => None,
        },
        None => None,
    }
}

/// `export K='V'` and a newline.
pub open spec fn export_line(k: Seq<char>, v: Seq<char>) -> Seq<char> {
    "export "@ + k + "='"@ + quote_body(v) + "'\n"@
}

/// The export lines of a list of variables.
pub open spec fn export_lines(vars: Seq<(Seq<char>, Seq<char>)>) -> Seq<char>
    decreases vars.len(),
{
    if vars.len() == 0 {
        Seq::<char>::empty()
    } else {
        export_lines(vars.drop_last()) + export_line(vars.last().0, vars.last().1)
    }
}

/// The declared variables, group after group.
pub open spec fn clear_vars(groups: Seq<Vec<(String, String)>>) -> Seq<(Seq<char>, Seq<char>)>
    decreases groups.len(),
{
    if groups.len() == 0 {
        Seq::<(Seq<char>, Seq<char>)>::empty()
    } else {
        clear_vars(groups.drop_last()) + groups.last()@.map_values(|p: (String, String)| (p.0@, p.1@))
    }
}

/// The environment file: the declared variables, the secrets with the
/// values given for them, and the runtime tools' activation when there are
/// tools.
pub open spec fn env_file(c: Config, secret_values: Seq<Seq<char>>) -> Seq<char> {
    export_lines(clear_vars(c.env.clear@)) + export_lines(
        views(c.env.secret@).zip_with(secret_values),
    ) + if c.mise@.len() > 0 {
        "\neval \"$(mise activate bash)\"\n"@
    } else {
        Seq::<char>::empty()
    }
}

/// Writes the environment file of `config`; `secrets` holds the local value
/// of each declared secret, in order, or none where it is not set.
pub fn build_env_content(config: &Config, secrets: &Vec<Option<String>>) -> (r: Result<
    String,
    DeployError,
>)
    requires
        secrets.len() == config.env.secret.len(),
    ensures
        (exists|i: int| 0 <= i < secrets.len() && secrets@[i] is None) <==> r is Err,
        r is Err ==> r->Err_0 is MissingSecret && exists|i: int|
            0 <= i < secrets.len() && secrets@[i] is None && r->Err_0->MissingSecret_0@
                == config.env.secret@[i]@ && forall|j: int| 0 <= j < i ==> secrets@[j] is Some,
        r is Ok ==> r->Ok_0@ == env_file(
            *config,
            secrets@.map_values(|s: Option<String>| s->Some_0@),
        ),
{
    let mut out = String::new();
    let mut g: usize = 0;
    while g < config.env.clear.len()
        invariant
            g <= config.env.clear.len(),
            out@ == export_lines(clear_vars(config.env.clear@.subrange(0, g as int))),
        decreases config.env.clear.len() - g,
    {
        let group = &config.env.clear[g];
        let ghost before = clear_vars(config.env.clear@.subrange(0, g as int));
        let mut k: usize = 0;
        while k < group.len()
            invariant
                k <= group.len(),
                out@ == export_lines(before + group@.subrange(0, k as int).map_values(
                    |p: (String, String)| (p.0@, p.1@),
                )),
            decreases group.len() - k,
        {
            let line = cat("export ", group[k].0.as_str()).concat("='").concat(
                escape_env_value(group[k].1.as_str()).as_str(),
            ).concat("'\n");
            let ghost prev = before + group@.subrange(0, k as int).map_values(|p: (String, String)| (p.0@, p.1@));
            out.append(line.as_str());
            let ghost next = before + group@.subrange(0, k + 1).map_values(|p: (String, String)| (p.0@, p.1@));
            assert(next.drop_last() =~= prev);
            assert(next.last() == (group@[k as int].0@, group@[k as int].1@));
            k = k + 1;
        }
        assert(group@.subrange(0, group.len() as int) =~= group@);
        assert(config.env.clear@.subrange(0, g + 1).drop_last() =~= config.env.clear@.subrange(0, g as int));
        g = g + 1;
    }
    assert(config.env.clear@.subrange(0, config.env.clear.len() as int) =~= config.env.clear@);
    let ghost head = out@;
    let ghost sv = secrets@.map_values(|s: Option<String>| s->Some_0@);
    let mut i: usize = 0;
    while i < secrets.len()
        invariant
            i <= secrets.len() == config.env.secret.len(),
            sv == secrets@.map_values(|s: Option<String>| s->Some_0@),
            forall|j: int| 0 <= j < i ==> secrets@[j] is Some,
            out@ == head + export_lines(views(config.env.secret@).subrange(0, i as int).zip_with(sv.subrange(0, i as int))),
        decreases secrets.len() - i,
    {
        match &secrets[i] {
            Some(v) => {
                let line = cat("export ", config.env.secret[i].as_str()).concat("='").concat(
                    escape_env_value(v.as_str()).as_str(),
                ).concat("'\n");
                out.append(line.as_str());
                let ghost z = views(config.env.secret@).subrange(0, i + 1).zip_with(sv.subrange(0, i + 1));
                assert(z.drop_last() =~= views(config.env.secret@).subrange(0, i as int).zip_with(sv.subrange(0, i as int)));
                assert(z.last() == (config.env.secret@[i as int]@, v@));
            },
            None => {
                return Err(DeployError::MissingSecret(config.env.secret[i].clone()));
            },
        }
        i = i + 1;
    }
    assert(views(config.env.secret@).subrange(0, i as int) =~= views(config.env.secret@));
    assert(sv.subrange(0, i as int) =~= sv);
    if config.mise.len() > 0 {
        out.append("\neval \"$(mise activate bash)\"\n");
    }
    Ok(out)
}

/// The application-relative path that a data directory mounted at
/// `jail_path` occupies, as a sync exclusion (`/storage` for
/// `/app/storage`), when it lies inside the application directory.
pub open spec fn app_exclusion(jail_path: Seq<char>) -> Option<Seq<char>> {
    if has_prefix(jail_path, JAIL_APP_DIR@ + "/"@) {
        let rel = jail_path.subrange(JAIL_APP_DIR@.len() as int, jail_path.len() as int);
        if rel.len() > 1 {
            Some(rel)
        } else {
            None
        }
    } else {
        None
    }
}

/// The sync exclusions that keep the application sync off the data
/// directories mounted inside the application directory.
pub open spec fn sync_exclusions(dirs: Seq<DataDirectory>) -> Seq<Seq<char>>
    decreases dirs.len(),
{
    if dirs.len() == 0 {
        Seq::<Seq<char>>::empty()
    } else {
        let rest = sync_exclusions(dirs.drop_last());
        match app_exclusion(binding_paths(dirs.last()).1) {
            Some(e) => rest.push(e),
            None => rest,
        }
    }
}

/// The exclusions for the sync of the application tree.
pub fn sync_excludes(dirs: &Vec<DataDirectory>) -> (r: Vec<String>)
    ensures
        views(r@) == sync_exclusions(dirs@),
{
    let inside = cat(JAIL_APP_DIR, "/");
    let mut r: Vec<String> = Vec::new();
    let mut i: usize = 0;
    while i < dirs.len()
        invariant
            i <= dirs.len(),
            inside@ == JAIL_APP_DIR@ + "/"@,
            views(r@) == sync_exclusions(dirs@.subrange(0, i as int)),
        decreases dirs.len() - i,
    {
        assert(dirs@.subrange(0, i + 1).drop_last() =~= dirs@.subrange(0, i as int));
        let (_, jp) = dirs[i].get_paths();
        if starts_with(jp.as_str(), inside.as_str()) {
            let v = crate::text::chars_of(jp.as_str());
            let n = JAIL_APP_DIR.len();
            proof {
                reveal_strlit("/app");
                assert(n == 4) by {
                    vstd::string::is_ascii_spec_bytes("/app");
                }
            }
            if v.len() > n + 1 {
                let rel = crate::text::string_of(&v, n, v.len());
                let ghost prev = views(r@);
                r.push(rel);
                assert(views(r@) =~= prev.push(rel@));
            }
        }
        i = i + 1;
    }
    assert(dirs@.subrange(0, dirs.len() as int) =~= dirs@);
    r
}

/// The jails of a listing other than `current`, in listed order.
pub open spec fn other_jails(listing: Seq<char>, service: Seq<char>, current: Seq<char>) -> Seq<Seq<char>> {
    service_jails(listing, service).filter(|n: Seq<char>| n != current)
}

/// The jails listed in `listing` (one name per line) other than `current`.
pub fn old_jails(listing: &str, service: &str, current: &str) -> (r: Vec<String>)
    ensures
        views(r@) == other_jails(listing@, service@, current@),
{
    let names = list_service_jails(listing, service);
    let ghost all = service_jails(listing@, service@);
    let cur = String::from_str(current);
    let mut r: Vec<String> = Vec::new();
    let mut i: usize = 0;
    while i < names.len()
        invariant
            i <= names.len(),
            views(names@) == all,
            cur@ == current@,
            views(r@) == all.subrange(0, i as int).filter(|n: Seq<char>| n != current@),
        decreases names.len() - i,
    {
        proof {
            reveal(Seq::filter);
        }
        assert(all.subrange(0, i + 1).drop_last() =~= all.subrange(0, i as int));
        assert(all[i as int] == names@[i as int]@);
        let ghost prev = views(r@);
        if names[i] != cur {
            r.push(names[i].clone());
            assert(views(r@) =~= prev.push(all[i as int]));
        }
        i = i + 1;
    }
    assert(all.subrange(0, names.len() as int) =~= all);
    r
}

/// The jails that pruning removes: of the listed jails sorted by name (that
/// is, by creation), all but the `keep` newest, never `current`.
pub open spec fn prune_set(listing: Seq<char>, service: Seq<char>, current: Seq<char>, keep: nat) -> Seq<Seq<char>> {
    let sorted = service_jails(listing, service).sort_by(lex_order());
    if sorted.len() > keep {
        sorted.subrange(0, sorted.len() - keep).filter(|n: Seq<char>| n != current)
    } else {
        Seq::<Seq<char>>::empty()
    }
}

/// Pruning never removes the jail just created, and leaves at least the
/// `keep` newest listed jails (by name, which is creation order) in place.
pub proof fn lemma_prune_spares_current(listing: Seq<char>, service: Seq<char>, current: Seq<char>, keep: nat)
    ensures
        !prune_set(listing, service, current, keep).contains(current),
        prune_set(listing, service, current, keep).len() == 0 || prune_set(listing, service, current, keep).len() + keep
            <= service_jails(listing, service).len(),
{
    broadcast use vstd::seq_lib::group_to_multiset_ensures;

    let all = service_jails(listing, service);
    let sorted = all.sort_by(lex_order());
    crate::order::lemma_lex_total();
    all.lemma_sort_by_ensures(lex_order());
    vstd::seq_lib::to_multiset_len(all);
    vstd::seq_lib::to_multiset_len(sorted);
    if sorted.len() > keep {
        let head = sorted.subrange(0, sorted.len() - keep);
        head.lemma_filter_len(|n: Seq<char>| n != current);
        if prune_set(listing, service, current, keep).contains(current) {
            let i = choose|i: int|
                0 <= i < prune_set(listing, service, current, keep).len() && prune_set(listing, service, current, keep)[i]
                    == current;
            head.lemma_filter_pred(|n: Seq<char>| n != current, i);
        }
    }
}

/// Picks the jails to prune from `listing` (one name per line).
pub fn prune_victims(listing: &str, service: &str, current: &str, keep: usize) -> (r: Vec<String>)
    ensures
        views(r@) == prune_set(listing@, service@, current@, keep as nat),
{
    let names = sort_strings(list_service_jails(listing, service));
    let ghost sorted = service_jails(listing@, service@).sort_by(lex_order());
    let mut r: Vec<String> = Vec::new();
    if names.len() <= keep {
        assert(views(r@) =~= prune_set(listing@, service@, current@, keep as nat));
        return r;
    }
    let cut = names.len() - keep;
    let cur = String::from_str(current);
    let mut i: usize = 0;
    while i < cut
        invariant
            i <= cut <= names.len(),
            views(names@) == sorted,
            cur@ == current@,
            views(r@) == sorted.subrange(0, i as int).filter(|n: Seq<char>| n != current@),
        decreases cut - i,
    {
        proof {
            reveal(Seq::filter);
        }
        assert(sorted.subrange(0, i + 1).drop_last() =~= sorted.subrange(0, i as int));
        assert(sorted[i as int] == names@[i as int]@);
        let ghost prev = views(r@);
        if names[i] != cur {
            r.push(names[i].clone());
            assert(views(r@) =~= prev.push(sorted[i as int]));
        }
        i = i + 1;
    }
    r
}

/// The PID file of the service's processes inside a jail: per service when
/// the service runs as its own user.
pub open spec fn pid_path(c: Config) -> Seq<char> {
    match c.user {
        Some(_) => RUN_DIR@ + "/"@ + shell_word(c.service@) + "/service.pid"@,
        None => "/var/run/service.pid"@,
    }
}

/// The shell script that stops the processes of the PID file `p`: a
/// signal, up to twenty half-second waits, then a forced kill.
pub open spec fn stop_script(p: Seq<char>) -> Seq<char> {
    "if [ -f "@ + p + " ]; then pkill -F "@ + p + "; count=0; while [ -f "@ + p + " ] && pkill -0 -F "@ + p
        + " >/dev/null 2>&1; do sleep 0.5; count=$((count+1)); if [ $count -ge 20 ]; then pkill -9 -F "@
        + p + "; break; fi; done; fi"@
}

fn pid_file(config: &Config) -> (r: String)
    ensures
        r@ == pid_path(*config),
{
    match &config.user {
        Some(_) => cat(RUN_DIR, "/").concat(escape(config.service.as_str()).as_str()).concat("/service.pid"),
        None => String::from_str("/var/run/service.pid"),
    }
}

/// The log file of the service's processes inside a jail.
fn log_file(config: &Config) -> (r: String)
    ensures
        r@ == log_path(*config),
{
    match &config.user {
        Some(_) => cat(LOG_DIR, "/").concat(escape(config.service.as_str()).as_str()).concat("/service.log"),
        None => String::from_str("/var/log/service.log"),
    }
}

/// The command that stops the service in the jail `jail`: a signal through
/// its PID file, a wait of up to ten seconds, then a forced kill.
pub fn stop_command(config: &Config, jail: &str) -> (r: String)
    ensures
        r@ == crate::remote::prefix(config.doas) + "jexec "@ + shell_word(jail@) + " sh -c "@ + shell_word(
            stop_script(pid_path(*config)),
        ),
{
    let pid = pid_file(config);
    let p = pid.as_str();
    let script = cat("if [ -f ", p).concat(" ]; then pkill -F ").concat(p).concat(
        "; count=0; while [ -f ",
    ).concat(p).concat(" ] && pkill -0 -F ").concat(p).concat(
        " >/dev/null 2>&1; do sleep 0.5; count=$((count+1)); if [ $count -ge 20 ]; then pkill -9 -F ",
    ).concat(p).concat("; break; fi; done; fi");
    assert(script@ =~= stop_script(pid_path(*config)));
    crate::text::cmd4(config.doas, "jexec ", escape(jail).as_str(), " sh -c ", escape(script.as_str()).as_str())
}

/// `cmd` prefixed by reading the environment file and entering the application directory.
pub open spec fn app_script(cmd: Seq<char>) -> Seq<char> {
    "source "@ + JAIL_ENV_FILE@ + " && cd "@ + JAIL_APP_DIR@ + " && "@ + cmd
}

/// The command that runs `cmd` in the jail `jail`'s application directory
/// with its environment, as the service's user when there is one.
pub open spec fn in_app_command(c: Config, jail: Seq<char>, cmd: Seq<char>) -> Seq<char> {
    match c.user {
        Some(u) => prefix(c.doas) + "jexec "@ + shell_word(jail) + " su - "@ + shell_word(u@) + " -c "@
            + shell_word("bash -c "@ + shell_word(app_script(cmd))),
        None => prefix(c.doas) + "jexec "@ + shell_word(jail) + " bash -c "@ + shell_word(app_script(cmd)),
    }
}

/// The log file of the service's processes inside a jail.
pub open spec fn log_path(c: Config) -> Seq<char> {
    match c.user {
        Some(_) => LOG_DIR@ + "/"@ + shell_word(c.service@) + "/service.log"@,
        None => "/var/log/service.log"@,
    }
}

/// The daemon wrapper of the service's processes.
pub open spec fn daemon_prefix(c: Config) -> Seq<char> {
    "daemon -f -p "@ + pid_path(c) + " -o "@ + log_path(c) + match c.user {
        Some(u) => " -u "@ + shell_word(u@),
        None => Seq::<char>::empty(),
    }
}

/// The command that starts `cmd` as a detached, PID-file-tracked process in the jail `jail`.
pub open spec fn start_command(c: Config, jail: Seq<char>, cmd: Seq<char>) -> Seq<char> {
    prefix(c.doas) + "jexec "@ + shell_word(jail) + " "@ + daemon_prefix(c) + " bash -c "@ + shell_word(app_script(cmd))
}

fn in_app(config: &Config, jail: &str, cmd: &str) -> (r: String)
    ensures
        r@ == in_app_command(*config, jail@, cmd@),
{
    let full = cat("source ", JAIL_ENV_FILE).concat(" && cd ").concat(JAIL_APP_DIR).concat(" && ").concat(cmd);
    assert(full@ =~= app_script(cmd@));
    let wjail = escape(jail);
    match &config.user {
        Some(u) => {
            let inner = cat("bash -c ", escape(full.as_str()).as_str());
            let r = crate::text::cmd5(config.doas, "jexec ", wjail.as_str(), " su - ", escape(u.as_str()).as_str(),
                cat(" -c ", escape(inner.as_str()).as_str()).as_str());
            assert(r@ =~= in_app_command(*config, jail@, cmd@));
            r
        },
        None => crate::text::cmd4(config.doas, "jexec ", wjail.as_str(), " bash -c ", escape(full.as_str()).as_str()),
    }
}

/// The ownership fixes of the data directories' jail paths, as `user`, in the jail `name`.
pub open spec fn data_chowns(dirs: Seq<DataDirectory>, name: Seq<char>, user: Seq<char>, doas: bool) -> Seq<(bool, OpView)>
    decreases dirs.len(),
{
    if dirs.len() == 0 {
        Seq::<(bool, OpView)>::empty()
    } else {
        data_chowns(dirs.drop_last(), name, user, doas) + if binding_paths(dirs.last()).1.len() > 0 {
            seq![(true, OpView::Run(prefix(doas) + "jexec "@ + shell_word(name) + " chown -R "@ + shell_word(user) + " "@
                + shell_word(binding_paths(dirs.last()).1)))]
        } else {
            Seq::<(bool, OpView)>::empty()
        }
    }
}

/// The steps that run each of `cmds` with `f`, in order, each required.
pub open spec fn each_hook(c: Config, jail: Seq<char>, cmds: Seq<String>) -> Seq<(bool, OpView)> {
    cmds.map_values(|h: String| (true, OpView::Run(in_app_command(c, jail, h@))))
}

/// The steps that start each of `cmds`, in order, each required.
pub open spec fn each_start(c: Config, jail: Seq<char>, cmds: Seq<String>) -> Seq<(bool, OpView)> {
    cmds.map_values(|h: String| (true, OpView::Run(start_command(c, jail, h@))))
}

/// The whole deployment plan on the jail `name` rooted at `path` with the
/// address `ip`, in order: the build-phase start; the data directories
/// handed to the user; the application directory and its sync (off the
/// data directories inside it), handed to the user; the environment file;
/// the runtime tools' trust (best effort); the pre-start hooks in order;
/// the stop and the restart on the jail's own address; the run and log
/// directories for the user; and the start of each service process.
pub open spec fn pipeline_plan(c: Config, name: Seq<char>, path: Seq<char>, ip: Seq<char>, env: Seq<char>) -> Seq<(bool, OpView)> {
    let d = c.doas;
    let app = path + JAIL_APP_DIR@;
    seq![(true, OpView::Run(build_phase_start(name, path, d)))] + match c.user {
        Some(u) => data_chowns(c.data_directories@, name, u@, d),
        None => Seq::<(bool, OpView)>::empty(),
    } + seq![
        (true, OpView::Run(prefix(d) + "mkdir -p "@ + shell_word(app))),
        (true, OpView::Mirror("."@, app, sync_exclusions(c.data_directories@), d)),
    ] + match c.user {
        Some(u) => seq![(true, OpView::Run(prefix(d) + "jexec "@ + shell_word(name) + " chown -R "@ + shell_word(u@) + " "@ + JAIL_APP_DIR@))],
        None => Seq::<(bool, OpView)>::empty(),
    } + seq![(true, OpView::Write(env, path + JAIL_ENV_FILE@, d))] + seq![(false, OpView::Run(match c.user {
        Some(u) => prefix(d) + "jexec "@ + shell_word(name) + " su - "@ + shell_word(u@) + " -c "@ + shell_word("mise trust "@ + JAIL_APP_DIR@),
        None => prefix(d) + "jexec "@ + shell_word(name) + " bash -c "@ + shell_word("mise trust "@ + JAIL_APP_DIR@),
    }))] + each_hook(c, name, c.before_start@) + seq![
        (true, OpView::Run(prefix(d) + "jail -r "@ + shell_word(name))),
        (true, OpView::Run(serving_start(name, path, ip, d))),
    ] + match c.user {
        Some(u) => {
            let owner = shell_word(u@) + ":"@ + shell_word(u@);
            let run_dir = shell_word(path + RUN_DIR@ + "/"@ + shell_word(c.service@));
            let log_dir = shell_word(path + LOG_DIR@ + "/"@ + shell_word(c.service@));
            seq![
                (true, OpView::Run(prefix(d) + "mkdir -p "@ + run_dir)),
                (true, OpView::Run(prefix(d) + "mkdir -p "@ + log_dir)),
                (true, OpView::Run(prefix(d) + "chown "@ + owner + " "@ + run_dir)),
                (true, OpView::Run(prefix(d) + "chown "@ + owner + " "@ + log_dir)),
            ]
        },
        None => Seq::<(bool, OpView)>::empty(),
    } + each_start(c, name, c.start@)
}

/// The command that starts the jail `name` rooted at `path` with the
/// host's network, for the build hooks.
pub open spec fn build_phase_start(name: Seq<char>, path: Seq<char>, doas: bool) -> Seq<char> {
    crate::remote::prefix(doas) + "jail -c name="@ + shell_word(name) + " path="@ + shell_word(path)
        + (" host.hostname="@ + shell_word(name) + " ip4=inherit allow.raw_sockets=1 persist"@)
}

/// The command that starts the jail `name` rooted at `path` on its own
/// address `ip` only, for serving.
pub open spec fn serving_start(name: Seq<char>, path: Seq<char>, ip: Seq<char>, doas: bool) -> Seq<char> {
    crate::remote::prefix(doas) + "jail -c name="@ + shell_word(name) + " path="@ + shell_word(path)
        + (" host.hostname="@ + shell_word(name) + " ip4.addr="@ + shell_word(ip) + " allow.raw_sockets=1 persist"@)
}

/// The deployment steps on the jail just created: start it with
/// the host's network, hand the data directories to the user, sync the
/// application, write its environment, run the pre-start hooks, restart
/// the jail on its own address, prepare the run and log directories, and
/// start the service's processes. Everything must succeed.
pub fn pipeline_steps(config: &Config, jail: &crate::jail::JailInfo, env_content: &str) -> (r: Vec<crate::remote::Step>)
    ensures
        r@.len() > 0,
        crate::remote::step_view(r@[0]) == crate::remote::must_run(
            build_phase_start(jail.name@, jail.path@, config.doas),
        ),
        full_view(r@) == pipeline_plan(*config, jail.name@, jail.path@, jail.ip@, env_content@),
{
    let doas = config.doas;
    let ghost (nm, pt) = (jail.name@, jail.path@);
    let name = escape(jail.name.as_str());
    let root = escape(jail.path.as_str());
    let mut r: Vec<crate::remote::Step> = Vec::new();
    let start = crate::text::cmd5(doas, "jail -c name=", name.as_str(), " path=", root.as_str(),
        cat(" host.hostname=", name.as_str()).concat(" ip4=inherit allow.raw_sockets=1 persist").as_str());
    assert(start@ =~= build_phase_start(jail.name@, jail.path@, doas));
    r.push(crate::remote::must(start));
    let ghost first = r@[0];
    let ghost seg0 = full_view(r@);
    assert(seg0 =~= seq![(true, OpView::Run(build_phase_start(nm, pt, doas)))]);
    match &config.user {
        Some(u) => {
            let wu = escape(u.as_str());
            let mut i: usize = 0;
            while i < config.data_directories.len()
                invariant
                    i <= config.data_directories.len(),
                    r@.len() > 0,
                    r@[0] == first,
                    name@ == shell_word(nm),
                    nm == jail.name@,
                    pt == jail.path@,
                    root@ == shell_word(pt),
                    wu@ == shell_word(u@),
                    doas == config.doas,
                    full_view(r@) == seg0 + data_chowns(config.data_directories@.subrange(0, i as int), nm, u@, doas),
                decreases config.data_directories.len() - i,
            {
                let ghost prev = full_view(r@);
                assert(config.data_directories@.subrange(0, i + 1).drop_last() =~= config.data_directories@.subrange(0, i as int));
                assert(config.data_directories@.subrange(0, i + 1).last() == config.data_directories@[i as int]);
                let (_, jp) = config.data_directories[i].get_paths();
                if !jp.as_str().is_empty() {
                    let c = crate::text::cmd5(doas, "jexec ", name.as_str(), " chown -R ",
                        wu.as_str(), cat(" ", escape(jp.as_str()).as_str()).as_str());
                    assert(c@ =~= prefix(doas) + "jexec "@ + shell_word(nm) + " chown -R "@ + wu@ + " "@
                        + shell_word(binding_paths(config.data_directories@[i as int]).1));
                    r.push(crate::remote::must(c));
                    assert(full_view(r@) =~= prev.push((true, OpView::Run(c@))));
                    assert(data_chowns(config.data_directories@.subrange(0, i + 1), nm, u@, doas) =~= data_chowns(
                        config.data_directories@.subrange(0, i as int), nm, u@, doas).push((true, OpView::Run(c@))));
                } else {
                    assert(full_view(r@) =~= prev);
                    assert(data_chowns(config.data_directories@.subrange(0, i + 1), nm, u@, doas) =~= data_chowns(
                        config.data_directories@.subrange(0, i as int), nm, u@, doas));
                }
                i = i + 1;
                assert(full_view(r@) =~= seg0 + data_chowns(config.data_directories@.subrange(0, i as int), nm, u@, doas));
            }
            assert(config.data_directories@.subrange(0, i as int) =~= config.data_directories@);
        },
        None => {
            assert(full_view(r@) =~= seg0 + Seq::<(bool, OpView)>::empty());
        },
    }
    let ghost seg1 = full_view(r@);
    let app = cat(jail.path.as_str(), JAIL_APP_DIR);
    assert(app@ == pt + JAIL_APP_DIR@);
    r.push(crate::remote::must(crate::text::cmd2(doas, "mkdir -p ", escape(app.as_str()).as_str())));
    assert(full_view(r@) =~= seg1.push((true, OpView::Run(prefix(doas) + "mkdir -p "@ + shell_word(pt + JAIL_APP_DIR@)))));
    let excl = sync_excludes(&config.data_directories);
    r.push(crate::remote::Step {
        op: crate::remote::Op::Sync {
            source: String::from_str("."),
            dest: app,
            excludes: excl,
            privileged: doas,
        },
        required: true,
    });
    let ghost q1 = full_view(r@);
    assert(q1 =~= seg1 + seq![
        (true, OpView::Run(prefix(doas) + "mkdir -p "@ + shell_word(pt + JAIL_APP_DIR@))),
        (true, OpView::Mirror("."@, pt + JAIL_APP_DIR@, sync_exclusions(config.data_directories@), doas)),
    ]);
    match &config.user {
        Some(u) => {
            let c = crate::text::cmd5(doas, "jexec ", name.as_str(), " chown -R ",
                escape(u.as_str()).as_str(), cat(" ", JAIL_APP_DIR).as_str());
            assert(name@ == shell_word(nm));
            assert(doas == config.doas);
            assert(c@ =~= prefix(doas) + "jexec "@ + shell_word(nm) + " chown -R "@ + shell_word(u@) + " "@ + JAIL_APP_DIR@);
            r.push(crate::remote::must(c));
        },
        None => {},
    }
    let ghost q2 = full_view(r@);
    assert(q2 =~= q1 + match config.user {
        Some(u) => seq![(true, OpView::Run(prefix(doas) + "jexec "@ + shell_word(nm) + " chown -R "@ + shell_word(u@) + " "@ + JAIL_APP_DIR@))],
        None => Seq::<(bool, OpView)>::empty(),
    });
    r.push(crate::remote::Step {
        op: crate::remote::Op::WriteFile {
            content: String::from_str(env_content),
            path: cat(jail.path.as_str(), JAIL_ENV_FILE),
            privileged: doas,
        },
        required: true,
    });
    let ghost q3 = full_view(r@);
    assert(q3 =~= q2 + seq![(true, OpView::Write(env_content@, pt + JAIL_ENV_FILE@, doas))]);
    let trust = cat("mise trust ", JAIL_APP_DIR);
    let trust_cmd = match &config.user {
        Some(u) => crate::text::cmd5(doas, "jexec ", name.as_str(), " su - ", escape(u.as_str()).as_str(),
            cat(" -c ", escape(trust.as_str()).as_str()).as_str()),
        None => crate::text::cmd4(doas, "jexec ", name.as_str(), " bash -c ", escape(trust.as_str()).as_str()),
    };
    assert(trust_cmd@ == match config.user {
        Some(u) => prefix(doas) + "jexec "@ + shell_word(nm) + " su - "@ + shell_word(u@) + " -c "@ + shell_word("mise trust "@ + JAIL_APP_DIR@),
        None => prefix(doas) + "jexec "@ + shell_word(nm) + " bash -c "@ + shell_word("mise trust "@ + JAIL_APP_DIR@),
    });
    r.push(crate::remote::may(trust_cmd));
    let ghost seg2 = full_view(r@);
    assert(seg2 =~= seg1 + seq![
        (true, OpView::Run(prefix(doas) + "mkdir -p "@ + shell_word(pt + JAIL_APP_DIR@))),
        (true, OpView::Mirror("."@, pt + JAIL_APP_DIR@, sync_exclusions(config.data_directories@), doas)),
    ] + match config.user {
        Some(u) => seq![(true, OpView::Run(prefix(doas) + "jexec "@ + shell_word(nm) + " chown -R "@ + shell_word(u@) + " "@ + JAIL_APP_DIR@))],
        None => Seq::<(bool, OpView)>::empty(),
    } + seq![(true, OpView::Write(env_content@, pt + JAIL_ENV_FILE@, doas))] + seq![(false, OpView::Run(match config.user {
        Some(u) => prefix(doas) + "jexec "@ + shell_word(nm) + " su - "@ + shell_word(u@) + " -c "@ + shell_word("mise trust "@ + JAIL_APP_DIR@),
        None => prefix(doas) + "jexec "@ + shell_word(nm) + " bash -c "@ + shell_word("mise trust "@ + JAIL_APP_DIR@),
    }))]);
    let mut i: usize = 0;
    while i < config.before_start.len()
        invariant
            i <= config.before_start.len(),
            r@.len() > 0,
            r@[0] == first,
            nm == jail.name@,
            pt == jail.path@,
            name@ == shell_word(nm),
            root@ == shell_word(pt),
            doas == config.doas,
            full_view(r@) == seg2 + each_hook(*config, nm, config.before_start@.subrange(0, i as int)),
        decreases config.before_start.len() - i,
    {
        let ghost prev = full_view(r@);
        let c = in_app(config, jail.name.as_str(), config.before_start[i].as_str());
        r.push(crate::remote::must(c));
        assert(full_view(r@) =~= prev.push((true, OpView::Run(c@))));
        assert(each_hook(*config, nm, config.before_start@.subrange(0, i + 1)) =~= each_hook(*config, nm, config.before_start@.subrange(0, i as int)).push((true, OpView::Run(c@))));
        i = i + 1;
        assert(full_view(r@) =~= seg2 + each_hook(*config, nm, config.before_start@.subrange(0, i as int)));
    }
    assert(config.before_start@.subrange(0, i as int) =~= config.before_start@);
    let ghost seg3 = full_view(r@);
    r.push(crate::remote::must(crate::text::cmd2(doas, "jail -r ", name.as_str())));
    let serve = crate::text::cmd5(doas, "jail -c name=", name.as_str(), " path=", root.as_str(),
        cat(" host.hostname=", name.as_str()).concat(" ip4.addr=").concat(escape(jail.ip.as_str()).as_str()).concat(
            " allow.raw_sockets=1 persist",
        ).as_str());
    assert(serve@ =~= serving_start(jail.name@, jail.path@, jail.ip@, doas));
    r.push(crate::remote::must(serve));
    match &config.user {
        Some(u) => {
            let wu = escape(u.as_str());
            let owner = cat(wu.as_str(), ":").concat(wu.as_str());
            let service = escape(config.service.as_str());
            let run_dir = escape(cat(jail.path.as_str(), RUN_DIR).concat("/").concat(service.as_str()).as_str());
            let log_dir = escape(cat(jail.path.as_str(), LOG_DIR).concat("/").concat(service.as_str()).as_str());
            r.push(crate::remote::must(crate::text::cmd2(doas, "mkdir -p ", run_dir.as_str())));
            r.push(crate::remote::must(crate::text::cmd2(doas, "mkdir -p ", log_dir.as_str())));
            r.push(crate::remote::must(crate::text::cmd4(doas, "chown ", owner.as_str(), " ", run_dir.as_str())));
            r.push(crate::remote::must(crate::text::cmd4(doas, "chown ", owner.as_str(), " ", log_dir.as_str())));
        },
        None => {},
    }
    let ghost seg4 = full_view(r@);
    assert(seg4 =~= seg3 + seq![
        (true, OpView::Run(prefix(doas) + "jail -r "@ + shell_word(nm))),
        (true, OpView::Run(serving_start(nm, pt, jail.ip@, doas))),
    ] + match config.user {
        Some(u) => {
            let owner = shell_word(u@) + ":"@ + shell_word(u@);
            let run_dir = shell_word(pt + RUN_DIR@ + "/"@ + shell_word(config.service@));
            let log_dir = shell_word(pt + LOG_DIR@ + "/"@ + shell_word(config.service@));
            seq![
                (true, OpView::Run(prefix(doas) + "mkdir -p "@ + run_dir)),
                (true, OpView::Run(prefix(doas) + "mkdir -p "@ + log_dir)),
                (true, OpView::Run(prefix(doas) + "chown "@ + owner + " "@ + run_dir)),
                (true, OpView::Run(prefix(doas) + "chown "@ + owner + " "@ + log_dir)),
            ]
        },
        None => Seq::<(bool, OpView)>::empty(),
    });
    let pid = pid_file(config);
    let log = log_file(config);
    let mut i: usize = 0;
    while i < config.start.len()
        invariant
            i <= config.start.len(),
            r@.len() > 0,
            r@[0] == first,
            pid@ == pid_path(*config),
            log@ == log_path(*config),
            name@ == shell_word(nm),
            nm == jail.name@,
            pt == jail.path@,
            doas == config.doas,
            full_view(r@) == seg4 + each_start(*config, nm, config.start@.subrange(0, i as int)),
        decreases config.start.len() - i,
    {
        let ghost prev = full_view(r@);
        let mut daemon = cat("daemon -f -p ", pid.as_str()).concat(" -o ").concat(log.as_str());
        match &config.user {
            Some(u) => {
                daemon = daemon.concat(" -u ").concat(escape(u.as_str()).as_str());
            },
            None => {},
        }
        assert(daemon@ =~= daemon_prefix(*config));
        let full = cat("source ", JAIL_ENV_FILE).concat(" && cd ").concat(JAIL_APP_DIR).concat(" && ").concat(
            config.start[i].as_str(),
        );
        assert(full@ =~= app_script(config.start@[i as int]@));
        let line = crate::text::cmd5(doas, "jexec ", name.as_str(), " ", daemon.as_str(),
            cat(" bash -c ", escape(full.as_str()).as_str()).as_str());
        assert(line@ =~= start_command(*config, nm, config.start@[i as int]@));
        r.push(crate::remote::must(line));
        assert(full_view(r@) =~= prev.push((true, OpView::Run(line@))));
        assert(each_start(*config, nm, config.start@.subrange(0, i + 1)) =~= each_start(*config, nm, config.start@.subrange(0, i as int)).push((true, OpView::Run(line@))));
        i = i + 1;
        assert(full_view(r@) =~= seg4 + each_start(*config, nm, config.start@.subrange(0, i as int)));
    }
    assert(config.start@.subrange(0, i as int) =~= config.start@);
    r
}

} // verus!
