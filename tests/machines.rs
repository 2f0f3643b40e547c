use std::collections::HashSet;

use bsdeploy::base::ensure_base;
use bsdeploy::config::{Config, EnvConfig, ProxyConfig};
use bsdeploy::error::DeployError;
use bsdeploy::image_build::ensure_image;
use bsdeploy::remote::{Action, Op, Outcome};
use bsdeploy::rollout::deploy_to_host;

/// A host that keeps marker files and snapshots, fails the commands that
/// `fail` picks, and answers queries from `answer`.
struct FakeHost {
    files: HashSet<String>,
    log: Vec<String>,
    jail: Option<String>,
    fail: fn(&str) -> bool,
    aliases: String,
    others: String,
}

fn word_after(cmd: &str, key: &str) -> String {
    let rest = &cmd[cmd.find(key).unwrap() + key.len()..];
    rest.split(' ').next().unwrap().trim_matches('\'').to_string()
}

impl FakeHost {
    fn new(fail: fn(&str) -> bool) -> FakeHost {
        FakeHost { files: HashSet::new(), log: Vec::new(), jail: None, fail, aliases: "127.0.0.1\n".to_string(), others: String::new() }
    }

    fn perform(&mut self, op: &Op) -> Outcome {
        let text = match op {
            Op::Exec(c) => c.clone(),
            Op::WriteFile { content, path, .. } => format!("write {}\n{}", path, content),
            Op::Sync { dest, .. } => format!("sync {}", dest),
        };
        self.log.push(text.clone());
        if (self.fail)(&text) {
            return Outcome::Failed("injected failure".to_string());
        }
        let c = text.trim_start_matches("doas ");
        if c.starts_with("jail -c name=") && self.jail.is_none() && !c.starts_with("jail -c name=build-") {
            self.jail = Some(word_after(c, "name="));
        }
        if c == "uname -r" {
            return Outcome::Succeeded("14.1-RELEASE-p12\n".to_string());
        }
        if c.starts_with("df ") {
            return Outcome::Succeeded("/dev/ada0p2\n".to_string());
        }
        if c.starts_with("test -f ") {
            let p = word_after(c, "test -f ");
            return if self.files.contains(&p) {
                Outcome::Succeeded(String::new())
            } else {
                Outcome::Failed("no such file".to_string())
            };
        }
        if c.starts_with("touch ") {
            self.files.insert(word_after(c, "touch "));
        }
        if c.starts_with("rm -rf ") {
            let p = word_after(c, "rm -rf ");
            self.files.retain(|f| !(f == &p || f.starts_with(&format!("{}/", p))));
        }
        if c.starts_with("ls /usr/local/bsdeploy/base/") {
            return Outcome::Succeeded("bin\nlib\nshare\n".to_string());
        }
        if c.starts_with("ifconfig lo1 | grep") {
            return Outcome::Succeeded(self.aliases.clone());
        }
        if c.starts_with("ls /usr/local/bsdeploy/jails/") {
            let mut out = self.others.clone();
            if let Some(j) = &self.jail {
                out.push_str(j);
                out.push('\n');
            }
            return Outcome::Succeeded(out);
        }
        if c.starts_with("mount | grep -F ") {
            let p = word_after(c, "-F ");
            return Outcome::Succeeded(format!(
                "{p}/bin\n{p}/usr/local\n{p}/dev\n/usr/local/bsdeploy/jails/svc-20240101-000000/dev\n{p}x/dev\n"
            ));
        }
        if c.starts_with("jls -j ") {
            return Outcome::Succeeded("-\n".to_string());
        }
        Outcome::Succeeded(String::new())
    }
}

fn config() -> Config {
    Config {
        service: "svc".to_string(),
        user: Some("app".to_string()),
        hosts: vec!["example.com".to_string()],
        jail: None,
        packages: vec!["curl".to_string()],
        env: EnvConfig::default(),
        before_start: vec!["bundle install".to_string()],
        start: vec!["bin/rails server".to_string()],
        data_directories: Vec::new(),
        doas: false,
        proxy: Some(ProxyConfig { hostname: "app.example.com".to_string(), port: 3000, tls: true, ssl: None }),
        mise: vec![("ruby".to_string(), "3.3.0".to_string())],
    }
}

fn never(_: &str) -> bool {
    false
}

#[test]
fn base_is_fetched_at_most_once() {
    let mut host = FakeHost::new(never);
    for _ in 0..2 {
        let (mut m, mut a) = ensure_base("14.1-RELEASE", false, None);
        loop {
            match a {
                Action::Perform(op) => {
                    let o = host.perform(&op);
                    a = m.resume(o);
                },
                Action::Finish(r) => {
                    assert!(r.is_ok());
                    break;
                },
            }
        }
    }
    let fetches = host.log.iter().filter(|c| c.starts_with("fetch -o - ")).count();
    assert_eq!(fetches, 1);
    assert_eq!(host.log.last().unwrap(), "test -f /usr/local/bsdeploy/base/14.1-RELEASE/.ready");
}

fn fails_fetch(c: &str) -> bool {
    c.starts_with("fetch -o - ")
}

#[test]
fn failed_fetch_names_the_release() {
    let mut host = FakeHost::new(fails_fetch);
    let (mut m, mut a) = ensure_base("14.1-RELEASE", false, None);
    let r = loop {
        match a {
            Action::Perform(op) => {
                let o = host.perform(&op);
                a = m.resume(o);
            },
            Action::Finish(r) => break r,
        }
    };
    match r {
        Err(DeployError::BaseFetch(v, _)) => assert_eq!(v, "14.1-RELEASE"),
        other => panic!("unexpected {:?}", other),
    }
    assert!(!host.log.iter().any(|l| l.starts_with("touch ")));
}

fn run_image(host: &mut FakeHost, c: &Config) -> Result<String, DeployError> {
    let (mut m, mut a) = ensure_image(c, "14.1-RELEASE", None, None);
    loop {
        match a {
            Action::Perform(op) => {
                let o = host.perform(&op);
                a = m.resume(o);
            },
            Action::Finish(r) => return r.map(|i| i.path),
        }
    }
}

#[test]
fn ready_image_is_reused_without_building() {
    let mut host = FakeHost::new(never);
    let c = config();
    let path = run_image(&mut host, &c).unwrap();
    assert!(path.starts_with("/usr/local/bsdeploy/images/"));
    assert_eq!(path.len(), "/usr/local/bsdeploy/images/".len() + 12);
    let before = host.log.len();
    let mut reordered = c.clone();
    reordered.packages = vec!["curl".to_string()];
    assert_eq!(run_image(&mut host, &reordered).unwrap(), path);
    assert_eq!(host.log.len(), before + 1);
    assert!(host.log[before].starts_with("test -f "));
}

fn fails_package_install(c: &str) -> bool {
    c.contains("install -y 'curl'") || c.contains("install -y curl")
}

#[test]
fn failed_build_leaves_no_marker_or_storage() {
    let mut host = FakeHost::new(fails_package_install);
    let c = config();
    let r = run_image(&mut host, &c);
    assert!(matches!(r, Err(DeployError::Transport(_))));
    assert!(host.files.is_empty());
    assert!(!host.log.iter().any(|l| l.starts_with("touch ")));
    let last = host.log.last().unwrap();
    assert!(last.starts_with("rm -rf /usr/local/bsdeploy/images/"));
    host.fail = never;
    let before = host.log.len();
    assert!(run_image(&mut host, &c).is_ok());
    assert!(host.log[before..].iter().any(|l| l.contains("install -y curl")));
}

fn drive(host: &mut FakeHost, c: Config) -> Result<bsdeploy::jail::JailInfo, DeployError> {
    let (mut d, mut a) = deploy_to_host(c, "export PORT='3000'\n".to_string(), None);
    loop {
        match a {
            Action::Perform(op) => {
                let o = host.perform(&op);
                a = d.resume(o);
            },
            Action::Finish(r) => return r,
        }
    }
}

fn fails_hooks(c: &str) -> bool {
    c.contains("bundle install")
}

#[test]
fn failed_hook_rolls_back_new_jail_only() {
    let mut host = FakeHost::new(fails_hooks);
    host.aliases = "127.0.0.1\n10.0.0.2\n".to_string();
    let r = drive(&mut host, config());
    assert!(matches!(r, Err(DeployError::Transport(_))));
    let name = host.jail.clone().unwrap();
    let path = format!("/usr/local/bsdeploy/jails/{}", name);
    let hook = host.log.iter().position(|l| l.contains("bundle install")).unwrap();
    let after = &host.log[hook + 1..];
    assert!(after.iter().any(|l| l == &format!("jail -r {} 2>/dev/null", name)));
    assert!(after.iter().any(|l| l == "ifconfig lo1 inet 10.0.0.3 -alias"));
    assert!(after.iter().any(|l| l == &format!("rm -rf {}", path)));
    let unmounts: Vec<&String> = after.iter().filter(|l| l.starts_with("umount -f ")).collect();
    assert_eq!(
        unmounts,
        vec![
            &format!("umount -f {}/dev", path),
            &format!("umount -f {}/usr/local", path),
            &format!("umount -f {}/bin", path),
        ]
    );
    assert!(!after.iter().any(|l| l.contains("svc-20240101-000000")));
    assert!(!after.iter().any(|l| l.contains("10.0.0.2")));
}

#[test]
fn first_deploy_serves_one_jail() {
    let mut host = FakeHost::new(never);
    let info = drive(&mut host, config()).unwrap();
    assert_eq!(info.ip, "10.0.0.2");
    assert_eq!(Some(info.name.clone()), host.jail);
    let stamp = info.name.strip_prefix("svc-").unwrap();
    assert_eq!(stamp.len(), 15);
    assert_eq!(&stamp[8..9], "-");
    assert!(stamp[..8].chars().chain(stamp[9..].chars()).all(|c| c.is_ascii_digit()));
    assert!(stamp[..4].parse::<u32>().unwrap() >= 2024);
    let confs: Vec<&String> = host.log.iter().filter(|l| l.starts_with("write /usr/local/etc/caddy/conf.d/")).collect();
    assert_eq!(confs.len(), 1);
    assert!(confs[0].starts_with("write /usr/local/etc/caddy/conf.d/svc.caddy\n"));
    assert!(confs[0].contains("reverse_proxy 10.0.0.2:3000"));
    assert!(!host.log.iter().any(|l| l.starts_with("rm -rf /usr/local/bsdeploy/jails/")));
    assert_eq!(host.log.iter().filter(|l| l.starts_with("jail -c name=")).count(), 3);
    assert!(host.log.iter().any(|l| l.contains("ip4.addr=10.0.0.2")));
}

#[test]
fn deploy_stops_and_prunes_only_this_service() {
    let mut host = FakeHost::new(never);
    host.others = "svc-20240101-000000\nsvc-20240102-000000\nsvc-20240103-000000\nsvc-20240104-000000\nsvc-20240105-000000\nsvc-api-20240101-000000\nsvc-api-20240102-000000\n".to_string();
    let info = drive(&mut host, config()).unwrap();
    let stops: Vec<&String> = host.log.iter().filter(|l| l.contains(" sh -c ") && l.starts_with("jexec ")).collect();
    assert_eq!(stops.len(), 5);
    assert!(!stops.iter().any(|l| l.contains("svc-api")));
    let removed: Vec<&String> = host.log.iter().filter(|l| l.starts_with("rm -rf /usr/local/bsdeploy/jails/")).collect();
    assert_eq!(
        removed,
        vec![
            "rm -rf /usr/local/bsdeploy/jails/svc-20240101-000000",
            "rm -rf /usr/local/bsdeploy/jails/svc-20240102-000000",
            "rm -rf /usr/local/bsdeploy/jails/svc-20240103-000000",
        ]
    );
    assert!(!host.log.iter().any(|l| l.contains(&format!("rm -rf /usr/local/bsdeploy/jails/{}", info.name))));
}
