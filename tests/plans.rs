use bsdeploy::caddy::{proxy_backend, proxy_steps, write_ssl_certificates};
use bsdeploy::config::{Config, EnvConfig, ProxyConfig, SslConfig};
use bsdeploy::destroy::destroy_host;
use bsdeploy::rcd::{enable_service, ensure_active_dir, install_rcd_script, RCD_SCRIPT};
use bsdeploy::remote::{get_zfs_dataset, Action, Op, Outcome, Script, Step};
use bsdeploy::setup::{pool_of, setup_steps};
use bsdeploy::teardown::teardown;

fn exec(s: &Step) -> String {
    match &s.op {
        Op::Exec(c) => c.clone(),
        Op::WriteFile { path, .. } => format!("write {}", path),
        Op::Sync { dest, .. } => format!("sync {}", dest),
    }
}

fn action_text<T>(a: &Action<T>) -> Option<String> {
    match a {
        Action::Perform(Op::Exec(c)) => Some(c.clone()),
        Action::Perform(Op::WriteFile { path, .. }) => Some(format!("write {}", path)),
        Action::Perform(Op::Sync { dest, .. }) => Some(format!("sync {}", dest)),
        Action::Finish(_) => None,
    }
}

#[test]
fn rcd_install_plan() {
    let steps = install_rcd_script(true);
    assert_eq!(steps.len(), 2);
    match &steps[0].op {
        Op::WriteFile { content, path, privileged } => {
            assert_eq!(content, RCD_SCRIPT);
            assert_eq!(path, "/usr/local/etc/rc.d/bsdeploy");
            assert!(*privileged);
        }
        _ => panic!("expected a file write"),
    }
    assert_eq!(exec(&steps[1]), "doas chmod +x /usr/local/etc/rc.d/bsdeploy");
    assert_eq!(exec(&enable_service(false)[0]), "sysrc bsdeploy_enable=YES");
    assert_eq!(exec(&ensure_active_dir(true)[0]), "doas mkdir -p /usr/local/bsdeploy/active");
}

#[test]
fn script_stops_at_first_required_failure() {
    let steps = vec![
        Step { op: Op::Exec("a".to_string()), required: false },
        Step { op: Op::Exec("b".to_string()), required: true },
        Step { op: Op::Exec("c".to_string()), required: true },
    ];
    let (mut s, a) = Script::new(steps);
    assert_eq!(action_text(&a), Some("a".to_string()));
    let a = s.resume(Outcome::Failed("ignored".to_string()));
    assert_eq!(action_text(&a), Some("b".to_string()));
    match s.resume(Outcome::Failed("boom".to_string())) {
        Action::Finish(Err(m)) => assert_eq!(m, "boom"),
        _ => panic!("expected the failure"),
    }
}

#[test]
fn dataset_lookup_falls_back_to_doas() {
    let (mut p, a) = get_zfs_dataset("/usr/local/bsdeploy/base");
    assert_eq!(action_text(&a).unwrap(), "df /usr/local/bsdeploy/base | tail -n 1 | awk '{print $1}'");
    let a = p.resume(Outcome::Succeeded("zroot/bsdeploy/base\n".to_string()));
    assert_eq!(action_text(&a).unwrap(), "zfs list -H -o name zroot/bsdeploy/base 2>/dev/null");
    let a = p.resume(Outcome::Failed("permission denied".to_string()));
    assert_eq!(action_text(&a).unwrap(), "doas zfs list -H -o name zroot/bsdeploy/base 2>/dev/null");
    match p.resume(Outcome::Succeeded(" zroot/bsdeploy/base \n".to_string())) {
        Action::Finish(Some(ds)) => assert_eq!(ds, "zroot/bsdeploy/base"),
        _ => panic!("expected a dataset"),
    }
}

#[test]
fn dataset_lookup_without_zfs() {
    let (mut p, _) = get_zfs_dataset("/");
    assert!(matches!(p.resume(Outcome::Succeeded("/dev/ada0p2\n".to_string())), Action::Finish(None)));
}

#[test]
fn teardown_touches_only_its_jail() {
    let (mut t, a) = teardown("svc-20240102-000000", None, Some("zroot/bsdeploy/jails".to_string()), true);
    assert_eq!(action_text(&a).unwrap(), "jls -j svc-20240102-000000 ip4.addr 2>/dev/null || echo '-'");
    let mut log = Vec::new();
    let mut a = t.resume(Outcome::Succeeded("10.0.0.7\n".to_string()));
    loop {
        let text = match action_text(&a) {
            Some(t) => t,
            None => break,
        };
        log.push(text.clone());
        let o = if text.starts_with("mount | grep") {
            Outcome::Succeeded(
                "/usr/local/bsdeploy/jails/svc-20240102-000000/bin\n/usr/local/bsdeploy/jails/svc-20240102-0000001/dev\n".to_string(),
            )
        } else {
            Outcome::Failed("best effort".to_string())
        };
        a = t.resume(o);
    }
    assert_eq!(
        log,
        vec![
            "doas jail -r svc-20240102-000000 2>/dev/null",
            "doas ifconfig lo1 inet 10.0.0.7 -alias",
            "mount | grep -F /usr/local/bsdeploy/jails/svc-20240102-000000 | awk '{print $3}'",
            "doas umount -f /usr/local/bsdeploy/jails/svc-20240102-000000/bin",
            "doas zfs destroy -r zroot/bsdeploy/jails/svc-20240102-000000",
            "doas chflags -R noschg /usr/local/bsdeploy/jails/svc-20240102-000000",
            "doas rm -rf /usr/local/bsdeploy/jails/svc-20240102-000000",
        ]
    );
}

#[test]
fn destroy_removes_every_jail_then_the_service() {
    let (mut d, a) = destroy_host("svc", false);
    assert!(action_text(&a).unwrap().starts_with("df "));
    let mut a = d.resume(Outcome::Succeeded("/dev/ada0p2\n".to_string()));
    let mut log = Vec::new();
    loop {
        let text = match action_text(&a) {
            Some(t) => t,
            None => break,
        };
        log.push(text.clone());
        let o = if text.starts_with("ls ") {
            Outcome::Succeeded("svc-20240101-000000\nsvc-api-20240101-000000\nsvc-20240102-000000\n".to_string())
        } else if text.starts_with("jls") {
            Outcome::Succeeded("-\n".to_string())
        } else {
            Outcome::Succeeded(String::new())
        };
        a = d.resume(o);
    }
    assert!(matches!(a, Action::Finish(Ok(()))));
    let removed: Vec<&String> = log.iter().filter(|l| l.starts_with("rm -rf ")).collect();
    assert_eq!(removed, vec!["rm -rf /usr/local/bsdeploy/jails/svc-20240101-000000", "rm -rf /usr/local/bsdeploy/jails/svc-20240102-000000"]);
    assert_eq!(&log[log.len() - 3..], &[
        "rm -f /usr/local/bsdeploy/active/svc".to_string(),
        "rm -f /usr/local/etc/caddy/conf.d/svc.caddy".to_string(),
        "service caddy reload".to_string(),
    ]);
}

#[test]
fn proxy_backend_is_read_back() {
    let conf = "app.example.com {\n    reverse_proxy 10.0.0.2:3000\n}\n";
    assert_eq!(proxy_backend(conf), Some("10.0.0.2:3000".to_string()));
    assert_eq!(proxy_backend("not configured"), None);
}

fn proxy(ssl: bool) -> ProxyConfig {
    ProxyConfig {
        hostname: "app.example.com".to_string(),
        port: 8080,
        tls: true,
        ssl: if ssl {
            Some(SslConfig { certificate_pem: "CERT".to_string(), private_key_pem: "KEY".to_string() })
        } else {
            None
        },
    }
}

#[test]
fn proxy_plan_with_certificates() {
    let certs = Some(("-----CERT-----".to_string(), "-----KEY-----".to_string()));
    let steps = proxy_steps(&proxy(true), "svc", "10.0.0.3:8080", &certs, true);
    let texts: Vec<String> = steps.iter().map(exec).collect();
    assert_eq!(
        texts,
        vec![
            "doas mkdir -p /usr/local/etc/caddy/certs",
            "write /usr/local/etc/caddy/certs/svc.crt",
            "write /usr/local/etc/caddy/certs/svc.key",
            "doas chmod 600 /usr/local/etc/caddy/certs/svc.crt /usr/local/etc/caddy/certs/svc.key",
            "doas chown www:www /usr/local/etc/caddy/certs/svc.crt /usr/local/etc/caddy/certs/svc.key",
            "write /usr/local/etc/caddy/conf.d/svc.caddy",
            "doas service caddy reload",
        ]
    );
    let w = write_ssl_certificates("svc", "C", "K", false);
    match &w[1].op {
        Op::WriteFile { content, .. } => assert_eq!(content, "C"),
        _ => panic!("expected a file write"),
    }
}

#[test]
fn setup_plan() {
    let config = Config {
        service: "svc".to_string(),
        user: Some("app".to_string()),
        hosts: vec!["h".to_string()],
        jail: None,
        packages: vec!["curl".to_string(), "lib yaml".to_string()],
        env: EnvConfig::default(),
        before_start: Vec::new(),
        start: Vec::new(),
        data_directories: Vec::new(),
        doas: true,
        proxy: Some(proxy(false)),
        mise: Vec::new(),
    };
    let steps = setup_steps(&config, &Some("tank/ROOT/default".to_string()), "export A='1'\n", &None);
    let texts: Vec<String> = steps.iter().map(exec).collect();
    assert_eq!(texts[0], "doas pkg update");
    assert_eq!(texts[1], "doas pkg install -y caddy rsync git bash");
    assert_eq!(texts[2], "id app >/dev/null 2>&1 || doas pw useradd -n app -m -s /usr/local/bin/bash");
    assert_eq!(texts[3], "doas pkg install -y curl 'lib yaml'");
    assert!(texts.contains(&"zfs list -H -o name tank/bsdeploy/jails >/dev/null 2>&1 || doas zfs create -o mountpoint=/usr/local/bsdeploy/jails tank/bsdeploy/jails".to_string()));
    assert!(texts.contains(&"write /usr/local/etc/bsdeploy/svc/env".to_string()));
    assert!(texts.contains(&"write /usr/local/etc/caddy/conf.d/svc.caddy".to_string()));
    assert_eq!(texts.last().unwrap(), "doas service caddy restart");
    assert_eq!(pool_of(&None), "zroot");
    assert_eq!(pool_of(&Some("tank/ROOT/default".to_string())), "tank");
}
