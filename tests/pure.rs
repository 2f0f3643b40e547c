use bsdeploy::caddy::generate_caddyfile;
use bsdeploy::config::{Config, EnvConfig, JailConfig, ProxyConfig, SslConfig};
use bsdeploy::deploy::{build_env_content, determine_base_version, old_jails, prune_victims, sync_excludes};
use bsdeploy::config::DataDirectory;
use bsdeploy::error::DeployError;
use bsdeploy::image::get_image_hash;
use bsdeploy::jail::{find_free_ip, jail_name, parse_jail_timestamp, strip_patch_level, Timestamp};
use bsdeploy::order::sort_strings;
use bsdeploy::remote::{get_os_release, maybe_doas};

fn config(packages: &[&str], tools: &[(&str, &str)], user: Option<&str>) -> Config {
    Config {
        service: "svc".to_string(),
        user: user.map(|u| u.to_string()),
        hosts: vec!["example.com".to_string()],
        jail: None,
        packages: packages.iter().map(|p| p.to_string()).collect(),
        env: EnvConfig::default(),
        before_start: Vec::new(),
        start: Vec::new(),
        data_directories: Vec::new(),
        doas: false,
        proxy: None,
        mise: tools.iter().map(|(t, v)| (t.to_string(), v.to_string())).collect(),
    }
}

fn ts(y: i32, mo: u32, d: u32, h: u32, mi: u32, s: u32) -> Timestamp {
    Timestamp { year: y, month: mo, day: d, hour: h, minute: mi, second: s }
}

#[test]
fn free_address_skips_taken_ones() {
    let r = find_free_ip("10.0.0.0/24", "10.0.0.2\n10.0.0.3\n10.0.0.5\n").unwrap();
    assert_eq!(r, "10.0.0.4");
}

#[test]
fn free_address_starts_at_two() {
    assert_eq!(find_free_ip("192.168.1.0/24", "").unwrap(), "192.168.1.2");
    assert_eq!(find_free_ip("192.168.1.0/24", "  127.0.0.1 \r\n10.0.0.2\n").unwrap(), "192.168.1.2");
}

#[test]
fn free_address_rejects_malformed_subnet() {
    assert!(matches!(find_free_ip("10.0.0/24", ""), Err(DeployError::InvalidSubnet(_))));
    assert!(matches!(find_free_ip("10.0.0.0/16", ""), Err(DeployError::InvalidSubnet(_))));
    assert!(matches!(find_free_ip("10.0.0.0", ""), Err(DeployError::InvalidSubnet(_))));
}

#[test]
fn free_address_exhausted() {
    let mut taken = String::new();
    for i in 2..255 {
        taken.push_str(&format!("10.0.0.{}\n", i));
    }
    assert!(matches!(find_free_ip("10.0.0.0/24", &taken), Err(DeployError::NoAddressAvailable(_))));
}

#[test]
fn jail_names_sort_in_creation_order() {
    let a = jail_name("svc", ts(2024, 1, 1, 0, 0, 0));
    let b = jail_name("svc", ts(2024, 1, 1, 0, 1, 0));
    let c = jail_name("svc", ts(2024, 1, 2, 0, 0, 0));
    assert_eq!(a, "svc-20240101-000000");
    assert_eq!(b, "svc-20240101-000100");
    assert_eq!(c, "svc-20240102-000000");
    let sorted = sort_strings(vec![c.clone(), a.clone(), b.clone()]);
    assert_eq!(sorted, vec![a, b, c]);
}

#[test]
fn prune_removes_three_oldest_of_six() {
    let listing = "svc-20240101-000000\nsvc-20240102-000000\nsvc-20240103-000000\nsvc-20240104-000000\nsvc-20240105-000000\nsvc-20240106-000000\n";
    let v = prune_victims(listing, "svc", "svc-20240106-000000", 3);
    assert_eq!(v, vec!["svc-20240101-000000", "svc-20240102-000000", "svc-20240103-000000"]);
}

#[test]
fn prune_never_removes_current_jail() {
    let listing = "svc-20240105-000000\nsvc-20240101-000000\nsvc-20240102-000000\nsvc-20240103-000000\nsvc-20240104-000000\nsvc-20230101-000000\n";
    let v = prune_victims(listing, "svc", "svc-20230101-000000", 3);
    assert_eq!(v, vec!["svc-20240101-000000", "svc-20240102-000000"]);
}

#[test]
fn prune_ignores_other_services() {
    let listing = "svc-api-20240101-000000\nsvc-api-20240102-000000\nsvc-api-20240103-000000\nsvc-api-20240104-000000\nsvc-20240105-000000\n";
    assert!(prune_victims(listing, "svc", "svc-20240105-000000", 3).is_empty());
}

#[test]
fn prune_keeps_everything_under_threshold() {
    let v = prune_victims("svc-20240101-000000\nsvc-20240102-000000\n", "svc", "svc-20240102-000000", 3);
    assert!(v.is_empty());
}

#[test]
fn old_jails_exclude_current() {
    let v = old_jails(
        "svc-20240101-000000\n\nsvc-20240102-000000\n svc-20240103-000000 \nsvc-api-20240101-000000\nsvc-x\n",
        "svc",
        "svc-20240102-000000",
    );
    assert_eq!(v, vec!["svc-20240101-000000", "svc-20240103-000000"]);
}

#[test]
fn fingerprint_ignores_order() {
    let a = get_image_hash(&config(&["b", "a"], &[("ruby", "3.3"), ("node", "20")], None), "14.1-RELEASE");
    let b = get_image_hash(&config(&["a", "b"], &[("node", "20"), ("ruby", "3.3")], None), "14.1-RELEASE");
    assert_eq!(a, b);
    assert_eq!(a.len(), 64);
    assert!(a.chars().all(|c| c.is_ascii_hexdigit() && !c.is_ascii_uppercase()));
}

#[test]
fn fingerprint_sees_every_field() {
    let base = get_image_hash(&config(&["a"], &[("ruby", "3.3")], Some("app")), "14.1-RELEASE");
    assert_ne!(base, get_image_hash(&config(&["a"], &[("ruby", "3.3")], Some("app")), "14.2-RELEASE"));
    assert_ne!(base, get_image_hash(&config(&["b"], &[("ruby", "3.3")], Some("app")), "14.1-RELEASE"));
    assert_ne!(base, get_image_hash(&config(&["a"], &[("ruby", "3.4")], Some("app")), "14.1-RELEASE"));
    assert_ne!(base, get_image_hash(&config(&["a"], &[("ruby", "3.3")], Some("web")), "14.1-RELEASE"));
    assert_ne!(base, get_image_hash(&config(&["a"], &[("ruby", "3.3")], None), "14.1-RELEASE"));
}

#[test]
fn fingerprint_fields_are_delimited() {
    let a = get_image_hash(&config(&[], &[], None), "a;");
    let b = get_image_hash(&config(&[""], &[], None), "a");
    assert_ne!(a, b);
}

#[test]
fn jail_timestamp_is_parsed() {
    assert_eq!(parse_jail_timestamp("svc-20240102-030405"), Some("2024-01-02 03:04:05".to_string()));
    assert_eq!(parse_jail_timestamp("my-app-20240102-030405"), Some("2024-01-02 03:04:05".to_string()));
    assert_eq!(parse_jail_timestamp("svc"), None);
    assert_eq!(parse_jail_timestamp("svc-2024-030405"), None);
}

#[test]
fn patch_level_is_stripped() {
    assert_eq!(strip_patch_level("14.1-RELEASE-p12"), "14.1-RELEASE");
    assert_eq!(strip_patch_level("14.1-RELEASE"), "14.1-RELEASE");
    assert_eq!(get_os_release("14.1-RELEASE-p12\n"), "14.1-RELEASE-p12");
    let c = config(&[], &[], None);
    assert_eq!(determine_base_version(&c, "14.1-RELEASE-p12\n"), "14.1-RELEASE");
    let mut o = config(&[], &[], None);
    o.jail = Some(JailConfig { base_version: Some("13.2-RELEASE".to_string()), ip_range: None });
    assert_eq!(determine_base_version(&o, "14.1-RELEASE-p12\n"), "13.2-RELEASE");
}

#[test]
fn doas_prefix() {
    assert_eq!(maybe_doas("pkg update", true), "doas pkg update");
    assert_eq!(maybe_doas("pkg update", false), "pkg update");
}

fn proxy(tls: bool, ssl: bool) -> ProxyConfig {
    ProxyConfig {
        hostname: "app.example.com".to_string(),
        port: 3000,
        tls,
        ssl: if ssl {
            Some(SslConfig { certificate_pem: "C".to_string(), private_key_pem: "K".to_string() })
        } else {
            None
        },
    }
}

#[test]
fn caddyfile_with_automatic_tls() {
    let c = generate_caddyfile(&proxy(true, false), "svc", "10.0.0.2:3000");
    assert_eq!(c, "app.example.com {\n    reverse_proxy 10.0.0.2:3000\n}\n");
}

#[test]
fn caddyfile_without_tls() {
    let c = generate_caddyfile(&proxy(false, false), "svc", "10.0.0.2:3000");
    assert_eq!(c, "http://app.example.com {\n    reverse_proxy 10.0.0.2:3000\n}\n");
}

#[test]
fn caddyfile_with_manual_certificate() {
    let c = generate_caddyfile(&proxy(false, true), "svc", "10.0.0.2:3000");
    assert_eq!(
        c,
        "app.example.com {\n    tls /usr/local/etc/caddy/certs/svc.crt /usr/local/etc/caddy/certs/svc.key\n    reverse_proxy 10.0.0.2:3000\n}\n"
    );
}

#[test]
fn environment_file_content() {
    let mut c = config(&[], &[("ruby", "3.3")], None);
    c.env.clear = vec![
        vec![("PORT".to_string(), "3000".to_string())],
        vec![("GREETING".to_string(), "it's".to_string())],
    ];
    c.env.secret = vec!["KEY".to_string()];
    let r = build_env_content(&c, &vec![Some("s3cr'et".to_string())]).unwrap();
    assert_eq!(
        r,
        "export PORT='3000'\nexport GREETING='it'\\''s'\nexport KEY='s3cr'\\''et'\n\neval \"$(mise activate bash)\"\n"
    );
}

#[test]
fn environment_file_missing_secret() {
    let mut c = config(&[], &[], None);
    c.env.secret = vec!["A".to_string(), "B".to_string()];
    match build_env_content(&c, &vec![Some("x".to_string()), None]) {
        Err(DeployError::MissingSecret(n)) => assert_eq!(n, "B"),
        other => panic!("unexpected {:?}", other),
    }
}

#[test]
fn sync_excludes_data_inside_app() {
    let dirs = vec![
        DataDirectory::Mapping(vec![("/var/data/storage".to_string(), "/app/storage".to_string())]),
        DataDirectory::Simple("/var/data/uploads".to_string()),
        DataDirectory::Simple("/app/".to_string()),
        DataDirectory::Simple("/application".to_string()),
    ];
    assert_eq!(sync_excludes(&dirs), vec!["/storage"]);
}
