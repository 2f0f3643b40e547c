//! Fixed paths on the remote hosts, shared with the boot-time script.
use vstd::prelude::*;

verus! {

/// Root of everything this tool keeps on a host.
pub const BSDEPLOY_BASE: &'static str = "/usr/local/bsdeploy";

/// Extracted base systems, one directory per release.
pub const BASE_DIR: &'static str = "/usr/local/bsdeploy/base";

/// Prepared images, one directory per fingerprint prefix.
pub const IMAGES_DIR: &'static str = "/usr/local/bsdeploy/images";

/// Jail roots, one directory per jail.
pub const JAILS_DIR: &'static str = "/usr/local/bsdeploy/jails";

/// Links to the jail that serves each service.
pub const ACTIVE_DIR: &'static str = "/usr/local/bsdeploy/active";

/// Subnet that jail addresses come from when the configuration names none.
pub const DEFAULT_IP_RANGE: &'static str = "10.0.0.0/24";

/// Environment file inside a jail.
pub const JAIL_ENV_FILE: &'static str = "/etc/bsdeploy.env";

/// Application directory inside a jail.
pub const JAIL_APP_DIR: &'static str = "/app";

/// Application data on the host.
pub const APP_DATA_DIR: &'static str = "/var/db/bsdeploy";

/// Per-service configuration on the host.
pub const CONFIG_DIR: &'static str = "/usr/local/etc/bsdeploy";

/// Directory of PID files.
pub const RUN_DIR: &'static str = "/var/run/bsdeploy";

/// Directory of service logs.
pub const LOG_DIR: &'static str = "/var/log/bsdeploy";

/// Directory of per-service proxy configuration.
pub const CADDY_CONF_DIR: &'static str = "/usr/local/etc/caddy/conf.d";

/// The proxy's main configuration file.
pub const CADDYFILE_PATH: &'static str = "/usr/local/etc/caddy/Caddyfile";

/// Directory of manually managed certificates.
pub const CADDY_CERTS_DIR: &'static str = "/usr/local/etc/caddy/certs";

/// Pool used when the root dataset names none.
pub const DEFAULT_ZFS_POOL: &'static str = "zroot";

/// Number of jails kept per service for rollback.
pub const JAILS_TO_KEEP: usize = 3;

} // verus!
