use bsdeploy::rcd::RCD_SCRIPT;

#[test]
fn test_rcd_script_has_required_sections() {
    // Test that the rc.d script has all required FreeBSD rc.d components
    assert!(RCD_SCRIPT.contains("# PROVIDE: bsdeploy"));
    assert!(RCD_SCRIPT.contains("# REQUIRE: NETWORKING"));
    assert!(RCD_SCRIPT.contains("# BEFORE: caddy"));
    assert!(RCD_SCRIPT.contains(". /etc/rc.subr"));
    assert!(RCD_SCRIPT.contains("load_rc_config $name"));
    assert!(RCD_SCRIPT.contains("run_rc_command"));
}

#[test]
fn test_rcd_script_has_start_stop_status() {
    // Test that start, stop, and status commands are defined
    assert!(RCD_SCRIPT.contains("bsdeploy_start()"));
    assert!(RCD_SCRIPT.contains("bsdeploy_stop()"));
    assert!(RCD_SCRIPT.contains("bsdeploy_status()"));
    assert!(RCD_SCRIPT.contains("bsdeploy_restart()"));
}

#[test]
fn test_rcd_script_uses_correct_paths() {
    // Test that the script uses the correct bsdeploy paths
    assert!(RCD_SCRIPT.contains(r#"ACTIVE_DIR="/usr/local/bsdeploy/active""#));
    assert!(RCD_SCRIPT.contains(r#"JAILS_DIR="/usr/local/bsdeploy/jails""#));
    assert!(RCD_SCRIPT.contains(r#"BASE_DIR="/usr/local/bsdeploy/base""#));
}

#[test]
fn test_rcd_script_handles_zfs_and_non_zfs() {
    // Test that the script distinguishes between ZFS and non-ZFS jails
    assert!(RCD_SCRIPT.contains(r#"is_zfs=$($JQ -r '.zfs' "$metadata")"#));
    assert!(RCD_SCRIPT.contains(r#"if [ "$is_zfs" = "true" ]"#));
}

#[test]
fn test_rcd_script_uses_jq_for_json() {
    // Test that the script uses jq to parse JSON metadata
    assert!(RCD_SCRIPT.contains("$JQ -r '.jail_name'"));
    assert!(RCD_SCRIPT.contains("$JQ -r '.ip'"));
    assert!(RCD_SCRIPT.contains("$JQ -r '.service'"));
    assert!(RCD_SCRIPT.contains("$JQ -r '.start_commands[]'"));
}

#[test]
fn test_rcd_script_creates_lo1() {
    // Test that the script creates lo1 interface if needed
    assert!(RCD_SCRIPT.contains("ifconfig lo1 create"));
}

#[test]
fn test_rcd_script_mounts_devfs() {
    // Test that the script mounts devfs
    assert!(RCD_SCRIPT.contains("mount -t devfs devfs"));
}

#[test]
fn test_rcd_script_starts_jail_correctly() {
    // Test that the jail start command has correct parameters
    assert!(RCD_SCRIPT.contains("jail -c name="));
    assert!(RCD_SCRIPT.contains("allow.raw_sockets=1"));
    assert!(RCD_SCRIPT.contains("persist"));
}

#[test]
fn test_rcd_script_stops_jail_correctly() {
    // Test that the script stops jails properly
    assert!(RCD_SCRIPT.contains("jail -r"));
}

#[test]
fn test_rcd_script_handles_ip_aliases() {
    // Test that the script manages IP aliases on lo1
    assert!(RCD_SCRIPT.contains("ifconfig lo1 inet"));
    assert!(RCD_SCRIPT.contains("-alias"));
}

