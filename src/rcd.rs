//! The boot-time script that brings active jails back after a restart.
use vstd::prelude::*;

use crate::constants::ACTIVE_DIR;
use crate::remote::{must, prefix, Op, Step};
use crate::text::cat;

verus! {

/// Where the boot script is installed.
pub const RCD_PATH: &'static str = "/usr/local/etc/rc.d/bsdeploy";

/// The boot script. At boot it reads each active jail's metadata file,
/// re-creates the address alias and the mounts, starts the jail and its
/// processes; at shutdown it undoes that.
pub const RCD_SCRIPT: &'static str = r#"#!/bin/sh

# PROVIDE: bsdeploy
# REQUIRE: NETWORKING
# BEFORE: caddy
# KEYWORD: shutdown

. /etc/rc.subr

name="bsdeploy"
rcvar="bsdeploy_enable"
start_cmd="${name}_start"
stop_cmd="${name}_stop"
status_cmd="${name}_status"
restart_cmd="${name}_restart"
extra_commands="status"

ACTIVE_DIR="/usr/local/bsdeploy/active"
JAILS_DIR="/usr/local/bsdeploy/jails"
BASE_DIR="/usr/local/bsdeploy/base"
JQ="/usr/local/bin/jq"

bsdeploy_start()
{
    echo "Starting bsdeploy jails..."

    # Ensure lo1 exists
    if ! ifconfig lo1 > /dev/null 2>&1; then
        ifconfig lo1 create
    fi

    # Iterate over active services
    for link in "$ACTIVE_DIR"/*; do
        [ -L "$link" ] || continue

        jail_path=$(readlink -f "$link")
        [ -d "$jail_path" ] || continue

        metadata="$jail_path/.bsdeploy.json"
        [ -f "$metadata" ] || continue

        # Parse metadata using jq
        jail_name=$($JQ -r '.jail_name' "$metadata")
        ip=$($JQ -r '.ip' "$metadata")
        service=$($JQ -r '.service' "$metadata")
        user=$($JQ -r '.user // empty' "$metadata")
        base_version=$($JQ -r '.base_version' "$metadata")
        image_path=$($JQ -r '.image_path // empty' "$metadata")
        is_zfs=$($JQ -r '.zfs' "$metadata")

        echo "  Starting $service ($jail_name)..."

        # 1. Add IP alias to lo1
        if [ -n "$ip" ]; then
            ifconfig lo1 inet "$ip/32" alias 2>/dev/null
        fi

        # 2. Mount filesystems based on ZFS or non-ZFS
        bsdeploy_mount_jail "$jail_path" "$base_version" "$image_path" "$is_zfs" "$metadata"

        # 3. Start jail
        jail -c name="$jail_name" path="$jail_path" host.hostname="$jail_name" \
            ip4.addr="$ip" allow.raw_sockets=1 persist

        # 4. Start application processes
        bsdeploy_start_processes "$metadata" "$jail_name" "$service" "$user"
    done
}

bsdeploy_mount_jail()
{
    local jail_path="$1"
    local base_version="$2"
    local image_path="$3"
    local is_zfs="$4"
    local metadata="$5"
    local base_dir="$BASE_DIR/$base_version"

    # Always mount devfs
    mkdir -p "$jail_path/dev" 2>/dev/null
    mount -t devfs devfs "$jail_path/dev" 2>/dev/null

    if [ "$is_zfs" = "true" ]; then
        # ZFS clone - base system is already in the clone, only mount data directories
        :
    else
        # Non-ZFS: mount base system and image via nullfs
        for dir in bin lib libexec sbin; do
            [ -d "$base_dir/$dir" ] && mount_nullfs -o ro "$base_dir/$dir" "$jail_path/$dir" 2>/dev/null
        done

        for dir in bin include lib lib32 libdata libexec sbin share; do
            [ -d "$base_dir/usr/$dir" ] && mount_nullfs -o ro "$base_dir/usr/$dir" "$jail_path/usr/$dir" 2>/dev/null
        done

        # Mount image /usr/local if specified
        if [ -n "$image_path" ] && [ -d "$image_path/usr/local" ]; then
            mount_nullfs -o ro "$image_path/usr/local" "$jail_path/usr/local" 2>/dev/null
        fi
    fi

    # Mount data directories
    $JQ -r '.data_directories[]? | "\(.host_path) \(.jail_path)"' "$metadata" 2>/dev/null | while read host_path jail_path_rel; do
        if [ -n "$host_path" ] && [ -n "$jail_path_rel" ]; then
            jail_path_rel=$(echo "$jail_path_rel" | sed 's|^/||')
            target="${jail_path}/${jail_path_rel}"
            mkdir -p "$target" 2>/dev/null
            mount_nullfs "$host_path" "$target" 2>/dev/null
        fi
    done
}

bsdeploy_start_processes()
{
    local metadata="$1"
    local jail_name="$2"
    local service="$3"
    local user="$4"

    local env_file="/etc/bsdeploy.env"
    local app_dir="/app"
    local run_dir="/var/run/bsdeploy/$service"
    local log_dir="/var/log/bsdeploy/$service"

    local idx=0
    $JQ -r '.start_commands[]' "$metadata" 2>/dev/null | while read start_cmd; do
        [ -z "$start_cmd" ] && continue

        local pid_file="$run_dir/service.pid"
        local log_file="$log_dir/service.log"

        # Build daemon command
        local daemon_cmd="daemon -f -p $pid_file -o $log_file"
        if [ -n "$user" ]; then
            daemon_cmd="$daemon_cmd -u $user"
        fi

        local full_cmd="$daemon_cmd bash -c 'source $env_file && cd $app_dir && $start_cmd'"
        jexec "$jail_name" sh -c "$full_cmd"

        idx=$((idx + 1))
    done
}

bsdeploy_stop()
{
    echo "Stopping bsdeploy jails..."

    for link in "$ACTIVE_DIR"/*; do
        [ -L "$link" ] || continue

        jail_path=$(readlink -f "$link")
        [ -d "$jail_path" ] || continue

        metadata="$jail_path/.bsdeploy.json"
        [ -f "$metadata" ] || continue

        jail_name=$($JQ -r '.jail_name' "$metadata")
        ip=$($JQ -r '.ip' "$metadata")
        service=$($JQ -r '.service' "$metadata")

        echo "  Stopping $service ($jail_name)..."

        # Stop jail (this also stops all processes inside)
        jail -r "$jail_name" 2>/dev/null

        # Remove IP alias
        if [ -n "$ip" ]; then
            ifconfig lo1 inet "$ip" -alias 2>/dev/null
        fi

        # Unmount filesystems
        for mnt in $(mount | grep "$jail_path" | awk '{print $3}' | sort -r); do
            umount -f "$mnt" 2>/dev/null
        done
    done
}

bsdeploy_status()
{
    echo "bsdeploy jail status:"

    if [ ! -d "$ACTIVE_DIR" ] || [ -z "$(ls -A "$ACTIVE_DIR" 2>/dev/null)" ]; then
        echo "  No active services"
        return
    fi

    for link in "$ACTIVE_DIR"/*; do
        [ -L "$link" ] || continue

        service=$(basename "$link")
        jail_path=$(readlink -f "$link")

        if [ ! -d "$jail_path" ]; then
            echo "  $service: BROKEN (symlink points to non-existent path)"
            continue
        fi

        metadata="$jail_path/.bsdeploy.json"
        if [ ! -f "$metadata" ]; then
            echo "  $service: BROKEN (missing metadata)"
            continue
        fi

        jail_name=$($JQ -r '.jail_name' "$metadata")

        if jls -j "$jail_name" > /dev/null 2>&1; then
            ip=$(jls -j "$jail_name" ip4.addr 2>/dev/null)
            echo "  $service: RUNNING ($jail_name, IP: $ip)"
        else
            echo "  $service: STOPPED ($jail_name)"
        fi
    done
}

bsdeploy_restart()
{
    bsdeploy_stop
    bsdeploy_start
}

load_rc_config $name
run_rc_command "$1"
"#;

/// Installs the boot script and makes it executable.
pub fn install_rcd_script(doas: bool) -> (r: Vec<Step>)
    ensures
        r@.len() == 2,
        r@[0].required && r@[0].op is WriteFile,
        r@[0].op->WriteFile_content@ == RCD_SCRIPT@,
        r@[0].op->WriteFile_path@ == RCD_PATH@,
        r@[0].op->WriteFile_privileged == doas,
        r@[1].required && r@[1].op is Exec,
        r@[1].op->Exec_0@ == prefix(doas) + "chmod +x "@ + RCD_PATH@,
{
    let mut r: Vec<Step> = Vec::new();
    r.push(
        Step {
            op: Op::WriteFile {
                content: String::from_str(RCD_SCRIPT),
                path: String::from_str(RCD_PATH),
                privileged: doas,
            },
            required: true,
        },
    );
    let chmod = cat("chmod +x ", RCD_PATH);
    r.push(must(crate::remote::maybe_doas(chmod.as_str(), doas)));
    r
}

/// Enables the boot script.
pub fn enable_service(doas: bool) -> (r: Vec<Step>)
    ensures
        r@.len() == 1,
        r@[0].required && r@[0].op is Exec,
        r@[0].op->Exec_0@ == prefix(doas) + "sysrc bsdeploy_enable=YES"@,
{
    let mut r: Vec<Step> = Vec::new();
    r.push(must(crate::remote::maybe_doas("sysrc bsdeploy_enable=YES", doas)));
    r
}

/// Creates the directory of active-service links.
pub fn ensure_active_dir(doas: bool) -> (r: Vec<Step>)
    ensures
        r@.len() == 1,
        r@[0].required && r@[0].op is Exec,
        r@[0].op->Exec_0@ == prefix(doas) + "mkdir -p "@ + ACTIVE_DIR@,
{
    let mut r: Vec<Step> = Vec::new();
    let cmd = cat("mkdir -p ", ACTIVE_DIR);
    r.push(must(crate::remote::maybe_doas(cmd.as_str(), doas)));
    r
}

} // verus!
