//! Rolls services out into FreeBSD jails on remote hosts.
//!
//! The library decides; a transport outside it acts. Each procedure (base
//! system provisioning, image building, jail creation, deployment with
//! rollback, host setup, removal) is a machine that hands out one remote
//! operation at a time (`remote::Op`) and takes back its outcome
//! (`remote::Outcome`) until it finishes. What the machines run is built
//! here from the service description, with every configured value quoted
//! for the shell.
pub mod base;
pub mod caddy;
pub mod config;
pub mod constants;
pub mod deploy;
pub mod destroy;
pub mod error;
pub mod fingerprint_law;
pub mod image;
pub mod image_build;
pub mod jail;
pub mod name_order;
pub mod naming;
pub mod order;
pub mod rcd;
pub mod remote;
pub mod rollout;
pub mod setup;
pub mod shell;
pub mod teardown;
pub mod text;
