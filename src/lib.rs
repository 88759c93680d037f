//! Provisioning of an unattended rclone backup job: parameter validation,
//! rendering of the remote configuration and the sync script, idempotent
//! artifact writes, and reconciliation of the crontab job table.

pub mod text;
pub mod params;
pub mod render;
pub mod schedule;
pub mod artifact;
pub mod plan;
