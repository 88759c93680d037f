//! The parameters of a backup job and the checks they must pass before any
//! artifact is written.

use vstd::prelude::*;
use crate::text::{blank, count_fields, field_count, is_blank};

verus! {

/// Everything a run needs to know about the backup job.
pub struct BackupParams {
    /// Local directory to back up.
    pub source: String,
    /// Name of the rclone remote (the config section).
    pub remote: String,
    /// Bucket on the remote.
    pub bucket: String,
    /// Endpoint URL of the S3-compatible server.
    pub endpoint: String,
    pub access_key: String,
    pub secret_key: String,
    /// Five-field cron schedule expression.
    pub cron: String,
    pub verbose: bool,
    pub dry_run: bool,
}

/// Why a parameter set was rejected.
#[derive(PartialEq, Eq, Structural, Debug, Clone, Copy)]
pub enum ValidationError {
    /// The access key or the secret key is empty or all whitespace.
    EmptyCredential,
    /// The source directory does not exist.
    SourceNotFound,
    /// The schedule does not have exactly five whitespace-separated fields.
    MalformedSchedule,
}

/// Number of fields of a cron schedule expression.
pub const CRON_FIELDS: usize = 5;

/// The verdict on a parameter set, checks taken in order: credentials,
/// source directory, schedule.
pub open spec fn validation(p: BackupParams, source_exists: bool) -> Result<(), ValidationError> {
    if is_blank(p.access_key@) || is_blank(p.secret_key@) {
        Err(ValidationError::EmptyCredential)
    } else if !source_exists {
        Err(ValidationError::SourceNotFound)
    } else if field_count(p.cron@) != CRON_FIELDS {
        Err(ValidationError::MalformedSchedule)
    } else {
        Ok(())
    }
}

/// Checks a parameter set; `source_exists` tells whether the source
/// directory was found on the local filesystem.
pub fn validate_args(p: &BackupParams, source_exists: bool) -> (r: Result<(), ValidationError>)
    ensures
        r == validation(*p, source_exists),
{
    if blank(p.access_key.as_str()) || blank(p.secret_key.as_str()) {
        return Err(ValidationError::EmptyCredential);
    }
    if !source_exists {
        return Err(ValidationError::SourceNotFound);
    }
    if count_fields(p.cron.as_str()) != CRON_FIELDS {
        return Err(ValidationError::MalformedSchedule);
    }
    Ok(())
}

} // verus!
