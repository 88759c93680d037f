//! Rendering of the two artifacts: the rclone remote configuration and the
//! sync script. Both are pure functions of the parameters.

use vstd::prelude::*;
use crate::params::BackupParams;

verus! {

/// Body of `rclone.conf`: one section, named after the remote, describing an
/// S3-compatible MinIO endpoint with static credentials.
pub open spec fn config_text(p: BackupParams) -> Seq<char> {
    "["@ + p.remote@ + "]\ntype = s3\nprovider = Minio\nenv_auth = false\naccess_key_id = "@
        + p.access_key@ + "\nsecret_access_key = "@ + p.secret_key@ + "\nendpoint = "@
        + p.endpoint@ + "\n"@
}

/// Body of the sync script: one `rclone sync` that mirrors the source onto
/// `<remote>:<bucket>`, deleting remote-only objects, logging at INFO level to
/// a per-user log file.
pub open spec fn script_text(p: BackupParams) -> Seq<char> {
    "#!/bin/bash\nrclone sync \""@ + p.source@ + "\" \""@ + p.remote@ + ":"@ + p.bucket@
        + "\" --log-file=\"$HOME/rclone_backup.log\" --log-level INFO --delete-during\n"@
}

/// Renders the rclone configuration for `p`.
pub fn render_config(p: &BackupParams) -> (r: String)
    ensures
        r@ == config_text(*p),
{
    let mut r = String::from_str("[");
    r.append(p.remote.as_str());
    r.append("]\ntype = s3\nprovider = Minio\nenv_auth = false\naccess_key_id = ");
    r.append(p.access_key.as_str());
    r.append("\nsecret_access_key = ");
    r.append(p.secret_key.as_str());
    r.append("\nendpoint = ");
    r.append(p.endpoint.as_str());
    r.append("\n");
    r
}

/// Renders the sync script for `p`.
pub fn render_script(p: &BackupParams) -> (r: String)
    ensures
        r@ == script_text(*p),
{
    let mut r = String::from_str("#!/bin/bash\nrclone sync \"");
    r.append(p.source.as_str());
    r.append("\" \"");
    r.append(p.remote.as_str());
    r.append(":");
    r.append(p.bucket.as_str());
    r.append("\" --log-file=\"$HOME/rclone_backup.log\" --log-level INFO --delete-during\n");
    r
}

/// Rendering depends on the parameters alone: two parameter sets that agree
/// on every rendered field give byte-identical configuration and script.
pub proof fn lemma_render_deterministic(p: BackupParams, q: BackupParams)
    requires
        p.source@ == q.source@,
        p.remote@ == q.remote@,
        p.bucket@ == q.bucket@,
        p.endpoint@ == q.endpoint@,
        p.access_key@ == q.access_key@,
        p.secret_key@ == q.secret_key@,
    ensures
        config_text(p) == config_text(q),
        script_text(p) == script_text(q),
{
}

} // verus!
