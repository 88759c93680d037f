//! The decisions of one run: validate first, render both artifacts, and list
//! the mutating steps to take, none of them in dry-run mode.

use vstd::prelude::*;
use crate::params::{validate_args, validation, BackupParams, ValidationError};
use crate::render::{config_text, render_config, render_script, script_text};

verus! {

/// A step of a run that changes the host.
#[derive(PartialEq, Eq, Structural, Debug, Clone, Copy)]
pub enum Step {
    /// Create the rclone configuration directory.
    CreateConfigDir,
    /// Write the rclone configuration, mode 0600, if it changed.
    WriteConfig,
    /// Write the sync script, mode 0755, if it changed.
    WriteScript,
    /// Reconcile and install the crontab.
    InstallSchedule,
}

/// What a run will do once its parameters are accepted.
pub struct RunPlan {
    /// Body of the rclone configuration.
    pub config: String,
    /// Body of the sync script.
    pub script: String,
    /// The mutating steps, in order.
    pub steps: Vec<Step>,
}

/// The steps of a run: all four in order, or none in dry-run mode.
pub open spec fn steps_for(dry_run: bool) -> Seq<Step> {
    if dry_run {
        Seq::empty()
    } else {
        seq![Step::CreateConfigDir, Step::WriteConfig, Step::WriteScript, Step::InstallSchedule]
    }
}

/// Validates `p` and, when it passes, renders both artifacts and lists the
/// steps to take. A rejected parameter set yields its error and nothing else.
pub fn plan_run(p: &BackupParams, source_exists: bool) -> (r: Result<RunPlan, ValidationError>)
    ensures
        validation(*p, source_exists) is Err ==> r is Err && r->Err_0 == validation(
            *p,
            source_exists,
        )->Err_0,
        validation(*p, source_exists) is Ok ==> r is Ok,
        r is Ok ==> r->Ok_0.config@ == config_text(*p),
        r is Ok ==> r->Ok_0.script@ == script_text(*p),
        r is Ok ==> r->Ok_0.steps@ == steps_for(p.dry_run),
{
    match validate_args(p, source_exists) {
        Err(e) => Err(e),
        Ok(()) => {
            let config = render_config(p);
            let script = render_script(p);
            let mut steps: Vec<Step> = Vec::new();
            if !p.dry_run {
                steps.push(Step::CreateConfigDir);
                steps.push(Step::WriteConfig);
                steps.push(Step::WriteScript);
                steps.push(Step::InstallSchedule);
            }
            assert(steps@ =~= steps_for(p.dry_run));
            Ok(RunPlan { config, script, steps })
        },
    }
}

} // verus!
