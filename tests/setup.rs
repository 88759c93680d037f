use rclone_backup_setup::artifact::{write_if_changed, FileState, WriteOutcome, CONFIG_MODE, SCRIPT_MODE};
use rclone_backup_setup::params::{validate_args, BackupParams, ValidationError};
use rclone_backup_setup::plan::{plan_run, Step};
use rclone_backup_setup::render::{render_config, render_script};
use rclone_backup_setup::schedule::{
    crontab_text, install_result, reconcile_lines, schedule_entry, starting_lines, update_cron_job,
    JobListing, ScheduleError,
};
use rclone_backup_setup::text::{blank, chars_of, contains, count_fields, is_space_char};

fn params() -> BackupParams {
    BackupParams {
        source: "/data".to_string(),
        remote: "minio".to_string(),
        bucket: "backup-bucket".to_string(),
        endpoint: "http://minio.local:9000".to_string(),
        access_key: "AKEY".to_string(),
        secret_key: "SKEY".to_string(),
        cron: "0 * * * *".to_string(),
        verbose: false,
        dry_run: false,
    }
}

fn strings(v: &[&str]) -> Vec<String> {
    v.iter().map(|s| s.to_string()).collect()
}

const SCRIPT: &str = "/home/u/rclone_backup.sh";

#[test]
fn config_has_exact_body() {
    let expected = "[minio]\ntype = s3\nprovider = Minio\nenv_auth = false\naccess_key_id = AKEY\nsecret_access_key = SKEY\nendpoint = http://minio.local:9000\n";
    assert_eq!(render_config(&params()), expected);
}

#[test]
fn script_has_exact_body() {
    let expected = "#!/bin/bash\nrclone sync \"/data\" \"minio:backup-bucket\" --log-file=\"$HOME/rclone_backup.log\" --log-level INFO --delete-during\n";
    assert_eq!(render_script(&params()), expected);
}

#[test]
fn rendering_is_deterministic() {
    let p = params();
    let q = params();
    assert_eq!(validate_args(&p, true), Ok(()));
    assert_eq!(render_config(&p), render_config(&q));
    assert_eq!(render_script(&p), render_script(&q));
}

#[test]
fn empty_access_key_is_rejected() {
    let mut p = params();
    p.access_key = String::new();
    assert_eq!(validate_args(&p, true), Err(ValidationError::EmptyCredential));
    assert!(plan_run(&p, true).is_err());
}

#[test]
fn blank_secret_key_is_rejected() {
    let mut p = params();
    p.secret_key = " \t\n".to_string();
    assert_eq!(validate_args(&p, true), Err(ValidationError::EmptyCredential));
}

#[test]
fn credentials_checked_before_source() {
    let mut p = params();
    p.access_key = "   ".to_string();
    assert_eq!(validate_args(&p, false), Err(ValidationError::EmptyCredential));
}

#[test]
fn missing_source_is_rejected() {
    assert_eq!(validate_args(&params(), false), Err(ValidationError::SourceNotFound));
}

#[test]
fn three_field_schedule_is_rejected() {
    let mut p = params();
    p.cron = "* * *".to_string();
    assert_eq!(validate_args(&p, true), Err(ValidationError::MalformedSchedule));
}

#[test]
fn six_field_schedule_is_rejected() {
    let mut p = params();
    p.cron = "0 0 * * * *".to_string();
    assert_eq!(validate_args(&p, true), Err(ValidationError::MalformedSchedule));
}

#[test]
fn schedule_fields_are_not_range_checked() {
    let mut p = params();
    p.cron = "  99\tfoo  *  *\u{3000}bar ".to_string();
    assert_eq!(validate_args(&p, true), Ok(()));
}

#[test]
fn field_counting() {
    assert_eq!(count_fields(""), 0);
    assert_eq!(count_fields("   "), 0);
    assert_eq!(count_fields("a"), 1);
    assert_eq!(count_fields(" a  b\tc\n"), 3);
    assert_eq!(count_fields("a\u{a0}b"), 2);
}

#[test]
fn whitespace_and_blank() {
    assert!(is_space_char(' '));
    assert!(is_space_char('\u{2028}'));
    assert!(!is_space_char('x'));
    assert!(!is_space_char('\u{200b}'));
    assert!(blank(""));
    assert!(blank(" \r\n"));
    assert!(!blank(" k "));
}

#[test]
fn substring_containment() {
    assert!(contains("abc", ""));
    assert!(contains("abc", "bc"));
    assert!(contains("abc", "abc"));
    assert!(!contains("abc", "abcd"));
    assert!(!contains("abc", "ac"));
    assert!(contains("héllo wörld", "ö"));
    assert_eq!(chars_of("hé"), vec!['h', 'é']);
}

#[test]
fn first_write_creates_file_with_mode() {
    let mut file: Option<FileState> = None;
    let out = write_if_changed(&mut file, b"abc", CONFIG_MODE);
    assert_eq!(out, WriteOutcome::Written);
    let f = file.unwrap();
    assert_eq!(f.content, b"abc".to_vec());
    assert_eq!(f.mode, 0o600);
}

#[test]
fn second_write_is_unchanged() {
    let mut file: Option<FileState> = None;
    assert_eq!(write_if_changed(&mut file, b"script", SCRIPT_MODE), WriteOutcome::Written);
    assert_eq!(write_if_changed(&mut file, b"script", SCRIPT_MODE), WriteOutcome::Unchanged);
    let f = file.unwrap();
    assert_eq!(f.content, b"script".to_vec());
    assert_eq!(f.mode, 0o755);
}

#[test]
fn changed_content_is_rewritten_with_mode() {
    let mut file = Some(FileState { content: b"old".to_vec(), mode: 0o644 });
    assert_eq!(write_if_changed(&mut file, b"new", 0o600), WriteOutcome::Written);
    let f = file.unwrap();
    assert_eq!(f.content, b"new".to_vec());
    assert_eq!(f.mode, 0o600);
}

#[test]
fn unchanged_content_keeps_drifted_mode() {
    let mut file = Some(FileState { content: b"same".to_vec(), mode: 0o644 });
    assert_eq!(write_if_changed(&mut file, b"same", 0o600), WriteOutcome::Unchanged);
    assert_eq!(file.unwrap().mode, 0o644);
}

#[test]
fn empty_content_over_nonempty_file() {
    let mut file = Some(FileState { content: b"x".to_vec(), mode: 0o600 });
    assert_eq!(write_if_changed(&mut file, b"", 0o600), WriteOutcome::Written);
    assert!(file.unwrap().content.is_empty());
}

#[test]
fn unrelated_lines_are_preserved() {
    let current = strings(&["1 2 3 4 5 /other/job", "0 0 * * * /another"]);
    let r = reconcile_lines(&current, SCRIPT, "0 * * * *");
    assert_eq!(
        r,
        strings(&["1 2 3 4 5 /other/job", "0 0 * * * /another", "0 * * * * /home/u/rclone_backup.sh"])
    );
}

#[test]
fn two_old_entries_become_one() {
    let current = strings(&[
        "0 1 * * * /home/u/rclone_backup.sh",
        "MAILTO=root",
        "*/5 * * * * /home/u/rclone_backup.sh",
    ]);
    let r = reconcile_lines(&current, SCRIPT, "0 * * * *");
    assert_eq!(r, strings(&["MAILTO=root", "0 * * * * /home/u/rclone_backup.sh"]));
    assert_eq!(r.iter().filter(|l| l.contains(SCRIPT)).count(), 1);
}

#[test]
fn comment_mentioning_script_is_removed() {
    let current = strings(&["# runs /home/u/rclone_backup.sh hourly", "@reboot /bin/true"]);
    let r = reconcile_lines(&current, SCRIPT, "15 3 * * *");
    assert_eq!(r, strings(&["@reboot /bin/true", "15 3 * * * /home/u/rclone_backup.sh"]));
}

#[test]
fn failed_listing_starts_fresh() {
    let r = update_cron_job(JobListing::Failed, SCRIPT, "0 * * * *");
    assert_eq!(r, strings(&["0 * * * * /home/u/rclone_backup.sh"]));
}

#[test]
fn empty_listing_starts_fresh() {
    let r = update_cron_job(JobListing::Empty, SCRIPT, "0 * * * *");
    assert_eq!(r, strings(&["0 * * * * /home/u/rclone_backup.sh"]));
    assert!(starting_lines(JobListing::Failed).is_empty());
}

#[test]
fn listed_table_is_reconciled() {
    let listing = JobListing::Listed(strings(&["0 2 * * * /home/u/rclone_backup.sh", "5 5 * * * /x"]));
    let r = update_cron_job(listing, SCRIPT, "0 * * * *");
    assert_eq!(r, strings(&["5 5 * * * /x", "0 * * * * /home/u/rclone_backup.sh"]));
}

#[test]
fn entry_and_table_text() {
    assert_eq!(schedule_entry("0 * * * *", "/s.sh"), "0 * * * * /s.sh");
    assert_eq!(crontab_text(&strings(&["a", "b c"])), "a\nb c\n");
    assert_eq!(crontab_text(&Vec::new()), "");
}

#[test]
fn install_failure_is_fatal() {
    assert_eq!(install_result(true), Ok(()));
    assert_eq!(install_result(false), Err(ScheduleError::CrontabInstallFailed));
}

#[test]
fn dry_run_plans_no_mutation() {
    let mut p = params();
    p.dry_run = true;
    let plan = plan_run(&p, true).unwrap();
    assert!(plan.steps.is_empty());
    assert_eq!(plan.config, render_config(&p));
    assert_eq!(plan.script, render_script(&p));
}

#[test]
fn full_run_plans_every_step() {
    let plan = plan_run(&params(), true).unwrap();
    assert_eq!(
        plan.steps,
        vec![Step::CreateConfigDir, Step::WriteConfig, Step::WriteScript, Step::InstallSchedule]
    );
}

#[test]
fn invalid_run_plans_nothing() {
    let mut p = params();
    p.cron = "* * *".to_string();
    assert_eq!(plan_run(&p, true).err(), Some(ValidationError::MalformedSchedule));
}
