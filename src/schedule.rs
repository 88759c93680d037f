//! Reconciliation of the crontab job table: drop every line that mentions the
//! backup script, append one fresh entry, keep everything else verbatim and in
//! order. The table is read and installed by the caller; this module only
//! transforms lines.

use vstd::prelude::*;
use crate::text::{contains, contains_text};

verus! {

/// What listing the current crontab produced.
pub enum JobListing {
    /// The listing succeeded and was read line by line.
    Listed(Vec<String>),
    /// There is no table yet.
    Empty,
    /// The listing exited non-zero, or its output could not be read.
    Failed,
}

/// Why the new table could not be installed.
#[derive(PartialEq, Eq, Structural, Debug, Clone, Copy)]
pub enum ScheduleError {
    /// The install command exited non-zero; the old table is still in place.
    CrontabInstallFailed,
}

/// The texts of a list of lines.
pub open spec fn texts(v: Seq<String>) -> Seq<Seq<char>> {
    v.map_values(|s: String| s@)
}

/// The lines a listing hands on: its lines when it succeeded, none otherwise.
pub open spec fn listed_texts(l: JobListing) -> Seq<Seq<char>> {
    match l {
        JobListing::Listed(v) => texts(v@),
        _ => Seq::empty(),
    }
}

/// A line is related to the job when it mentions the script path anywhere.
pub open spec fn related(path: Seq<char>, line: Seq<char>) -> bool {
    contains_text(line, path)
}

/// Keeps the lines that do not mention `path`.
pub open spec fn unrelated_to(path: Seq<char>) -> spec_fn(Seq<char>) -> bool {
    |l: Seq<char>| !related(path, l)
}

/// The crontab line that runs the script on the schedule.
pub open spec fn entry_text(schedule: Seq<char>, path: Seq<char>) -> Seq<char> {
    schedule + " "@ + path
}

/// The table after reconciliation.
pub open spec fn reconciled(lines: Seq<Seq<char>>, schedule: Seq<char>, path: Seq<char>) -> Seq<
    Seq<char>,
> {
    lines.filter(unrelated_to(path)).push(entry_text(schedule, path))
}

/// Keeps the lines that mention `path`.
pub open spec fn related_to(path: Seq<char>) -> spec_fn(Seq<char>) -> bool {
    |l: Seq<char>| related(path, l)
}

/// How many lines mention `path`.
pub open spec fn related_count(lines: Seq<Seq<char>>, path: Seq<char>) -> nat {
    lines.filter(related_to(path)).len()
}

/// The crontab text that installs `lines`: each line followed by a newline.
pub open spec fn table_text(lines: Seq<Seq<char>>) -> Seq<char>
    decreases lines.len(),
{
    if lines.len() == 0 {
        Seq::empty()
    } else {
        table_text(lines.drop_last()) + lines.last() + "\n"@
    }
}

/// The lines to start from: those listed, or none when there was no table or
/// the listing failed.
pub fn starting_lines(listing: JobListing) -> (r: Vec<String>)
    ensures
        texts(r@) == listed_texts(listing),
{
    match listing {
        JobListing::Listed(v) => v,
        JobListing::Empty => Vec::new(),
        JobListing::Failed => {
            let r: Vec<String> = Vec::new();
            assert(texts(r@) =~= Seq::empty());
            r
        },
    }
}

/// The crontab line `<schedule> <script_path>`.
pub fn schedule_entry(schedule: &str, script_path: &str) -> (r: String)
    ensures
        r@ == entry_text(schedule@, script_path@),
{
    let mut r = String::from_str(schedule);
    r.append(" ");
    r.append(script_path);
    r
}

proof fn lemma_filter_push(s: Seq<Seq<char>>, x: Seq<char>, pred: spec_fn(Seq<char>) -> bool)
    ensures
        s.push(x).filter(pred) == if pred(x) {
            s.filter(pred).push(x)
        } else {
            s.filter(pred)
        },
{
    reveal(Seq::filter);
    assert(s.push(x).drop_last() =~= s);
}

/// Removes every line that mentions `script_path` and appends the entry that
/// runs it on `schedule`; other lines keep their text and their order.
pub fn reconcile_lines(current: &Vec<String>, script_path: &str, schedule: &str) -> (r: Vec<
    String,
>)
    ensures
        texts(r@) == reconciled(texts(current@), schedule@, script_path@),
{
    let ghost pred = unrelated_to(script_path@);
    let mut kept: Vec<String> = Vec::new();
    let mut i: usize = 0;
    assert(texts(current@).subrange(0, 0) =~= Seq::<Seq<char>>::empty());
    proof {
        reveal(Seq::filter);
    }
    assert(texts(kept@) =~= Seq::<Seq<char>>::empty().filter(pred));
    while i < current.len()
        invariant
            i <= current@.len(),
            pred == unrelated_to(script_path@),
            texts(kept@) == texts(current@).subrange(0, i as int).filter(pred),
        decreases current.len() - i,
    {
        let line = &current[i];
        proof {
            lemma_filter_push(texts(current@).subrange(0, i as int), line@, pred);
            assert(texts(current@).subrange(0, i + 1) =~= texts(current@).subrange(
                0,
                i as int,
            ).push(line@));
        }
        if !contains(line.as_str(), script_path) {
            kept.push(line.clone());
            assert(texts(kept@) =~= texts(current@).subrange(0, i + 1).filter(pred));
        }
        i = i + 1;
    }
    assert(texts(current@).subrange(0, current@.len() as int) =~= texts(current@));
    let entry = schedule_entry(schedule, script_path);
    kept.push(entry);
    assert(texts(kept@) =~= reconciled(texts(current@), schedule@, script_path@));
    kept
}

/// The table to install: the listed lines, reconciled. A failed or empty
/// listing counts as an empty table.
pub fn update_cron_job(listing: JobListing, script_path: &str, schedule: &str) -> (r: Vec<String>)
    ensures
        texts(r@) == reconciled(listed_texts(listing), schedule@, script_path@),
{
    let current = starting_lines(listing);
    reconcile_lines(&current, script_path, schedule)
}

/// The text fed to the crontab install command.
pub fn crontab_text(lines: &Vec<String>) -> (r: String)
    ensures
        r@ == table_text(texts(lines@)),
{
    let mut r = String::new();
    let mut i: usize = 0;
    while i < lines.len()
        invariant
            i <= lines@.len(),
            r@ == table_text(texts(lines@).subrange(0, i as int)),
        decreases lines.len() - i,
    {
        assert(texts(lines@).subrange(0, i + 1).drop_last() =~= texts(lines@).subrange(
            0,
            i as int,
        ));
        r.append(lines[i].as_str());
        r.append("\n");
        i = i + 1;
    }
    assert(texts(lines@).subrange(0, lines@.len() as int) =~= texts(lines@));
    r
}

/// The verdict on the install command: its failure is fatal.
pub fn install_result(succeeded: bool) -> (r: Result<(), ScheduleError>)
    ensures
        r == if succeeded {
            Ok::<(), ScheduleError>(())
        } else {
            Err(ScheduleError::CrontabInstallFailed)
        },
{
    if succeeded {
        Ok(())
    } else {
        Err(ScheduleError::CrontabInstallFailed)
    }
}

proof fn lemma_entry_related(schedule: Seq<char>, path: Seq<char>)
    ensures
        related(path, entry_text(schedule, path)),
{
    reveal_strlit(" ");
    let e = entry_text(schedule, path);
    let i: int = schedule.len() as int + 1;
    assert(e.subrange(i, i + path.len() as int) =~= path);
}

proof fn lemma_filter_twice(s: Seq<Seq<char>>, path: Seq<char>)
    ensures
        s.filter(unrelated_to(path)).filter(unrelated_to(path)) == s.filter(unrelated_to(path)),
        s.filter(unrelated_to(path)).filter(related_to(path)) == Seq::<Seq<char>>::empty(),
    decreases s.len(),
{
    let u = unrelated_to(path);
    let q = related_to(path);
    if s.len() == 0 {
        reveal(Seq::filter);
        assert(s.filter(u) =~= s);
    } else {
        let t = s.drop_last();
        let x = s.last();
        assert(t.push(x) =~= s);
        lemma_filter_twice(t, path);
        lemma_filter_push(t, x, u);
        if u(x) {
            lemma_filter_push(t.filter(u), x, u);
            lemma_filter_push(t.filter(u), x, q);
        }
    }
}

/// Reconciliation keeps the lines that do not mention the script path: those
/// of the new table are exactly those of the old one, same text, same order.
pub proof fn lemma_unrelated_lines_kept(lines: Seq<Seq<char>>, schedule: Seq<char>, path: Seq<char>)
    ensures
        reconciled(lines, schedule, path).filter(unrelated_to(path)) == lines.filter(
            unrelated_to(path),
        ),
{
    lemma_entry_related(schedule, path);
    lemma_filter_twice(lines, path);
    lemma_filter_push(lines.filter(unrelated_to(path)), entry_text(schedule, path), unrelated_to(path));
}

/// After reconciliation exactly one line mentions the script path, and it is
/// the new entry, however many did before.
pub proof fn lemma_single_entry(lines: Seq<Seq<char>>, schedule: Seq<char>, path: Seq<char>)
    ensures
        related_count(reconciled(lines, schedule, path), path) == 1,
        reconciled(lines, schedule, path).filter(related_to(path)) == seq![entry_text(schedule, path)],
{
    let e = entry_text(schedule, path);
    lemma_entry_related(schedule, path);
    lemma_filter_twice(lines, path);
    lemma_filter_push(lines.filter(unrelated_to(path)), e, related_to(path));
    assert(Seq::<Seq<char>>::empty().push(e) =~= seq![e]);
}

} // verus!
