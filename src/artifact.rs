//! The artifact writer: a file is rewritten only when its content differs
//! from the desired content, and every write sets the permission bits.
//! The filesystem itself is the caller's; this module decides what the file
//! becomes, on an in-memory image of it.

use vstd::prelude::*;
use vstd::slice::slice_to_vec;

verus! {

/// The image of a file: its bytes and its permission bits.
pub struct FileState {
    pub content: Vec<u8>,
    pub mode: u32,
}

/// What `write_if_changed` did.
#[derive(PartialEq, Eq, Structural, Debug, Clone, Copy)]
pub enum WriteOutcome {
    /// The file already held the content; nothing was touched.
    Unchanged,
    /// The file was created or rewritten, and its mode set.
    Written,
}

/// Mode of the rclone configuration: owner read/write only (it holds keys).
pub const CONFIG_MODE: u32 = 0o600;

/// Mode of the sync script: executable by everyone, writable by the owner.
pub const SCRIPT_MODE: u32 = 0o755;

/// A file as a pair of bytes and mode; `None` when there is no file.
pub open spec fn file_view(f: Option<FileState>) -> Option<(Seq<u8>, u32)> {
    match f {
        Some(s) => Some((s.content@, s.mode)),
        None => None,
    }
}

/// A write is due when there is no file or its bytes differ.
pub open spec fn needs_write(prior: Option<(Seq<u8>, u32)>, content: Seq<u8>) -> bool {
    match prior {
        Some(f) => f.0 != content,
        None => true,
    }
}

/// The file after `write_if_changed`: the content with the requested mode
/// when a write was due, the file as it was otherwise.
pub open spec fn after_write(prior: Option<(Seq<u8>, u32)>, content: Seq<u8>, mode: u32) -> Option<
    (Seq<u8>, u32),
> {
    if needs_write(prior, content) {
        Some((content, mode))
    } else {
        prior
    }
}

/// What `write_if_changed` reports.
pub open spec fn outcome_of(prior: Option<(Seq<u8>, u32)>, content: Seq<u8>) -> WriteOutcome {
    if needs_write(prior, content) {
        WriteOutcome::Written
    } else {
        WriteOutcome::Unchanged
    }
}

/// Byte-for-byte comparison.
pub fn same_bytes(a: &[u8], b: &[u8]) -> (r: bool)
    ensures
        r == (a@ == b@),
{
    if a.len() != b.len() {
        return false;
    }
    let mut i: usize = 0;
    while i < a.len()
        invariant
            a@.len() == b@.len(),
            i <= a@.len(),
            forall|k: int| 0 <= k < i ==> a@[k] == b@[k],
        decreases a.len() - i,
    {
        if a[i] != b[i] {
            return false;
        }
        i = i + 1;
    }
    assert(a@ =~= b@);
    true
}

/// Brings `file` to `content` with permission bits `mode`, unless it already
/// holds `content`, in which case it is left as it is (its mode included).
pub fn write_if_changed(file: &mut Option<FileState>, content: &[u8], mode: u32) -> (r: WriteOutcome)
    ensures
        r == outcome_of(file_view(*old(file)), content@),
        file_view(*final(file)) == after_write(file_view(*old(file)), content@, mode),
        r == WriteOutcome::Unchanged ==> *final(file) == *old(file),
{
    let up_to_date = match file {
        Some(f) => same_bytes(f.content.as_slice(), content),
        None => false,
    };
    if up_to_date {
        WriteOutcome::Unchanged
    } else {
        *file = Some(FileState { content: slice_to_vec(content), mode });
        WriteOutcome::Written
    }
}

/// Writing the same content twice: the second call finds the file up to date,
/// reports `Unchanged`, and leaves bytes and mode as the first call left them.
pub proof fn lemma_write_idempotent(prior: Option<(Seq<u8>, u32)>, content: Seq<u8>, mode: u32)
    ensures
        after_write(after_write(prior, content, mode), content, mode) == after_write(
            prior,
            content,
            mode,
        ),
        outcome_of(after_write(prior, content, mode), content) == WriteOutcome::Unchanged,
{
}

/// Whenever a write happens, the file ends with the requested content and
/// exactly the requested mode.
pub proof fn lemma_written_mode(prior: Option<(Seq<u8>, u32)>, content: Seq<u8>, mode: u32)
    ensures
        outcome_of(prior, content) == WriteOutcome::Written ==> after_write(prior, content, mode)
            == Some((content, mode)),
{
}

} // verus!
