//! The single-object fetch policy: when an existing destination already
//! satisfies a task (so the fetch is skipped), and when a freshly written
//! destination is accepted. The surrounding application reads the disk and
//! the network; the decisions are made here.

use vstd::prelude::*;
use crate::model::FetchError;

verus! {

/// What to do about one task.
#[derive(PartialEq, Eq, Structural, Clone, Copy, Debug)]
pub enum FetchAction {
    /// The destination already satisfies the task; nothing to fetch.
    Skip,
    /// The object must be retrieved and written.
    Download,
}

/// Does an existing destination satisfy a task before any fetch?
/// With a non-empty expected digest the content must match; with an empty
/// or absent digest the destination's existence alone suffices.
pub open spec fn satisfied_by_existing(
    expected: Option<Seq<char>>,
    file_exists: bool,
    digest_matches: bool,
) -> bool {
    match expected {
        Some(h) => if h.len() > 0 {
            digest_matches
        } else {
            file_exists
        },
        None => file_exists,
    }
}

/// Is a freshly downloaded destination accepted? Only a non-empty expected
/// digest is re-checked; anything else is accepted as written.
pub open spec fn download_accepted(expected: Option<Seq<char>>, fresh_matches: bool) -> bool {
    match expected {
        Some(h) => h.len() == 0 || fresh_matches,
        None => true,
    }
}

/// Decide whether a task needs a fetch. `digest_matches` reports whether
/// the existing destination's content digest equals the expected digest
/// (only consulted when the expected digest is non-empty).
pub fn plan_fetch(expected_sha1: Option<&str>, file_exists: bool, digest_matches: bool) -> (r:
    FetchAction)
    ensures
        (r == FetchAction::Skip) == satisfied_by_existing(
            match expected_sha1 {
                Some(h) => Some(h@),
                None => None,
            },
            file_exists,
            digest_matches,
        ),
{
    match expected_sha1 {
        Some(h) => {
            if h.unicode_len() > 0 {
                if digest_matches {
                    FetchAction::Skip
                } else {
                    FetchAction::Download
                }
            } else {
                if file_exists {
                    FetchAction::Skip
                } else {
                    FetchAction::Download
                }
            }
        },
        None => {
            if file_exists {
                FetchAction::Skip
            } else {
                FetchAction::Download
            }
        },
    }
}

/// Judge a freshly written destination: with a non-empty expected digest a
/// mismatch is an integrity error (and the caller must delete the file);
/// otherwise the write stands.
pub fn check_downloaded(expected_sha1: Option<&str>, fresh_matches: bool) -> (r: Result<
    (),
    FetchError,
>)
    ensures
        r is Ok == download_accepted(
            match expected_sha1 {
                Some(h) => Some(h@),
                None => None,
            },
            fresh_matches,
        ),
        r is Err ==> r matches Err(FetchError::Integrity),
{
    match expected_sha1 {
        Some(h) => {
            if h.unicode_len() > 0 && !fresh_matches {
                Err(FetchError::Integrity)
            } else {
                Ok(())
            }
        },
        None => Ok(()),
    }
}

/// Idempotence of retrieval, at the level of one task: a destination that
/// a previous run left satisfied (it exists, and matches its non-empty
/// expected digest if one is declared) is skipped, not re-downloaded.
pub proof fn lemma_satisfied_task_skips(
    expected: Option<Seq<char>>,
    file_exists: bool,
    digest_matches: bool,
)
    requires
        file_exists,
        (expected matches Some(h) && h.len() > 0) ==> digest_matches,
    ensures
        satisfied_by_existing(expected, file_exists, digest_matches),
{
}

/// Idempotence across runs: a freshly downloaded destination the first
/// run accepted satisfies the task as an existing file, so a second run
/// with no changes in between short-circuits to the skip path.
pub proof fn lemma_accepted_download_skips_rerun(expected: Option<Seq<char>>, matches: bool)
    requires
        download_accepted(expected, matches),
    ensures
        satisfied_by_existing(expected, true, matches),
{
}

/// The integrity gate: a task with a non-empty expected digest is only
/// ever accepted — whether by skipping or after a fresh download — with a
/// destination whose digest matches.
pub proof fn lemma_integrity_gate(expected: Seq<char>, exists: bool, matches: bool)
    requires
        expected.len() > 0,
    ensures
        satisfied_by_existing(Some(expected), exists, matches) ==> matches,
        download_accepted(Some(expected), matches) ==> matches,
{
}

/// The re-fetch half of the integrity gate: a corrupted destination (it
/// exists but no longer matches its non-empty expected digest) is planned
/// for download again.
pub proof fn lemma_corrupt_destination_refetched(expected: Seq<char>, matches: bool)
    requires
        expected.len() > 0,
        !matches,
    ensures
        !satisfied_by_existing(Some(expected), true, matches),
{
}

} // verus!
