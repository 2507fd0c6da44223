//! The locked-file snapshot accessor, as a session protocol.
//!
//! The live credential database may be held with an exclusive lock by the
//! running browser, so the store is never opened in place: a fresh
//! temporary directory receives a byte-for-byte copy, all reading and
//! mutation happen against the copy, and a mutated copy is written back
//! over the original with a bounded retry. The filesystem work itself
//! (creating the directory, the two copies, the sleep between retries) is
//! the caller's; this module fixes every decision of the protocol — what
//! follows each outcome, when to retry, when to give up, and that the
//! temporary directory is removed before the session ends, whatever
//! happened.

use vstd::prelude::*;
use vstd::string::*;

verus! {

/// How many times the write-back copy is attempted before giving up.
pub const MAX_WRITE_BACK_ATTEMPTS: u8 = 5;

/// The fixed delay between write-back attempts, in milliseconds.
pub const WRITE_BACK_RETRY_DELAY_MS: u64 = 100;

/// The terminal outcome of one snapshot accessor session.
#[derive(Clone, Copy, PartialEq, Eq, Structural, Debug)]
pub enum SnapshotVerdict {
    /// The mutated snapshot was copied back over the original, on the
    /// given attempt (counted from 1).
    Committed { attempts: u8 },
    /// A read-only pass finished; no write-back was requested.
    ReadOnly,
    /// The initial copy into the snapshot failed: the live file vanished
    /// between the existence check and the copy, or another I/O error.
    CopyInFailed,
    /// Every write-back attempt failed. The mutation reached only the
    /// snapshot, never the original, and is not durably applied.
    WriteBackFailed { attempts: u8 },
}

/// Where a snapshot session stands.
#[derive(Clone, Copy, PartialEq, Eq, Structural, Debug)]
pub enum SnapshotPhase {
    /// Waiting for the outcome of copying the live file into the fresh
    /// temporary directory.
    CopyingIn,
    /// The snapshot is available for reading and mutation.
    Open,
    /// Write-back is under way; this many attempts have failed so far.
    WritingBack { failed_attempts: u8 },
    /// The session is decided; the temporary directory must now be
    /// removed, whatever the verdict.
    CleanupPending { verdict: SnapshotVerdict },
    /// Cleanup is confirmed: the temporary directory is gone.
    Closed { verdict: SnapshotVerdict },
}

/// One snapshot accessor session. The two flags mirror the filesystem
/// effects the protocol has asked for: whether any write-back attempt has
/// succeeded (the only event of the protocol that modifies the live
/// original), and whether the temporary directory has been removed.
pub struct SnapshotSession {
    pub phase: SnapshotPhase,
    pub original_modified: bool,
    pub temp_dir_removed: bool,
}

impl SnapshotSession {
    /// The session invariant: attempt counts stay within the budget, a
    /// verdict tells the truth about what happened to the original, and a
    /// closed session has its temporary directory removed.
    pub open spec fn wf(&self) -> bool {
        &&& match self.phase {
            SnapshotPhase::CopyingIn => !self.original_modified && !self.temp_dir_removed,
            SnapshotPhase::Open => !self.original_modified && !self.temp_dir_removed,
            SnapshotPhase::WritingBack { failed_attempts } => {
                &&& failed_attempts < MAX_WRITE_BACK_ATTEMPTS
                &&& !self.original_modified
                &&& !self.temp_dir_removed
            },
            SnapshotPhase::CleanupPending { verdict } => {
                &&& !self.temp_dir_removed
                &&& self.verdict_truthful(verdict)
            },
            SnapshotPhase::Closed { verdict } => {
                &&& self.temp_dir_removed
                &&& self.verdict_truthful(verdict)
            },
        }
    }

    /// What each verdict asserts about the live original.
    pub open spec fn verdict_truthful(&self, verdict: SnapshotVerdict) -> bool {
        match verdict {
            SnapshotVerdict::Committed { attempts } => {
                &&& self.original_modified
                &&& 1 <= attempts <= MAX_WRITE_BACK_ATTEMPTS
            },
            SnapshotVerdict::ReadOnly => !self.original_modified,
            SnapshotVerdict::CopyInFailed => !self.original_modified,
            SnapshotVerdict::WriteBackFailed { attempts } => {
                &&& attempts == MAX_WRITE_BACK_ATTEMPTS
                &&& !self.original_modified
            },
        }
    }

    /// Start a session: a fresh temporary directory has been created and
    /// the copy of the live file into it is about to be attempted.
    pub fn begin() -> (s: SnapshotSession)
        ensures
            s.wf(),
            s.phase == SnapshotPhase::CopyingIn,
            !s.original_modified,
            !s.temp_dir_removed,
    {
        SnapshotSession {
            phase: SnapshotPhase::CopyingIn,
            original_modified: false,
            temp_dir_removed: false,
        }
    }

    /// Report whether the byte-for-byte copy into the temporary directory
    /// succeeded. On failure the session is decided — `CopyInFailed` — and
    /// only cleanup remains.
    pub fn report_copy_in(&mut self, ok: bool)
        requires
            old(self).wf(),
            old(self).phase == SnapshotPhase::CopyingIn,
        ensures
            final(self).wf(),
            final(self).original_modified == old(self).original_modified,
            final(self).temp_dir_removed == old(self).temp_dir_removed,
            ok ==> final(self).phase == SnapshotPhase::Open,
            !ok ==> final(self).phase == (SnapshotPhase::CleanupPending {
                verdict: SnapshotVerdict::CopyInFailed,
            }),
    {
        if ok {
            self.phase = SnapshotPhase::Open;
        } else {
            self.phase = SnapshotPhase::CleanupPending { verdict: SnapshotVerdict::CopyInFailed };
        }
    }

    /// A read-only pass is done with the snapshot: no write-back, straight
    /// to cleanup.
    pub fn finish_read_only(&mut self)
        requires
            old(self).wf(),
            old(self).phase == SnapshotPhase::Open,
        ensures
            final(self).wf(),
            final(self).original_modified == old(self).original_modified,
            final(self).temp_dir_removed == old(self).temp_dir_removed,
            final(self).phase == (SnapshotPhase::CleanupPending {
                verdict: SnapshotVerdict::ReadOnly,
            }),
    {
        self.phase = SnapshotPhase::CleanupPending { verdict: SnapshotVerdict::ReadOnly };
    }

    /// The snapshot has been mutated; start copying it back over the
    /// original. Write-back is unconditional for a mutating pass, even
    /// when the mutation removed zero rows: an idempotent no-op write-back
    /// is acceptable and simpler than conditionally skipping it.
    pub fn begin_write_back(&mut self)
        requires
            old(self).wf(),
            old(self).phase == SnapshotPhase::Open,
        ensures
            final(self).wf(),
            final(self).original_modified == old(self).original_modified,
            final(self).temp_dir_removed == old(self).temp_dir_removed,
            final(self).phase == (SnapshotPhase::WritingBack { failed_attempts: 0 }),
    {
        self.phase = SnapshotPhase::WritingBack { failed_attempts: 0 };
    }

    /// Report one write-back attempt. Success decides the session as
    /// `Committed`. Failure within the budget asks the caller to wait the
    /// fixed delay and try again — the original's lock is usually held
    /// only transiently. Exhausting the budget decides the session as
    /// `WriteBackFailed`; the original was never modified.
    pub fn report_write_back(&mut self, ok: bool) -> (retry_delay_ms: Option<u64>)
        requires
            old(self).wf(),
            old(self).phase is WritingBack,
        ensures
            final(self).wf(),
            final(self).temp_dir_removed == old(self).temp_dir_removed,
            ({
                let failed = old(self).phase->failed_attempts;
                &&& ok ==> {
                    &&& final(self).phase == (SnapshotPhase::CleanupPending {
                        verdict: SnapshotVerdict::Committed { attempts: (failed + 1) as u8 },
                    })
                    &&& final(self).original_modified
                    &&& retry_delay_ms is None
                }
                &&& !ok && failed + 1 < MAX_WRITE_BACK_ATTEMPTS ==> {
                    &&& final(self).phase == (SnapshotPhase::WritingBack {
                        failed_attempts: (failed + 1) as u8,
                    })
                    &&& !final(self).original_modified
                    &&& retry_delay_ms == Some(WRITE_BACK_RETRY_DELAY_MS)
                }
                &&& !ok && failed + 1 == MAX_WRITE_BACK_ATTEMPTS ==> {
                    &&& final(self).phase == (SnapshotPhase::CleanupPending {
                        verdict: SnapshotVerdict::WriteBackFailed {
                            attempts: MAX_WRITE_BACK_ATTEMPTS,
                        },
                    })
                    &&& !final(self).original_modified
                    &&& retry_delay_ms is None
                }
            }),
    {
        let failed: u8 = match self.phase {
            SnapshotPhase::WritingBack { failed_attempts } => failed_attempts,
            _ => 0,
        };
        if ok {
            self.original_modified = true;
            self.phase = SnapshotPhase::CleanupPending {
                verdict: SnapshotVerdict::Committed { attempts: failed + 1 },
            };
            None
        } else if failed + 1 < MAX_WRITE_BACK_ATTEMPTS {
            self.phase = SnapshotPhase::WritingBack { failed_attempts: failed + 1 };
            Some(WRITE_BACK_RETRY_DELAY_MS)
        } else {
            self.phase = SnapshotPhase::CleanupPending {
                verdict: SnapshotVerdict::WriteBackFailed { attempts: MAX_WRITE_BACK_ATTEMPTS },
            };
            None
        }
    }

    /// Confirm that the temporary directory and its contents are removed,
    /// and close the session with its verdict. This is the only way a
    /// session closes, so teardown precedes every return path.
    pub fn confirm_cleanup(&mut self) -> (verdict: SnapshotVerdict)
        requires
            old(self).wf(),
            old(self).phase is CleanupPending,
        ensures
            final(self).wf(),
            final(self).temp_dir_removed,
            final(self).original_modified == old(self).original_modified,
            verdict == old(self).phase->CleanupPending_verdict,
            final(self).phase == (SnapshotPhase::Closed { verdict }),
    {
        let verdict = match self.phase {
            SnapshotPhase::CleanupPending { verdict } => verdict,
            _ => SnapshotVerdict::ReadOnly,
        };
        self.temp_dir_removed = true;
        self.phase = SnapshotPhase::Closed { verdict };
        verdict
    }
}

/// Teardown is unconditional: however a session ended — committed, read
/// only, copy-in failure, or exhausted write-back — its temporary
/// directory no longer exists once it is closed.
pub proof fn lemma_snapshot_teardown(s: &SnapshotSession)
    requires
        s.wf(),
        s.phase is Closed,
    ensures
        s.temp_dir_removed,
{
}

/// A failed write-back leaves the original untouched: when a session
/// closes as `WriteBackFailed`, every attempt in the budget was made and
/// none succeeded, so only the snapshot — never the live credential file —
/// received the mutation.
pub proof fn lemma_failed_write_back_preserves_original(s: &SnapshotSession)
    requires
        s.wf(),
        s.phase is Closed,
        s.phase->Closed_verdict is WriteBackFailed,
    ensures
        !s.original_modified,
        s.phase->Closed_verdict->WriteBackFailed_attempts == MAX_WRITE_BACK_ATTEMPTS,
{
}

/// A committed session really did modify the original, within the attempt
/// budget.
pub proof fn lemma_commit_modifies_original(s: &SnapshotSession)
    requires
        s.wf(),
        s.phase is Closed,
        s.phase->Closed_verdict is Committed,
    ensures
        s.original_modified,
        1 <= s.phase->Closed_verdict->Committed_attempts <= MAX_WRITE_BACK_ATTEMPTS,
{
}

/// The path of the credential database for a resolved profile. Browsers
/// that keep credentials per profile store the file under the profile's
/// directory; the others keep it directly under the install root. The
/// distinction comes from the registry's per-product flag, never from the
/// directory layout.
pub fn resolve_credential_file_path(
    install_path: &str,
    profile_directory: &str,
    per_profile: bool,
    separator: &str,
) -> (r: String)
    ensures
        per_profile ==> r@ == install_path@ + separator@ + profile_directory@ + separator@
            + "Login Data"@,
        !per_profile ==> r@ == install_path@ + separator@ + "Login Data"@,
{
    if per_profile {
        install_path.to_owned().concat(separator).concat(profile_directory).concat(
            separator,
        ).concat("Login Data")
    } else {
        install_path.to_owned().concat(separator).concat("Login Data")
    }
}

/// The snapshot's own file path inside its temporary directory.
pub fn snapshot_file_path(temp_dir: &str, separator: &str) -> (r: String)
    ensures
        r@ == temp_dir@ + separator@ + "Login Data"@,
{
    temp_dir.to_owned().concat(separator).concat("Login Data")
}

} // verus!
