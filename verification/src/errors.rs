//! The failure taxonomy of the credential-store access layer.

use vstd::prelude::*;
use vstd::string::*;

verus! {

/// Why a credential-store operation failed.
#[derive(Debug)]
pub enum AccessError {
    /// The environment variable that should hold a root directory is absent.
    EnvironmentUnavailable { variable: String },
    /// The requested browser name is not in the registry.
    BrowserNotFound { browser: String },
    /// The browser's install directory or its configuration manifest is
    /// absent at the expected path: the expected, non-fatal case for a
    /// browser that is not installed.
    ManifestNotFound { path: String },
    /// The manifest exists but cannot be parsed as the expected structure.
    ManifestMalformed { path: String },
    /// No manifest entry carries the requested display name.
    ProfileNotFound { profile: String },
    /// The profile has never saved a password: no credential database on disk.
    CredentialFileMissing { path: String },
    /// Copying the live credential database into the snapshot failed.
    SnapshotCopyFailed { detail: String },
    /// The fixed select or delete statement could not be run against the
    /// snapshot: schema drift, or a corrupt copy.
    QueryFailed { detail: String },
    /// The mutated snapshot could not be copied back over the original
    /// within the retry budget; the mutation is not durably applied.
    WriteBackFailed { attempts: u8, detail: String },
}

impl AccessError {
    /// The error classes an enumeration-style sweep treats as expected
    /// absence rather than failure: a browser that is not installed, or a
    /// profile that has never saved a password.
    pub open spec fn is_expected_absence_spec(&self) -> bool {
        self is ManifestNotFound || self is CredentialFileMissing
    }

    pub fn is_expected_absence(&self) -> (r: bool)
        ensures
            r == self.is_expected_absence_spec(),
    {
        match self {
            AccessError::ManifestNotFound { .. } => true,
            AccessError::CredentialFileMissing { .. } => true,
            _ => false,
        }
    }

    /// A diagnostic line naming the error class and the context it carries.
    pub fn message(&self) -> (r: String)
        ensures
            self is EnvironmentUnavailable ==> r@ == "environment variable unavailable: "@
                + self->EnvironmentUnavailable_variable@,
            self is BrowserNotFound ==> r@ == "browser not found: "@ + self->BrowserNotFound_browser@,
            self is ManifestNotFound ==> r@ == "manifest not found: "@ + self->ManifestNotFound_path@,
            self is ManifestMalformed ==> r@ == "manifest malformed: "@
                + self->ManifestMalformed_path@,
            self is ProfileNotFound ==> r@ == "profile not found: "@ + self->ProfileNotFound_profile@,
            self is CredentialFileMissing ==> r@ == "credential file missing: "@
                + self->CredentialFileMissing_path@,
            self is SnapshotCopyFailed ==> r@ == "snapshot copy failed: "@
                + self->SnapshotCopyFailed_detail@,
            self is QueryFailed ==> r@ == "query failed: "@ + self->QueryFailed_detail@,
            self is WriteBackFailed ==> r@ == "write-back failed after retries: "@
                + self->WriteBackFailed_detail@,
    {
        match self {
            AccessError::EnvironmentUnavailable { variable } => {
                "environment variable unavailable: ".to_owned().concat(variable.as_str())
            },
            AccessError::BrowserNotFound { browser } => {
                "browser not found: ".to_owned().concat(browser.as_str())
            },
            AccessError::ManifestNotFound { path } => {
                "manifest not found: ".to_owned().concat(path.as_str())
            },
            AccessError::ManifestMalformed { path } => {
                "manifest malformed: ".to_owned().concat(path.as_str())
            },
            AccessError::ProfileNotFound { profile } => {
                "profile not found: ".to_owned().concat(profile.as_str())
            },
            AccessError::CredentialFileMissing { path } => {
                "credential file missing: ".to_owned().concat(path.as_str())
            },
            AccessError::SnapshotCopyFailed { detail } => {
                "snapshot copy failed: ".to_owned().concat(detail.as_str())
            },
            AccessError::QueryFailed { detail } => {
                "query failed: ".to_owned().concat(detail.as_str())
            },
            AccessError::WriteBackFailed { attempts: _, detail } => {
                "write-back failed after retries: ".to_owned().concat(detail.as_str())
            },
        }
    }
}

} // verus!
