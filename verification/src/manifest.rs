//! The profile resolver: a read-only view over the browser's configuration
//! manifest, mapping human-readable profile display names to the opaque
//! on-disk profile directory names the browser actually uses.
//!
//! The manifest is read fresh on every call and never cached: the browser
//! can rewrite it at any time, so no persistent index would stay valid.
//! Resolution is therefore a deliberate linear search.

use vstd::prelude::*;
use vstd::string::*;
use crate::errors::AccessError;

verus! {

/// One manifest entry: an on-disk profile directory paired with the
/// display name the browser shows for it.
#[derive(Debug)]
pub struct ProfileEntry {
    pub directory_name: String,
    pub display_name: String,
}

/// The parsed form of the browser's configuration manifest: its profile
/// entries, in the manifest's own iteration order.
#[derive(Debug)]
pub struct ProfileManifest {
    pub entries: Vec<ProfileEntry>,
}

/// The resolved pairing used to locate a per-profile credential file.
#[derive(Debug)]
pub struct ProfileIdentity {
    pub display_name: String,
    pub directory_name: String,
}

/// What the manifest document contains, as plain values: for each profile,
/// the directory name and the display name, in iteration order. `None`
/// stands for a document that does not parse as the expected structure.
pub uninterp spec fn manifest_of(bytes: Seq<u8>) -> Option<Seq<(Seq<char>, Seq<char>)>>;

/// The manifest's contents as plain values, entry for entry.
pub open spec fn entries_view(entries: Seq<ProfileEntry>) -> Seq<(Seq<char>, Seq<char>)> {
    entries.map(|i: int, e: ProfileEntry| (e.directory_name@, e.display_name@))
}

/// Relies on `serde_json::from_slice` and the `serde_json::Value`
/// accessors: parses the document, walks the object under
/// `profile.info_cache`, and keeps each member whose `name` field is a
/// string. The result is a function of the bytes alone.
#[verifier::external_body]
fn parse_manifest_bytes(bytes: &[u8]) -> (r: Option<ProfileManifest>)
    ensures
        r is Some <==> manifest_of(bytes@) is Some,
        r matches Some(m) ==> entries_view(m.entries@) == (manifest_of(bytes@)->0),
{
    let json: serde_json::Value = serde_json::from_slice(bytes).ok()?;
    let cache = json.get("profile")?.get("info_cache")?.as_object()?;
    let mut entries: Vec<ProfileEntry> = Vec::new();
    for (directory, info) in cache {
        if let Some(display) = info.get("name").and_then(|n| n.as_str()) {
            entries.push(ProfileEntry {
                directory_name: directory.clone(),
                display_name: display.to_string(),
            });
        }
    }
    Some(ProfileManifest { entries })
}

/// Parse the manifest document read from `manifest_path`. `None` contents
/// mean the file was absent: the expected, non-fatal case for a browser
/// that is not installed. A document that does not parse as the expected
/// structure is `ManifestMalformed`.
pub fn load_manifest(file_contents: &Option<Vec<u8>>, manifest_path: &str) -> (r: Result<
    ProfileManifest,
    AccessError,
>)
    ensures
        file_contents is None ==> (r matches Err(e)
            && e matches AccessError::ManifestNotFound { path } && path@ == manifest_path@),
        file_contents matches Some(bytes) ==> {
            &&& r is Ok <==> manifest_of(bytes@) is Some
            &&& r matches Ok(m) ==> entries_view(m.entries@) == (manifest_of(bytes@)->0)
            &&& r matches Err(e) ==> (e matches AccessError::ManifestMalformed { path }
                && path@ == manifest_path@)
        },
{
    match file_contents {
        None => Err(AccessError::ManifestNotFound { path: manifest_path.to_owned() }),
        Some(bytes) => match parse_manifest_bytes(bytes.as_slice()) {
            Some(m) => Ok(m),
            None => Err(AccessError::ManifestMalformed { path: manifest_path.to_owned() }),
        },
    }
}

/// `s` with its leading quote characters removed.
pub open spec fn strip_leading_quotes(s: Seq<char>) -> Seq<char>
    decreases s.len(),
{
    if s.len() > 0 && s[0] == '"' {
        strip_leading_quotes(s.drop_first())
    } else {
        s
    }
}

/// `s` with its trailing quote characters removed.
pub open spec fn strip_trailing_quotes(s: Seq<char>) -> Seq<char>
    decreases s.len(),
{
    if s.len() > 0 && s[s.len() - 1] == '"' {
        strip_trailing_quotes(s.drop_last())
    } else {
        s
    }
}

/// `s` with all surrounding quote characters removed: callers may hand a
/// quoted literal for a profile display name.
pub open spec fn trim_quotes_spec(s: Seq<char>) -> Seq<char> {
    strip_trailing_quotes(strip_leading_quotes(s))
}

fn strip_leading_exec<'a>(s: &'a str) -> (r: &'a str)
    ensures
        r@ == strip_leading_quotes(s@),
    decreases s@.len(),
{
    let n = s.unicode_len();
    if n > 0 && s.get_char(0) == '"' {
        let rest = s.substring_char(1, n);
        proof {
            assert(s@.subrange(1, n as int) =~= s@.drop_first());
        }
        strip_leading_exec(rest)
    } else {
        s
    }
}

fn strip_trailing_exec<'a>(s: &'a str) -> (r: &'a str)
    ensures
        r@ == strip_trailing_quotes(s@),
    decreases s@.len(),
{
    let n = s.unicode_len();
    if n > 0 && s.get_char(n - 1) == '"' {
        let rest = s.substring_char(0, n - 1);
        proof {
            assert(s@.subrange(0, n - 1) =~= s@.drop_last());
        }
        strip_trailing_exec(rest)
    } else {
        s
    }
}

/// Remove any quote characters surrounding a display name.
pub fn trim_quotes(s: &str) -> (r: String)
    ensures
        r@ == trim_quotes_spec(s@),
{
    strip_trailing_exec(strip_leading_exec(s)).to_owned()
}

/// The index of the first entry whose display name is `name`, or `None`
/// when no entry carries it.
pub open spec fn find_profile_index(entries: Seq<ProfileEntry>, name: Seq<char>) -> Option<int>
    decreases entries.len(),
{
    if entries.len() == 0 {
        None
    } else if entries[0].display_name@ == name {
        Some(0int)
    } else {
        match find_profile_index(entries.drop_first(), name) {
            Some(i) => Some(i + 1),
            None => None,
        }
    }
}

/// What `find_profile_index` finds is in range, matches, and is the first
/// match; when it finds nothing, nothing matches.
pub proof fn lemma_find_profile_index_spec(entries: Seq<ProfileEntry>, name: Seq<char>)
    ensures
        find_profile_index(entries, name) matches Some(i) ==> {
            &&& 0 <= i < entries.len()
            &&& entries[i].display_name@ == name
            &&& forall|j: int| 0 <= j < i ==> entries[j].display_name@ != name
        },
        find_profile_index(entries, name) is None ==> forall|j: int|
            0 <= j < entries.len() ==> entries[j].display_name@ != name,
    decreases entries.len(),
{
    if entries.len() > 0 && entries[0].display_name@ != name {
        let rest = entries.drop_first();
        lemma_find_profile_index_spec(rest, name);
        match find_profile_index(rest, name) {
            Some(i) => {
                assert forall|j: int| 0 <= j < i + 1 implies entries[j].display_name@ != name by {
                    if j > 0 {
                        assert(entries[j] == rest[j - 1]);
                    }
                }
            },
            None => {
                assert forall|j: int|
                    0 <= j < entries.len() implies entries[j].display_name@ != name by {
                    if j > 0 {
                        assert(entries[j] == rest[j - 1]);
                    }
                }
            },
        }
    }
}

/// The first match determines the search result.
pub proof fn lemma_find_profile_index_first(entries: Seq<ProfileEntry>, name: Seq<char>, i: int)
    requires
        0 <= i < entries.len(),
        entries[i].display_name@ == name,
        forall|j: int| 0 <= j < i ==> entries[j].display_name@ != name,
    ensures
        find_profile_index(entries, name) == Some(i),
    decreases entries.len(),
{
    if i > 0 {
        let rest = entries.drop_first();
        assert(rest[i - 1] == entries[i]);
        assert forall|j: int| 0 <= j < i - 1 implies rest[j].display_name@ != name by {
            assert(rest[j] == entries[j + 1]);
        }
        lemma_find_profile_index_first(rest, name, i - 1);
    }
}

/// The resolution a manifest gives for a (possibly quoted) display name:
/// the first entry whose stored name equals the trimmed target, as the
/// pair (display name, directory name) of plain values.
pub open spec fn resolution_of(entries: Seq<ProfileEntry>, display_name: Seq<char>) -> Option<
    (Seq<char>, Seq<char>),
> {
    match find_profile_index(entries, trim_quotes_spec(display_name)) {
        Some(i) => Some((entries[i].display_name@, entries[i].directory_name@)),
        None => None,
    }
}

impl ProfileManifest {
    /// Resolve a display name to the on-disk profile directory. The target
    /// is first trimmed of surrounding quotes; the scan takes the first
    /// entry whose stored name equals it (a well-formed manifest has no
    /// duplicate display names, but a duplicated one is tolerated this
    /// way). `ProfileNotFound` if and only if no entry matches.
    pub fn find_directory_for_display_name(&self, display_name: &str) -> (r: Result<
        ProfileIdentity,
        AccessError,
    >)
        ensures
            r is Ok <==> resolution_of(self.entries@, display_name@) is Some,
            r matches Ok(p) ==> {
                &&& resolution_of(self.entries@, display_name@) matches Some(pair)
                    && p.display_name@ == pair.0 && p.directory_name@ == pair.1
            },
            r matches Err(e) ==> (e matches AccessError::ProfileNotFound { profile }
                && profile@ == trim_quotes_spec(display_name@)),
    {
        let trimmed = trim_quotes(display_name);
        let mut k: usize = 0;
        while k < self.entries.len()
            invariant
                0 <= k <= self.entries@.len(),
                trimmed@ == trim_quotes_spec(display_name@),
                forall|j: int| 0 <= j < k ==> self.entries@[j].display_name@ != trimmed@,
            decreases self.entries@.len() - k,
        {
            if self.entries[k].display_name == trimmed {
                proof {
                    lemma_find_profile_index_first(self.entries@, trimmed@, k as int);
                }
                return Ok(
                    ProfileIdentity {
                        display_name: self.entries[k].display_name.clone(),
                        directory_name: self.entries[k].directory_name.clone(),
                    },
                );
            }
            k = k + 1;
        }
        proof {
            lemma_find_profile_index_spec(self.entries@, trimmed@);
        }
        Err(AccessError::ProfileNotFound { profile: trimmed })
    }

    /// Every profile identity the manifest lists, in the manifest's own
    /// iteration order.
    pub fn list_all_profiles(&self) -> (r: Vec<ProfileIdentity>)
        ensures
            r@.len() == self.entries@.len(),
            forall|i: int|
                0 <= i < r@.len() ==> r@[i].display_name@ == self.entries@[i].display_name@
                    && r@[i].directory_name@ == self.entries@[i].directory_name@,
    {
        let mut out: Vec<ProfileIdentity> = Vec::new();
        let mut k: usize = 0;
        while k < self.entries.len()
            invariant
                0 <= k <= self.entries@.len(),
                out@.len() == k,
                forall|i: int|
                    0 <= i < k ==> out@[i].display_name@ == self.entries@[i].display_name@
                        && out@[i].directory_name@ == self.entries@[i].directory_name@,
            decreases self.entries@.len() - k,
        {
            out.push(
                ProfileIdentity {
                    display_name: self.entries[k].display_name.clone(),
                    directory_name: self.entries[k].directory_name.clone(),
                },
            );
            k = k + 1;
        }
        out
    }
}

/// A resolved identity, as the contract of resolution states it.
pub open spec fn is_resolution(
    entries: Seq<ProfileEntry>,
    display_name: Seq<char>,
    p: &ProfileIdentity,
) -> bool {
    resolution_of(entries, display_name) matches Some(pair) && p.display_name@ == pair.0
        && p.directory_name@ == pair.1
}

/// Resolution is idempotent: as long as the manifest is unchanged, any two
/// resolutions of the same display name yield the same profile identity.
pub proof fn lemma_resolution_idempotent(
    entries: Seq<ProfileEntry>,
    display_name: Seq<char>,
    p1: &ProfileIdentity,
    p2: &ProfileIdentity,
)
    requires
        is_resolution(entries, display_name, p1),
        is_resolution(entries, display_name, p2),
    ensures
        p1.display_name@ == p2.display_name@,
        p1.directory_name@ == p2.directory_name@,
{
}

/// The path of the configuration manifest: the fixed file name directly
/// under the browser's install directory.
pub fn manifest_file_path(install_path: &str, separator: &str) -> (r: String)
    ensures
        r@ == install_path@ + separator@ + "Local State"@,
{
    install_path.to_owned().concat(separator).concat("Local State")
}

} // verus!
