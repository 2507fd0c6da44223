//! The static registry of known browser products, and the step that
//! combines a registry entry with the environment-resolved root directory.

use vstd::prelude::*;
use vstd::string::*;
use crate::errors::AccessError;

verus! {

/// Which environment-resolved directory a browser's install data lives under.
#[derive(Clone, Copy, PartialEq, Eq, Structural, Debug)]
pub enum RootKind {
    LocalAppData,
    RoamingAppData,
    Home,
}

/// One known browser product. Pure registry data: adding a browser means
/// adding one descriptor, and no other component changes.
#[derive(Debug)]
pub struct BrowserDescriptor {
    /// Display name; the identity of the product, unique across the registry.
    pub name: String,
    /// Install-data path relative to the resolved root directory.
    pub relative_path: String,
    /// Which root environment directory `relative_path` is joined to.
    pub root_kind: RootKind,
    /// Whether the credential database sits under a per-profile
    /// subdirectory, or directly under the install root. This is a
    /// registry-level fact of the product, recorded here rather than
    /// inferred from the directory layout at each call site.
    pub stores_credentials_per_profile: bool,
}

impl BrowserDescriptor {
    /// An explicit field-for-field copy, so that callers know what they hold.
    pub fn duplicate(&self) -> (r: BrowserDescriptor)
        ensures
            r.name@ == self.name@,
            r.relative_path@ == self.relative_path@,
            r.root_kind == self.root_kind,
            r.stores_credentials_per_profile == self.stores_credentials_per_profile,
    {
        BrowserDescriptor {
            name: self.name.clone(),
            relative_path: self.relative_path.clone(),
            root_kind: self.root_kind,
            stores_credentials_per_profile: self.stores_credentials_per_profile,
        }
    }
}

/// The fixed contents of the registry: seven products, each pinned to its
/// name, relative install path, root kind, and per-profile layout flag.
pub open spec fn is_known_browser_seq(s: Seq<BrowserDescriptor>) -> bool {
    &&& s.len() == 7
    &&& s[0].name@ == "Brave Browser"@
    &&& s[0].relative_path@ == "BraveSoftware/Brave-Browser/User Data"@
    &&& s[0].root_kind == RootKind::LocalAppData
    &&& s[0].stores_credentials_per_profile == true
    &&& s[1].name@ == "Chromium"@
    &&& s[1].relative_path@ == "Chromium/User Data"@
    &&& s[1].root_kind == RootKind::LocalAppData
    &&& s[1].stores_credentials_per_profile == true
    &&& s[2].name@ == "Google Chrome"@
    &&& s[2].relative_path@ == "Google/Chrome/User Data"@
    &&& s[2].root_kind == RootKind::LocalAppData
    &&& s[2].stores_credentials_per_profile == true
    &&& s[3].name@ == "Microsoft Edge"@
    &&& s[3].relative_path@ == "Microsoft/Edge/User Data"@
    &&& s[3].root_kind == RootKind::LocalAppData
    &&& s[3].stores_credentials_per_profile == true
    &&& s[4].name@ == "Opera"@
    &&& s[4].relative_path@ == "Opera Software/Opera Stable"@
    &&& s[4].root_kind == RootKind::RoamingAppData
    &&& s[4].stores_credentials_per_profile == true
    &&& s[5].name@ == "Opera GX"@
    &&& s[5].relative_path@ == "Opera Software/Opera GX Stable"@
    &&& s[5].root_kind == RootKind::RoamingAppData
    &&& s[5].stores_credentials_per_profile == false
    &&& s[6].name@ == "Vivaldi"@
    &&& s[6].relative_path@ == "Vivaldi/User Data"@
    &&& s[6].root_kind == RootKind::LocalAppData
    &&& s[6].stores_credentials_per_profile == true
}

/// The ordered, deterministic registry of known browsers.
pub fn list_known_browsers() -> (r: Vec<BrowserDescriptor>)
    ensures
        is_known_browser_seq(r@),
{
    let mut v: Vec<BrowserDescriptor> = Vec::new();
    v.push(BrowserDescriptor {
        name: "Brave Browser".to_owned(),
        relative_path: "BraveSoftware/Brave-Browser/User Data".to_owned(),
        root_kind: RootKind::LocalAppData,
        stores_credentials_per_profile: true,
    });
    v.push(BrowserDescriptor {
        name: "Chromium".to_owned(),
        relative_path: "Chromium/User Data".to_owned(),
        root_kind: RootKind::LocalAppData,
        stores_credentials_per_profile: true,
    });
    v.push(BrowserDescriptor {
        name: "Google Chrome".to_owned(),
        relative_path: "Google/Chrome/User Data".to_owned(),
        root_kind: RootKind::LocalAppData,
        stores_credentials_per_profile: true,
    });
    v.push(BrowserDescriptor {
        name: "Microsoft Edge".to_owned(),
        relative_path: "Microsoft/Edge/User Data".to_owned(),
        root_kind: RootKind::LocalAppData,
        stores_credentials_per_profile: true,
    });
    v.push(BrowserDescriptor {
        name: "Opera".to_owned(),
        relative_path: "Opera Software/Opera Stable".to_owned(),
        root_kind: RootKind::RoamingAppData,
        stores_credentials_per_profile: true,
    });
    v.push(BrowserDescriptor {
        name: "Opera GX".to_owned(),
        relative_path: "Opera Software/Opera GX Stable".to_owned(),
        root_kind: RootKind::RoamingAppData,
        stores_credentials_per_profile: false,
    });
    v.push(BrowserDescriptor {
        name: "Vivaldi".to_owned(),
        relative_path: "Vivaldi/User Data".to_owned(),
        root_kind: RootKind::LocalAppData,
        stores_credentials_per_profile: true,
    });
    v
}

/// The registry a POSIX-style environment recognizes: a single product
/// under a dot-directory path below the home directory.
pub fn list_known_browsers_posix() -> (r: Vec<BrowserDescriptor>)
    ensures
        r@.len() == 1,
        r@[0].name@ == "Chromium"@,
        r@[0].relative_path@ == ".config/chromium"@,
        r@[0].root_kind == RootKind::Home,
        r@[0].stores_credentials_per_profile == true,
{
    let mut v: Vec<BrowserDescriptor> = Vec::new();
    v.push(BrowserDescriptor {
        name: "Chromium".to_owned(),
        relative_path: ".config/chromium".to_owned(),
        root_kind: RootKind::Home,
        stores_credentials_per_profile: true,
    });
    v
}

/// A browser's display name identifies it: no two registry entries share one.
pub proof fn lemma_known_browser_names_unique(s: Seq<BrowserDescriptor>)
    requires
        is_known_browser_seq(s),
    ensures
        forall|i: int, j: int|
            0 <= i < s.len() && 0 <= j < s.len() && i != j ==> s[i].name@ != s[j].name@,
{
    reveal_strlit("Brave Browser");
    reveal_strlit("Chromium");
    reveal_strlit("Google Chrome");
    reveal_strlit("Microsoft Edge");
    reveal_strlit("Opera");
    reveal_strlit("Opera GX");
    reveal_strlit("Vivaldi");
    assert("Brave Browser"@.len() == 13);
    assert("Chromium"@.len() == 8);
    assert("Google Chrome"@.len() == 13);
    assert("Microsoft Edge"@.len() == 14);
    assert("Opera"@.len() == 5);
    assert("Opera GX"@.len() == 8);
    assert("Vivaldi"@.len() == 7);
    assert("Brave Browser"@[0] == 'B');
    assert("Google Chrome"@[0] == 'G');
    assert("Chromium"@[0] == 'C');
    assert("Opera GX"@[0] == 'O');
    assert(s[0].name@ != s[1].name@);
    assert(s[0].name@ != s[2].name@);
    assert(s[0].name@ != s[3].name@);
    assert(s[0].name@ != s[4].name@);
    assert(s[0].name@ != s[5].name@);
    assert(s[0].name@ != s[6].name@);
    assert(s[1].name@ != s[2].name@);
    assert(s[1].name@ != s[3].name@);
    assert(s[1].name@ != s[4].name@);
    assert(s[1].name@ != s[5].name@);
    assert(s[1].name@ != s[6].name@);
    assert(s[2].name@ != s[3].name@);
    assert(s[2].name@ != s[4].name@);
    assert(s[2].name@ != s[5].name@);
    assert(s[2].name@ != s[6].name@);
    assert(s[3].name@ != s[4].name@);
    assert(s[3].name@ != s[5].name@);
    assert(s[3].name@ != s[6].name@);
    assert(s[4].name@ != s[5].name@);
    assert(s[4].name@ != s[6].name@);
    assert(s[5].name@ != s[6].name@);
}

/// The environment-resolved root directories. The caller reads them from
/// the platform environment before resolution starts; a variable that is
/// absent there stays `None` here.
#[derive(Debug)]
pub struct EnvRoots {
    pub local_app_data: Option<String>,
    pub roaming_app_data: Option<String>,
    pub home: Option<String>,
}

/// Which environment value a root kind selects.
pub open spec fn selected_root(kind: RootKind, env: &EnvRoots) -> Option<String> {
    match kind {
        RootKind::LocalAppData => env.local_app_data,
        RootKind::RoamingAppData => env.roaming_app_data,
        RootKind::Home => env.home,
    }
}

/// The name of the environment variable a root kind reads.
pub open spec fn root_variable_name(kind: RootKind) -> Seq<char> {
    match kind {
        RootKind::LocalAppData => "LOCALAPPDATA"@,
        RootKind::RoamingAppData => "APPDATA"@,
        RootKind::Home => "HOME"@,
    }
}

/// A registry entry combined with its environment-resolved root directory.
/// Exists only for the duration of one orchestration call.
#[derive(Debug)]
pub struct Browsers {
    /// The product's display name, copied from the descriptor.
    pub name: String,
    /// The install-data path relative to `root`, copied from the descriptor.
    pub path: String,
    /// The resolved root directory the descriptor's root kind selected.
    pub root: String,
}

/// Combine a descriptor with the environment: the root kind picks one of
/// the supplied directories, and an absent variable is a fatal
/// `EnvironmentUnavailable` naming the variable that was missing.
pub fn resolve_root(descriptor: &BrowserDescriptor, env: &EnvRoots) -> (r: Result<
    Browsers,
    AccessError,
>)
    ensures
        r is Ok <==> selected_root(descriptor.root_kind, env) is Some,
        r matches Ok(b) ==> {
            &&& b.name@ == descriptor.name@
            &&& b.path@ == descriptor.relative_path@
            &&& b.root@ == (selected_root(descriptor.root_kind, env)->0)@
        },
        r matches Err(e) ==> e matches AccessError::EnvironmentUnavailable { variable }
            && variable@ == root_variable_name(descriptor.root_kind),
{
    let chosen: &Option<String> = match descriptor.root_kind {
        RootKind::LocalAppData => &env.local_app_data,
        RootKind::RoamingAppData => &env.roaming_app_data,
        RootKind::Home => &env.home,
    };
    match chosen {
        Some(root) => Ok(
            Browsers {
                name: descriptor.name.clone(),
                path: descriptor.relative_path.clone(),
                root: root.clone(),
            },
        ),
        None => {
            let variable: String = match descriptor.root_kind {
                RootKind::LocalAppData => "LOCALAPPDATA".to_owned(),
                RootKind::RoamingAppData => "APPDATA".to_owned(),
                RootKind::Home => "HOME".to_owned(),
            };
            Err(AccessError::EnvironmentUnavailable { variable })
        },
    }
}

/// The index of the first registry entry carrying the requested name, or
/// `None` when no entry does.
pub open spec fn find_browser_index(s: Seq<BrowserDescriptor>, name: Seq<char>) -> Option<int>
    decreases s.len(),
{
    if s.len() == 0 {
        None
    } else if s[0].name@ == name {
        Some(0int)
    } else {
        match find_browser_index(s.drop_first(), name) {
            Some(i) => Some(i + 1),
            None => None,
        }
    }
}

/// Linear scan of the registry for a display name; the first matching
/// entry's index comes back, and `None` means the name is unknown.
pub fn find_browser(browsers: &Vec<BrowserDescriptor>, name: &str) -> (r: Option<usize>)
    ensures
        r matches Some(i) ==> {
            &&& 0 <= i < browsers@.len()
            &&& browsers@[i as int].name@ == name@
            &&& forall|j: int| 0 <= j < i ==> browsers@[j].name@ != name@
        },
        r is None ==> forall|j: int|
            0 <= j < browsers@.len() ==> browsers@[j].name@ != name@,
{
    let target: String = name.to_owned();
    let mut k: usize = 0;
    while k < browsers.len()
        invariant
            0 <= k <= browsers@.len(),
            target@ == name@,
            forall|j: int| 0 <= j < k ==> browsers@[j].name@ != name@,
        decreases browsers@.len() - k,
    {
        if browsers[k].name == target {
            return Some(k);
        }
        k = k + 1;
    }
    None
}

} // verus!
