//! The per-version manifest and its inheritance merge.

use vstd::prelude::*;

use crate::error::InstallError;
use crate::manifest::main;
use crate::text::{contains_seq, contains_str, copy_str, str_eq};

verus! {

/// A point in time, as seconds and nanoseconds since the Unix epoch (UTC).
#[derive(Clone, Copy, Debug, PartialEq, Eq, Structural)]
pub struct Timestamp {
    pub seconds: i64,
    pub nanos: u32,
}

/// A per-version manifest.
#[derive(Clone, Debug, PartialEq, Eq)]
pub struct Main {
    pub arguments: Option<Arguments>,
    pub asset_index: Option<AssetIndex>,
    pub assets: Option<String>,
    pub compliance_level: Option<u8>,
    pub downloads: Option<Downloads>,
    pub id: String,
    pub java_version: Option<JavaVersion>,
    pub libraries: Vec<Library>,
    pub logging: Option<Logging>,
    pub main_class: String,
    pub minimum_launcher_version: Option<u8>,
    pub release_time: Timestamp,
    pub time: Timestamp,
    pub _type: VersionType,
    pub minecraft_arguments: Option<String>,
    pub inherits_from: Option<String>,
}

/// Launch arguments: those of the game and, optionally, those of the runtime.
#[derive(Clone, Debug, PartialEq, Eq)]
pub struct Arguments {
    pub game: Vec<Either<String, CustomArguments>>,
    pub jvm: Option<Vec<Either<String, CustomArguments>>>,
}

/// One of two kinds of value: an argument is a literal or a conditional one.
#[derive(Clone, Debug, PartialEq, Eq)]
pub enum Either<A, B> {
    Left(A),
    Right(B),
}

/// An argument that applies only where its rules allow.
#[derive(Clone, Debug, PartialEq, Eq)]
pub struct CustomArguments {
    pub rules: Vec<Rule>,
    pub value: Either<String, Vec<String>>,
}

/// The operating-system constraints of a rule; each one present must hold.
#[derive(Clone, Debug, PartialEq, Eq)]
pub struct RuleOs {
    pub name: Option<String>,
    pub version: Option<String>,
    pub arch: Option<String>,
}

/// A conditional allow/disallow directive.
#[derive(Clone, Debug, PartialEq, Eq)]
pub struct Rule {
    pub action: RuleAction,
    /// Feature flags that must have the given state, by name.
    pub features: Option<Vec<(String, bool)>>,
    pub os: Option<RuleOs>,
}

/// The reference to a version's asset index.
#[derive(Clone, Debug, PartialEq, Eq)]
pub struct AssetIndex {
    pub id: String,
    pub sha1: String,
    pub size: u64,
    pub total_size: u64,
    pub url: String,
}

/// The downloads a version offers.
#[derive(Clone, Debug, PartialEq, Eq)]
pub struct Downloads {
    pub client: DownloadEntry,
    pub client_mappings: Option<DownloadEntry>,
    pub server: Option<DownloadEntry>,
    pub server_mappings: Option<DownloadEntry>,
}

/// A downloadable file.
#[derive(Clone, Debug, PartialEq, Eq)]
pub struct DownloadEntry {
    pub sha1: String,
    pub size: u64,
    pub url: String,
}

/// The runtime component a version requires.
#[derive(Clone, Debug, PartialEq, Eq)]
pub struct JavaVersion {
    pub component: String,
    pub major_version: u8,
}

/// A library, named by its `group:artifact:version` coordinate.
#[derive(Clone, Debug, PartialEq, Eq)]
pub struct Library {
    pub downloads: Option<LibraryDownload>,
    pub name: String,
    pub extract: Option<LibraryExtract>,
    /// Native classifier name, by operating-system name.
    pub natives: Option<Vec<(String, String)>>,
    pub rules: Option<Vec<Rule>>,
    pub url: Option<String>,
}

/// The artifacts of a library.
#[derive(Clone, Debug, PartialEq, Eq)]
pub struct LibraryDownload {
    pub artifact: Option<LibraryDownloadArtifact>,
    /// Artifacts by classifier name.
    pub classifiers: Option<Vec<(String, LibraryDownloadArtifact)>>,
}

/// Paths left out when a native archive is extracted.
#[derive(Clone, Debug, PartialEq, Eq)]
pub struct LibraryExtract {
    pub exclude: Vec<String>,
}

/// A library artifact and where it is stored, relative to the library root.
#[derive(Clone, Debug, PartialEq, Eq)]
pub struct LibraryDownloadArtifact {
    pub path: String,
    pub sha1: String,
    pub size: u64,
    pub url: String,
}

/// Logging configuration.
#[derive(Clone, Debug, PartialEq, Eq)]
pub struct Logging {
    pub client: Option<ClientLogging>,
}

/// The client's logging configuration.
#[derive(Clone, Debug, PartialEq, Eq)]
pub struct ClientLogging {
    pub argument: String,
    pub file: ClientLoggingFile,
    pub _type: String,
}

/// The logging configuration file.
#[derive(Clone, Debug, PartialEq, Eq)]
pub struct ClientLoggingFile {
    pub id: String,
    pub sha1: String,
    pub size: u64,
    pub url: String,
}

/// The kind of a version.
#[derive(Clone, Copy, Debug, PartialEq, Eq, Structural)]
pub enum VersionType {
    Release,
    Snapshot,
    OldBeta,
    OldAlpha,
    Pending,
}

/// What a rule decides when it applies.
#[derive(Clone, Copy, Debug, PartialEq, Eq, Structural)]
pub enum RuleAction {
    Allow,
    Disallow,
}

/// The operating systems that rules name.
#[derive(Clone, Copy, Debug, PartialEq, Eq, Structural)]
pub enum Os {
    Windows,
    MacOs,
    Linux,
}

/// The name under which manifests refer to an operating system.
pub open spec fn os_name(os: Os) -> Seq<char> {
    match os {
        Os::Windows => "windows"@,
        Os::MacOs => "osx"@,
        Os::Linux => "linux"@,
    }
}

/// The name of a version kind in manifests.
pub open spec fn version_type_name(t: VersionType) -> Seq<char> {
    match t {
        VersionType::Release => "release"@,
        VersionType::Snapshot => "snapshot"@,
        VersionType::OldBeta => "old_beta"@,
        VersionType::OldAlpha => "old_alpha"@,
        VersionType::Pending => "pending"@,
    }
}

impl VersionType {
    /// The name of this kind in manifests.
    pub fn to_string(&self) -> (r: String)
        ensures
            r@ == version_type_name(*self),
    {
        match self {
            VersionType::Release => String::from_str("release"),
            VersionType::Snapshot => String::from_str("snapshot"),
            VersionType::OldBeta => String::from_str("old_beta"),
            VersionType::OldAlpha => String::from_str("old_alpha"),
            VersionType::Pending => String::from_str("pending"),
        }
    }
}

impl Os {
    /// The operating system a manifest name stands for, if any.
    pub fn from_str(string: &str) -> (r: Option<Os>)
        ensures
            match r {
                Some(os) => string@ == os_name(os),
                None => forall|os: Os| string@ != os_name(os),
            },
    {
        if str_eq(string, "windows") {
            Some(Os::Windows)
        } else if str_eq(string, "osx") {
            Some(Os::MacOs)
        } else if str_eq(string, "linux") {
            Some(Os::Linux)
        } else {
            proof {
                assert forall|os: Os| string@ != os_name(os) by {
                    match os {
                        Os::Windows => {},
                        Os::MacOs => {},
                        Os::Linux => {},
                    }
                }
            }
            None
        }
    }

    /// The manifest name of this operating system.
    pub fn to_str(&self) -> (r: String)
        ensures
            r@ == os_name(*self),
    {
        match self {
            Os::Windows => String::from_str("windows"),
            Os::MacOs => String::from_str("osx"),
            Os::Linux => String::from_str("linux"),
        }
    }
}

/// `a` when present, else `b`.
pub open spec fn or_else<T>(a: Option<T>, b: Option<T>) -> Option<T> {
    match a {
        Some(x) => Some(x),
        None => b,
    }
}

/// `a` when present, else `b`.
pub fn prefer<T>(a: Option<T>, b: Option<T>) -> (r: Option<T>)
    ensures
        r == or_else(a, b),
{
    match a {
        Some(x) => Some(x),
        None => b,
    }
}

/// `r` holds the arguments of `child` followed by those of `parent`: the game
/// lists are joined, and the runtime lists too when both are present, else the
/// one that is present is kept.
pub open spec fn arguments_inherited(r: Arguments, child: Arguments, parent: Arguments) -> bool {
    &&& r.game@ == child.game@ + parent.game@
    &&& match (child.jvm, parent.jvm) {
        (None, p) => r.jvm == p,
        (Some(c), None) => r.jvm == Some(c),
        (Some(c), Some(p)) => r.jvm matches Some(j) && j@ == c@ + p@,
    }
}

/// The downloads of `child`, with the optional entries it lacks taken from `parent`.
pub open spec fn downloads_inherited(child: Downloads, parent: Downloads) -> Downloads {
    Downloads {
        client: child.client,
        client_mappings: or_else(child.client_mappings, parent.client_mappings),
        server: or_else(child.server, parent.server),
        server_mappings: or_else(child.server_mappings, parent.server_mappings),
    }
}

/// The merge policy of an inheriting manifest: the child's own fields stay,
/// the optional ones it lacks come from the parent, its libraries are followed
/// by the parent's, and arguments and downloads are merged part by part.
pub open spec fn manifest_inherited(r: Main, child: Main, parent: Main) -> bool {
    &&& match (child.arguments, parent.arguments) {
        (Some(c), Some(p)) => r.arguments matches Some(a) && arguments_inherited(a, c, p),
        (c, p) => r.arguments == or_else(c, p),
    }
    &&& r.asset_index == or_else(child.asset_index, parent.asset_index)
    &&& r.assets == or_else(child.assets, parent.assets)
    &&& r.compliance_level == or_else(child.compliance_level, parent.compliance_level)
    &&& r.downloads == match (child.downloads, parent.downloads) {
        (Some(c), Some(p)) => Some(downloads_inherited(c, p)),
        (c, p) => or_else(c, p),
    }
    &&& r.id == child.id
    &&& r.java_version == or_else(child.java_version, parent.java_version)
    &&& r.libraries@ == child.libraries@ + parent.libraries@
    &&& r.logging == or_else(child.logging, parent.logging)
    &&& r.main_class == child.main_class
    &&& r.minimum_launcher_version == or_else(
        child.minimum_launcher_version,
        parent.minimum_launcher_version,
    )
    &&& r.release_time == child.release_time
    &&& r.time == child.time
    &&& r._type == child._type
    &&& r.minecraft_arguments == or_else(child.minecraft_arguments, parent.minecraft_arguments)
}

/// Whether `child` may inherit from `parent`: it names no parent, or names it.
pub open spec fn may_inherit(child: Main, parent: Main) -> bool {
    child.inherits_from matches Some(p) ==> p@ == parent.id@
}

impl Main {
    /// Merges this manifest with the one it inherits from (one hop).
    pub fn inherit(self, from: Main) -> (r: Main)
        requires
            may_inherit(self, from),
        ensures
            manifest_inherited(r, self, from),
            r.inherits_from == self.inherits_from,
    {
        let Main {
            arguments,
            asset_index,
            assets,
            compliance_level,
            downloads,
            id,
            java_version,
            mut libraries,
            logging,
            main_class,
            minimum_launcher_version,
            release_time,
            time,
            _type,
            minecraft_arguments,
            inherits_from,
        } = self;
        let Main {
            arguments: p_arguments,
            asset_index: p_asset_index,
            assets: p_assets,
            compliance_level: p_compliance_level,
            downloads: p_downloads,
            java_version: p_java_version,
            libraries: mut p_libraries,
            logging: p_logging,
            minimum_launcher_version: p_minimum_launcher_version,
            minecraft_arguments: p_minecraft_arguments,
            ..
        } = from;
        let arguments = match arguments {
            None => p_arguments,
            Some(a) => match p_arguments {
                None => Some(a),
                Some(p) => Some(a.inherit(p)),
            },
        };
        let downloads = match downloads {
            None => p_downloads,
            Some(d) => match p_downloads {
                None => Some(d),
                Some(p) => Some(d.inherit(p)),
            },
        };
        libraries.append(&mut p_libraries);
        Main {
            arguments,
            asset_index: prefer(asset_index, p_asset_index),
            assets: prefer(assets, p_assets),
            compliance_level: prefer(compliance_level, p_compliance_level),
            downloads,
            id,
            java_version: prefer(java_version, p_java_version),
            libraries,
            logging: prefer(logging, p_logging),
            main_class,
            minimum_launcher_version: prefer(minimum_launcher_version, p_minimum_launcher_version),
            release_time,
            time,
            _type,
            minecraft_arguments: prefer(minecraft_arguments, p_minecraft_arguments),
            inherits_from,
        }
    }
}

impl Arguments {
    /// Appends the parent's argument lists to these.
    pub fn inherit(self, from: Arguments) -> (r: Arguments)
        ensures
            arguments_inherited(r, self, from),
    {
        let Arguments { mut game, jvm } = self;
        let Arguments { game: mut p_game, jvm: p_jvm } = from;
        game.append(&mut p_game);
        let jvm = match jvm {
            None => p_jvm,
            Some(mut j) => match p_jvm {
                None => Some(j),
                Some(mut p) => {
                    j.append(&mut p);
                    Some(j)
                },
            },
        };
        Arguments { game, jvm }
    }
}

impl Downloads {
    /// Fills the optional entries these downloads lack from the parent's; the
    /// client entry is never replaced.
    pub fn inherit(self, from: Downloads) -> (r: Downloads)
        ensures
            r == downloads_inherited(self, from),
    {
        Downloads {
            client: self.client,
            client_mappings: prefer(self.client_mappings, from.client_mappings),
            server: prefer(self.server, from.server),
            server_mappings: prefer(self.server_mappings, from.server_mappings),
        }
    }
}

/// Whether some string of `v` holds the characters `id`.
pub open spec fn has_id(v: Seq<String>, id: Seq<char>) -> bool {
    exists|i: int| 0 <= i < v.len() && #[trigger] v[i]@ == id
}

/// Whether some string of `v` holds the characters of `id`.
pub fn contains_id(v: &Vec<String>, id: &String) -> (r: bool)
    ensures
        r == has_id(v@, id@),
{
    let mut i: usize = 0;
    while i < v.len()
        invariant
            i <= v.len(),
            forall|j: int| 0 <= j < i ==> v@[j]@ != id@,
        decreases v.len() - i,
    {
        if str_eq(v[i].as_str(), id.as_str()) {
            return true;
        }
        i = i + 1;
    }
    false
}

impl Main {
    /// One hop of transitive inheritance. `visited` holds the ids merged so far
    /// (the child's own first). A manifest that names no parent is already
    /// resolved and comes back unchanged. Otherwise `parent` must carry the id
    /// that the manifest names, and must not have been merged before (a cycle);
    /// the merge then follows `inherit`, and the result names the parent's own
    /// parent, the next hop still to do.
    pub fn inherit_next(self, parent: Main, visited: &mut Vec<String>) -> (r: Result<Main, InstallError>)
        ensures
            self.inherits_from is None ==> r == Ok::<Main, InstallError>(self) && final(visited)@
                == old(visited)@,
            self.inherits_from is Some && self.inherits_from->0@ != parent.id@ ==> (r matches Err(
                InstallError::ManifestIncomplete(m),
            ) && m@ == self.inherits_from->0@) && final(visited)@ == old(visited)@,
            self.inherits_from is Some && self.inherits_from->0@ == parent.id@ && has_id(old(visited)@, parent.id@)
                ==> (r matches Err(InstallError::InheritanceCycle(m)) && m@ == parent.id@)
                && final(visited)@ == old(visited)@,
            self.inherits_from is Some && self.inherits_from->0@ == parent.id@ && !has_id(old(visited)@, parent.id@)
                ==> (r matches Ok(m) && manifest_inherited(m, self, parent) && m.inherits_from
                == parent.inherits_from),
            self.inherits_from is Some && self.inherits_from->0@ == parent.id@ && !has_id(old(visited)@, parent.id@)
                ==> final(visited)@ == old(visited)@.push(final(visited)@.last()) && final(visited)@.last()@
                == parent.id@,
    {
        let named = match &self.inherits_from {
            None => None,
            Some(p) => Some(copy_str(p)),
        };
        let p = match named {
            None => {
                return Ok(self);
            },
            Some(p) => p,
        };
        if !str_eq(p.as_str(), parent.id.as_str()) {
            return Err(InstallError::ManifestIncomplete(p));
        }
        if contains_id(visited, &parent.id) {
            return Err(InstallError::InheritanceCycle(copy_str(&parent.id)));
        }
        visited.push(copy_str(&parent.id));
        let mut rest = parent;
        let next = rest.inherits_from.take();
        let mut merged = self.inherit(rest);
        merged.inherits_from = next;
        Ok(merged)
    }
}

/// What `str::to_lowercase` makes of the characters `s`.
pub uninterp spec fn lower_of(s: Seq<char>) -> Seq<char>;

/// Relies on `str::to_lowercase`: its result depends on the characters alone.
#[verifier::external_body]
fn to_lowercase(s: &str) -> (r: String)
    ensures
        r@ == lower_of(s@),
{
    s.to_lowercase()
}

/// Whether a lower-case id names a mod loader or an optimisation mod.
pub open spec fn names_mod_loader(lowered: Seq<char>) -> bool {
    ||| contains_seq(lowered, "fabric"@)
    ||| contains_seq(lowered, "forge"@)
    ||| contains_seq(lowered, "liteloader"@)
    ||| contains_seq(lowered, "rift"@)
    ||| contains_seq(lowered, "optifine"@)
}

/// Whether the lower-case id `lowered` names a mod loader or an optimisation mod.
pub fn is_modded_id(lowered: &str) -> (r: bool)
    ensures
        r == names_mod_loader(lowered@),
{
    contains_str(lowered, "fabric") || contains_str(lowered, "forge") || contains_str(
        lowered,
        "liteloader",
    ) || contains_str(lowered, "rift") || contains_str(lowered, "optifine")
}

/// The version-list kind of a manifest kind; pending versions have none.
pub open spec fn list_kind(t: VersionType) -> main::VersionType
    recommends
        t != VersionType::Pending,
{
    match t {
        VersionType::Release => main::VersionType::Release,
        VersionType::Snapshot => main::VersionType::Snapshot,
        VersionType::OldBeta => main::VersionType::OldBeta,
        _ => main::VersionType::OldAlpha,
    }
}

impl Main {
    /// The summary of this version for a version picker.
    pub fn to_min_version(&self) -> (r: main::MinVersion)
        requires
            self._type != VersionType::Pending,
        ensures
            r.id@ == self.id@,
            r._type == list_kind(self._type),
            r.release_time == self.release_time,
    {
        let kind = match self._type {
            VersionType::Release => main::VersionType::Release,
            VersionType::Snapshot => main::VersionType::Snapshot,
            VersionType::OldBeta => main::VersionType::OldBeta,
            _ => main::VersionType::OldAlpha,
        };
        main::MinVersion { id: copy_str(&self.id), _type: kind, release_time: self.release_time }
    }

    /// Whether this version's id, in lower case, names a mod loader or an
    /// optimisation mod.
    pub fn is_modded(&self) -> (r: bool)
        ensures
            r == names_mod_loader(lower_of(self.id@)),
    {
        let id = to_lowercase(self.id.as_str());
        is_modded_id(id.as_str())
    }
}

} // verus!
