//! The decisions of the installation stages: which files each stage needs,
//! where they go, and whether a local copy is already current. The caller
//! performs the transfers and the filesystem work in the order given.

use vstd::prelude::*;

use crate::error::InstallError;
use crate::manifest::main;
use crate::manifest::version::{os_name, Library, LibraryDownloadArtifact, Main, RuleAction};
use crate::path::{assets_folder, get_assets_folder, get_library_path, get_version_folder, library_path, version_folder};
use crate::rules::{match_optional_rules, optional_rules_decision, PlatformContext};
use crate::text::{cat, copy_str, dots_to_slashes, find, lookup, replace_char, split_char, split_on, views};

pub mod assets;
pub mod java;

verus! {

/// When a local copy of a file counts as current.
#[derive(Clone, Copy, Debug, PartialEq, Eq, Structural)]
pub enum LocalCheck {
    /// Its length equals the declared size.
    SizeIs(u64),
    /// It exists.
    Exists,
    /// Never: the file is always fetched.
    Never,
}

/// A file to bring in: its source, its location below the game directory,
/// and when a local copy makes the transfer unnecessary.
#[derive(Clone, Debug, PartialEq, Eq)]
pub struct FetchTarget {
    pub url: String,
    pub path: Vec<String>,
    pub check: LocalCheck,
}

/// A fetch target as values.
pub struct TargetView {
    pub url: Seq<char>,
    pub path: Seq<Seq<char>>,
    pub check: LocalCheck,
}

impl View for FetchTarget {
    type V = TargetView;

    open spec fn view(&self) -> TargetView {
        TargetView { url: self.url@, path: views(self.path@), check: self.check }
    }
}

/// The values of a list of fetch targets.
pub open spec fn target_views(ts: Seq<FetchTarget>) -> Seq<TargetView> {
    ts.map_values(|t: FetchTarget| t@)
}

/// Whether a local copy of length `local_len` (None: missing, or its length
/// unreadable) is current.
pub open spec fn is_current(check: LocalCheck, local_len: Option<u64>) -> bool {
    match check {
        LocalCheck::SizeIs(n) => local_len == Some(n),
        LocalCheck::Exists => local_len is Some,
        LocalCheck::Never => false,
    }
}

/// Whether a freshly fetched body of `len` bytes is acceptable: a declared
/// size must be met exactly.
pub open spec fn download_acceptable(check: LocalCheck, len: u64) -> bool {
    match check {
        LocalCheck::SizeIs(n) => len == n,
        _ => true,
    }
}

impl FetchTarget {
    /// Whether the file must be fetched, given the length of the local copy
    /// (None when it is missing or its length cannot be read).
    pub fn needs_fetch(&self, local_len: Option<u64>) -> (r: bool)
        ensures
            r == !is_current(self.check, local_len),
    {
        match self.check {
            LocalCheck::SizeIs(n) => match local_len {
                Some(l) => l != n,
                None => true,
            },
            LocalCheck::Exists => local_len.is_none(),
            LocalCheck::Never => true,
        }
    }

    /// Accepts a freshly fetched body of `fetched_len` bytes, or reports that
    /// it does not have the declared size.
    pub fn check_download(&self, fetched_len: u64) -> (r: Result<(), InstallError>)
        ensures
            r is Ok <==> download_acceptable(self.check, fetched_len),
            self.check matches LocalCheck::SizeIs(n) ==> (r is Err ==> r == Err::<(), InstallError>(
                InstallError::IntegrityMismatch { expected: n, actual: fetched_len },
            )),
    {
        match self.check {
            LocalCheck::SizeIs(n) => if fetched_len == n {
                Ok(())
            } else {
                Err(InstallError::IntegrityMismatch { expected: n, actual: fetched_len })
            },
            _ => Ok(()),
        }
    }
}

/// The manifest file of a version: `versions/<id>/<id>.json`.
pub open spec fn version_manifest_path(id: Seq<char>) -> Seq<Seq<char>> {
    version_folder(id).push(id + ".json"@)
}

/// The client binary of a version: `versions/<id>/<id>.jar`.
pub open spec fn client_jar_path(id: Seq<char>) -> Seq<Seq<char>> {
    version_folder(id).push(id + ".jar"@)
}

/// The first entry of the version list with the given id.
pub open spec fn first_listed(versions: Seq<main::Version>, id: Seq<char>) -> Option<main::Version>
    decreases versions.len(),
{
    if versions.len() == 0 {
        None
    } else if versions[0].id@ == id {
        Some(versions[0])
    } else {
        first_listed(versions.drop_first(), id)
    }
}

/// The folder location `folder` with the file `name` below it.
fn file_in(folder: Vec<String>, name: String) -> (r: Vec<String>)
    ensures
        views(r@) == views(folder@).push(name@),
{
    let mut r = folder;
    let ghost before = r@;
    r.push(name);
    proof {
        assert(views(r@) =~= views(before).push(name@));
    }
    r
}

/// Where the manifest of version `id` comes from. When a local copy exists it
/// is used and nothing is fetched (`Ok(None)`). Otherwise the first entry of
/// the version list with that id gives the source, and the manifest is fetched
/// to the version folder; an id that the list lacks is an error.
pub fn manifest_source(id: &String, versions: &Vec<main::Version>, local_exists: bool) -> (r: Result<
    Option<FetchTarget>,
    InstallError,
>)
    ensures
        local_exists ==> r == Ok::<Option<FetchTarget>, InstallError>(None),
        !local_exists ==> match first_listed(versions@, id@) {
            None => r matches Err(InstallError::ManifestIncomplete(m)) && m@ == id@,
            Some(v) => r matches Ok(Some(t)) && t@ == (TargetView {
                url: v.url@,
                path: version_manifest_path(id@),
                check: LocalCheck::Exists,
            }),
        },
{
    if local_exists {
        return Ok(None);
    }
    let mut i: usize = 0;
    proof {
        assert(versions@.skip(0) =~= versions@);
    }
    while i < versions.len()
        invariant
            !local_exists,
            i <= versions.len(),
            first_listed(versions@, id@) == first_listed(versions@.skip(i as int), id@),
        decreases versions.len() - i,
    {
        proof {
            assert(versions@.skip(i as int)[0] == versions@[i as int]);
            assert(versions@.skip(i as int).drop_first() =~= versions@.skip(i as int + 1));
        }
        if crate::text::str_eq(versions[i].id.as_str(), id.as_str()) {
            let name = cat(id.as_str(), ".json");
            let path = file_in(get_version_folder(id), name);
            return Ok(Some(FetchTarget { url: copy_str(&versions[i].url), path, check: LocalCheck::Exists }));
        }
        i = i + 1;
    }
    proof {
        assert(versions@.skip(i as int) =~= Seq::<main::Version>::empty());
    }
    Err(InstallError::ManifestIncomplete(copy_str(id)))
}

/// The client binary of a manifest, checked by its declared size. A manifest
/// without downloads has none.
pub fn client_jar_target(manifest: &Main) -> (r: Result<FetchTarget, InstallError>)
    ensures
        match manifest.downloads {
            None => r matches Err(InstallError::ManifestIncomplete(_)),
            Some(d) => r matches Ok(t) && t@ == (TargetView {
                url: d.client.url@,
                path: client_jar_path(manifest.id@),
                check: LocalCheck::SizeIs(d.client.size),
            }),
        },
{
    match &manifest.downloads {
        None => Err(InstallError::ManifestIncomplete(String::from_str("downloads"))),
        Some(d) => {
            let name = cat(manifest.id.as_str(), ".jar");
            let path = file_in(get_version_folder(&manifest.id), name);
            Ok(FetchTarget { url: copy_str(&d.client.url), path, check: LocalCheck::SizeIs(d.client.size) })
        },
    }
}

/// The asset index file: `assets/indexes/<id>.json`.
pub open spec fn asset_index_path(id: Seq<char>) -> Seq<Seq<char>> {
    assets_folder("indexes"@).push(id + ".json"@)
}

/// The asset index of a manifest, checked by its declared size. A manifest
/// without an asset index reference has none.
pub fn asset_index_target(manifest: &Main) -> (r: Result<FetchTarget, InstallError>)
    ensures
        match manifest.asset_index {
            None => r matches Err(InstallError::ManifestIncomplete(_)),
            Some(a) => r matches Ok(t) && t@ == (TargetView {
                url: a.url@,
                path: asset_index_path(a.id@),
                check: LocalCheck::SizeIs(a.size),
            }),
        },
{
    match &manifest.asset_index {
        None => Err(InstallError::ManifestIncomplete(String::from_str("assetIndex"))),
        Some(a) => {
            let name = cat(a.id.as_str(), ".json");
            let path = file_in(get_assets_folder(&String::from_str("indexes")), name);
            Ok(FetchTarget { url: copy_str(&a.url), path, check: LocalCheck::SizeIs(a.size) })
        },
    }
}

/// The logging configuration file: `assets/log_configs/<file id>`.
pub open spec fn log_config_path(file_id: Seq<char>) -> Seq<Seq<char>> {
    assets_folder("log_configs"@).push(file_id)
}

/// The client's logging configuration file, checked by its declared size,
/// when the manifest declares one.
pub fn log_config_target(manifest: &Main) -> (r: Option<FetchTarget>)
    ensures
        match manifest.logging {
            Some(l) => match l.client {
                Some(c) => r matches Some(t) && t@ == (TargetView {
                    url: c.file.url@,
                    path: log_config_path(c.file.id@),
                    check: LocalCheck::SizeIs(c.file.size),
                }),
                None => r is None,
            },
            None => r is None,
        },
{
    match &manifest.logging {
        None => None,
        Some(l) => match &l.client {
            None => None,
            Some(c) => {
                let path = file_in(get_assets_folder(&String::from_str("log_configs")), copy_str(&c.file.id));
                Some(FetchTarget { url: copy_str(&c.file.url), path, check: LocalCheck::SizeIs(c.file.size) })
            },
        },
    }
}

/// The public repository that serves libraries without a source of their own.
pub open spec fn default_repository() -> Seq<char> {
    "https://libraries.minecraft.net/"@
}

/// Whether a coordinate has group, artifact and version segments.
pub open spec fn coordinate_ok(name: Seq<char>) -> bool {
    split_on(name, ':').len() >= 3
}

/// The repository path of the coordinate segments `p`:
/// `group/with/slashes/artifact/version/artifact-version.jar`.
pub open spec fn maven_path_of(p: Seq<Seq<char>>) -> Seq<char> {
    replace_char(p[0], '.', '/') + "/"@ + p[1] + "/"@ + p[2] + "/"@ + p[1] + "-"@ + p[2] + ".jar"@
}

/// The repository path of a `group:artifact:version` coordinate.
pub open spec fn maven_path(name: Seq<char>) -> Seq<char> {
    maven_path_of(split_on(name, ':'))
}

/// The progress label of a library: `artifact-version`.
pub open spec fn library_label(name: Seq<char>) -> Seq<char> {
    let p = split_on(name, ':');
    p[1] + "-"@ + p[2]
}

/// A declared library artifact, checked by its declared size.
pub open spec fn artifact_target(a: LibraryDownloadArtifact) -> TargetView {
    TargetView { url: a.url@, path: library_path(a.path@), check: LocalCheck::SizeIs(a.size) }
}

/// A library fetched from a repository by its coordinate; only its presence is checked.
pub open spec fn repository_target(base: Seq<char>, name: Seq<char>) -> TargetView {
    TargetView {
        url: base + maven_path(name),
        path: library_path(maven_path(name)),
        check: LocalCheck::Exists,
    }
}

/// The library's direct artifact, if it declares one.
pub open spec fn direct_targets(lib: Library) -> Seq<TargetView> {
    match lib.downloads {
        Some(d) => match d.artifact {
            Some(a) => seq![artifact_target(a)],
            None => Seq::empty(),
        },
        None => Seq::empty(),
    }
}

/// Whether the library declares a direct artifact or a classifier map.
pub open spec fn declares_artifacts(lib: Library) -> bool {
    lib.downloads matches Some(d) && (d.artifact is Some || d.classifiers is Some)
}

/// The native classifier the library maps the platform's operating system to.
pub open spec fn native_classifier(lib: Library, ctx: PlatformContext) -> Option<String> {
    match lib.natives {
        Some(n) => lookup(n@, os_name(ctx.os)),
        None => None,
    }
}

/// The artifact of classifier `name`, if the library declares it.
pub open spec fn classifier_artifact(lib: Library, name: Seq<char>) -> Option<LibraryDownloadArtifact> {
    match lib.downloads {
        Some(d) => match d.classifiers {
            Some(c) => lookup(c@, name),
            None => None,
        },
        None => None,
    }
}

/// Whether the platform's native classifier is named but not declared.
pub open spec fn native_missing(lib: Library, ctx: PlatformContext) -> bool {
    native_classifier(lib, ctx) matches Some(c) && classifier_artifact(lib, c@) is None
}

/// The repository fetch of a library that declares no artifact: from its own
/// repository when it names one, else from the public one.
pub open spec fn fallback_targets(lib: Library) -> Seq<TargetView> {
    if declares_artifacts(lib) {
        Seq::empty()
    } else {
        let base = match lib.url {
            Some(u) => u@,
            None => default_repository(),
        };
        seq![repository_target(base, lib.name@)]
    }
}

/// The files an allowed library needs, in order: its direct artifact, its
/// native classifier for the platform, and, when it declares no artifact, its
/// repository fallback. When the native classifier is named but missing, the
/// plan stops after the direct artifact.
pub open spec fn library_targets(lib: Library, ctx: PlatformContext) -> Seq<TargetView> {
    let direct = direct_targets(lib);
    match native_classifier(lib, ctx) {
        Some(c) => match classifier_artifact(lib, c@) {
            None => direct,
            Some(a) => direct.push(artifact_target(a)) + fallback_targets(lib),
        },
        None => direct + fallback_targets(lib),
    }
}

/// What installing one library takes: its progress label, the files to bring
/// in order, and the failure to report after them, if any.
#[derive(Clone, Debug, PartialEq, Eq)]
pub struct LibraryPlan {
    pub label: String,
    pub targets: Vec<FetchTarget>,
    pub failure: Option<InstallError>,
}

/// The fetch target of a declared artifact.
fn artifact_fetch(a: &LibraryDownloadArtifact) -> (r: FetchTarget)
    ensures
        r@ == artifact_target(*a),
{
    FetchTarget { url: copy_str(&a.url), path: get_library_path(&a.path), check: LocalCheck::SizeIs(a.size) }
}

/// The repository path of the coordinate segments `parts`.
fn maven_path_from(parts: &Vec<String>) -> (r: String)
    requires
        parts.len() >= 3,
    ensures
        r@ == maven_path_of(views(parts@)),
{
    let mut r = dots_to_slashes(parts[0].as_str());
    r.append("/");
    r.append(parts[1].as_str());
    r.append("/");
    r.append(parts[2].as_str());
    r.append("/");
    r.append(parts[1].as_str());
    r.append("-");
    r.append(parts[2].as_str());
    r.append(".jar");
    r
}

/// Plans the installation of one library on platform `ctx`.
///
/// A coordinate without three segments is malformed. A library that its rules
/// disallow needs nothing. Otherwise the plan lists `library_targets`; when the
/// platform's native classifier is named but not declared, the plan fails
/// after the files before it.
pub fn plan_library(lib: &Library, ctx: &PlatformContext) -> (r: LibraryPlan)
    ensures
        !coordinate_ok(lib.name@) ==> r.label@ == lib.name@ && r.targets@.len() == 0 && (
        r.failure matches Some(InstallError::Parse(m)) && m@ == lib.name@),
        coordinate_ok(lib.name@) ==> r.label@ == library_label(lib.name@),
        coordinate_ok(lib.name@) && optional_rules_decision(lib.rules, *ctx) == RuleAction::Disallow
            ==> r.targets@.len() == 0 && r.failure is None,
        coordinate_ok(lib.name@) && optional_rules_decision(lib.rules, *ctx) == RuleAction::Allow
            ==> target_views(r.targets@) == library_targets(*lib, *ctx),
        coordinate_ok(lib.name@) && optional_rules_decision(lib.rules, *ctx) == RuleAction::Allow
            ==> (r.failure is Some <==> native_missing(*lib, *ctx)),
        coordinate_ok(lib.name@) && optional_rules_decision(lib.rules, *ctx) == RuleAction::Allow
            && native_missing(*lib, *ctx) ==> (r.failure matches Some(InstallError::ManifestIncomplete(m))
            && m@ == native_classifier(*lib, *ctx)->0@),
{
    let parts = split_char(lib.name.as_str(), ':');
    if parts.len() < 3 {
        return LibraryPlan {
            label: copy_str(&lib.name),
            targets: Vec::new(),
            failure: Some(InstallError::Parse(copy_str(&lib.name))),
        };
    }
    let mut label = copy_str(&parts[1]);
    label.append("-");
    label.append(parts[2].as_str());
    if match_optional_rules(&lib.rules, ctx) == RuleAction::Disallow {
        return LibraryPlan { label, targets: Vec::new(), failure: None };
    }
    let mut targets: Vec<FetchTarget> = Vec::new();
    let mut declared = false;
    if let Some(d) = &lib.downloads {
        if let Some(a) = &d.artifact {
            targets.push(artifact_fetch(a));
        }
        declared = d.artifact.is_some() || d.classifiers.is_some();
    }
    proof {
        assert(target_views(targets@) =~= direct_targets(*lib));
        assert(declared == declares_artifacts(*lib));
    }
    if let Some(natives) = &lib.natives {
        let os = ctx.os.to_str();
        if let Some(cls) = find(natives, os.as_str()) {
            let found = match &lib.downloads {
                Some(d) => match &d.classifiers {
                    Some(c) => find(c, cls.as_str()),
                    None => None,
                },
                None => None,
            };
            match found {
                None => {
                    return LibraryPlan {
                        label,
                        targets,
                        failure: Some(InstallError::ManifestIncomplete(copy_str(cls))),
                    };
                },
                Some(a) => {
                    let ghost before = targets@;
                    targets.push(artifact_fetch(a));
                    proof {
                        assert(target_views(targets@) =~= target_views(before).push(artifact_target(*a)));
                    }
                },
            }
        }
    }
    if !declared {
        let base = match &lib.url {
            Some(u) => copy_str(u),
            None => String::from_str("https://libraries.minecraft.net/"),
        };
        let path = maven_path_from(&parts);
        let url = cat(base.as_str(), path.as_str());
        let ghost before = targets@;
        targets.push(FetchTarget { url, path: get_library_path(&path), check: LocalCheck::Exists });
        proof {
            assert(target_views(targets@) =~= target_views(before).push(
                repository_target(base@, lib.name@),
            ));
        }
    }
    proof {
        assert(target_views(targets@) =~= library_targets(*lib, *ctx));
    }
    LibraryPlan { label, targets, failure: None }
}

/// Every file a library plan lists is checked by size or by presence, never
/// fetched unconditionally.
pub open spec fn checked_targets(ts: Seq<TargetView>) -> bool {
    forall|i: int| 0 <= i < ts.len() ==> !((#[trigger] ts[i]).check is Never)
}

/// Installing a library again makes no request: the plan depends on the
/// library and the platform alone, and each file it lists that a first
/// installation left in place (a local copy that was current, or a download
/// that was accepted, whose length is then the file's length) is current on
/// the second run, so no file of the second plan needs a fetch and no bytes
/// are rewritten.
pub proof fn lemma_library_install_idempotent(lib: Library, ctx: PlatformContext, lens: Seq<u64>)
    requires
        lens.len() == library_targets(lib, ctx).len(),
        forall|i: int|
            0 <= i < lens.len() ==> #[trigger] is_current(library_targets(lib, ctx)[i].check, Some(lens[i]))
                || download_acceptable(library_targets(lib, ctx)[i].check, lens[i]),
    ensures
        forall|i: int| 0 <= i < lens.len() ==> #[trigger] is_current(library_targets(lib, ctx)[i].check, Some(lens[i])),
{
    let ts = library_targets(lib, ctx);
    assert(checked_targets(ts)) by {
        let direct = direct_targets(lib);
        let fb = fallback_targets(lib);
        assert(checked_targets(direct));
        assert(checked_targets(fb));
        match native_classifier(lib, ctx) {
            Some(c) => match classifier_artifact(lib, c@) {
                None => {},
                Some(a) => {
                    let d2 = direct.push(artifact_target(a));
                    assert(checked_targets(d2)) by {
                        assert forall|i: int| 0 <= i < d2.len() implies !((#[trigger] d2[i]).check is Never) by {
                            if i < direct.len() {
                                assert(d2[i] == direct[i]);
                            }
                        }
                    }
                    assert forall|i: int| 0 <= i < ts.len() implies !((#[trigger] ts[i]).check is Never) by {
                        if i < d2.len() {
                            assert(ts[i] == d2[i]);
                        } else {
                            assert(ts[i] == fb[i - d2.len()]);
                        }
                    }
                },
            },
            None => {
                assert forall|i: int| 0 <= i < ts.len() implies !((#[trigger] ts[i]).check is Never) by {
                    if i < direct.len() {
                        assert(ts[i] == direct[i]);
                    } else {
                        assert(ts[i] == fb[i - direct.len()]);
                    }
                }
            },
        }
    }
    assert forall|i: int| 0 <= i < lens.len() implies #[trigger] is_current(ts[i].check, Some(lens[i])) by {
        assert(!(ts[i].check is Never));
    }
}

} // verus!
