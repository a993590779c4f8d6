//! Provisioning the managed runtime a version requires.

use vstd::prelude::*;

use crate::error::InstallError;
use crate::install::{FetchTarget, LocalCheck, TargetView};
use crate::manifest::java::{RuntimeBuild, RuntimeFile, RuntimeFiles, RuntimeIndex};
use crate::manifest::version::{Main, Os};
use crate::path::{get_java_folder_path, get_java_folder_path_sub, get_os_java_name, java_folder, java_folder_sub, os_java_name};
use crate::rules::PlatformContext;
use crate::text::{copy_str, find, lookup, split_char, split_on, str_eq, views};

verus! {

/// The component of versions that declare none.
pub open spec fn legacy_component() -> Seq<char> {
    "jre-legacy"@
}

/// The runtime component a manifest requires.
pub open spec fn required_component(manifest: Main) -> Seq<char> {
    match manifest.java_version {
        Some(j) => j.component@,
        None => legacy_component(),
    }
}

/// The runtime component `manifest` requires: the one it declares, else the legacy one.
pub fn get_required_component(manifest: &Main) -> (r: String)
    ensures
        r@ == required_component(*manifest),
{
    match &manifest.java_version {
        Some(j) => copy_str(&j.component),
        None => String::from_str("jre-legacy"),
    }
}

/// The build the index offers first for `component` on the platform of `ctx`.
pub open spec fn selected_build(index: RuntimeIndex, component: Seq<char>, ctx: PlatformContext) -> Option<RuntimeBuild> {
    match lookup(index.platforms@, os_java_name(ctx)) {
        Some(comps) => match lookup(comps@, component) {
            Some(builds) => if builds@.len() > 0 {
                Some(builds@[0])
            } else {
                None
            },
            None => None,
        },
        None => None,
    }
}

/// The build to install for `component` on the platform of `ctx`: the first
/// one the index lists for them, if any.
pub fn select_build<'a>(index: &'a RuntimeIndex, component: &String, ctx: &PlatformContext) -> (r: Option<&'a RuntimeBuild>)
    ensures
        match r {
            Some(b) => selected_build(*index, component@, *ctx) == Some(*b),
            None => selected_build(*index, component@, *ctx) is None,
        },
{
    let key = get_os_java_name(ctx);
    match find(&index.platforms, key.as_str()) {
        None => None,
        Some(comps) => match find(comps, component.as_str()) {
            None => None,
            Some(builds) => if builds.len() > 0 {
                Some(&builds[0])
            } else {
                None
            },
        },
    }
}

/// The outcome of runtime provisioning when the runtime index could not be
/// fetched (`fetch_error`): a runtime already installed (its binary present)
/// is accepted as it is; without one the stage fails with the fetch's error.
pub fn offline_runtime(fetch_error: InstallError, binary_present: bool) -> (r: Result<(), InstallError>)
    ensures
        binary_present ==> r is Ok,
        !binary_present ==> r == Err::<(), InstallError>(fetch_error),
{
    if binary_present {
        Ok(())
    } else {
        Err(fetch_error)
    }
}

/// The version marker of a component: `.version` in its platform folder.
pub open spec fn marker_path(component: Seq<char>, ctx: PlatformContext) -> Seq<Seq<char>> {
    java_folder(component, ctx).push(".version"@)
}

/// Where the version marker of `component` lies.
pub fn get_marker_path(component: &String, ctx: &PlatformContext) -> (r: Vec<String>)
    ensures
        views(r@) == marker_path(component@, *ctx),
{
    let mut r = get_java_folder_path(component, ctx);
    let ghost before = r@;
    let name = String::from_str(".version");
    r.push(name);
    proof {
        assert(views(r@) =~= views(before).push(name@));
    }
    r
}

/// Whether a runtime must be installed, given the marker's content (None when
/// it cannot be read): unless it names the selected build exactly.
pub open spec fn install_needed(marker: Option<Seq<char>>, build: RuntimeBuild) -> bool {
    match marker {
        Some(m) => m != build.version_name@,
        None => true,
    }
}

/// Whether the runtime must be installed, given the content of its version
/// marker (None when the marker cannot be read).
pub fn runtime_install_needed(marker: Option<&str>, build: &RuntimeBuild) -> (r: bool)
    ensures
        r == install_needed(
            match marker {
                Some(m) => Some(m@),
                None => None,
            },
            *build,
        ),
{
    match marker {
        Some(m) => !str_eq(m, build.version_name.as_str()),
        None => true,
    }
}

/// What the version marker holds once `build` is installed: its version name.
pub fn marker_contents(build: &RuntimeBuild) -> (r: String)
    ensures
        r@ == build.version_name@,
{
    copy_str(&build.version_name)
}

/// Once a successful installation has written the marker, the same build is
/// found installed: a later provisioning of it installs nothing.
pub proof fn lemma_marker_settles_runtime(build: RuntimeBuild, written: Seq<char>)
    requires
        written == build.version_name@,
    ensures
        !install_needed(Some(written), build),
{
}

/// `s` without its last two segments (or empty, when it has fewer): a `..`
/// in a link target leaves the link's own name and one directory level.
pub open spec fn pop_two(s: Seq<Seq<char>>) -> Seq<Seq<char>> {
    if s.len() >= 2 {
        s.take(s.len() - 2)
    } else {
        Seq::empty()
    }
}

/// The location a link points to: starting at the link's own location, each
/// `..` segment of the target pops two segments and every other segment is
/// appended. It never leaves the game directory.
pub open spec fn resolve_link(link: Seq<Seq<char>>, target: Seq<Seq<char>>) -> Seq<Seq<char>>
    decreases target.len(),
{
    if target.len() == 0 {
        link
    } else {
        let prev = resolve_link(link, target.drop_last());
        if target.last() == ".."@ {
            pop_two(prev)
        } else {
            prev.push(target.last())
        }
    }
}

/// The location a link at `link` with target segments `target` points to.
pub fn resolve_link_target(link: &Vec<String>, target: &Vec<String>) -> (r: Vec<String>)
    ensures
        views(r@) == resolve_link(views(link@), views(target@)),
{
    let mut r = crate::text::copy_strings(link);
    let mut i: usize = 0;
    proof {
        assert(views(target@).take(0) =~= Seq::<Seq<char>>::empty());
    }
    while i < target.len()
        invariant
            i <= target.len(),
            views(r@) == resolve_link(views(link@), views(target@).take(i as int)),
        decreases target.len() - i,
    {
        proof {
            let t = views(target@).take(i as int + 1);
            assert(t.drop_last() =~= views(target@).take(i as int));
            assert(t.last() == target@[i as int]@);
        }
        if str_eq(target[i].as_str(), "..") {
            let ghost before = views(r@);
            if r.len() >= 2 {
                r.truncate(r.len() - 2);
            } else {
                r.clear();
            }
            proof {
                assert(views(r@) =~= pop_two(before));
            }
        } else {
            let ghost before = views(r@);
            let part = copy_str(&target[i]);
            r.push(part);
            proof {
                assert(views(r@) =~= before.push(part@));
            }
        }
        i = i + 1;
    }
    proof {
        assert(views(target@).take(target.len() as int) =~= views(target@));
    }
    r
}

/// A step of a runtime installation.
#[derive(Clone, Debug, PartialEq, Eq)]
pub enum RuntimeAction {
    /// Create this directory and the missing ones above it.
    CreateDir(Vec<String>),
    /// Fetch a file (creating its parent directories), then make it
    /// executable when asked.
    Download(FetchTarget, bool),
    /// Create a symbolic link at the first location pointing to the second.
    Link(Vec<String>, Vec<String>),
}

/// A runtime installation step as values.
pub enum ActionView {
    CreateDir(Seq<Seq<char>>),
    Download(TargetView, bool),
    Link(Seq<Seq<char>>, Seq<Seq<char>>),
}

impl View for RuntimeAction {
    type V = ActionView;

    open spec fn view(&self) -> ActionView {
        match self {
            RuntimeAction::CreateDir(p) => ActionView::CreateDir(views(p@)),
            RuntimeAction::Download(t, x) => ActionView::Download(t@, *x),
            RuntimeAction::Link(l, t) => ActionView::Link(views(l@), views(t@)),
        }
    }
}

/// The values of a list of runtime steps.
pub open spec fn action_views(a: Seq<RuntimeAction>) -> Seq<ActionView> {
    a.map_values(|x: RuntimeAction| x@)
}

/// How one entry of a build's file list is handled.
pub enum EntryOutcome {
    /// It takes this step.
    Step(ActionView),
    /// Its kind is unknown: it is passed over.
    Skip,
    /// It cannot be installed.
    Fail,
}

/// How the entry at relative path `path` is handled, below the component root `root`.
pub open spec fn entry_outcome(root: Seq<Seq<char>>, path: Seq<char>, f: RuntimeFile, os: Os) -> EntryOutcome {
    let at = root + split_on(path, '/');
    if f.element_type@ == "directory"@ {
        EntryOutcome::Step(ActionView::CreateDir(at))
    } else if f.element_type@ == "file"@ {
        match f.downloads {
            Some(d) => EntryOutcome::Step(
                ActionView::Download(
                    TargetView { url: d.url@, path: at, check: LocalCheck::Never },
                    f.executable == Some(true),
                ),
            ),
            None => EntryOutcome::Fail,
        }
    } else if f.element_type@ == "link"@ {
        match f.target {
            Some(t) => if os == Os::Windows {
                EntryOutcome::Fail
            } else {
                EntryOutcome::Step(ActionView::Link(at, resolve_link(at, split_on(t@, '/'))))
            },
            None => EntryOutcome::Fail,
        }
    } else {
        EntryOutcome::Skip
    }
}

/// The steps of the entries `files`, in order, up to the first that fails.
pub open spec fn runtime_steps(root: Seq<Seq<char>>, files: Seq<(String, RuntimeFile)>, os: Os) -> Seq<ActionView>
    decreases files.len(),
{
    if files.len() == 0 {
        Seq::empty()
    } else {
        let prev = runtime_steps(root, files.drop_last(), os);
        if runtime_fails(root, files.drop_last(), os) {
            prev
        } else {
            match entry_outcome(root, files.last().0@, files.last().1, os) {
                EntryOutcome::Step(a) => prev.push(a),
                _ => prev,
            }
        }
    }
}

/// Whether some entry of `files` cannot be installed.
pub open spec fn runtime_fails(root: Seq<Seq<char>>, files: Seq<(String, RuntimeFile)>, os: Os) -> bool {
    exists|i: int| 0 <= i < files.len() && #[trigger] entry_outcome(root, files[i].0@, files[i].1, os) is Fail
}

/// Once an entry fails, no later entry adds a step.
proof fn lemma_steps_stop_at_failure(root: Seq<Seq<char>>, files: Seq<(String, RuntimeFile)>, os: Os, i: int)
    requires
        0 <= i < files.len(),
        entry_outcome(root, files[i].0@, files[i].1, os) is Fail,
        !runtime_fails(root, files.take(i), os),
    ensures
        runtime_steps(root, files, os) == runtime_steps(root, files.take(i), os),
    decreases files.len(),
{
    let d = files.drop_last();
    if files.len() == i + 1 {
        assert(d =~= files.take(i));
    } else {
        assert(d.take(i) =~= files.take(i));
        assert(d[i] == files[i]);
        lemma_steps_stop_at_failure(root, d, os, i);
        assert(runtime_fails(root, d, os));
    }
}

/// The failure an entry that cannot be installed reports: a link where the
/// platform has no symbolic links is unsupported; otherwise the entry lacks
/// its source or its target. Either names the entry's path.
pub open spec fn entry_failure(e: InstallError, entry: (String, RuntimeFile), os: Os) -> bool {
    if entry.1.element_type@ == "link"@ && os == Os::Windows {
        e matches InstallError::PlatformUnsupported(m) && m@ == entry.0@
    } else {
        e matches InstallError::ManifestIncomplete(m) && m@ == entry.0@
    }
}

/// What installing a runtime build takes: the steps in order, and the failure
/// to report after them, if any.
#[derive(Clone, Debug, PartialEq, Eq)]
pub struct RuntimePlan {
    pub actions: Vec<RuntimeAction>,
    pub failure: Option<InstallError>,
}

/// The location `root` followed by the `/`-separated segments of `path`.
fn below(root: &Vec<String>, path: &String) -> (r: Vec<String>)
    ensures
        views(r@) == views(root@) + split_on(path@, '/'),
{
    let mut r = crate::text::copy_strings(root);
    let mut parts = split_char(path.as_str(), '/');
    let ghost before = r@;
    let ghost added = parts@;
    r.append(&mut parts);
    proof {
        assert(r@ == before + added);
        assert(views(r@) =~= views(before) + views(added));
    }
    r
}

/// The step for one entry, or None when the entry fails or is passed over;
/// `fails` tells the two apart.
fn entry_step(root: &Vec<String>, path: &String, f: &RuntimeFile, os: Os) -> (r: (Option<RuntimeAction>, bool))
    ensures
        match entry_outcome(views(root@), path@, *f, os) {
            EntryOutcome::Step(a) => r.0 matches Some(x) && x@ == a && !r.1,
            EntryOutcome::Skip => r.0 is None && !r.1,
            EntryOutcome::Fail => r.0 is None && r.1,
        },
{
    let at = below(root, path);
    let kind = f.element_type.as_str();
    if str_eq(kind, "directory") {
        (Some(RuntimeAction::CreateDir(at)), false)
    } else if str_eq(kind, "file") {
        match &f.downloads {
            Some(d) => {
                let executable = match f.executable {
                    Some(x) => x,
                    None => false,
                };
                (Some(RuntimeAction::Download(FetchTarget { url: copy_str(&d.url), path: at, check: LocalCheck::Never }, executable)), false)
            },
            None => (None, true),
        }
    } else if str_eq(kind, "link") {
        match &f.target {
            Some(t) => if os == Os::Windows {
                (None, true)
            } else {
                let parts = split_char(t.as_str(), '/');
                let to = resolve_link_target(&at, &parts);
                (Some(RuntimeAction::Link(at, to)), false)
            },
            None => (None, true),
        }
    } else {
        (None, false)
    }
}

/// Plans the installation of a runtime build's file list for `component` on
/// `ctx`, below the component root. Directories are created, files fetched
/// (and made executable when flagged), and links created with their targets
/// resolved as `resolve_link` says. A file without a source, a link without a
/// target, or any link where the platform has no symbolic links, stops the
/// plan after the steps before it. Entries of unknown kind are passed over.
pub fn plan_runtime_files(files: &RuntimeFiles, component: &String, ctx: &PlatformContext) -> (r: RuntimePlan)
    ensures
        action_views(r.actions@) == runtime_steps(java_folder_sub(component@, *ctx), files.files@, ctx.os),
        r.failure is Some <==> runtime_fails(java_folder_sub(component@, *ctx), files.files@, ctx.os),
        r.failure matches Some(e) ==> exists|i: int|
            0 <= i < files.files@.len() && !runtime_fails(java_folder_sub(component@, *ctx), #[trigger] files.files@.take(i), ctx.os)
                && entry_outcome(java_folder_sub(component@, *ctx), files.files@[i].0@, files.files@[i].1, ctx.os) is Fail
                && entry_failure(e, files.files@[i], ctx.os),
{
    let root = get_java_folder_path_sub(component, ctx);
    let ghost rv = java_folder_sub(component@, *ctx);
    let mut actions: Vec<RuntimeAction> = Vec::new();
    let mut i: usize = 0;
    proof {
        assert(files.files@.take(0) =~= Seq::<(String, RuntimeFile)>::empty());
    }
    while i < files.files.len()
        invariant
            rv == java_folder_sub(component@, *ctx),
            views(root@) == rv,
            i <= files.files.len(),
            !runtime_fails(rv, files.files@.take(i as int), ctx.os),
            action_views(actions@) == runtime_steps(rv, files.files@.take(i as int), ctx.os),
        decreases files.files.len() - i,
    {
        let entry = &files.files[i];
        let ghost t = files.files@.take(i as int + 1);
        proof {
            assert(t.drop_last() =~= files.files@.take(i as int));
            assert(t.last() == files.files@[i as int]);
        }
        let (step, fails) = entry_step(&root, &entry.0, &entry.1, ctx.os);
        if fails {
            proof {
                assert(files.files@[i as int] == *entry);
                assert(entry_outcome(rv, files.files@[i as int].0@, files.files@[i as int].1, ctx.os) is Fail);
                assert(runtime_fails(rv, files.files@, ctx.os));
                lemma_steps_stop_at_failure(rv, files.files@, ctx.os, i as int);
            }
            let failure = if ctx.os == Os::Windows && str_eq(entry.1.element_type.as_str(), "link") {
                InstallError::PlatformUnsupported(copy_str(&entry.0))
            } else {
                InstallError::ManifestIncomplete(copy_str(&entry.0))
            };
            proof {
                assert(entry_failure(failure, files.files@[i as int], ctx.os));
                assert(!runtime_fails(rv, files.files@.take(i as int), ctx.os));
            }
            return RuntimePlan { actions, failure: Some(failure) };
        }
        proof {
            assert(!runtime_fails(rv, t, ctx.os)) by {
                assert forall|j: int| 0 <= j < t.len() implies !(#[trigger] entry_outcome(rv, t[j].0@, t[j].1, ctx.os) is Fail) by {
                    if j < i {
                        assert(t[j] == files.files@.take(i as int)[j]);
                    }
                }
            }
        }
        match step {
            Some(a) => {
                let ghost before = actions@;
                actions.push(a);
                proof {
                    assert(action_views(actions@) =~= action_views(before).push(a@));
                }
            },
            None => {},
        }
        i = i + 1;
    }
    proof {
        assert(files.files@.take(files.files.len() as int) =~= files.files@);
    }
    RuntimePlan { actions, failure: None }
}

} // verus!
