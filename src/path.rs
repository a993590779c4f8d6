//! The installation's directory layout. A location is the list of its path
//! segments below the game directory; the caller joins them onto that
//! directory and creates what is missing.

use vstd::prelude::*;

use crate::manifest::version::Os;
use crate::rules::PlatformContext;
use crate::text::{copy_str, split_char, split_on, str_eq, views};

verus! {

/// `sub` directly below the game directory.
pub open spec fn sub_folder(sub: Seq<char>) -> Seq<Seq<char>> {
    seq![sub]
}

/// The folder of a version: `versions/<id>`.
pub open spec fn version_folder(id: Seq<char>) -> Seq<Seq<char>> {
    seq!["versions"@, id]
}

/// A folder below the assets root: `assets/<sub>`.
pub open spec fn assets_folder(sub: Seq<char>) -> Seq<Seq<char>> {
    seq!["assets"@, sub]
}

/// A library file, stored below the assets root at its `/`-separated path.
pub open spec fn library_path(sub: Seq<char>) -> Seq<Seq<char>> {
    seq!["assets"@] + split_on(sub, '/')
}

/// The runtime platform key of `ctx`, as runtime manifests and folders name it.
pub open spec fn os_java_name(ctx: PlatformContext) -> Seq<char> {
    match ctx.os {
        Os::Windows => if ctx.arch@ == "x86"@ {
            "windows-x86"@
        } else if ctx.arch@ == "x86_64"@ {
            "windows-x64"@
        } else {
            ""@
        },
        Os::MacOs => "mac-os"@,
        Os::Linux => if ctx.arch@ == "x86"@ {
            "linux-i386"@
        } else {
            "linux"@
        },
    }
}

/// The platform folder of a runtime component: `runtime/<component>/<platform>`,
/// where its version marker lives.
pub open spec fn java_folder(component: Seq<char>, ctx: PlatformContext) -> Seq<Seq<char>> {
    seq!["runtime"@, component, os_java_name(ctx)]
}

/// The root of a runtime component's files: its platform folder, then `<component>`.
pub open spec fn java_folder_sub(component: Seq<char>, ctx: PlatformContext) -> Seq<Seq<char>> {
    java_folder(component, ctx).push(component)
}

/// The folder of the runtime binary below the component root.
pub open spec fn java_bin_folder(os: Os) -> Seq<Seq<char>> {
    match os {
        Os::MacOs => seq!["jre.bundle"@, "Contents"@, "Home"@, "bin"@],
        _ => seq!["bin"@],
    }
}

/// The file name of the runtime binary.
pub open spec fn java_executable(os: Os) -> Seq<char> {
    match os {
        Os::Windows => "java.exe"@,
        _ => "java"@,
    }
}

/// The runtime binary of a component.
pub open spec fn java_binary(component: Seq<char>, ctx: PlatformContext) -> Seq<Seq<char>> {
    java_folder_sub(component, ctx) + java_bin_folder(ctx.os) + seq![java_executable(ctx.os)]
}

/// The name of the game directory inside the platform's base directory.
pub open spec fn minecraft_directory_name(os: Os) -> Seq<char> {
    match os {
        Os::MacOs => "minecraft"@,
        _ => ".minecraft"@,
    }
}

/// The location made of the given segments.
fn location(a: &str, b: &String) -> (r: Vec<String>)
    ensures
        views(r@) == seq![a@, b@],
{
    let mut r: Vec<String> = Vec::new();
    r.push(String::from_str(a));
    r.push(copy_str(b));
    proof {
        assert(views(r@) =~= seq![a@, b@]);
    }
    r
}

/// `sub` directly below the game directory.
pub fn get_minecraft_sub_folder(sub: &String) -> (r: Vec<String>)
    ensures
        views(r@) == sub_folder(sub@),
{
    let mut r: Vec<String> = Vec::new();
    r.push(copy_str(sub));
    proof {
        assert(views(r@) =~= sub_folder(sub@));
    }
    r
}

/// The folder of version `version`.
pub fn get_version_folder(version: &String) -> (r: Vec<String>)
    ensures
        views(r@) == version_folder(version@),
{
    location("versions", version)
}

/// The folder `sub` below the assets root.
pub fn get_assets_folder(sub: &String) -> (r: Vec<String>)
    ensures
        views(r@) == assets_folder(sub@),
{
    location("assets", sub)
}

/// Where a library file with the `/`-separated path `sub` is stored.
pub fn get_library_path(sub: &String) -> (r: Vec<String>)
    ensures
        views(r@) == library_path(sub@),
{
    let mut r: Vec<String> = Vec::new();
    r.push(String::from_str("assets"));
    let mut parts = split_char(sub.as_str(), '/');
    proof {
        assert(views(r@) =~= seq!["assets"@]);
    }
    let ghost before = r@;
    let ghost added = parts@;
    r.append(&mut parts);
    proof {
        assert(r@ == before + added);
        assert(views(r@) =~= views(before) + views(added));
    }
    r
}

/// The runtime platform key of `ctx`.
pub fn get_os_java_name(ctx: &PlatformContext) -> (r: String)
    ensures
        r@ == os_java_name(*ctx),
{
    match ctx.os {
        Os::Windows => if str_eq(ctx.arch.as_str(), "x86") {
            String::from_str("windows-x86")
        } else if str_eq(ctx.arch.as_str(), "x86_64") {
            String::from_str("windows-x64")
        } else {
            String::from_str("")
        },
        Os::MacOs => String::from_str("mac-os"),
        Os::Linux => if str_eq(ctx.arch.as_str(), "x86") {
            String::from_str("linux-i386")
        } else {
            String::from_str("linux")
        },
    }
}

/// The platform folder of runtime component `type_`.
pub fn get_java_folder_path(type_: &String, ctx: &PlatformContext) -> (r: Vec<String>)
    ensures
        views(r@) == java_folder(type_@, *ctx),
{
    let mut r = location("runtime", type_);
    let name = get_os_java_name(ctx);
    let ghost prev = r@;
    r.push(name);
    proof {
        assert(r@ == prev.push(name));
        assert(views(r@) =~= views(prev).push(name@));
        assert(views(r@) =~= java_folder(type_@, *ctx));
    }
    r
}

/// The root of runtime component `type_`'s files.
pub fn get_java_folder_path_sub(type_: &String, ctx: &PlatformContext) -> (r: Vec<String>)
    ensures
        views(r@) == java_folder_sub(type_@, *ctx),
{
    let mut r = get_java_folder_path(type_, ctx);
    let last = copy_str(type_);
    let ghost prev = r@;
    r.push(last);
    proof {
        assert(r@ == prev.push(last));
        assert(views(r@) =~= views(prev).push(last@));
        assert(views(r@) =~= java_folder_sub(type_@, *ctx));
    }
    r
}

/// The runtime binary of component `type_`.
pub fn get_java_binary_path(type_: &String, ctx: &PlatformContext) -> (r: Vec<String>)
    ensures
        views(r@) == java_binary(type_@, *ctx),
{
    let mut r = get_java_folder_path_sub(type_, ctx);
    let ghost root = views(r@);
    match ctx.os {
        Os::MacOs => {
            r.push(String::from_str("jre.bundle"));
            r.push(String::from_str("Contents"));
            r.push(String::from_str("Home"));
            r.push(String::from_str("bin"));
            r.push(String::from_str("java"));
        },
        Os::Windows => {
            r.push(String::from_str("bin"));
            r.push(String::from_str("java.exe"));
        },
        Os::Linux => {
            r.push(String::from_str("bin"));
            r.push(String::from_str("java"));
        },
    }
    proof {
        assert(views(r@) =~= java_binary(type_@, *ctx));
    }
    r
}

/// The name of the game directory inside the platform's base directory.
pub fn get_minecraft_directory_name(os: Os) -> (r: String)
    ensures
        r@ == minecraft_directory_name(os),
{
    match os {
        Os::MacOs => String::from_str("minecraft"),
        _ => String::from_str(".minecraft"),
    }
}

} // verus!
