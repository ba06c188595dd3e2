//! Where the tools are kept that all projects of a user share.
use crate::path::{EntryPath, EntryView, FilePath, PathView};
use vstd::prelude::*;
use vstd::string::*;
use vstd::utf8::encode_utf8;

verus! {

/// Whether a name is made of lower-case letters and underscores alone. Such a
/// name is used unchanged on every platform.
pub open spec fn plain(name: Seq<char>) -> bool {
    &&& name.len() > 0
    &&& forall|i: int|
        0 <= i < name.len() ==> 'a' as u32 <= #[trigger] name[i] as u32 <= 'z' as u32 || name[i]
            == '_'
}

/// `head` and `tail` with a dot between them, or `tail` alone if there is no head.
pub open spec fn dotted(head: Seq<char>, tail: Seq<char>) -> Seq<char> {
    if head.len() == 0 {
        tail
    } else {
        head + seq!['.'] + tail
    }
}

/// Whether a path ends in these names, one below the other, which are spelled
/// together as `text`.
pub open spec fn ends_in(path: PathView, names: Seq<Seq<char>>, text: Seq<char>) -> bool {
    &&& names.map_values(|name: Seq<char>| encode_utf8(name)).is_suffix_of(path.components)
    &&& encode_utf8(text).is_suffix_of(path.spelling)
}

/// Whether a path is named as the platforms name the cache directory of a
/// project: after the application on Linux; after qualifier, organization and
/// application on macOS; and on Windows `cache`, in a directory that is named
/// after the application, in one that is named after the organization.
pub open spec fn names_project_cache(
    path: PathView,
    qualifier: Seq<char>,
    organization: Seq<char>,
    application: Seq<char>,
) -> bool {
    let bundle = dotted(qualifier, dotted(organization, application));
    ||| ends_in(path, seq![application], application)
    ||| ends_in(path, seq![bundle], bundle)
    ||| ends_in(
        path,
        seq![organization, application, "cache"@],
        organization + seq!['\\'] + application + seq!['\\'] + "cache"@,
    )
}

/// The user's cache directory for a project, as `directories::ProjectDirs::from`
/// and its `cache_dir` have it; none if the user has no home directory.
///
/// Where that is depends on the operating system and on the user's environment.
/// What is relied on is how the path ends, by its components and as it is spelled:
/// each platform names the directory after the project in its own way. This is
/// claimed for plain names only, and for no qualifier or a plain one. Where the
/// directory lies otherwise, and whether there is one, is left open.
#[verifier::external_body]
fn project_cache_dir(
    qualifier: &str,
    organization: &str,
    application: &str,
) -> (dir: Option<FilePath>)
    ensures
        dir matches Some(path) ==> ((qualifier@.len() == 0 || plain(qualifier@)) && plain(
            organization@,
        ) && plain(application@) ==> names_project_cache(
            path@,
            qualifier@,
            organization@,
            application@,
        )),
{
    let dirs = directories::ProjectDirs::from(qualifier, organization, application)?;
    let dir = dirs.cache_dir();
    let spelling = dir.as_os_str().as_encoded_bytes().to_vec();
    let parts = dir.components();
    let components = parts.map(|c| c.as_os_str().as_encoded_bytes().to_vec()).collect();
    Some(FilePath { spelling, components })
}

/// The directory that the tools have in the cache directory.
pub fn tools_below(cache: FilePath) -> (tools: EntryPath)
    ensures
        tools@ == (EntryView { dir: cache@, name: "tools"@ }),
{
    EntryPath { dir: cache, name: "tools".to_owned() }
}

/// The directory that the tools have, given the cache directory: there is one for
/// the tools exactly if there is one for the cache.
pub fn tools_in(cache: Option<FilePath>) -> (tools: Option<EntryPath>)
    ensures
        match cache {
            Some(dir) => tools matches Some(path) && path@ == (EntryView {
                dir: dir@,
                name: "tools"@,
            }),
            None => tools is None,
        },
{
    match cache {
        Some(dir) => Some(tools_below(dir)),
        None => None,
    }
}

/// The directory of the tools that all projects of the user share, if the user
/// has a home directory: what [`tools_in`] gives for this program's cache
/// directory. Whether there is one, and where, depends on the user's environment.
pub fn cached_tools() -> (tools: Option<EntryPath>)
    ensures
        tools matches Some(path) ==> {
            &&& path@.name == "tools"@
            &&& names_project_cache(path@.dir, ""@, "perseus"@, "perseus_cli"@)
        },
{
    proof {
        lemma_project_names_are_plain();
    }
    tools_in(project_cache_dir("", "perseus", "perseus_cli"))
}

/// A path that is named as a cache directory of a project ends in the name of the
/// application, in the names of organization and application with a dot between
/// them and that of the qualifier before, if there is one, or in the directory
/// `cache` in that of the application in that of the organization. It is spelled so,
/// too.
pub proof fn a_cache_is_named_after_its_project(
    path: PathView,
    qualifier: Seq<char>,
    organization: Seq<char>,
    application: Seq<char>,
)
    requires
        names_project_cache(path, qualifier, organization, application),
        organization.len() > 0,
    ensures
        ({
            let n = path.components.len() as int;
            let both = organization + seq!['.'] + application;
            let bundle = if qualifier.len() == 0 {
                both
            } else {
                qualifier + seq!['.'] + both
            };
            &&& n > 0
            &&& {
                ||| path.components[n - 1] == encode_utf8(application) && encode_utf8(
                    application,
                ).is_suffix_of(path.spelling)
                ||| path.components[n - 1] == encode_utf8(bundle) && encode_utf8(
                    bundle,
                ).is_suffix_of(path.spelling)
                ||| n > 2 && path.components[n - 3] == encode_utf8(organization)
                    && path.components[n - 2] == encode_utf8(application) && path.components[n - 1]
                    == encode_utf8("cache"@) && encode_utf8(
                    organization + seq!['\\'] + application + seq!['\\'] + "cache"@,
                ).is_suffix_of(path.spelling)
            }
        }),
{
    let bundle = dotted(qualifier, dotted(organization, application));
    if ends_in(path, seq![application], application) {
        lemma_last_names(path, seq![application]);
        assert(seq![application][0] == application);
    } else if ends_in(path, seq![bundle], bundle) {
        lemma_last_names(path, seq![bundle]);
        assert(seq![bundle][0] == bundle);
    } else {
        let names = seq![organization, application, "cache"@];
        lemma_last_names(path, names);
        assert(names[0] == organization);
        assert(names[1] == application);
        assert(names[2] == "cache"@);
    }
}

proof fn lemma_last_names(path: PathView, names: Seq<Seq<char>>)
    requires
        names.map_values(|name: Seq<char>| encode_utf8(name)).is_suffix_of(path.components),
    ensures
        names.len() <= path.components.len(),
        forall|i: int|
            0 <= i < names.len() ==> path.components[path.components.len() - names.len() + i]
                == encode_utf8(#[trigger] names[i]),
{
    let ends = names.map_values(|name: Seq<char>| encode_utf8(name));
    let start = path.components.len() - ends.len();
    assert forall|i: int| 0 <= i < names.len() implies path.components[path.components.len()
        - names.len() + i] == encode_utf8(#[trigger] names[i]) by {
        assert(ends[i] == encode_utf8(names[i]));
        assert(path.components.subrange(start, path.components.len() as int)[i]
            == path.components[start + i]);
    }
}

proof fn lemma_project_names_are_plain()
    ensures
        ""@.len() == 0,
        plain("perseus"@),
        plain("perseus_cli"@),
{
    reveal_strlit("");
    reveal_strlit("perseus");
    reveal_strlit("perseus_cli");
    assert("perseus"@ =~= seq!['p', 'e', 'r', 's', 'e', 'u', 's']);
    assert("perseus_cli"@ =~= seq!['p', 'e', 'r', 's', 'e', 'u', 's', '_', 'c', 'l', 'i']);
}

} // verus!
