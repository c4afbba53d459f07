//! Where an installation lives below the user's home directory, and what is
//! written so that shells find it.

use vstd::prelude::*;
use vstd::string::StringExecFns;

verus! {

/// The repository that darling's source is cloned from.
pub const REPOSITORY: &'static str = "https://github.com/darling-package-manager/darling.git";

/// The directory that holds the installation.
pub open spec fn share_path(home: Seq<char>) -> Seq<char> {
    home + "/.local/share/darling"@
}

/// The directory that the repository is cloned into.
pub open spec fn workspace_path(home: Seq<char>) -> Seq<char> {
    home + "/.tmp/darling"@
}

/// The clone itself, inside the workspace.
pub open spec fn checkout_path(home: Seq<char>) -> Seq<char> {
    workspace_path(home) + "/darling"@
}

/// Where the source ends up and is built.
pub open spec fn source_path(home: Seq<char>) -> Seq<char> {
    share_path(home) + "/source"@
}

/// Where the build leaves the executable.
pub open spec fn release_path(home: Seq<char>) -> Seq<char> {
    source_path(home) + "/target/release"@
}

/// The shell profile that is extended.
pub open spec fn profile_path(home: Seq<char>) -> Seq<char> {
    home + "/.bashrc"@
}

/// The search path `path` with the directory of the executable added at its end.
pub open spec fn extended_search_path(path: Seq<char>, home: Seq<char>) -> Seq<char> {
    path + ":"@ + release_path(home)
}

/// The text appended to the profile: an empty line, then the line that adds
/// the directory of the executable to the search path of later shells.
pub open spec fn profile_entry(home: Seq<char>) -> Seq<char> {
    "\nexport PATH=\"$PATH:"@ + release_path(home) + "\"\n"@
}

/// The directory that holds the installation.
pub fn share_directory(home: &str) -> (path: String)
    ensures
        path@ == share_path(home@),
{
    home.to_owned().concat("/.local/share/darling")
}

/// The directory that the repository is cloned into.
pub fn workspace(home: &str) -> (path: String)
    ensures
        path@ == workspace_path(home@),
{
    home.to_owned().concat("/.tmp/darling")
}

/// The clone itself, inside the workspace.
pub fn checkout(home: &str) -> (path: String)
    ensures
        path@ == checkout_path(home@),
{
    workspace(home).concat("/darling")
}

/// Where the source ends up and is built.
pub fn source_directory(home: &str) -> (path: String)
    ensures
        path@ == source_path(home@),
{
    share_directory(home).concat("/source")
}

/// Where the build leaves the executable.
pub fn release_directory(home: &str) -> (path: String)
    ensures
        path@ == release_path(home@),
{
    source_directory(home).concat("/target/release")
}

/// The shell profile that is extended.
pub fn profile(home: &str) -> (path: String)
    ensures
        path@ == profile_path(home@),
{
    home.to_owned().concat("/.bashrc")
}

/// The search path `path` with the directory of the executable added at its end.
pub fn extend_search_path(path: &str, home: &str) -> (extended: String)
    ensures
        extended@ == extended_search_path(path@, home@),
{
    let release = release_directory(home);
    path.to_owned().concat(":").concat(release.as_str())
}

/// The text to append to the profile.
pub fn profile_addition(home: &str) -> (text: String)
    ensures
        text@ == profile_entry(home@),
{
    let release = release_directory(home);
    String::from_str("\nexport PATH=\"$PATH:").concat(release.as_str()).concat("\"\n")
}

} // verus!
