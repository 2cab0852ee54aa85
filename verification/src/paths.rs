//! The paths of a run: the user's configuration directory, the files in it,
//! and the directory that a file lies in.

use vstd::prelude::*;
use vstd::string::StringExecFns;
use crate::error::{LaunchError, LaunchErrorView};
use crate::settings::{Settings, SettingsView};

verus! {

/// What asking the system for the invoking user's name came to.
#[derive(Debug, Clone, PartialEq, Eq)]
pub enum UserLookup {
    /// The name.
    Name(String),
    /// The system has a name for the user, but it is not valid text.
    NotText,
    /// The system could not tell the name; the text says why.
    Unknown(String),
}

/// The configuration directory of the user `user`:
/// `<home-root>/<user>/.config/<app-name>`.
pub open spec fn config_dir_text(settings: SettingsView, user: Seq<char>) -> Seq<char> {
    settings.home_root + "/"@ + user + "/.config/"@ + settings.app_name
}

/// The cause that is reported for a user name that is not valid text.
pub open spec fn not_text_cause() -> Seq<char> {
    "Cannot translate username"@
}

/// What [`config_dir_from`] returns for each outcome of the lookup.
pub open spec fn config_dir_outcome(settings: SettingsView, lookup: UserLookup) -> Result<
    Seq<char>,
    LaunchErrorView,
> {
    match lookup {
        UserLookup::Name(user) => Ok(config_dir_text(settings, user@)),
        UserLookup::NotText => Err(LaunchErrorView::UserResolution { cause: not_text_cause() }),
        UserLookup::Unknown(why) => Err(LaunchErrorView::UserResolution { cause: why@ }),
    }
}

/// The view of a path or of the error in its place.
pub open spec fn path_result_view(result: Result<String, LaunchError>) -> Result<
    Seq<char>,
    LaunchErrorView,
> {
    match result {
        Ok(path) => Ok(path@),
        Err(error) => Err(error@),
    }
}

/// The configuration directory of the user `user`.
pub fn config_dir_for(settings: &Settings, user: &str) -> (dir: String)
    ensures
        dir@ == config_dir_text(settings@, user@),
{
    let mut dir = settings.home_root.clone();
    dir.append("/");
    dir.append(user);
    dir.append("/.config/");
    dir.append(settings.app_name.as_str());
    dir
}

/// The configuration directory for an outcome of the user lookup: the
/// directory of the user that was found, or the error of a lookup that failed.
pub fn config_dir_from(settings: &Settings, lookup: UserLookup) -> (result: Result<
    String,
    LaunchError,
>)
    ensures
        path_result_view(result) == config_dir_outcome(settings@, lookup),
{
    match lookup {
        UserLookup::Name(user) => Ok(config_dir_for(settings, user.as_str())),
        UserLookup::NotText => Err(
            LaunchError::UserResolution { cause: String::from_str("Cannot translate username") },
        ),
        UserLookup::Unknown(why) => Err(LaunchError::UserResolution { cause: why }),
    }
}

/// Asks `uu_whoami::whoami` for the name of the user that this process runs
/// as. Nothing is claimed of the outcome: it depends on the machine.
#[verifier::external_body]
pub(crate) fn current_user() -> (lookup: UserLookup) {
    match uu_whoami::whoami() {
        Ok(name) => match name.into_string() {
            Ok(text) => UserLookup::Name(text),
            Err(_) => UserLookup::NotText,
        },
        Err(fault) => UserLookup::Unknown(fault.to_string()),
    }
}

/// The configuration directory of the invoking user. The user's name comes
/// from the system, so all that holds of the result is that it is the
/// directory of some user, or the error of a lookup that failed.
pub fn get_config_dir(settings: &Settings) -> (result: Result<String, LaunchError>)
    ensures
        exists|lookup: UserLookup|
            path_result_view(result) == #[trigger] config_dir_outcome(settings@, lookup),
{
    let lookup = current_user();
    let ghost seen = lookup;
    let result = config_dir_from(settings, lookup);
    assert(path_result_view(result) == config_dir_outcome(settings@, seen));
    result
}

/// The path of the entry `tail` of the directory `root`.
pub open spec fn joined_text(root: Seq<char>, tail: Seq<char>) -> Seq<char> {
    root + "/"@ + tail
}

/// The path of the entry `tail` of the directory `root`: the two with a slash
/// between them.
pub fn join_with_tail(root: &str, tail: &str) -> (path: String)
    ensures
        path@ == joined_text(root@, tail@),
{
    let mut path = String::from_str(root);
    path.append("/");
    path.append(tail);
    path
}

/// The directory part of a path, as `std::path::Path::parent` gives it; `None`
/// where the path ends in a root or is empty.
pub uninterp spec fn parent_of(path: Seq<char>) -> Option<Seq<char>>;

/// Calls `std::path::Path::parent` on `path`. The parent of a path that is
/// text is text too, so nothing is lost when it is handed back as a `String`.
#[verifier::external_body]
fn path_parent(path: &str) -> (parent: Option<String>)
    ensures
        match parent {
            Some(dir) => parent_of(path@) == Some(dir@),
            None => parent_of(path@) is None,
        },
{
    match std::path::Path::new(path).parent() {
        Some(dir) => Some(dir.to_string_lossy().into_owned()),
        None => None,
    }
}

/// The cause that is reported for a path that has no parent.
pub open spec fn no_parent_cause() -> Seq<char> {
    "Can't get parent directory"@
}

/// What [`directory_of`] returns for a path and its parent.
pub open spec fn directory_outcome(path: Seq<char>, parent: Option<Seq<char>>) -> Result<
    Seq<char>,
    LaunchErrorView,
> {
    match parent {
        Some(dir) => Ok(dir),
        None => Err(LaunchErrorView::Io { path: path, cause: no_parent_cause() }),
    }
}

/// The directory for a path whose parent has been looked up: the parent, or
/// an error that names the path where it has none.
pub fn directory_from(path: &str, parent: Option<String>) -> (result: Result<String, LaunchError>)
    ensures
        path_result_view(result) == directory_outcome(
            path@,
            match parent {
                Some(dir) => Some(dir@),
                None => None,
            },
        ),
{
    match parent {
        Some(dir) => Ok(dir),
        None => Err(
            LaunchError::Io {
                path: String::from_str(path),
                cause: String::from_str("Can't get parent directory"),
            },
        ),
    }
}

/// The directory that `input` lies in, or an error where it has none.
pub fn directory_of(input: &str) -> (result: Result<String, LaunchError>)
    ensures
        path_result_view(result) == directory_outcome(input@, parent_of(input@)),
{
    let parent = path_parent(input);
    directory_from(input, parent)
}

} // verus!
