//! Per-OS application configuration directory and the config file in it.

use vstd::prelude::*;

verus! {

#[derive(Debug, Clone, Copy, PartialEq, Eq, Structural)]
pub enum PathsError {
    /// No home directory could be resolved for the current user.
    HomeNotFound,
}

/// Qualifier, organization and application name of the project directories.
pub const QUALIFIER: &'static str = "dev";
pub const ORGANIZATION: &'static str = "OptMinus";
pub const APPLICATION: &'static str = "optminus";

/// Name of the configuration file inside the configuration directory.
pub const CONFIG_FILE_NAME: &'static str = "config.toml";

/// Calls `directories::ProjectDirs::from(qualifier, organization,
/// application)` and returns the configuration directory of the result as a
/// string (lossily, for a non-UTF-8 path). The answer depends on the user's
/// environment (home directory, `XDG_CONFIG_HOME`), so nothing is claimed of
/// it; the library only ever asks for its own project, which `requires`
/// pins down.
#[verifier::external_body]
fn project_config_dir(qualifier: &str, organization: &str, application: &str) -> Option<String>
    requires
        qualifier@ == QUALIFIER@,
        organization@ == ORGANIZATION@,
        application@ == APPLICATION@,
{
    match directories::ProjectDirs::from(qualifier, organization, application) {
        Some(dirs) => Some(dirs.config_dir().to_string_lossy().into_owned()),
        None => None,
    }
}

/// Returns `std::path::MAIN_SEPARATOR`, the separator of path components on
/// the platform the library was built for. Nothing is claimed of which
/// character that is.
#[verifier::external_body]
fn main_separator() -> char {
    std::path::MAIN_SEPARATOR
}

/// Calls `String::push`, which appends the character `c` to the end of `s`.
#[verifier::external_body]
pub(crate) fn push_char(s: &mut String, c: char)
    ensures
        final(s)@ == old(s)@.push(c),
{
    s.push(c);
}

/// `name` appended to directory `dir` as one more path component: with
/// `separator` between them unless `dir` is empty or already ends in a
/// separator (`/`, or `separator` itself).
pub open spec fn spec_join(dir: Seq<char>, name: Seq<char>, separator: char) -> Seq<char> {
    if dir.len() == 0 || dir.last() == '/' || dir.last() == separator {
        dir + name
    } else {
        dir + seq![separator] + name
    }
}

/// Appends the relative path component `name` to directory `dir`, writing
/// `separator` between them where one is needed.
pub fn join(dir: String, name: &str, separator: char) -> (r: String)
    ensures
        r@ == spec_join(dir@, name@, separator),
{
    let mut out = dir;
    let n = out.as_str().unicode_len();
    let needs_separator = if n == 0 {
        false
    } else {
        let last = out.as_str().get_char(n - 1);
        last != '/' && last != separator
    };
    if needs_separator {
        push_char(&mut out, separator);
    }
    out.append(name);
    out
}

/// The configuration directory, given what the platform's project
/// directories resolved to: the directory they name, or `HomeNotFound` when
/// they did not resolve (no home directory).
pub fn config_dir_from(resolved: Option<String>) -> (r: Result<String, PathsError>)
    ensures
        resolved matches Some(d) ==> r matches Ok(p) && p@ == d@,
        resolved is None ==> r == Err::<String, PathsError>(PathsError::HomeNotFound),
{
    match resolved {
        Some(dir) => Ok(dir),
        None => Err(PathsError::HomeNotFound),
    }
}

/// The path of `config.toml`, given what the platform's project directories
/// resolved to: their configuration directory joined with `config.toml`, or
/// `HomeNotFound` when they did not resolve.
pub fn config_path_from(resolved: Option<String>, separator: char) -> (r: Result<String, PathsError>)
    ensures
        resolved matches Some(d) ==> r matches Ok(p) && p@ == spec_join(d@, CONFIG_FILE_NAME@, separator),
        resolved is None ==> r == Err::<String, PathsError>(PathsError::HomeNotFound),
{
    match config_dir_from(resolved) {
        Ok(dir) => Ok(join(dir, CONFIG_FILE_NAME, separator)),
        Err(e) => Err(e),
    }
}

/// The project's configuration directory, or `HomeNotFound` when the
/// platform reports no home directory. Which directory that is depends on
/// the user's environment; `config_dir_from` states what is made of it.
pub fn config_dir() -> (r: Result<String, PathsError>)
    ensures
        r matches Err(e) ==> e == PathsError::HomeNotFound,
{
    config_dir_from(project_config_dir(QUALIFIER, ORGANIZATION, APPLICATION))
}

/// The path of `config.toml` in the configuration directory, joined with
/// the platform's separator; `config_path_from` states how it is made.
pub fn config_path() -> (r: Result<String, PathsError>)
    ensures
        r matches Ok(p) ==> exists|dir: Seq<char>, separator: char|
            p@ == spec_join(dir, CONFIG_FILE_NAME@, separator),
        r matches Err(e) ==> e == PathsError::HomeNotFound,
{
    let resolved = project_config_dir(QUALIFIER, ORGANIZATION, APPLICATION);
    let ghost res = resolved;
    let separator = main_separator();
    let r = config_path_from(resolved, separator);
    proof {
        if res is Some {
            let d = res->0@;
            assert(r matches Ok(p) && p@ == spec_join(d, CONFIG_FILE_NAME@, separator));
        }
    }
    r
}

} // verus!
