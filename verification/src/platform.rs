//! What the library takes from its surroundings: the host name, the user's
//! directories, and tilde expansion.
//!
//! The answers of the machine are not predictable, so the queries promise
//! nothing about them; the functions that use an answer take it as an
//! argument and are verified for every value of it.

use crate::text::{chars_of, opt_text};
use vstd::prelude::*;

verus! {

/// `path` with a leading `~` replaced by `home`, where the tilde stands alone
/// or is followed by `/` and a home directory is known; otherwise `path`.
pub open spec fn tilde_expanded(path: Seq<char>, home: Option<Seq<char>>) -> Seq<char> {
    if path.len() >= 1 && path[0] == '~' && (path.len() == 1 || path[1] == '/') && home is Some {
        home->0 + path.subrange(1, path.len() as int)
    } else {
        path
    }
}

/// Calls `hostname::get` and renders the name it reports as text; the empty
/// string where the system reports none. Nothing is claimed of the name.
#[verifier::external_body]
pub(crate) fn local_hostname() -> (name: String) {
    hostname::get().unwrap_or_default().to_string_lossy().to_string()
}

/// Calls `dirs::home_dir`. The directory depends on the environment of the
/// process, so nothing is claimed of it; a directory that is not valid
/// Unicode is reported as absent.
#[verifier::external_body]
pub(crate) fn home_directory() -> (home: Option<String>) {
    dirs::home_dir().and_then(|p| p.into_os_string().into_string().ok())
}

/// Calls `dirs::config_dir`. The directory depends on the environment of the
/// process, so nothing is claimed of it; a directory that is not valid
/// Unicode is reported as absent.
#[verifier::external_body]
pub(crate) fn config_directory() -> (dir: Option<String>) {
    dirs::config_dir().and_then(|p| p.into_os_string().into_string().ok())
}

/// Calls `shellexpand::tilde_with_context` with `home` as the home
/// directory. That function replaces a leading `~` by the home directory where
/// the tilde ends the input or a `/` follows it and a home directory is
/// given, and returns every other input unchanged. A tilde followed by a
/// backslash is left out, since its treatment differs between platforms.
#[verifier::external_body]
fn tilde_with_home(path: &str, home: &Option<String>) -> (expanded: String)
    requires
        !(path@.len() >= 2 && path@[0] == '~' && path@[1] == '\\'),
    ensures
        expanded@ == tilde_expanded(path@, opt_text(*home)),
{
    shellexpand::tilde_with_context(path, || home.as_ref()).into_owned()
}

/// Expands a leading `~` of `path` to `home`.
pub fn expand_home(path: &str, home: &Option<String>) -> (expanded: String)
    ensures
        expanded@ == tilde_expanded(path@, opt_text(*home)),
{
    let v = chars_of(path);
    if v.len() >= 2 && v[0] == '~' && v[1] == '\\' {
        String::from_str(path)
    } else {
        tilde_with_home(path, home)
    }
}

} // verus!
