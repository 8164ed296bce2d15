//! Where the two configuration documents live: the application's own
//! directory under the per-user configuration directory, and the two file
//! paths inside it.

use vstd::prelude::*;
use vstd::string::StringExecFns;

verus! {

/// The path `dir/name`.
pub open spec fn joined_path(dir: Seq<char>, name: Seq<char>) -> Seq<char> {
    dir + "/"@ + name
}

/// Appends one path component to a directory.
pub fn join_path(dir: &str, name: &str) -> (r: String)
    ensures
        r@ == joined_path(dir@, name@),
{
    let mut r: String = dir.to_owned();
    r.append("/");
    r.append(name);
    r
}

/// Relies on dirs::config_dir: the per-user configuration directory. The
/// result depends on the environment, so nothing is promised of it; a path
/// that is not Unicode is treated as absent.
#[verifier::external_body]
fn config_base_dir() -> (r: Option<String>) {
    match dirs::config_dir() {
        Some(p) => p.into_os_string().into_string().ok(),
        None => None,
    }
}

/// The application's own directory under the per-user configuration
/// directory; `None` where the environment names no such directory.
pub fn get_config_dir() -> (r: Option<String>)
    ensures
        r matches Some(d) ==> exists|base: Seq<char>| d@ == joined_path(
            base,
            "shortcut-finder"@,
        ),
{
    match config_base_dir() {
        Some(base) => {
            let d = join_path(base.as_str(), "shortcut-finder");
            proof {
                assert(d@ == joined_path(base@, "shortcut-finder"@));
            }
            Some(d)
        },
        None => None,
    }
}

/// The path of the keybindings document.
pub fn get_keybindings_config_path() -> (r: Option<String>)
    ensures
        r matches Some(p) ==> exists|base: Seq<char>| p@ == joined_path(
            joined_path(base, "shortcut-finder"@),
            "keybindings.json"@,
        ),
{
    match get_config_dir() {
        Some(dir) => {
            let p = join_path(dir.as_str(), "keybindings.json");
            proof {
                let base = choose|base: Seq<char>| dir@ == joined_path(base, "shortcut-finder"@);
                assert(p@ == joined_path(joined_path(base, "shortcut-finder"@), "keybindings.json"@));
            }
            Some(p)
        },
        None => None,
    }
}

/// The path of the settings document.
pub fn get_settings_path() -> (r: Option<String>)
    ensures
        r matches Some(p) ==> exists|base: Seq<char>| p@ == joined_path(
            joined_path(base, "shortcut-finder"@),
            "settings.json"@,
        ),
{
    match get_config_dir() {
        Some(dir) => {
            let p = join_path(dir.as_str(), "settings.json");
            proof {
                let base = choose|base: Seq<char>| dir@ == joined_path(base, "shortcut-finder"@);
                assert(p@ == joined_path(joined_path(base, "shortcut-finder"@), "settings.json"@));
            }
            Some(p)
        },
        None => None,
    }
}

} // verus!
