//! Where the credentials file may be and when it may be read: the
//! candidate paths, from the platform and the environment's values, and
//! the rule on its permissions. The caller reads the environment and the
//! file system.

use crate::portal::join;
use crate::portal::same_text;
use vstd::prelude::*;
use vstd::string::StringExecFns;

verus! {

/// The candidate paths, in order of priority: on Windows the roaming
/// application-data directory; the user's config directory (from
/// `XDG_CONFIG_HOME`, else `HOME`); on macOS the preferences directory; and
/// last the working directory.
pub open spec fn config_paths_of(
    os: Seq<char>,
    appdata: Option<Seq<char>>,
    xdg_config_home: Option<Seq<char>>,
    home: Option<Seq<char>>,
) -> Seq<Seq<char>> {
    let windows: Seq<Seq<char>> = match appdata {
        Some(a) if os == "windows"@ => seq![a + "\\bitsrun\\bit-user.json"@],
        _ => seq![],
    };
    let base = match xdg_config_home {
        Some(x) => Some(x),
        None => home,
    };
    let unix: Seq<Seq<char>> = match base {
        Some(h) => seq![h + "/.config/bit-user.json"@, h + "/.config/bitsrun/bit-user.json"@],
        None => seq![],
    };
    let macos: Seq<Seq<char>> = match home {
        Some(h) if os == "macos"@ => seq![h + "/Library/Preferences/bitsrun/bit-user.json"@],
        _ => seq![],
    };
    windows + unix + macos + seq!["bit-user.json"@]
}

/// The view of an optional text.
pub open spec fn opt_view(t: Option<String>) -> Option<Seq<char>> {
    match t {
        Some(s) => Some(s@),
        None => None,
    }
}

/// The candidate paths for the platform `os` and the environment values
/// `APPDATA`, `XDG_CONFIG_HOME` and `HOME`.
pub fn config_paths(
    os: &str,
    appdata: Option<String>,
    xdg_config_home: Option<String>,
    home: Option<String>,
) -> (r: Vec<String>)
    ensures
        r.deep_view() == config_paths_of(
            os@,
            opt_view(appdata),
            opt_view(xdg_config_home),
            opt_view(home),
        ),
{
    let mut paths: Vec<String> = Vec::new();
    if same_text(os, "windows") {
        if let Some(a) = &appdata {
            paths.push(join(a.as_str(), "\\bitsrun\\bit-user.json"));
        }
    }
    let ghost after_windows = paths.deep_view();
    let base = match &xdg_config_home {
        Some(x) => Some(x),
        None => home.as_ref(),
    };
    if let Some(h) = base {
        paths.push(join(h.as_str(), "/.config/bit-user.json"));
        paths.push(join(h.as_str(), "/.config/bitsrun/bit-user.json"));
    }
    let ghost after_unix = paths.deep_view();
    if same_text(os, "macos") {
        if let Some(h) = &home {
            paths.push(join(h.as_str(), "/Library/Preferences/bitsrun/bit-user.json"));
        }
    }
    paths.push(String::from_str("bit-user.json"));
    assert(paths.deep_view() =~= config_paths_of(
        os@,
        opt_view(appdata),
        opt_view(xdg_config_home),
        opt_view(home),
    ));
    paths
}

/// The path to read: the one given, else the first candidate that exists
/// (`exists[i]` says whether `candidates[i]` does), else the empty path.
pub fn pick_config_path(given: &Option<String>, candidates: &Vec<String>, exists: &Vec<bool>) -> (r:
    String)
    requires
        exists@.len() == candidates@.len(),
    ensures
        given matches Some(g) ==> r@ == g@,
        given is None ==> (exists|i: int|
            0 <= i < candidates@.len() && exists@[i] && r@ == candidates@[i]@ && forall|j: int|
                0 <= j < i ==> !exists@[j]) || (r@.len() == 0 && forall|j: int|
            0 <= j < candidates@.len() ==> !exists@[j]),
{
    if let Some(g) = given {
        return g.clone();
    }
    let mut i: usize = 0;
    while i < candidates.len()
        invariant
            given is None,
            exists@.len() == candidates@.len(),
            i <= candidates@.len(),
            forall|j: int| 0 <= j < i ==> !exists@[j],
        decreases candidates@.len() - i,
    {
        if exists[i] {
            return candidates[i].clone();
        }
        i = i + 1;
    }
    String::new()
}

/// Whether the permission bits let only the owner read and write the file
/// (mode 600), the only setting under which it is read.
pub fn permissions_private(mode: u32) -> (r: bool)
    ensures
        r == (mode & 0o777 == 0o600),
{
    mode & 0o777 == 0o600
}

} // verus!
