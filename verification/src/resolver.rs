//! The target resolver: turns the user's environment ("bottle") input
//! into a directory path, and derives the game's installation and
//! cache directories for the selected distribution platform.

use vstd::prelude::*;

use crate::pathstr::join_path;
use crate::pathstr::joined;
use crate::text::find_space;
use crate::text::is_first_space;
use crate::text::no_space;
use crate::text::starts_with;
use crate::text::starts_with_str;
use crate::text::strip_backslashes;
use crate::text::trim_str;
use crate::text::trimmed;
use crate::text::without_backslashes;

verus! {

/// Distribution platform whose directory layout holds the game.
#[derive(Clone, Copy, Debug, PartialEq, Eq, Structural)]
pub enum Client {
    BattleNet,
    Steam,
}

/// Path of the host application's support directory, relative to the
/// host application root: its existence is what the host locator checks.
pub open spec fn inner_host_path() -> Seq<char> {
    "Contents/SharedSupport/CrossOver"@
}

/// The well-known default host application root.
pub open spec fn default_host_root() -> Seq<char> {
    "/Applications/CrossOver.app"@
}

/// Directory that holds named environments, relative to the user's home.
pub open spec fn bottles_prefix() -> Seq<char> {
    "Library/Application Support/CrossOver/Bottles/"@
}

/// The token that marks the environment input as an explicit path.
pub open spec fn path_flag() -> Seq<char> {
    "--path"@
}

/// Name of the game executable whose presence marks an installation.
pub open spec fn game_exe_name() -> Seq<char> {
    "Overwatch.exe"@
}

/// The path named by a `--path` input whose first space is at `i`: the
/// rest of the line after that space, trimmed, with backslashes removed.
pub open spec fn path_flag_value(t: Seq<char>, i: int) -> Seq<char> {
    without_backslashes(trimmed(t.subrange(i + 1, t.len() as int)))
}

/// The directory of the environment named `t`, under the fixed
/// per-user environments directory inside `home`.
pub open spec fn named_bottle_path(home: Seq<char>, t: Seq<char>) -> Seq<char> {
    joined(home, bottles_prefix() + t)
}

/// Resolves the user's environment input to a directory path.
///
/// The input is trimmed first. A line that starts with the path flag
/// names the directory explicitly: the text after the first space is
/// trimmed and its backslashes are stripped. Any other line is an
/// environment name, resolved under the per-user environments directory.
/// Returns `None` only for a path-flag line with no space, which names
/// no path at all.
pub fn resolve_bottle(home: &str, line: &str) -> (r: Option<String>)
    ensures
        ({
            let t = trimmed(line@);
            if starts_with(t, path_flag()) {
                if no_space(t) {
                    r is None
                } else {
                    r matches Some(b) && (exists|i: int|
                        is_first_space(t, i) && b@ == path_flag_value(t, i))
                }
            } else {
                r matches Some(b) && b@ == named_bottle_path(home@, t)
            }
        }),
{
    let t = trim_str(line);
    let ts = t.as_str();
    if starts_with_str(ts, "--path") {
        match find_space(ts) {
            None => None,
            Some(i) => {
                let tl = ts.unicode_len();
                let rest = ts.substring_char(i + 1, tl);
                let rt = trim_str(rest);
                Some(strip_backslashes(rt.as_str()))
            },
        }
    } else {
        let mut p: String = "Library/Application Support/CrossOver/Bottles/".to_owned();
        p.append(ts);
        Some(join_path(home, p.as_str()))
    }
}

/// Installation directory of the game inside the environment, relative
/// to the environment root, for each platform layout.
pub open spec fn install_rel(c: Client) -> Seq<char> {
    match c {
        Client::BattleNet => "drive_c/Program Files (x86)/Overwatch/_retail_"@,
        Client::Steam => "drive_c/Program Files (x86)/Steam/steamapps/common/Overwatch"@,
    }
}

/// The game's installation directory inside `bottle` for `c`.
pub open spec fn spec_installation_path(bottle: Seq<char>, c: Client) -> Seq<char> {
    joined(bottle, install_rel(c))
}

/// The game's installation directory inside the environment for the
/// selected platform layout.
pub fn installation_path(bottle: &str, client: Client) -> (r: String)
    ensures
        r@ == spec_installation_path(bottle@, client),
{
    match client {
        Client::BattleNet => join_path(bottle, "drive_c/Program Files (x86)/Overwatch/_retail_"),
        Client::Steam => join_path(
            bottle,
            "drive_c/Program Files (x86)/Steam/steamapps/common/Overwatch",
        ),
    }
}

/// The directory the shader-cache binary is placed in, per platform.
pub open spec fn spec_cache_dir(bottle: Seq<char>, c: Client) -> Seq<char> {
    match c {
        Client::BattleNet => joined(bottle, "drive_c/Program Files (x86)/Overwatch/_retail_"@),
        Client::Steam => joined(
            bottle,
            "drive_c/Program Files (x86)/Steam/steamapps/shadercache/2357570/DXVK_state_cache"@,
        ),
    }
}

/// The directory the shader-cache binary is placed in for `client`.
pub fn cache_dir(bottle: &str, client: Client) -> (r: String)
    ensures
        r@ == spec_cache_dir(bottle@, client),
{
    match client {
        Client::BattleNet => join_path(bottle, "drive_c/Program Files (x86)/Overwatch/_retail_"),
        Client::Steam => join_path(
            bottle,
            "drive_c/Program Files (x86)/Steam/steamapps/shadercache/2357570/DXVK_state_cache",
        ),
    }
}

} // verus!
