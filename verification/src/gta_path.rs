//! Where the game is installed, and the paths built from its folder.

use vstd::prelude::*;
use vstd::string::*;

verus! {

/// Where the Epic Games store installs the game.
pub const EPIC_GAME_DIR: &'static str = "C:\\Program Files\\Epic Games\\GTAV";

/// Where the Rockstar launcher installs the game.
pub const ROCKSTAR_GAME_DIR: &'static str = "C:\\Program Files\\Rockstar Games\\Grand Theft Auto V";

/// The game's folder in a Steam library.
pub open spec fn steam_game_dir(steam: Seq<char>) -> Seq<char> {
    steam + "\\steamapps\\common\\Grand Theft Auto V"@
}

/// The folders where the game may be, in the order they are tried: the
/// Steam library's (where Steam's path is known), then Epic's, then
/// Rockstar's.
pub open spec fn game_dir_candidates_of(steam: Option<Seq<char>>) -> Seq<Seq<char>> {
    match steam {
        Some(s) => seq![steam_game_dir(s), EPIC_GAME_DIR@, ROCKSTAR_GAME_DIR@],
        None => seq![EPIC_GAME_DIR@, ROCKSTAR_GAME_DIR@],
    }
}

/// The folders where the game may be, in the order they are tried.
pub fn game_dir_candidates(steam_path: Option<String>) -> (r: Vec<String>)
    ensures
        r@.map_values(|s: String| s@) == game_dir_candidates_of(
            match steam_path {
                Some(s) => Some(s@),
                None => None,
            },
        ),
{
    let mut r: Vec<String> = Vec::new();
    match steam_path {
        Some(s) => {
            let mut d = s;
            d.append("\\steamapps\\common\\Grand Theft Auto V");
            r.push(d);
        },
        None => {},
    }
    r.push(String::from_str(EPIC_GAME_DIR));
    r.push(String::from_str(ROCKSTAR_GAME_DIR));
    assert(r@.map_values(|s: String| s@) =~= game_dir_candidates_of(
        match steam_path {
            Some(s) => Some(s@),
            None => None,
        },
    ));
    r
}

/// `i` is the first position whose candidate holds the game.
pub open spec fn is_first_game_dir(has_game: Seq<bool>, i: int) -> bool {
    &&& 0 <= i < has_game.len()
    &&& has_game[i]
    &&& forall|j: int| 0 <= j < i ==> !has_game[j]
}

/// What validating the folder `path` gives, where `exe_exists` tells whether
/// its executable exists.
pub open spec fn validated_dir(path: Seq<char>, exe_exists: bool) -> Option<Seq<char>> {
    if exe_exists {
        Some(path)
    } else {
        None
    }
}

/// The first candidate folder that holds the game (`has_game[i]` tells
/// whether `candidates[i]` holds `GTA5.exe`), if any.
pub fn first_game_dir(candidates: &Vec<String>, has_game: &Vec<bool>) -> (r: Option<String>)
    requires
        candidates.len() == has_game.len(),
    ensures
        match r {
            Some(d) => exists|i: int| is_first_game_dir(has_game@, i) && candidates@[i]@ == d@,
            None => forall|j: int| 0 <= j < has_game.len() ==> !has_game@[j],
        },
{
    for i in 0..candidates.len()
        invariant
            candidates.len() == has_game.len(),
            forall|j: int| 0 <= j < i ==> !has_game@[j],
    {
        if has_game[i] {
            assert(is_first_game_dir(has_game@, i as int));
            return Some(candidates[i].clone());
        }
    }
    None
}

/// The path of the game's executable as given to be checked: the folder,
/// a backslash, and `GTA5.exe`.
pub fn game_exe_path(dir: &str) -> (r: String)
    ensures
        r@ == dir@ + "\\GTA5.exe"@,
{
    let mut r = String::from_str(dir);
    r.append("\\GTA5.exe");
    r
}

/// A folder given as the game's is kept where its executable exists.
pub fn validated_game_dir(path: String, exe_exists: bool) -> (r: Option<String>)
    ensures
        exe_exists ==> r == Some(path),
        !exe_exists ==> r is None,
        match r {
            Some(d) => validated_dir(path@, exe_exists) == Some(d@),
            None => validated_dir(path@, exe_exists) is None,
        },
{
    if exe_exists {
        Some(path)
    } else {
        None
    }
}

/// The folder of installed packs under the game's folder, as listed for the
/// front end.
pub fn installed_packs_dir(game_dir: &str) -> (r: String)
    ensures
        r@ == game_dir@ + "\\mods\\update\\x64\\dlcpacks"@,
{
    let mut r = String::from_str(game_dir);
    r.append("\\mods\\update\\x64\\dlcpacks");
    r
}

/// A folder that detection picks validates to itself, where validation's
/// test for its executable agrees with the test that detection made for it.
pub proof fn law_detected_dir_validates(
    candidates: Seq<Seq<char>>,
    has_game: Seq<bool>,
    i: int,
    exe_exists: bool,
)
    requires
        candidates.len() == has_game.len(),
        is_first_game_dir(has_game, i),
        exe_exists == has_game[i],
    ensures
        validated_dir(candidates[i], exe_exists) == Some(candidates[i]),
{
}

/// Epic's folder and Rockstar's are different folders.
proof fn lemma_store_dirs_differ()
    ensures
        EPIC_GAME_DIR@ != ROCKSTAR_GAME_DIR@,
{
    reveal_strlit("C:\\Program Files\\Epic Games\\GTAV");
    reveal_strlit("C:\\Program Files\\Rockstar Games\\Grand Theft Auto V");
    assert(EPIC_GAME_DIR@.len() != ROCKSTAR_GAME_DIR@.len());
}

/// Whether or not Steam's path is known, the last two candidates are Epic's
/// folder and then Rockstar's, which differ; before them stands the Steam
/// library's folder exactly when Steam's path is known. So without it the
/// candidates are Epic's folder followed by Rockstar's, and Rockstar's folder
/// is always tried.
pub proof fn law_candidates_end_with_epic_then_rockstar(steam: Option<Seq<char>>)
    ensures
        game_dir_candidates_of(steam).len() == if steam is Some { 3int } else { 2int },
        game_dir_candidates_of(steam)[game_dir_candidates_of(steam).len() - 2] == EPIC_GAME_DIR@,
        game_dir_candidates_of(steam)[game_dir_candidates_of(steam).len() - 1] == ROCKSTAR_GAME_DIR@,
        EPIC_GAME_DIR@ != ROCKSTAR_GAME_DIR@,
        game_dir_candidates_of(steam).contains(ROCKSTAR_GAME_DIR@),
        steam matches Some(s) ==> game_dir_candidates_of(steam)[0] == steam_game_dir(s),
{
    lemma_store_dirs_differ();
    let c = game_dir_candidates_of(steam);
    assert(c[c.len() - 1] == ROCKSTAR_GAME_DIR@);
}

/// Detection picks Rockstar's folder where it is the only candidate that
/// holds the game, whether or not Steam's path is known.
pub proof fn law_rockstar_found_when_only_it_holds_the_game(steam: Option<Seq<char>>, has_game: Seq<bool>)
    requires
        has_game.len() == game_dir_candidates_of(steam).len(),
        has_game[has_game.len() - 1],
        forall|j: int| 0 <= j < has_game.len() - 1 ==> !has_game[j],
    ensures
        is_first_game_dir(has_game, has_game.len() - 1),
        game_dir_candidates_of(steam)[has_game.len() - 1] == ROCKSTAR_GAME_DIR@,
{
    law_candidates_end_with_epic_then_rockstar(steam);
}

} // verus!
