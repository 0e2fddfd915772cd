//! Which installed mods are active: those whose folder holds a `dlc.rpf` and
//! that the game's `dlclist.xml` lists, compared in ASCII lower case.

use vstd::prelude::*;
use vstd::string::*;
use crate::pattern::{all_first_groups, regex_all_first_groups, regex_compiles, regex_valid};
use crate::text::{
    ascii_lower_seq, eq_ignore_case, is_ascii_upper, law_ascii_lower_seq_has_no_upper,
    law_same_up_to_case_eq_ignore_case, same_up_to_ascii_case, strings_view, to_ascii_lowercase,
};
use crate::dlclist::{
    base_dlc_packs, dlclist_entries_of, is_base_pack, is_mod_pack, law_listed_mods_sorted_and_complete,
    lemma_pack_entry_injective, listed_mods, pack_entry,
};

verus! {

/// The pattern that finds the packs a `dlclist.xml` lists:
/// `dlcpacks:/<name>/`, the name holding no `/`.
pub const LISTED_PACK_PATTERN: &'static str = "dlcpacks:/([^/]+)/";

/// Some name among `names` is `n` in ASCII lower case.
pub open spec fn has_lowered(names: Seq<Seq<char>>, n: Seq<char>) -> bool {
    exists|k: int| 0 <= k < names.len() && ascii_lower_seq(#[trigger] names[k]) == n
}

/// Each name in ASCII lower case.
pub open spec fn lowered_all(names: Seq<Seq<char>>) -> Seq<Seq<char>> {
    names.map_values(|n: Seq<char>| ascii_lower_seq(n))
}

/// The packs that `dlclist` lists.
pub open spec fn listed_packs(dlclist: Seq<char>) -> Seq<Seq<char>> {
    regex_all_first_groups(LISTED_PACK_PATTERN@, dlclist)
}

/// A mod (named in lower case) is active: a pack folder has its name, and the
/// list names it, both up to ASCII case.
pub open spec fn is_active_mod(folders: Seq<Seq<char>>, dlclist: Seq<char>, n: Seq<char>) -> bool {
    has_lowered(folders, n) && has_lowered(listed_packs(dlclist), n)
}

fn contains_string(v: &Vec<String>, s: &String) -> (r: bool)
    ensures
        r == strings_view(v@).contains(s@),
{
    for i in 0..v.len()
        invariant
            forall|j: int| 0 <= j < i ==> v@[j]@ != s@,
    {
        if v[i] == *s {
            assert(strings_view(v@)[i as int] == s@);
            return true;
        }
    }
    false
}

/// The active mods, named in ASCII lower case, each once, given the names of
/// the pack folders that hold a `dlc.rpf` and the text of `dlclist.xml`.
pub fn active_mod_names(folders: &Vec<String>, dlclist: &str) -> (r: Vec<String>)
    requires
        regex_valid(LISTED_PACK_PATTERN@),
    ensures
        strings_view(r@).no_duplicates(),
        forall|n: Seq<char>|
            #[trigger] strings_view(r@).contains(n) <==> is_active_mod(
                strings_view(folders@),
                dlclist@,
                n,
            ),
{
    let groups = all_first_groups(LISTED_PACK_PATTERN, dlclist);
    let ghost listed = listed_packs(dlclist@);
    let mut listed_lower: Vec<String> = Vec::new();
    for i in 0..groups.len()
        invariant
            strings_view(groups@) == listed,
            strings_view(listed_lower@) == lowered_all(listed.take(i as int)),
    {
        let l = to_ascii_lowercase(groups[i].as_str());
        assert(listed[i as int] == groups@[i as int]@);
        let ghost old_l = strings_view(listed_lower@);
        listed_lower.push(l);
        assert(strings_view(listed_lower@) =~= old_l.push(l@));
        assert(lowered_all(listed.take(i + 1)) =~= lowered_all(listed.take(i as int)).push(
            ascii_lower_seq(listed[i as int]),
        ));
    }
    assert(listed.take(groups.len() as int) =~= listed);
    let ghost lowered = lowered_all(listed);
    assert forall|n: Seq<char>| #[trigger] lowered.contains(n) <==> has_lowered(listed, n) by {
        if lowered.contains(n) {
            let k = choose|k: int| 0 <= k < lowered.len() && lowered[k] == n;
            assert(ascii_lower_seq(listed[k]) == n);
        }
        if has_lowered(listed, n) {
            let k = choose|k: int| 0 <= k < listed.len() && ascii_lower_seq(#[trigger] listed[k]) == n;
            assert(lowered[k] == n);
        }
    }
    let ghost fs = strings_view(folders@);
    let mut r: Vec<String> = Vec::new();
    for i in 0..folders.len()
        invariant
            fs == strings_view(folders@),
            strings_view(listed_lower@) == lowered,
            forall|n: Seq<char>| #[trigger] lowered.contains(n) <==> has_lowered(listed, n),
            strings_view(r@).no_duplicates(),
            forall|n: Seq<char>|
                #[trigger] strings_view(r@).contains(n) <==> (has_lowered(fs.take(i as int), n)
                    && has_lowered(listed, n)),
    {
        let l = to_ascii_lowercase(folders[i].as_str());
        let ghost before = strings_view(r@);
        assert forall|n: Seq<char>|
            has_lowered(fs.take(i + 1), n) <==> (has_lowered(fs.take(i as int), n) || n
                == l@) by {
            if has_lowered(fs.take(i + 1), n) {
                let k = choose|k: int|
                    0 <= k < fs.take(i + 1).len() && ascii_lower_seq(#[trigger] fs.take(i + 1)[k]) == n;
                if k < i {
                    assert(fs.take(i as int)[k] == fs.take(i + 1)[k]);
                }
            }
            if has_lowered(fs.take(i as int), n) {
                let k = choose|k: int|
                    0 <= k < fs.take(i as int).len() && ascii_lower_seq(#[trigger] fs.take(i as int)[k]) == n;
                assert(fs.take(i + 1)[k] == fs.take(i as int)[k]);
            }
            if n == l@ {
                assert(fs.take(i + 1)[i as int] == folders@[i as int]@);
            }
        }
        let present = contains_string(&r, &l);
        let listed_here = contains_string(&listed_lower, &l);
        if !present && listed_here {
            r.push(l);
            assert(strings_view(r@) =~= before.push(l@));
            assert forall|a: int, b: int|
                0 <= a < b < strings_view(r@).len() implies strings_view(r@)[a] != strings_view(
                    r@,
                )[b] by {
                if b == before.len() {
                    assert(before.contains(before[a]));
                }
            }
        }
        assert forall|n: Seq<char>|
            #[trigger] strings_view(r@).contains(n) <==> (has_lowered(fs.take(i + 1), n)
                && has_lowered(listed, n)) by {
            if !present && listed_here {
                if strings_view(r@).contains(n) && n != l@ {
                    let k = choose|k: int| 0 <= k < strings_view(r@).len() && strings_view(r@)[k] == n;
                    assert(before[k] == n);
                    assert(before.contains(n));
                }
                if before.contains(n) {
                    let k = choose|k: int| 0 <= k < before.len() && before[k] == n;
                    assert(strings_view(r@)[k] == n);
                }
                if n == l@ {
                    assert(strings_view(r@)[before.len() as int] == n);
                }
            }
        }
    }
    assert(fs.take(folders.len() as int) =~= fs);
    r
}

/// The active mods where the list pattern compiles; `None` where it does not
/// (compiling it would panic).
pub fn active_mod_names_checked(folders: &Vec<String>, dlclist: &str) -> (r: Option<Vec<String>>)
    ensures
        r is Some <==> regex_valid(LISTED_PACK_PATTERN@),
        r matches Some(v) ==> {
            &&& strings_view(v@).no_duplicates()
            &&& forall|n: Seq<char>|
                #[trigger] strings_view(v@).contains(n) <==> is_active_mod(
                    strings_view(folders@),
                    dlclist@,
                    n,
                )
        },
{
    if regex_compiles(LISTED_PACK_PATTERN) {
        Some(active_mod_names(folders, dlclist))
    } else {
        None
    }
}

/// The pattern finds in `dlclist` exactly the names of the entries that a
/// sync with `folders` writes, in order.
pub open spec fn lists_entries_of(dlclist: Seq<char>, folders: Seq<Seq<char>>) -> bool {
    let listed = listed_packs(dlclist);
    let entries = dlclist_entries_of(folders);
    &&& listed.len() == entries.len()
    &&& forall|i: int| 0 <= i < listed.len() ==> pack_entry(#[trigger] listed[i]) == entries[i]
}

/// Where the list was synced with the pack folders, the active mods are
/// exactly the pack folders, in ASCII lower case: every installed folder is
/// reported active (a game pack's folder too, since the game's packs are
/// always listed).
pub proof fn law_synced_list_activates_every_folder(
    folders: Seq<Seq<char>>,
    dlclist: Seq<char>,
    n: Seq<char>,
)
    requires
        lists_entries_of(dlclist, folders),
    ensures
        is_active_mod(folders, dlclist, n) <==> has_lowered(folders, n),
{
    let listed = listed_packs(dlclist);
    let nb = base_dlc_packs().len();
    let lm = listed_mods(folders);
    if has_lowered(folders, n) {
        let j = choose|j: int| 0 <= j < folders.len() && ascii_lower_seq(#[trigger] folders[j]) == n;
        let f = folders[j];
        if is_base_pack(f) {
            let i = choose|i: int|
                0 <= i < base_dlc_packs().len() && eq_ignore_case(#[trigger] base_dlc_packs()[i], f);
            assert(pack_entry(listed[i]) == dlclist_entries_of(folders)[i]);
            lemma_pack_entry_injective(listed[i], base_dlc_packs()[i]);
            assert(ascii_lower_seq(listed[i]) == n);
        } else {
            broadcast use vstd::seq_lib::group_to_multiset_ensures;

            let p = |x: Seq<char>| is_mod_pack(x);
            law_listed_mods_sorted_and_complete(folders);
            folders.lemma_filter_contains(p, j);
            assert(folders.filter(p).contains(f));
            assert(folders.filter(p).to_multiset().contains(f));
            assert(lm.to_multiset().contains(f));
            assert(lm.contains(f));
            let m = choose|m: int| 0 <= m < lm.len() && lm[m] == f;
            assert(pack_entry(listed[nb + m]) == dlclist_entries_of(folders)[nb + m]);
            lemma_pack_entry_injective(listed[nb + m], f);
            assert(ascii_lower_seq(listed[nb + m]) == n);
        }
    }
}

/// After a mod's folder is installed and the list synced, the mod is among
/// the active mods, under its folder's name in ASCII lower case.
pub proof fn law_installed_mod_is_active(folders: Seq<Seq<char>>, dlclist: Seq<char>, name: Seq<char>)
    requires
        folders.contains(name),
        lists_entries_of(dlclist, folders),
    ensures
        is_active_mod(folders, dlclist, ascii_lower_seq(name)),
{
    let j = choose|j: int| 0 <= j < folders.len() && folders[j] == name;
    assert(ascii_lower_seq(folders[j]) == ascii_lower_seq(name));
    law_synced_list_activates_every_folder(folders, dlclist, ascii_lower_seq(name));
}

/// No name reported among the active mods holds an ASCII upper-case letter.
pub proof fn law_active_names_are_lower_case(folders: Seq<Seq<char>>, dlclist: Seq<char>, n: Seq<char>)
    requires
        is_active_mod(folders, dlclist, n),
    ensures
        forall|k: int| 0 <= k < n.len() ==> !is_ascii_upper(#[trigger] n[k]),
{
    let j = choose|j: int| 0 <= j < folders.len() && ascii_lower_seq(#[trigger] folders[j]) == n;
    law_ascii_lower_seq_has_no_upper(folders[j]);
}

/// A pack folder whose name the list names, up to ASCII case only, is an
/// active mod, reported under its folder's name in ASCII lower case.
pub proof fn law_folder_listed_up_to_case_is_active(
    folders: Seq<Seq<char>>,
    dlclist: Seq<char>,
    f: Seq<char>,
    l: Seq<char>,
)
    requires
        folders.contains(f),
        listed_packs(dlclist).contains(l),
        same_up_to_ascii_case(f, l),
    ensures
        is_active_mod(folders, dlclist, ascii_lower_seq(f)),
{
    law_same_up_to_case_eq_ignore_case(f, l);
    let j = choose|j: int| 0 <= j < folders.len() && folders[j] == f;
    assert(ascii_lower_seq(folders[j]) == ascii_lower_seq(f));
    let listed = listed_packs(dlclist);
    let k = choose|k: int| 0 <= k < listed.len() && listed[k] == l;
    assert(ascii_lower_seq(listed[k]) == ascii_lower_seq(f));
}

} // verus!
