//! What the files extracted from a mod's `dlc.rpf` say about it: its name,
//! its kind, and its preview image.

use vstd::prelude::*;
use vstd::string::*;
use crate::pattern::{
    first_group, regex_compiles, regex_first_group, regex_valid,
};
use crate::text::{
    chars_eq_str, contains_str, from_chars, seq_contains, seq_starts_with, starts_with_str,
    to_chars, to_lowercase, trim, trimmed_range, unicode_lowercase,
};

verus! {

/// The first position at or after `i` that holds `c`, or the length of `s`.
pub open spec fn index_from(s: Seq<char>, c: char, i: nat) -> nat
    decreases s.len() - i,
{
    if i >= s.len() {
        s.len()
    } else if s[i as int] == c {
        i
    } else {
        index_from(s, c, i + 1)
    }
}

/// The last position before `hi` that holds `c`, or -1.
pub open spec fn last_index_before(s: Seq<char>, c: char, hi: nat) -> int
    decreases hi,
{
    if hi == 0 {
        -1
    } else if s[hi - 1] == c {
        hi - 1
    } else {
        last_index_before(s, c, (hi - 1) as nat)
    }
}

pub proof fn lemma_index_from_bounds(s: Seq<char>, c: char, i: nat)
    requires
        i <= s.len(),
    ensures
        i <= index_from(s, c, i) <= s.len(),
    decreases s.len() - i,
{
    if i < s.len() && s[i as int] != c {
        lemma_index_from_bounds(s, c, i + 1);
    }
}

/// First position of `c` in `s` from `i` on (the length where there is none).
pub fn index_of_char_from(s: &Vec<char>, c: char, i: usize) -> (r: usize)
    requires
        i <= s.len(),
    ensures
        r == index_from(s@, c, i as nat),
{
    let mut k = i;
    while k < s.len() && s[k] != c
        invariant
            i <= k <= s.len(),
            index_from(s@, c, i as nat) == index_from(s@, c, k as nat),
        decreases s.len() - k,
    {
        k = k + 1;
    }
    k
}

/// Last position of `c` in `s` before `hi` (-1 as `None`).
pub fn last_index_of_char(s: &Vec<char>, c: char, hi: usize) -> (r: Option<usize>)
    requires
        hi <= s.len(),
    ensures
        match r {
            Some(k) => last_index_before(s@, c, hi as nat) == k && k < hi,
            None => last_index_before(s@, c, hi as nat) == -1,
        },
{
    let mut k = hi;
    while k > 0 && s[k - 1] != c
        invariant
            k <= hi <= s.len(),
            last_index_before(s@, c, hi as nat) == last_index_before(s@, c, k as nat),
        decreases k,
    {
        k = k - 1;
    }
    if k == 0 {
        None
    } else {
        Some(k - 1)
    }
}

/// A line that names the mod: it holds `<dataName>` or `<name>`.
pub open spec fn is_name_line(l: Seq<char>) -> bool {
    seq_contains(l, "<dataName>"@) || seq_contains(l, "<name>"@)
}

/// The first line, starting at position `p` of `s`, that names the mod; lines
/// end at a line feed (a carriage return before it stays in the line, which
/// never changes what is read from it).
pub open spec fn name_line_from(s: Seq<char>, p: nat) -> Option<Seq<char>>
    decreases s.len() + 1 - p,
{
    if p > s.len() {
        None
    } else {
        let e = index_from(s, '\n', p);
        proof {
            lemma_index_from_bounds(s, '\n', p);
        }
        if is_name_line(s.subrange(p as int, e as int)) {
            Some(s.subrange(p as int, e as int))
        } else if e >= s.len() {
            None
        } else {
            name_line_from(s, e + 1)
        }
    }
}

/// The first line of `s` that names the mod
/// (`lines().find(|l| l.contains("<dataName>") || l.contains("<name>"))`).
pub open spec fn name_line(s: Seq<char>) -> Option<Seq<char>> {
    name_line_from(s, 0)
}

/// The position of the first `>` of a line.
pub open spec fn first_close(l: Seq<char>) -> int {
    index_from(l, '>', 0) as int
}

/// The position of the last `<` of a line.
pub open spec fn last_open(l: Seq<char>) -> int {
    last_index_before(l, '<', l.len())
}

/// The name in a name line: what stands between its first `>` and its last
/// `<`, trimmed. Reading it is only possible where that `>` comes first.
pub open spec fn name_in_line(l: Seq<char>) -> Seq<char> {
    trim(l.subrange(first_close(l) + 1, last_open(l)))
}

/// The name line of `s`, if any, can be read: its first `>` stands before its
/// last `<`. Reading a name line where it does not panics.
pub open spec fn name_is_readable(s: Seq<char>) -> bool {
    match name_line(s) {
        Some(l) => first_close(l) < last_open(l),
        None => true,
    }
}

/// The mod name that a metadata file gives, if any.
pub open spec fn name_in_content(s: Seq<char>) -> Option<Seq<char>> {
    match name_line(s) {
        Some(l) => Some(name_in_line(l)),
        None => None,
    }
}

/// The line of `s` that starts at `p` and ends before its line feed.
fn line_at(s: &Vec<char>, p: usize, e: usize) -> (r: Vec<char>)
    requires
        p <= e <= s.len(),
    ensures
        r@ == s@.subrange(p as int, e as int),
{
    let mut r: Vec<char> = Vec::new();
    let mut i = p;
    while i < e
        invariant
            p <= i <= e <= s.len(),
            r@ == s@.subrange(p as int, i as int),
        decreases e - i,
    {
        r.push(s[i]);
        assert(s@.subrange(p as int, i + 1) =~= s@.subrange(p as int, i as int).push(s@[i as int]));
        i = i + 1;
    }
    r
}

/// The first line of `s` that names the mod.
pub fn find_name_line(s: &Vec<char>) -> (r: Option<Vec<char>>)
    ensures
        match r {
            Some(l) => name_line(s@) == Some(l@),
            None => name_line(s@) is None,
        },
{
    let mut p: usize = 0;
    loop
        invariant
            p <= s.len(),
            name_line(s@) == name_line_from(s@, p as nat),
        decreases s.len() - p,
    {
        let e = index_of_char_from(s, '\n', p);
        proof {
            lemma_index_from_bounds(s@, '\n', p as nat);
        }
        let l = line_at(s, p, e);
        if contains_str(&l, "<dataName>") || contains_str(&l, "<name>") {
            return Some(l);
        }
        if e >= s.len() {
            return None;
        }
        p = e + 1;
    }
}

/// Reads the name from a name line whose first `>` comes before its last `<`.
fn read_name(l: &Vec<char>) -> (r: Vec<char>)
    requires
        first_close(l@) < last_open(l@),
    ensures
        r@ == name_in_line(l@),
{
    let a = index_of_char_from(l, '>', 0);
    proof {
        lemma_index_from_bounds(l@, '>', 0);
    }
    let b = last_index_of_char(l, '<', l.len());
    match b {
        Some(b) => trimmed_range(l, a + 1, b),
        None => {
            assert(false);
            Vec::new()
        },
    }
}

/// Whether the name line of `content`, if any, can be read without a panic.
pub fn content_name_is_readable(content: &str) -> (r: bool)
    ensures
        r == name_is_readable(content@),
{
    let s = to_chars(content);
    match find_name_line(&s) {
        Some(l) => {
            let a = index_of_char_from(&l, '>', 0);
            match last_index_of_char(&l, '<', l.len()) {
                Some(b) => a < b,
                None => false,
            }
        },
        None => true,
    }
}

/// The mod name a metadata file gives, if any.
pub fn name_from_content(s: &Vec<char>) -> (r: Option<Vec<char>>)
    requires
        name_is_readable(s@),
    ensures
        match r {
            Some(n) => name_in_content(s@) == Some(n@),
            None => name_in_content(s@) is None,
        },
{
    match find_name_line(s) {
        Some(l) => Some(read_name(&l)),
        None => None,
    }
}

/// A file extracted from a mod's `dlc.rpf`: its file name, its path, and its
/// text (empty where it was not read or is not UTF-8).
pub struct ModFile {
    pub file_name: String,
    pub path: String,
    pub content: String,
}

/// What a file name (in lower case) says a file is for.
pub open spec fn is_metadata_xml(lower: Seq<char>) -> bool {
    seq_contains(lower, "content.xml"@) || seq_contains(lower, "setup2.xml"@)
}

pub open spec fn is_preview_image(lower: Seq<char>) -> bool {
    seq_contains(lower, "preview"@) || seq_contains(lower, "icon"@)
}

/// The roles of an extracted file, from its name in lower case.
pub struct FileRoles {
    pub metadata_xml: bool,
    pub preview_image: bool,
}

/// The roles of an extracted file: a metadata file where its lower-case name
/// holds `content.xml` or `setup2.xml`, a preview where it holds `preview` or
/// `icon`.
pub fn file_roles(file_name: &str) -> (r: FileRoles)
    ensures
        r.metadata_xml == is_metadata_xml(unicode_lowercase(file_name@)),
        r.preview_image == is_preview_image(unicode_lowercase(file_name@)),
{
    let lower = to_lowercase(file_name);
    let l = to_chars(lower.as_str());
    FileRoles {
        metadata_xml: contains_str(&l, "content.xml") || contains_str(&l, "setup2.xml"),
        preview_image: contains_str(&l, "preview") || contains_str(&l, "icon"),
    }
}

/// The kind of mod that a metadata file of an installed mod suggests.
pub open spec fn installed_kind(x: Seq<char>) -> Option<Seq<char>> {
    if seq_contains(x, "vehicle"@) {
        if seq_contains(x, "plane"@) {
            Some("plane"@)
        } else if seq_contains(x, "bike"@) {
            Some("motorcycle"@)
        } else {
            Some("car"@)
        }
    } else if seq_contains(x, "ymap"@) {
        Some("map"@)
    } else if seq_contains(x, "peds.meta"@) {
        Some("ped"@)
    } else {
        None
    }
}

fn installed_kind_of(x: &Vec<char>) -> (r: Option<&'static str>)
    ensures
        match r {
            Some(k) => installed_kind(x@) == Some(k@),
            None => installed_kind(x@) is None,
        },
{
    if contains_str(x, "vehicle") {
        if contains_str(x, "plane") {
            Some("plane")
        } else if contains_str(x, "bike") {
            Some("motorcycle")
        } else {
            Some("car")
        }
    } else if contains_str(x, "ymap") {
        Some("map")
    } else if contains_str(x, "peds.meta") {
        Some("ped")
    } else {
        None
    }
}

/// What the files of an installed mod say of it, reading them in order: the
/// name (the folder's name until a metadata file names it), the kind
/// (`unknown` until a metadata file suggests one) and the position of the
/// preview image (the last file named like one). Later files win.
pub open spec fn installed_scan(folder_name: Seq<char>, files: Seq<ModFile>) -> (
    Seq<char>,
    Seq<char>,
    Option<int>,
)
    decreases files.len(),
{
    if files.len() == 0 {
        (folder_name, "unknown"@, None)
    } else {
        let prev = installed_scan(folder_name, files.drop_last());
        let f = files.last();
        let lower = unicode_lowercase(f.file_name@);
        let name = if is_metadata_xml(lower) {
            match name_in_content(f.content@) {
                Some(n) => n,
                None => prev.0,
            }
        } else {
            prev.0
        };
        let kind = if is_metadata_xml(lower) {
            match installed_kind(f.content@) {
                Some(k) => k,
                None => prev.1,
            }
        } else {
            prev.1
        };
        let preview = if is_preview_image(lower) {
            Some(files.len() - 1)
        } else {
            prev.2
        };
        (name, kind, preview)
    }
}

/// Every metadata file among `files` has a readable name line.
pub open spec fn metadata_names_readable(files: Seq<ModFile>) -> bool {
    forall|i: int|
        0 <= i < files.len() && is_metadata_xml(unicode_lowercase(#[trigger] files[i].file_name@))
            ==> name_is_readable(files[i].content@)
}

/// What the files of an installed mod say of it.
pub struct InstalledModScan {
    pub name: String,
    pub mod_type: String,
    pub preview_file: Option<usize>,
}

pub open spec fn scan_matches(r: InstalledModScan, m: (Seq<char>, Seq<char>, Option<int>)) -> bool {
    &&& r.name@ == m.0
    &&& r.mod_type@ == m.1
    &&& match r.preview_file {
        Some(k) => m.2 == Some(k as int),
        None => m.2 is None,
    }
}

/// Reads the files extracted from an installed mod's `dlc.rpf`, in order.
pub fn scan_installed_mod(folder_name: String, files: &Vec<ModFile>) -> (r: InstalledModScan)
    requires
        metadata_names_readable(files@),
    ensures
        scan_matches(r, installed_scan(folder_name@, files@)),
{
    let ghost fname = folder_name@;
    let mut r = InstalledModScan {
        name: folder_name,
        mod_type: String::from_str("unknown"),
        preview_file: None,
    };
    for i in 0..files.len()
        invariant
            metadata_names_readable(files@),
            scan_matches(r, installed_scan(fname, files@.take(i as int))),
    {
        assert(files@.take(i + 1).drop_last() =~= files@.take(i as int));
        assert(files@.take(i + 1).last() == files@[i as int]);
        let f = &files[i];
        let roles = file_roles(f.file_name.as_str());
        if roles.metadata_xml {
            let content = to_chars(f.content.as_str());
            match name_from_content(&content) {
                Some(n) => {
                    r.name = from_chars(&n);
                },
                None => {},
            }
            match installed_kind_of(&content) {
                Some(k) => {
                    r.mod_type = String::from_str(k);
                },
                None => {},
            }
        }
        if roles.preview_image {
            r.preview_file = Some(i);
        }
    }
    assert(files@.take(files.len() as int) =~= files@);
    r
}

/// Reads the files of an installed mod where every metadata file's name line
/// can be read; `None` where one cannot (reading it would panic).
pub fn scan_installed_mod_checked(folder_name: String, files: &Vec<ModFile>) -> (r: Option<
    InstalledModScan,
>)
    ensures
        r is Some <==> metadata_names_readable(files@),
        r matches Some(s) ==> scan_matches(s, installed_scan(folder_name@, files@)),
{
    for i in 0..files.len()
        invariant
            forall|j: int|
                0 <= j < i && is_metadata_xml(unicode_lowercase(#[trigger] files@[j].file_name@))
                    ==> name_is_readable(files@[j].content@),
    {
        let roles = file_roles(files[i].file_name.as_str());
        if roles.metadata_xml && !content_name_is_readable(files[i].content.as_str()) {
            return None;
        }
    }
    Some(scan_installed_mod(folder_name, files))
}

/// The pattern that reads a vehicle class: `<vehicleClass>`, spaces, a word,
/// spaces, `</vehicleClass>`.
pub const VEHICLE_CLASS_PATTERN: &'static str = "<vehicleClass>\\s*([A-Za-z0-9_]+)\\s*</vehicleClass>";

/// The pattern that reads a vehicle type: `<type>`, spaces, `VEHICLE_TYPE_`
/// and a word, spaces, `</type>`.
pub const VEHICLE_TYPE_PATTERN: &'static str = "<type>\\s*VEHICLE_TYPE_([A-Za-z0-9_]+)\\s*</type>";

/// The kind of mod for a vehicle class.
pub open spec fn class_kind(v: Seq<char>) -> Seq<char> {
    if v == "VC_BIKE"@ || v == "VC_MOTORCYCLE"@ {
        "motorcycle"@
    } else if v == "VC_PLANE"@ {
        "plane"@
    } else if v == "VC_BOAT"@ {
        "boat"@
    } else if v == "VC_HELI"@ {
        "helicopter"@
    } else if seq_starts_with(v, "VC_"@) {
        "car"@
    } else {
        "unknown"@
    }
}

/// The kind of mod for a vehicle type (what follows `VEHICLE_TYPE_`).
pub open spec fn type_kind(v: Seq<char>) -> Seq<char> {
    if v == "BIKE"@ || v == "MOTORCYCLE"@ {
        "motorcycle"@
    } else if v == "PLANE"@ {
        "plane"@
    } else if v == "BOAT"@ {
        "boat"@
    } else if v == "HELI"@ {
        "helicopter"@
    } else if v == "CAR"@ {
        "car"@
    } else {
        "unknown"@
    }
}

/// The kind of mod for a vehicle class.
pub fn vehicle_class_kind(v: &Vec<char>) -> (r: &'static str)
    ensures
        r@ == class_kind(v@),
{
    if chars_eq_str(v, "VC_BIKE") || chars_eq_str(v, "VC_MOTORCYCLE") {
        "motorcycle"
    } else if chars_eq_str(v, "VC_PLANE") {
        "plane"
    } else if chars_eq_str(v, "VC_BOAT") {
        "boat"
    } else if chars_eq_str(v, "VC_HELI") {
        "helicopter"
    } else if starts_with_str(v, "VC_") {
        "car"
    } else {
        "unknown"
    }
}

/// The kind of mod for a vehicle type.
pub fn vehicle_type_kind(v: &Vec<char>) -> (r: &'static str)
    ensures
        r@ == type_kind(v@),
{
    if chars_eq_str(v, "BIKE") || chars_eq_str(v, "MOTORCYCLE") {
        "motorcycle"
    } else if chars_eq_str(v, "PLANE") {
        "plane"
    } else if chars_eq_str(v, "BOAT") {
        "boat"
    } else if chars_eq_str(v, "HELI") {
        "helicopter"
    } else if chars_eq_str(v, "CAR") {
        "car"
    } else {
        "unknown"
    }
}

/// What has been read so far of an extracted pack: name, preview path, kind.
pub type ExtractState = (Option<Seq<char>>, Option<Seq<char>>, Option<Seq<char>>);

/// The kind after reading one file: a vehicle class decides (overriding an
/// earlier kind); else, with no kind yet, a vehicle type; else, still with
/// none, a metadata file with a `<ymap` is a map; else, still with none, a
/// `peds.meta` file or a text with `<ped` is a ped.
pub open spec fn kind_after(kind: Option<Seq<char>>, lower: Seq<char>, c: Seq<char>) -> Option<
    Seq<char>,
> {
    let k1 = if seq_contains(c, "<vehicleClass>"@) {
        match regex_first_group(VEHICLE_CLASS_PATTERN@, c) {
            Some(g) => Some(class_kind(g)),
            None => kind,
        }
    } else {
        kind
    };
    let k2 = if k1 is None && seq_contains(c, "<type>"@) {
        match regex_first_group(VEHICLE_TYPE_PATTERN@, c) {
            Some(g) => Some(type_kind(g)),
            None => k1,
        }
    } else {
        k1
    };
    let k3 = if k2 is None && is_metadata_xml(lower) && seq_contains(c, "<ymap"@) {
        Some("map"@)
    } else {
        k2
    };
    if k3 is None && (seq_contains(lower, "peds.meta"@) || seq_contains(c, "<ped"@)) {
        Some("ped"@)
    } else {
        k3
    }
}

/// What the files of an extracted pack say of it, reading them in order: the
/// name from the last metadata file that names it, the path of the last file
/// named like a preview, and the kind.
pub open spec fn extract_scan(files: Seq<ModFile>) -> ExtractState
    decreases files.len(),
{
    if files.len() == 0 {
        (None, None, None)
    } else {
        let prev = extract_scan(files.drop_last());
        let f = files.last();
        let lower = unicode_lowercase(f.file_name@);
        let kind = kind_after(prev.2, lower, f.content@);
        let name = if is_metadata_xml(lower) {
            match name_in_content(f.content@) {
                Some(n) => Some(n),
                None => prev.0,
            }
        } else {
            prev.0
        };
        let preview = if is_preview_image(lower) {
            Some(f.path@)
        } else {
            prev.1
        };
        (name, preview, kind)
    }
}

/// The answer to a request for a pack's metadata, as the front end receives it.
pub struct ExtractResult {
    pub success: bool,
    pub error: Option<String>,
    pub mod_name: Option<String>,
    pub preview_image: Option<String>,
    pub mod_type: Option<String>,
}

pub open spec fn opt_view(o: Option<String>) -> Option<Seq<char>> {
    match o {
        Some(s) => Some(s@),
        None => None,
    }
}

/// `r` is the successful answer that carries `m`.
pub open spec fn extract_answer(r: ExtractResult, m: ExtractState) -> bool {
    &&& r.success
    &&& r.error is None
    &&& opt_view(r.mod_name) == m.0
    &&& opt_view(r.preview_image) == m.1
    &&& opt_view(r.mod_type) == m.2
}

fn kind_after_file(kind: Option<String>, lower: &Vec<char>, c: &str) -> (r: Option<String>)
    requires
        regex_valid(VEHICLE_CLASS_PATTERN@),
        regex_valid(VEHICLE_TYPE_PATTERN@),
    ensures
        opt_view(r) == kind_after(opt_view(kind), lower@, c@),
{
    let cc = to_chars(c);
    let mut kind = kind;
    if contains_str(&cc, "<vehicleClass>") {
        match first_group(VEHICLE_CLASS_PATTERN, c) {
            Some(g) => {
                let gc = to_chars(g.as_str());
                kind = Some(String::from_str(vehicle_class_kind(&gc)));
            },
            None => {},
        }
    }
    if kind.is_none() && contains_str(&cc, "<type>") {
        match first_group(VEHICLE_TYPE_PATTERN, c) {
            Some(g) => {
                let gc = to_chars(g.as_str());
                kind = Some(String::from_str(vehicle_type_kind(&gc)));
            },
            None => {},
        }
    }
    if kind.is_none() && (contains_str(lower, "content.xml") || contains_str(lower, "setup2.xml"))
        && contains_str(&cc, "<ymap") {
        kind = Some(String::from_str("map"));
    }
    if kind.is_none() && (contains_str(lower, "peds.meta") || contains_str(&cc, "<ped")) {
        kind = Some(String::from_str("ped"));
    }
    kind
}

/// Reads the files extracted from a pack, in order, into the answer.
pub fn extract_from_files(files: &Vec<ModFile>) -> (r: ExtractResult)
    requires
        regex_valid(VEHICLE_CLASS_PATTERN@),
        regex_valid(VEHICLE_TYPE_PATTERN@),
        metadata_names_readable(files@),
    ensures
        extract_answer(r, extract_scan(files@)),
{
    let mut r = ExtractResult {
        success: true,
        error: None,
        mod_name: None,
        preview_image: None,
        mod_type: None,
    };
    for i in 0..files.len()
        invariant
            regex_valid(VEHICLE_CLASS_PATTERN@),
            regex_valid(VEHICLE_TYPE_PATTERN@),
            metadata_names_readable(files@),
            extract_answer(r, extract_scan(files@.take(i as int))),
    {
        assert(files@.take(i + 1).drop_last() =~= files@.take(i as int));
        assert(files@.take(i + 1).last() == files@[i as int]);
        let f = &files[i];
        let lower_s = to_lowercase(f.file_name.as_str());
        let lower = to_chars(lower_s.as_str());
        let old_kind = r.mod_type;
        r.mod_type = kind_after_file(old_kind, &lower, f.content.as_str());
        if contains_str(&lower, "content.xml") || contains_str(&lower, "setup2.xml") {
            let content = to_chars(f.content.as_str());
            match name_from_content(&content) {
                Some(n) => {
                    r.mod_name = Some(from_chars(&n));
                },
                None => {},
            }
        }
        if contains_str(&lower, "preview") || contains_str(&lower, "icon") {
            r.preview_image = Some(f.path.clone());
        }
    }
    assert(files@.take(files.len() as int) =~= files@);
    r
}

/// Reads the files extracted from a pack where both vehicle patterns compile
/// and every metadata file's name line can be read; `None` otherwise (the
/// pattern or the reading would panic).
pub fn extract_mod_metadata_from_files(files: &Vec<ModFile>) -> (r: Option<ExtractResult>)
    ensures
        r is Some <==> (regex_valid(VEHICLE_CLASS_PATTERN@) && regex_valid(VEHICLE_TYPE_PATTERN@)
            && metadata_names_readable(files@)),
        r matches Some(a) ==> extract_answer(a, extract_scan(files@)),
{
    if !regex_compiles(VEHICLE_CLASS_PATTERN) || !regex_compiles(VEHICLE_TYPE_PATTERN) {
        return None;
    }
    for i in 0..files.len()
        invariant
            forall|j: int|
                0 <= j < i && is_metadata_xml(unicode_lowercase(#[trigger] files@[j].file_name@))
                    ==> name_is_readable(files@[j].content@),
    {
        let roles = file_roles(files[i].file_name.as_str());
        if roles.metadata_xml && !content_name_is_readable(files[i].content.as_str()) {
            return None;
        }
    }
    Some(extract_from_files(files))
}

/// Why reading a pack's metadata stopped early.
pub enum ExtractFailure {
    /// The output folder could not be created (the error's text).
    CreateOutputDir(String),
    /// The extraction tool could not be run (the error's text).
    RunTool(String),
    /// The extraction tool failed (what it wrote to standard error).
    ToolFailed(String),
}

/// The message for a failure.
pub open spec fn failure_message(f: ExtractFailure) -> Seq<char> {
    match f {
        ExtractFailure::CreateOutputDir(e) => "Failed to create output dir: "@ + e@,
        ExtractFailure::RunTool(e) => "Failed to run rpf.exe: "@ + e@,
        ExtractFailure::ToolFailed(e) => e@,
    }
}

/// The answer to a request for a pack's metadata that stopped early.
pub fn extract_failed(failure: ExtractFailure) -> (r: ExtractResult)
    ensures
        !r.success,
        opt_view(r.error) == Some(failure_message(failure)),
        r.mod_name is None,
        r.preview_image is None,
        r.mod_type is None,
{
    let message = match failure {
        ExtractFailure::CreateOutputDir(e) => {
            let mut m = String::from_str("Failed to create output dir: ");
            m.append(e.as_str());
            m
        },
        ExtractFailure::RunTool(e) => {
            let mut m = String::from_str("Failed to run rpf.exe: ");
            m.append(e.as_str());
            m
        },
        ExtractFailure::ToolFailed(e) => e,
    };
    ExtractResult {
        success: false,
        error: Some(message),
        mod_name: None,
        preview_image: None,
        mod_type: None,
    }
}

/// A file suggests a kind for an installed mod: it is a metadata file whose
/// text names a kind.
pub open spec fn suggests_kind(f: ModFile) -> bool {
    is_metadata_xml(unicode_lowercase(f.file_name@)) && installed_kind(f.content@) is Some
}

/// A file names the mod: it is a metadata file with a name line.
pub open spec fn names_mod(f: ModFile) -> bool {
    is_metadata_xml(unicode_lowercase(f.file_name@)) && name_in_content(f.content@) is Some
}

/// A file is named like a preview image.
pub open spec fn is_preview_file(f: ModFile) -> bool {
    is_preview_image(unicode_lowercase(f.file_name@))
}

/// No kind that a metadata file suggests is `unknown`.
proof fn lemma_installed_kind_not_unknown(x: Seq<char>)
    requires
        installed_kind(x) is Some,
    ensures
        installed_kind(x).unwrap() != "unknown"@,
{
    reveal_strlit("unknown");
    reveal_strlit("plane");
    reveal_strlit("motorcycle");
    reveal_strlit("car");
    reveal_strlit("map");
    reveal_strlit("ped");
    assert("unknown"@.len() == 7);
    assert("plane"@.len() == 5);
    assert("motorcycle"@.len() == 10);
    assert("car"@.len() == 3);
    assert("map"@.len() == 3);
    assert("ped"@.len() == 3);
}

/// The kind reported for an installed mod is the one that the last metadata
/// file suggesting a kind suggests: a later metadata file that suggests none
/// leaves it in place.
pub proof fn law_installed_kind_is_last_suggestion(folder_name: Seq<char>, files: Seq<ModFile>, i: int)
    requires
        0 <= i < files.len(),
        suggests_kind(files[i]),
        forall|j: int| i < j < files.len() ==> !suggests_kind(#[trigger] files[j]),
    ensures
        installed_scan(folder_name, files).1 == installed_kind(files[i].content@).unwrap(),
    decreases files.len(),
{
    let n = files.len();
    if i < n - 1 {
        let d = files.drop_last();
        assert forall|j: int| i < j < d.len() implies !suggests_kind(#[trigger] d[j]) by {
            assert(d[j] == files[j]);
        }
        assert(!suggests_kind(files[n - 1]));
        law_installed_kind_is_last_suggestion(folder_name, d, i);
    }
}

/// An installed mod's kind is `unknown` exactly when none of its metadata
/// files suggests a kind.
pub proof fn law_installed_kind_unknown_iff_no_suggestion(folder_name: Seq<char>, files: Seq<ModFile>)
    ensures
        installed_scan(folder_name, files).1 == "unknown"@ <==> forall|i: int|
            0 <= i < files.len() ==> !suggests_kind(#[trigger] files[i]),
    decreases files.len(),
{
    let n = files.len();
    if n > 0 {
        let d = files.drop_last();
        law_installed_kind_unknown_iff_no_suggestion(folder_name, d);
        if suggests_kind(files[n - 1]) {
            lemma_installed_kind_not_unknown(files[n - 1].content@);
        } else {
            if forall|i: int| 0 <= i < d.len() ==> !suggests_kind(#[trigger] d[i]) {
                assert forall|i: int| 0 <= i < files.len() implies !suggests_kind(#[trigger] files[i]) by {
                    if i < n - 1 {
                        assert(d[i] == files[i]);
                    }
                }
            } else {
                let k = choose|k: int| 0 <= k < d.len() && suggests_kind(#[trigger] d[k]);
                assert(d[k] == files[k]);
            }
        }
    }
}

/// Reading one more file that suggests no kind leaves an installed mod's
/// kind as it was.
pub proof fn law_installed_kind_kept_by_silent_file(folder_name: Seq<char>, files: Seq<ModFile>, f: ModFile)
    requires
        !suggests_kind(f),
    ensures
        installed_scan(folder_name, files.push(f)).1 == installed_scan(folder_name, files).1,
{
    assert(files.push(f).drop_last() =~= files);
}

/// The name reported for an installed mod is the one that the last metadata
/// file with a name line gives: a later metadata file without one leaves it
/// in place.
pub proof fn law_installed_name_is_last_named(folder_name: Seq<char>, files: Seq<ModFile>, i: int)
    requires
        0 <= i < files.len(),
        names_mod(files[i]),
        forall|j: int| i < j < files.len() ==> !names_mod(#[trigger] files[j]),
    ensures
        installed_scan(folder_name, files).0 == name_in_content(files[i].content@).unwrap(),
    decreases files.len(),
{
    let n = files.len();
    if i < n - 1 {
        let d = files.drop_last();
        assert forall|j: int| i < j < d.len() implies !names_mod(#[trigger] d[j]) by {
            assert(d[j] == files[j]);
        }
        assert(!names_mod(files[n - 1]));
        law_installed_name_is_last_named(folder_name, d, i);
    }
}

/// Where no metadata file has a name line, an installed mod is reported under
/// its folder's name.
pub proof fn law_installed_name_defaults_to_folder(folder_name: Seq<char>, files: Seq<ModFile>)
    requires
        forall|i: int| 0 <= i < files.len() ==> !names_mod(#[trigger] files[i]),
    ensures
        installed_scan(folder_name, files).0 == folder_name,
    decreases files.len(),
{
    let n = files.len();
    if n > 0 {
        let d = files.drop_last();
        assert forall|i: int| 0 <= i < d.len() implies !names_mod(#[trigger] d[i]) by {
            assert(d[i] == files[i]);
        }
        assert(!names_mod(files[n - 1]));
        law_installed_name_defaults_to_folder(folder_name, d);
    }
}

/// An installed mod's preview is the last file named like a preview image,
/// and there is none exactly when no file is.
pub proof fn law_installed_preview_is_last(folder_name: Seq<char>, files: Seq<ModFile>)
    ensures
        match installed_scan(folder_name, files).2 {
            Some(k) => {
                &&& 0 <= k < files.len()
                &&& is_preview_file(files[k])
                &&& forall|j: int| k < j < files.len() ==> !is_preview_file(#[trigger] files[j])
            },
            None => forall|j: int| 0 <= j < files.len() ==> !is_preview_file(#[trigger] files[j]),
        },
    decreases files.len(),
{
    let n = files.len();
    if n > 0 {
        let d = files.drop_last();
        law_installed_preview_is_last(folder_name, d);
        if !is_preview_file(files[n - 1]) {
            match installed_scan(folder_name, d).2 {
                Some(k) => {
                    assert(d[k] == files[k]);
                    assert forall|j: int| k < j < files.len() implies !is_preview_file(
                        #[trigger] files[j],
                    ) by {
                        if j < n - 1 {
                            assert(d[j] == files[j]);
                        }
                    }
                },
                None => {
                    assert forall|j: int| 0 <= j < files.len() implies !is_preview_file(
                        #[trigger] files[j],
                    ) by {
                        if j < n - 1 {
                            assert(d[j] == files[j]);
                        }
                    }
                },
            }
        }
    }
}

/// The name read from an extracted pack is the one that the last metadata
/// file with a name line gives: a later metadata file without one leaves it
/// in place.
pub proof fn law_extracted_name_is_last_named(files: Seq<ModFile>, i: int)
    requires
        0 <= i < files.len(),
        names_mod(files[i]),
        forall|j: int| i < j < files.len() ==> !names_mod(#[trigger] files[j]),
    ensures
        extract_scan(files).0 == name_in_content(files[i].content@),
    decreases files.len(),
{
    let n = files.len();
    if i < n - 1 {
        let d = files.drop_last();
        assert forall|j: int| i < j < d.len() implies !names_mod(#[trigger] d[j]) by {
            assert(d[j] == files[j]);
        }
        assert(!names_mod(files[n - 1]));
        law_extracted_name_is_last_named(d, i);
    }
}

/// An extracted pack has no name exactly when none of its metadata files has
/// a name line.
pub proof fn law_extracted_name_none_iff_unnamed(files: Seq<ModFile>)
    ensures
        extract_scan(files).0 is None <==> forall|i: int|
            0 <= i < files.len() ==> !names_mod(#[trigger] files[i]),
    decreases files.len(),
{
    let n = files.len();
    if n > 0 {
        let d = files.drop_last();
        law_extracted_name_none_iff_unnamed(d);
        if !names_mod(files[n - 1]) {
            if forall|i: int| 0 <= i < d.len() ==> !names_mod(#[trigger] d[i]) {
                assert forall|i: int| 0 <= i < files.len() implies !names_mod(#[trigger] files[i]) by {
                    if i < n - 1 {
                        assert(d[i] == files[i]);
                    }
                }
            } else {
                let k = choose|k: int| 0 <= k < d.len() && names_mod(#[trigger] d[k]);
                assert(d[k] == files[k]);
            }
        }
    }
}

/// The preview path read from an extracted pack is the path of the last file
/// named like a preview image, and there is none exactly when no file is.
pub proof fn law_extracted_preview_is_last(files: Seq<ModFile>)
    ensures
        match extract_scan(files).1 {
            Some(p) => exists|k: int|
                {
                    &&& 0 <= k < files.len()
                    &&& is_preview_file(#[trigger] files[k])
                    &&& files[k].path@ == p
                    &&& forall|j: int| k < j < files.len() ==> !is_preview_file(#[trigger] files[j])
                },
            None => forall|j: int| 0 <= j < files.len() ==> !is_preview_file(#[trigger] files[j]),
        },
    decreases files.len(),
{
    let n = files.len();
    if n > 0 {
        let d = files.drop_last();
        law_extracted_preview_is_last(d);
        if is_preview_file(files[n - 1]) {
            assert(is_preview_file(files[n - 1]) && files[n - 1].path@ == extract_scan(files).1.unwrap());
        } else {
            match extract_scan(d).1 {
                Some(p) => {
                    let k = choose|k: int|
                        {
                            &&& 0 <= k < d.len()
                            &&& is_preview_file(#[trigger] d[k])
                            &&& d[k].path@ == p
                            &&& forall|j: int| k < j < d.len() ==> !is_preview_file(#[trigger] d[j])
                        };
                    assert(d[k] == files[k]);
                    assert forall|j: int| k < j < files.len() implies !is_preview_file(
                        #[trigger] files[j],
                    ) by {
                        if j < n - 1 {
                            assert(d[j] == files[j]);
                        }
                    }
                },
                None => {
                    assert forall|j: int| 0 <= j < files.len() implies !is_preview_file(
                        #[trigger] files[j],
                    ) by {
                        if j < n - 1 {
                            assert(d[j] == files[j]);
                        }
                    }
                },
            }
        }
    }
}

/// A file whose text holds no `<vehicleClass>`, `<type>`, `<ymap` or `<ped`,
/// and whose name holds no `peds.meta`, leaves the kind read so far as it was;
/// and once a kind is read, only a vehicle class changes it.
pub proof fn law_kind_kept_by_silent_file(kind: Option<Seq<char>>, lower: Seq<char>, c: Seq<char>)
    ensures
        !seq_contains(c, "<vehicleClass>"@) && !seq_contains(c, "<type>"@) && !seq_contains(
            c,
            "<ymap"@,
        ) && !seq_contains(c, "<ped"@) && !seq_contains(lower, "peds.meta"@) ==> kind_after(
            kind,
            lower,
            c,
        ) == kind,
        kind is Some && !seq_contains(c, "<vehicleClass>"@) ==> kind_after(kind, lower, c) == kind,
{
}

/// Reading one more file that neither names the pack, nor is named like a
/// preview, nor holds any kind keyword leaves what was read of an extracted
/// pack as it was.
pub proof fn law_extract_kept_by_silent_file(files: Seq<ModFile>, f: ModFile)
    requires
        !names_mod(f),
        !is_preview_file(f),
        !seq_contains(f.content@, "<vehicleClass>"@),
        !seq_contains(f.content@, "<type>"@),
        !seq_contains(f.content@, "<ymap"@),
        !seq_contains(f.content@, "<ped"@),
        !seq_contains(unicode_lowercase(f.file_name@), "peds.meta"@),
    ensures
        extract_scan(files.push(f)) == extract_scan(files),
{
    assert(files.push(f).drop_last() =~= files);
    law_kind_kept_by_silent_file(extract_scan(files).2, unicode_lowercase(f.file_name@), f.content@);
}

/// The kind an installed mod's metadata file suggests: a text that mentions
/// `vehicle` is a vehicle (a plane where it mentions `plane`, else a
/// motorcycle where it mentions `bike`, else a car); otherwise one that
/// mentions `ymap` is a map; otherwise one that mentions `peds.meta` is a ped;
/// any other text suggests nothing.
pub proof fn law_installed_kind_by_keyword(x: Seq<char>)
    ensures
        installed_kind(x) is None <==> !seq_contains(x, "vehicle"@) && !seq_contains(x, "ymap"@)
            && !seq_contains(x, "peds.meta"@),
        seq_contains(x, "vehicle"@) && seq_contains(x, "plane"@) ==> installed_kind(x) == Some(
            "plane"@,
        ),
        seq_contains(x, "vehicle"@) && !seq_contains(x, "plane"@) && seq_contains(x, "bike"@)
            ==> installed_kind(x) == Some("motorcycle"@),
        seq_contains(x, "vehicle"@) && !seq_contains(x, "plane"@) && !seq_contains(x, "bike"@)
            ==> installed_kind(x) == Some("car"@),
        !seq_contains(x, "vehicle"@) && seq_contains(x, "ymap"@) ==> installed_kind(x) == Some(
            "map"@,
        ),
        !seq_contains(x, "vehicle"@) && !seq_contains(x, "ymap"@) && seq_contains(x, "peds.meta"@)
            ==> installed_kind(x) == Some("ped"@),
{
}

/// How one file changes the kind read from an extracted pack: a vehicle
/// class that the pattern reads decides, whatever was read before; a vehicle
/// type, a `<ymap` in a metadata file, or a ped (by a `peds.meta` name or a
/// `<ped` in the text) only count, in that order, while no kind has been
/// read; and a kind once read is never lost.
pub proof fn law_kind_after_priorities(kind: Option<Seq<char>>, lower: Seq<char>, c: Seq<char>)
    ensures
        seq_contains(c, "<vehicleClass>"@) ==> match regex_first_group(VEHICLE_CLASS_PATTERN@, c) {
            Some(g) => kind_after(kind, lower, c) == Some(class_kind(g)),
            None => true,
        },
        kind is Some && !(seq_contains(c, "<vehicleClass>"@) && regex_first_group(
            VEHICLE_CLASS_PATTERN@,
            c,
        ) is Some) ==> kind_after(kind, lower, c) == kind,
        kind is Some ==> kind_after(kind, lower, c) is Some,
        kind is None && !seq_contains(c, "<vehicleClass>"@) && seq_contains(c, "<type>"@) ==> match regex_first_group(VEHICLE_TYPE_PATTERN@, c) {
            Some(g) => kind_after(kind, lower, c) == Some(type_kind(g)),
            None => true,
        },
        kind is None && !seq_contains(c, "<vehicleClass>"@) && !seq_contains(c, "<type>"@)
            && is_metadata_xml(lower) && seq_contains(c, "<ymap"@) ==> kind_after(kind, lower, c)
            == Some("map"@),
        kind is None && !seq_contains(c, "<vehicleClass>"@) && !seq_contains(c, "<type>"@)
            && !(is_metadata_xml(lower) && seq_contains(c, "<ymap"@)) && (seq_contains(
            lower,
            "peds.meta"@,
        ) || seq_contains(c, "<ped"@)) ==> kind_after(kind, lower, c) == Some("ped"@),
        kind_after(None, lower, c) is None ==> !seq_contains(lower, "peds.meta"@) && !seq_contains(
            c,
            "<ped"@,
        ),
{
}

} // verus!
