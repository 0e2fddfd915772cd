//! The rules for `dlclist.xml`: which packs it lists, in which order, and how
//! the list is put into the document.

use vstd::prelude::*;
use vstd::relations::sorted_by;
use vstd::string::*;
use crate::text::{
    ascii_lower_seq, chars_eq_ignore_case, chars_lex_le, chars_view, eq_ignore_case, from_chars,
    lemma_lex_lt_transitive, lemma_lex_total, lemma_lex_total_ordering, lemma_lex_transitive,
    lex_le, lex_lt, lex_order, seq_starts_with, strings_view, to_chars,
};
use crate::xml::{
    child_named, element_model, first_named, has_child_named, is_first_named, lemma_first_named,
    lemma_first_named_unique, new_element, node_element, parse_element, parsed_root,
    plain_element, push_element_node, push_text_node, replace_children_of_child, with_children,
    write_element, write_error_text, written_xml, WriterSettings, XmlElementModel, XmlNodeModel,
};
use xmltree::Element;

verus! {

broadcast use vstd::seq_lib::group_to_multiset_ensures, vstd::seq_lib::group_seq_lib_default;

/// The packs that ship with the game; `dlclist.xml` always lists them first,
/// in this order.
pub open spec fn base_dlc_packs() -> Seq<Seq<char>> {
    seq![
        "mp2023_01"@,
        "mp2023_01_g9ec"@,
        "mp2023_02"@,
        "mp2023_02_g9ec"@,
        "mp2024_01"@,
        "mp2024_01_g9ec"@,
        "mp2024_02"@,
        "mp2024_02_g9ec"@,
        "mp2025_01"@,
        "mp2025_01_G9EC"@,
        "mpairraces"@,
        "mpapartment"@,
        "mpassault"@,
        "mpbattle"@,
        "mpbiker"@,
        "mpchristmas2"@,
        "mpchristmas2017"@,
        "mpchristmas2018"@,
        "mpchristmas3"@,
        "mpchristmas3_g9ec"@,
        "mpexecutive"@,
        "mpg9ec"@,
        "mpgunrunning"@,
        "mphalloween"@,
        "mpheist"@,
        "mpheist3"@,
        "mpheist4"@,
        "mpimportexport"@,
        "mpjanuary2016"@,
        "mplowrider"@,
        "mplowrider2"@,
        "mpluxe"@,
        "mpluxe2"@,
        "mppatchesng"@,
        "mpreplay"@,
        "mpsecurity"@,
        "mpsmuggler"@,
        "mpspecialraces"@,
        "mpstunt"@,
        "mpsum"@,
        "mpsum2"@,
        "mpSum2_G9EC"@,
        "mptuner"@,
        "mpvalentines2"@,
        "mpvinewood"@,
        "mpxmas_604490"@,
        "patch2023_01"@,
        "patch2023_01_g9ec"@,
        "patch2023_02"@,
        "patch2024_01"@,
        "patch2024_01_g9ec"@,
        "patch2024_02"@,
        "patch2025_01"@,
        "patchday10ng"@,
        "patchday11ng"@,
        "patchday12ng"@,
        "patchday13ng"@,
        "patchday14ng"@,
        "patchday15ng"@,
        "patchday16ng"@,
        "patchday17ng"@,
        "patchday18ng"@,
        "patchday19ng"@,
        "patchday1ng"@,
        "patchday20ng"@,
        "patchday21ng"@,
        "patchday22ng"@,
        "patchday23ng"@,
        "patchday24ng"@,
        "patchday25ng"@,
        "patchday26ng"@,
        "patchday27g9ecng"@,
        "patchday27ng"@,
        "patchday28g9ecng"@,
        "patchday28ng"@,
        "patchday2bng"@,
        "patchday2ng"@,
        "patchday3ng"@,
        "patchday4ng"@,
        "patchday5ng"@,
        "patchday6ng"@,
        "patchday7ng"@,
        "patchday8ng"@,
        "patchday9ng"@,
        "patchdayg9ecng"@
    ]
}

/// The names of the packs that ship with the game, in their listed order.
pub fn base_dlc_pack_names() -> (v: Vec<&'static str>)
    ensures
        v@.map_values(|s: &str| s@) == base_dlc_packs(),
{
    let v = vec![
        "mp2023_01",
        "mp2023_01_g9ec",
        "mp2023_02",
        "mp2023_02_g9ec",
        "mp2024_01",
        "mp2024_01_g9ec",
        "mp2024_02",
        "mp2024_02_g9ec",
        "mp2025_01",
        "mp2025_01_G9EC",
        "mpairraces",
        "mpapartment",
        "mpassault",
        "mpbattle",
        "mpbiker",
        "mpchristmas2",
        "mpchristmas2017",
        "mpchristmas2018",
        "mpchristmas3",
        "mpchristmas3_g9ec",
        "mpexecutive",
        "mpg9ec",
        "mpgunrunning",
        "mphalloween",
        "mpheist",
        "mpheist3",
        "mpheist4",
        "mpimportexport",
        "mpjanuary2016",
        "mplowrider",
        "mplowrider2",
        "mpluxe",
        "mpluxe2",
        "mppatchesng",
        "mpreplay",
        "mpsecurity",
        "mpsmuggler",
        "mpspecialraces",
        "mpstunt",
        "mpsum",
        "mpsum2",
        "mpSum2_G9EC",
        "mptuner",
        "mpvalentines2",
        "mpvinewood",
        "mpxmas_604490",
        "patch2023_01",
        "patch2023_01_g9ec",
        "patch2023_02",
        "patch2024_01",
        "patch2024_01_g9ec",
        "patch2024_02",
        "patch2025_01",
        "patchday10ng",
        "patchday11ng",
        "patchday12ng",
        "patchday13ng",
        "patchday14ng",
        "patchday15ng",
        "patchday16ng",
        "patchday17ng",
        "patchday18ng",
        "patchday19ng",
        "patchday1ng",
        "patchday20ng",
        "patchday21ng",
        "patchday22ng",
        "patchday23ng",
        "patchday24ng",
        "patchday25ng",
        "patchday26ng",
        "patchday27g9ecng",
        "patchday27ng",
        "patchday28g9ecng",
        "patchday28ng",
        "patchday2bng",
        "patchday2ng",
        "patchday3ng",
        "patchday4ng",
        "patchday5ng",
        "patchday6ng",
        "patchday7ng",
        "patchday8ng",
        "patchday9ng",
        "patchdayg9ecng"
    ];
    assert(v@.map_values(|s: &str| s@) =~= base_dlc_packs());
    v
}

/// `name` is one of the packs that ship with the game, compared as
/// `str::eq_ignore_ascii_case` compares.
pub open spec fn is_base_pack(name: Seq<char>) -> bool {
    exists|i: int|
        0 <= i < base_dlc_packs().len() && eq_ignore_case(#[trigger] base_dlc_packs()[i], name)
}

/// `name` is a pack folder that is not one of the game's own.
pub open spec fn is_mod_pack(name: Seq<char>) -> bool {
    !is_base_pack(name)
}

/// The mod packs that `dlclist.xml` lists after the game's own: the folders
/// that are not base packs, in ascending order (`sort_unstable` on strings).
pub open spec fn listed_mods(folders: Seq<Seq<char>>) -> Seq<Seq<char>> {
    folders.filter(|n: Seq<char>| is_mod_pack(n)).sort_by(lex_order())
}

/// The text of the `<Item>` that names a pack.
pub open spec fn pack_entry(name: Seq<char>) -> Seq<char> {
    "dlcpacks:/"@ + name + "/"@
}

/// Every `<Item>` text of a synced `dlclist.xml`, in order: the base packs,
/// then the listed mods.
pub open spec fn dlclist_entries_of(folders: Seq<Seq<char>>) -> Seq<Seq<char>> {
    base_dlc_packs().map_values(|n: Seq<char>| pack_entry(n)) + listed_mods(folders).map_values(
        |n: Seq<char>| pack_entry(n),
    )
}

/// Whether `name` is one of the packs that ship with the game.
pub fn is_base_pack_name(name: &Vec<char>) -> (r: bool)
    ensures
        r == is_base_pack(name@),
{
    let base = base_dlc_pack_names();
    for i in 0..base.len()
        invariant
            base@.map_values(|s: &str| s@) == base_dlc_packs(),
            forall|j: int| 0 <= j < i ==> !eq_ignore_case(#[trigger] base_dlc_packs()[j], name@),
    {
        let b = to_chars(base[i]);
        assert(base_dlc_packs()[i as int] == base@[i as int]@);
        if chars_eq_ignore_case(&b, name) {
            return true;
        }
    }
    false
}

/// The folders that are not base packs, in their given order.
pub fn mod_pack_folders(folders: &Vec<String>) -> (r: Vec<Vec<char>>)
    ensures
        chars_view(r@) == strings_view(folders@).filter(|n: Seq<char>| is_mod_pack(n)),
{
    let ghost p = |n: Seq<char>| is_mod_pack(n);
    let mut r: Vec<Vec<char>> = Vec::new();
    for i in 0..folders.len()
        invariant
            p == (|n: Seq<char>| is_mod_pack(n)),
            chars_view(r@) == strings_view(folders@).take(i as int).filter(p),
    {
        let name = to_chars(folders[i].as_str());
        let keep = !is_base_pack_name(&name);
        assert(strings_view(folders@).take(i + 1) =~= strings_view(folders@).take(i as int).push(
            name@,
        ));
        proof {
            strings_view(folders@).take(i as int).lemma_filter_push(name@, p);
        }
        assert(p(name@) == keep);
        if keep {
            r.push(name);
            assert(chars_view(r@) =~= strings_view(folders@).take(i as int).filter(p).push(name@));
        }
    }
    assert(strings_view(folders@).take(folders.len() as int) =~= strings_view(folders@));
    r
}

/// Inserts `x` into the sorted `r`, after every entry ordered before it.
fn insert_sorted(r: &mut Vec<Vec<char>>, x: Vec<char>)
    requires
        sorted_by(chars_view(old(r)@), lex_order()),
    ensures
        sorted_by(chars_view(final(r)@), lex_order()),
        chars_view(final(r)@).to_multiset() == chars_view(old(r)@).to_multiset().insert(x@),
{
    let mut j: usize = 0;
    while j < r.len() && chars_lex_le(&r[j], &x)
        invariant
            j <= r.len(),
            forall|k: int| 0 <= k < j ==> lex_le(#[trigger] r@[k]@, x@),
        decreases r.len() - j,
    {
        j = j + 1;
    }
    let ghost before = chars_view(r@);
    let ghost xv = x@;
    proof {
        if j < r.len() {
            lemma_lex_total(r@[j as int]@, x@);
        }
    }
    r.insert(j, x);
    assert(chars_view(r@) =~= before.insert(j as int, xv));
    let ghost after = chars_view(r@);
    assert forall|a: int, b: int| 0 <= a < b < after.len() implies #[trigger] lex_order()(
        after[a],
        after[b],
    ) by {
        if b < j {
            assert(lex_order()(before[a], before[b]));
        } else if b == j {
        } else if a < j {
            assert(lex_order()(before[a], before[b - 1]));
        } else if a == j {
            if b - 1 > j {
                assert(lex_order()(before[j as int], before[b - 1]));
                lemma_lex_transitive(xv, before[j as int], before[b - 1]);
            }
        } else {
            assert(lex_order()(before[a - 1], before[b - 1]));
        }
    }
}

/// `v` in ascending lexicographic order (insertion sort).
pub fn sort_names(v: Vec<Vec<char>>) -> (r: Vec<Vec<char>>)
    ensures
        chars_view(r@) == chars_view(v@).sort_by(lex_order()),
{
    let ghost orig = chars_view(v@);
    let mut rest = v;
    let mut r: Vec<Vec<char>> = Vec::new();
    while rest.len() > 0
        invariant
            sorted_by(chars_view(r@), lex_order()),
            chars_view(r@).to_multiset().add(chars_view(rest@).to_multiset()) == orig.to_multiset(),
        decreases rest.len(),
    {
        let ghost before = chars_view(rest@);
        let x = rest.pop().unwrap();
        assert(before =~= chars_view(rest@).push(x@));
        insert_sorted(&mut r, x);
        assert(chars_view(r@).to_multiset().add(chars_view(rest@).to_multiset()) =~= orig.to_multiset());
    }
    proof {
        assert(chars_view(rest@) =~= Seq::<Seq<char>>::empty());
        assert(chars_view(r@).to_multiset() =~= orig.to_multiset());
        lemma_lex_total_ordering();
        orig.lemma_sort_by_ensures(lex_order());
        vstd::seq_lib::lemma_sorted_unique(chars_view(r@), orig.sort_by(lex_order()), lex_order());
    }
    r
}

/// The `<Item>` text for a pack: `dlcpacks:/<name>/`.
pub fn pack_entry_text(name: &str) -> (r: String)
    ensures
        r@ == pack_entry(name@),
{
    let mut r = String::from_str("dlcpacks:/");
    r.append(name);
    r.append("/");
    r
}

/// Every `<Item>` text of a synced `dlclist.xml` for the given pack folders:
/// the base packs in their listed order, then the folders that are not base
/// packs (compared ignoring ASCII case), sorted.
pub fn dlclist_entries(folders: &Vec<String>) -> (r: Vec<String>)
    ensures
        strings_view(r@) == dlclist_entries_of(strings_view(folders@)),
{
    let ghost want = dlclist_entries_of(strings_view(folders@));
    let ghost nb = base_dlc_packs().len();
    let base = base_dlc_pack_names();
    let mut r: Vec<String> = Vec::new();
    for i in 0..base.len()
        invariant
            base@.map_values(|s: &str| s@) == base_dlc_packs(),
            nb == base_dlc_packs().len(),
            want == dlclist_entries_of(strings_view(folders@)),
            strings_view(r@) =~= want.take(i as int),
    {
        let e = pack_entry_text(base[i]);
        assert(base_dlc_packs()[i as int] == base@[i as int]@);
        assert(want[i as int] == pack_entry(base_dlc_packs()[i as int]));
        let ghost old_r = strings_view(r@);
        r.push(e);
        assert(strings_view(r@) =~= old_r.push(e@));
        assert(want.take(i + 1) =~= want.take(i as int).push(want[i as int]));
        assert(strings_view(r@) =~= want.take(i + 1));
    }
    let mods = sort_names(mod_pack_folders(folders));
    let ghost lm = listed_mods(strings_view(folders@));
    assert(chars_view(mods@) == lm);
    for i in 0..mods.len()
        invariant
            chars_view(mods@) == lm,
            nb == base_dlc_packs().len(),
            base@.len() == nb,
            want == dlclist_entries_of(strings_view(folders@)),
            lm == listed_mods(strings_view(folders@)),
            strings_view(r@) =~= want.take(nb + i),
    {
        let name = from_chars(&mods[i]);
        let e = pack_entry_text(name.as_str());
        assert(lm[i as int] == mods@[i as int]@);
        assert(want[nb + i] == pack_entry(lm[i as int]));
        let ghost old_r = strings_view(r@);
        r.push(e);
        assert(strings_view(r@) =~= old_r.push(e@));
        assert(want.take(nb + i + 1) =~= want.take(nb + i).push(want[nb + i]));
        assert(strings_view(r@) =~= want.take(nb + i + 1));
    }
    assert(want.take(nb + mods.len()) =~= want);
    r
}

/// The `<Item>` element that holds one entry.
pub open spec fn item_node(text: Seq<char>) -> XmlNodeModel {
    XmlNodeModel::Element(plain_element("Item"@, seq![XmlNodeModel::Text(text)]))
}

/// One `<Item>` per entry.
pub open spec fn item_nodes(entries: Seq<Seq<char>>) -> Seq<XmlNodeModel> {
    entries.map_values(|t: Seq<char>| item_node(t))
}

/// The document built where the old one cannot be used: a
/// `<SMandatoryPacksData>` whose only child is a `<Paths>` with the entries,
/// neither of them with attributes, prefix or namespace.
pub open spec fn fresh_dlclist(entries: Seq<Seq<char>>) -> XmlElementModel {
    plain_element(
        "SMandatoryPacksData"@,
        seq![XmlNodeModel::Element(plain_element("Paths"@, item_nodes(entries)))],
    )
}

/// The root of a synced `dlclist.xml`: where the old document parsed and has a
/// `<Paths>` child, that document with the children of its first `<Paths>`
/// replaced by the entries and everything else kept (the root's and that
/// `<Paths>`'s names, prefixes, namespaces and attributes, and every other
/// child); otherwise the fresh document.
pub open spec fn synced_root(old: Option<XmlElementModel>, entries: Seq<Seq<char>>) -> XmlElementModel {
    match old {
        Some(r) => if has_child_named(r.children, "Paths"@) {
            let k = first_named(r.children, "Paths"@);
            with_children(
                r,
                r.children.update(
                    k,
                    XmlNodeModel::Element(with_children(node_element(r.children[k]), item_nodes(entries))),
                ),
            )
        } else {
            fresh_dlclist(entries)
        },
        None => fresh_dlclist(entries),
    }
}

/// One `<Item>` element per entry.
fn item_elements(entries: &Vec<String>) -> (r: Vec<Element>)
    ensures
        r@.map_values(|c: Element| XmlNodeModel::Element(element_model(c))) == item_nodes(
            strings_view(entries@),
        ),
{
    let ghost want = item_nodes(strings_view(entries@));
    let mut r: Vec<Element> = Vec::new();
    for i in 0..entries.len()
        invariant
            want == item_nodes(strings_view(entries@)),
            r@.map_values(|c: Element| XmlNodeModel::Element(element_model(c))) =~= want.take(
                i as int,
            ),
    {
        let mut item = new_element("Item");
        push_text_node(&mut item, entries[i].clone());
        assert(element_model(item).children =~= seq![XmlNodeModel::Text(entries@[i as int]@)]);
        assert(element_model(item) == plain_element(
            "Item"@,
            seq![XmlNodeModel::Text(entries@[i as int]@)],
        ));
        let ghost old_r = r@.map_values(|c: Element| XmlNodeModel::Element(element_model(c)));
        r.push(item);
        assert(r@.map_values(|c: Element| XmlNodeModel::Element(element_model(c))) =~= old_r.push(
            XmlNodeModel::Element(element_model(item)),
        ));
        assert(want.take(i + 1) =~= want.take(i as int).push(want[i as int]));
    }
    assert(want.take(entries.len() as int) =~= want);
    r
}

/// The root element of `dlclist.xml` after syncing it with the pack folders:
/// `xml` is the old file's text, `folders` the names of the folders under
/// `dlcpacks` that hold a `dlc.rpf`.
pub fn sync_dlclist_root(xml: &str, folders: &Vec<String>) -> (root: Element)
    ensures
        element_model(root) == synced_root(
            parsed_root(xml.spec_bytes()),
            dlclist_entries_of(strings_view(folders@)),
        ),
{
    let entries = dlclist_entries(folders);
    let items = item_elements(&entries);
    let ghost want = synced_root(
        parsed_root(xml.spec_bytes()),
        dlclist_entries_of(strings_view(folders@)),
    );
    let ghost items_model = item_nodes(strings_view(entries@));
    match parse_element(xml.as_bytes()) {
        Ok(el) => {
            if child_named(&el, "Paths").is_some() {
                let mut el = el;
                replace_children_of_child(&mut el, "Paths", items);
                assert(element_model(el) == want);
                return el;
            }
        },
        Err(_) => {},
    }
    let mut root = new_element("SMandatoryPacksData");
    push_element_node(&mut root, new_element("Paths"));
    let ghost m = element_model(root);
    assert(m.children =~= seq![XmlNodeModel::Element(plain_element("Paths"@, Seq::empty()))]);
    assert(is_first_named(m.children, "Paths"@, 0));
    proof {
        lemma_first_named_unique(m.children, "Paths"@, 0);
    }
    replace_children_of_child(&mut root, "Paths", items);
    assert(element_model(root).children =~= seq![
        XmlNodeModel::Element(plain_element("Paths"@, items_model)),
    ]);
    root
}

/// The writer settings for `dlclist.xml`: indented by two spaces, without a
/// declaration of the writer's own.
pub fn dlclist_writer_settings() -> (s: WriterSettings)
    ensures
        s.perform_indent,
        s.indent@ == "  "@,
        !s.declaration,
{
    WriterSettings { perform_indent: true, indent: String::from_str("  "), declaration: false }
}

/// The declaration that starts a written `dlclist.xml`.
pub open spec fn xml_declaration() -> Seq<char> {
    "<?xml version=\"1.0\" encoding=\"UTF-8\"?>\n"@
}

/// The text that starts the message of a failed write.
pub open spec fn write_failure_prefix() -> Seq<char> {
    "Failed to write synced XML: "@
}

/// What `xmltree` writes for `root` with the settings of `dlclist.xml`.
pub open spec fn dlclist_body(root: XmlElementModel) -> Option<Seq<u8>> {
    written_xml(root, true, "  "@, false)
}

/// The bytes of `dlclist.xml` for `root`: the XML declaration and a line
/// break, then the element as `xmltree` writes it, indented by two spaces,
/// without a second declaration; an error where the writer fails.
pub fn render_dlclist(root: &Element) -> (r: Result<Vec<u8>, String>)
    ensures
        r is Ok <==> dlclist_body(element_model(*root)) is Some,
        r matches Ok(bytes) ==> bytes@ == vstd::utf8::encode_utf8(xml_declaration()) + dlclist_body(
            element_model(*root),
        )->0,
        r matches Err(msg) ==> seq_starts_with(msg@, write_failure_prefix()),
{
    let decl = "<?xml version=\"1.0\" encoding=\"UTF-8\"?>\n";
    let mut buf = decl.as_bytes_vec();
    let ghost start = buf@;
    let settings = dlclist_writer_settings();
    match write_element(root, &mut buf, &settings) {
        Ok(()) => {
            assert(buf@ =~= start + buf@.skip(start.len() as int));
            Ok(buf)
        },
        Err(e) => {
            let mut msg = String::from_str("Failed to write synced XML: ");
            let detail = write_error_text(&e);
            msg.append(detail.as_str());
            assert(msg@.subrange(0, write_failure_prefix().len() as int) =~= write_failure_prefix());
            Err(msg)
        },
    }
}

/// Different pack names give different entries.
pub proof fn lemma_pack_entry_injective(a: Seq<char>, b: Seq<char>)
    requires
        pack_entry(a) == pack_entry(b),
    ensures
        a == b,
{
    reveal_strlit("dlcpacks:/");
    reveal_strlit("/");
    let n = "dlcpacks:/"@.len();
    assert("/"@.len() == 1);
    assert(pack_entry(a).len() == n + a.len() + 1);
    assert(pack_entry(b).len() == n + b.len() + 1);
    assert(a.len() == b.len());
    assert(a =~= pack_entry(a).subrange(n as int, (n + a.len()) as int));
    assert(b =~= pack_entry(b).subrange(n as int, (n + b.len()) as int));
}

/// Every name equals itself up to case.
pub proof fn lemma_eq_ignore_case_reflexive(a: Seq<char>)
    ensures
        eq_ignore_case(a, a),
{
}

/// A synced `dlclist.xml` always lists the game's own packs first, in their
/// listed order, whatever the pack folders are.
pub proof fn law_base_packs_listed_first(folders: Seq<Seq<char>>, i: int)
    requires
        0 <= i < base_dlc_packs().len(),
    ensures
        dlclist_entries_of(folders)[i] == pack_entry(base_dlc_packs()[i]),
{
}

/// The mods that a synced `dlclist.xml` lists after the game's packs are in
/// ascending order, and are exactly the folders that are not base packs, each
/// as often as it occurs among the folders.
pub proof fn law_listed_mods_sorted_and_complete(folders: Seq<Seq<char>>)
    ensures
        sorted_by(listed_mods(folders), lex_order()),
        listed_mods(folders).to_multiset() == folders.filter(
            |n: Seq<char>| is_mod_pack(n),
        ).to_multiset(),
{
    lemma_lex_total_ordering();
    folders.filter(|n: Seq<char>| is_mod_pack(n)).lemma_sort_by_ensures(lex_order());
}

/// No pack of the game's own is listed again among the mods, whatever case
/// its folder's name is written in.
pub proof fn law_no_base_pack_among_mods(folders: Seq<Seq<char>>, name: Seq<char>)
    requires
        listed_mods(folders).contains(name),
    ensures
        !is_base_pack(name),
{
    let p = |n: Seq<char>| is_mod_pack(n);
    law_listed_mods_sorted_and_complete(folders);
    let filtered = folders.filter(p);
    assert(listed_mods(folders).to_multiset().contains(name));
    assert(filtered.to_multiset().contains(name));
    assert(filtered.contains(name));
    folders.lemma_filter_contains_rev(p, name);
}

/// A pack that is not one of the game's own is listed in a synced
/// `dlclist.xml` exactly when its folder is among the pack folders: installing
/// a mod adds it to the list, deleting it takes it off.
pub proof fn law_mod_listed_iff_folder_present(folders: Seq<Seq<char>>, name: Seq<char>)
    requires
        is_mod_pack(name),
    ensures
        dlclist_entries_of(folders).contains(pack_entry(name)) <==> folders.contains(name),
{
    let p = |n: Seq<char>| is_mod_pack(n);
    let base_part = base_dlc_packs().map_values(|n: Seq<char>| pack_entry(n));
    let lm = listed_mods(folders);
    let mod_part = lm.map_values(|n: Seq<char>| pack_entry(n));
    let all = dlclist_entries_of(folders);
    law_listed_mods_sorted_and_complete(folders);
    let filtered = folders.filter(p);
    if all.contains(pack_entry(name)) {
        let k = choose|k: int| 0 <= k < all.len() && all[k] == pack_entry(name);
        if k < base_part.len() {
            lemma_pack_entry_injective(base_dlc_packs()[k], name);
            lemma_eq_ignore_case_reflexive(name);
            assert(eq_ignore_case(base_dlc_packs()[k], name));
            assert(false);
        } else {
            let m = k - base_part.len();
            assert(all[k] == mod_part[m]);
            lemma_pack_entry_injective(lm[m], name);
            assert(lm.to_multiset().contains(name));
            assert(filtered.to_multiset().contains(name));
            assert(filtered.contains(name));
            folders.lemma_filter_contains_rev(p, name);
        }
    }
    if folders.contains(name) {
        let j = choose|j: int| 0 <= j < folders.len() && folders[j] == name;
        folders.lemma_filter_contains(p, j);
        assert(filtered.contains(name));
        assert(filtered.to_multiset().contains(name));
        assert(lm.to_multiset().contains(name));
        assert(lm.contains(name));
        let m = choose|m: int| 0 <= m < lm.len() && lm[m] == name;
        assert(all[base_part.len() + m] == pack_entry(name));
    }
}

/// In a synced `dlclist.xml` the first `<Paths>` element holds exactly the
/// entries, whatever the old document held.
pub proof fn law_synced_paths_hold_entries(old: Option<XmlElementModel>, entries: Seq<Seq<char>>)
    ensures
        ({
            let c = synced_root(old, entries).children;
            &&& has_child_named(c, "Paths"@)
            &&& node_element(c[first_named(c, "Paths"@)]).children == item_nodes(entries)
        }),
{
    match old {
        Some(r) => {
            if has_child_named(r.children, "Paths"@) {
                let k = first_named(r.children, "Paths"@);
                lemma_first_named(r.children, "Paths"@);
                let c2 = synced_root(old, entries).children;
                assert(is_first_named(c2, "Paths"@, k));
                lemma_first_named_unique(c2, "Paths"@, k);
            } else {
                let c = fresh_dlclist(entries).children;
                assert(is_first_named(c, "Paths"@, 0));
                lemma_first_named_unique(c, "Paths"@, 0);
            }
        },
        None => {
            let c = fresh_dlclist(entries).children;
            assert(is_first_named(c, "Paths"@, 0));
            lemma_first_named_unique(c, "Paths"@, 0);
        },
    }
}

/// Syncing a document that has a `<Paths>` keeps everything but the children
/// of its first `<Paths>`: the root's name, prefix, namespaces and
/// attributes, every other child in its place, and that `<Paths>`'s own
/// fields.
pub proof fn law_sync_keeps_document(old: XmlElementModel, entries: Seq<Seq<char>>)
    requires
        has_child_named(old.children, "Paths"@),
    ensures
        ({
            let r = synced_root(Some(old), entries);
            let k = first_named(old.children, "Paths"@);
            &&& r.name == old.name
            &&& r.prefix == old.prefix
            &&& r.namespace == old.namespace
            &&& r.namespaces == old.namespaces
            &&& r.attributes == old.attributes
            &&& r.children.len() == old.children.len()
            &&& forall|i: int| 0 <= i < old.children.len() && i != k ==> r.children[i] == old.children[i]
            &&& r.children[k] == XmlNodeModel::Element(
                with_children(node_element(old.children[k]), item_nodes(entries)),
            )
        }),
{
    lemma_first_named(old.children, "Paths"@);
}

/// Syncing a synced `dlclist.xml` again with the same folders changes nothing.
pub proof fn law_sync_idempotent(old: Option<XmlElementModel>, entries: Seq<Seq<char>>)
    ensures
        synced_root(Some(synced_root(old, entries)), entries) == synced_root(old, entries),
{
    let r = synced_root(old, entries);
    law_synced_paths_hold_entries(old, entries);
    let k = first_named(r.children, "Paths"@);
    lemma_first_named(r.children, "Paths"@);
    let p = node_element(r.children[k]);
    assert(r.children[k] is Element);
    assert(with_children(p, item_nodes(entries)) == p);
    assert(r.children.update(k, XmlNodeModel::Element(p)) =~= r.children);
    assert(with_children(r, r.children) == r);
}

/// Syncing the written file again gives the same root, where reading the
/// written bytes back gives the synced root.
pub proof fn law_sync_twice_on_file(
    old: Option<XmlElementModel>,
    entries: Seq<Seq<char>>,
    written: Seq<u8>,
)
    requires
        parsed_root(written) == Some(synced_root(old, entries)),
    ensures
        synced_root(parsed_root(written), entries) == synced_root(old, entries),
{
    law_sync_idempotent(old, entries);
}

/// The names of the packs `k` and `k + 1` of `s`, in ASCII lower case, stand
/// in strictly ascending order.
pub open spec fn lowered_ascending_at(s: Seq<Seq<char>>, k: int) -> bool {
    lex_lt(ascii_lower_seq(s[k]), ascii_lower_seq(s[k + 1]))
}

/// The game's packs, one by one.
proof fn lemma_base_pack_names()
    ensures
        base_dlc_packs().len() == 85,
        base_dlc_packs()[0] == "mp2023_01"@,
        base_dlc_packs()[1] == "mp2023_01_g9ec"@,
        base_dlc_packs()[2] == "mp2023_02"@,
        base_dlc_packs()[3] == "mp2023_02_g9ec"@,
        base_dlc_packs()[4] == "mp2024_01"@,
        base_dlc_packs()[5] == "mp2024_01_g9ec"@,
        base_dlc_packs()[6] == "mp2024_02"@,
        base_dlc_packs()[7] == "mp2024_02_g9ec"@,
        base_dlc_packs()[8] == "mp2025_01"@,
        base_dlc_packs()[9] == "mp2025_01_G9EC"@,
        base_dlc_packs()[10] == "mpairraces"@,
        base_dlc_packs()[11] == "mpapartment"@,
        base_dlc_packs()[12] == "mpassault"@,
        base_dlc_packs()[13] == "mpbattle"@,
        base_dlc_packs()[14] == "mpbiker"@,
        base_dlc_packs()[15] == "mpchristmas2"@,
        base_dlc_packs()[16] == "mpchristmas2017"@,
        base_dlc_packs()[17] == "mpchristmas2018"@,
        base_dlc_packs()[18] == "mpchristmas3"@,
        base_dlc_packs()[19] == "mpchristmas3_g9ec"@,
        base_dlc_packs()[20] == "mpexecutive"@,
        base_dlc_packs()[21] == "mpg9ec"@,
        base_dlc_packs()[22] == "mpgunrunning"@,
        base_dlc_packs()[23] == "mphalloween"@,
        base_dlc_packs()[24] == "mpheist"@,
        base_dlc_packs()[25] == "mpheist3"@,
        base_dlc_packs()[26] == "mpheist4"@,
        base_dlc_packs()[27] == "mpimportexport"@,
        base_dlc_packs()[28] == "mpjanuary2016"@,
        base_dlc_packs()[29] == "mplowrider"@,
        base_dlc_packs()[30] == "mplowrider2"@,
        base_dlc_packs()[31] == "mpluxe"@,
        base_dlc_packs()[32] == "mpluxe2"@,
        base_dlc_packs()[33] == "mppatchesng"@,
        base_dlc_packs()[34] == "mpreplay"@,
        base_dlc_packs()[35] == "mpsecurity"@,
        base_dlc_packs()[36] == "mpsmuggler"@,
        base_dlc_packs()[37] == "mpspecialraces"@,
        base_dlc_packs()[38] == "mpstunt"@,
        base_dlc_packs()[39] == "mpsum"@,
        base_dlc_packs()[40] == "mpsum2"@,
        base_dlc_packs()[41] == "mpSum2_G9EC"@,
        base_dlc_packs()[42] == "mptuner"@,
        base_dlc_packs()[43] == "mpvalentines2"@,
        base_dlc_packs()[44] == "mpvinewood"@,
        base_dlc_packs()[45] == "mpxmas_604490"@,
        base_dlc_packs()[46] == "patch2023_01"@,
        base_dlc_packs()[47] == "patch2023_01_g9ec"@,
        base_dlc_packs()[48] == "patch2023_02"@,
        base_dlc_packs()[49] == "patch2024_01"@,
        base_dlc_packs()[50] == "patch2024_01_g9ec"@,
        base_dlc_packs()[51] == "patch2024_02"@,
        base_dlc_packs()[52] == "patch2025_01"@,
        base_dlc_packs()[53] == "patchday10ng"@,
        base_dlc_packs()[54] == "patchday11ng"@,
        base_dlc_packs()[55] == "patchday12ng"@,
        base_dlc_packs()[56] == "patchday13ng"@,
        base_dlc_packs()[57] == "patchday14ng"@,
        base_dlc_packs()[58] == "patchday15ng"@,
        base_dlc_packs()[59] == "patchday16ng"@,
        base_dlc_packs()[60] == "patchday17ng"@,
        base_dlc_packs()[61] == "patchday18ng"@,
        base_dlc_packs()[62] == "patchday19ng"@,
        base_dlc_packs()[63] == "patchday1ng"@,
        base_dlc_packs()[64] == "patchday20ng"@,
        base_dlc_packs()[65] == "patchday21ng"@,
        base_dlc_packs()[66] == "patchday22ng"@,
        base_dlc_packs()[67] == "patchday23ng"@,
        base_dlc_packs()[68] == "patchday24ng"@,
        base_dlc_packs()[69] == "patchday25ng"@,
        base_dlc_packs()[70] == "patchday26ng"@,
        base_dlc_packs()[71] == "patchday27g9ecng"@,
        base_dlc_packs()[72] == "patchday27ng"@,
        base_dlc_packs()[73] == "patchday28g9ecng"@,
        base_dlc_packs()[74] == "patchday28ng"@,
        base_dlc_packs()[75] == "patchday2bng"@,
        base_dlc_packs()[76] == "patchday2ng"@,
        base_dlc_packs()[77] == "patchday3ng"@,
        base_dlc_packs()[78] == "patchday4ng"@,
        base_dlc_packs()[79] == "patchday5ng"@,
        base_dlc_packs()[80] == "patchday6ng"@,
        base_dlc_packs()[81] == "patchday7ng"@,
        base_dlc_packs()[82] == "patchday8ng"@,
        base_dlc_packs()[83] == "patchday9ng"@,
        base_dlc_packs()[84] == "patchdayg9ecng"@,
{
}

/// The first quarter of the game's packs, in ASCII lower case, each strictly
/// before the next.
proof fn lemma_base_pairs_first()
    ensures
        lex_lt(ascii_lower_seq("mp2023_01"@), ascii_lower_seq("mp2023_01_g9ec"@)),
        lex_lt(ascii_lower_seq("mp2023_01_g9ec"@), ascii_lower_seq("mp2023_02"@)),
        lex_lt(ascii_lower_seq("mp2023_02"@), ascii_lower_seq("mp2023_02_g9ec"@)),
        lex_lt(ascii_lower_seq("mp2023_02_g9ec"@), ascii_lower_seq("mp2024_01"@)),
        lex_lt(ascii_lower_seq("mp2024_01"@), ascii_lower_seq("mp2024_01_g9ec"@)),
        lex_lt(ascii_lower_seq("mp2024_01_g9ec"@), ascii_lower_seq("mp2024_02"@)),
        lex_lt(ascii_lower_seq("mp2024_02"@), ascii_lower_seq("mp2024_02_g9ec"@)),
        lex_lt(ascii_lower_seq("mp2024_02_g9ec"@), ascii_lower_seq("mp2025_01"@)),
        lex_lt(ascii_lower_seq("mp2025_01"@), ascii_lower_seq("mp2025_01_G9EC"@)),
        lex_lt(ascii_lower_seq("mp2025_01_G9EC"@), ascii_lower_seq("mpairraces"@)),
        lex_lt(ascii_lower_seq("mpairraces"@), ascii_lower_seq("mpapartment"@)),
        lex_lt(ascii_lower_seq("mpapartment"@), ascii_lower_seq("mpassault"@)),
        lex_lt(ascii_lower_seq("mpassault"@), ascii_lower_seq("mpbattle"@)),
        lex_lt(ascii_lower_seq("mpbattle"@), ascii_lower_seq("mpbiker"@)),
        lex_lt(ascii_lower_seq("mpbiker"@), ascii_lower_seq("mpchristmas2"@)),
        lex_lt(ascii_lower_seq("mpchristmas2"@), ascii_lower_seq("mpchristmas2017"@)),
        lex_lt(ascii_lower_seq("mpchristmas2017"@), ascii_lower_seq("mpchristmas2018"@)),
        lex_lt(ascii_lower_seq("mpchristmas2018"@), ascii_lower_seq("mpchristmas3"@)),
        lex_lt(ascii_lower_seq("mpchristmas3"@), ascii_lower_seq("mpchristmas3_g9ec"@)),
        lex_lt(ascii_lower_seq("mpchristmas3_g9ec"@), ascii_lower_seq("mpexecutive"@)),
        lex_lt(ascii_lower_seq("mpexecutive"@), ascii_lower_seq("mpg9ec"@)),
{
    assert(lex_lt(ascii_lower_seq("mp2023_01"@), ascii_lower_seq("mp2023_01_g9ec"@))) by {
        reveal_strlit("mp2023_01");
        reveal_strlit("mp2023_01_g9ec");
        reveal_with_fuel(lex_le, 11);
        assert(ascii_lower_seq("mp2023_01"@).len() != ascii_lower_seq("mp2023_01_g9ec"@).len());
    }
    assert(lex_lt(ascii_lower_seq("mp2023_01_g9ec"@), ascii_lower_seq("mp2023_02"@))) by {
        reveal_strlit("mp2023_01_g9ec");
        reveal_strlit("mp2023_02");
        reveal_with_fuel(lex_le, 10);
        assert(ascii_lower_seq("mp2023_01_g9ec"@)[8] != ascii_lower_seq("mp2023_02"@)[8]);
    }
    assert(lex_lt(ascii_lower_seq("mp2023_02"@), ascii_lower_seq("mp2023_02_g9ec"@))) by {
        reveal_strlit("mp2023_02");
        reveal_strlit("mp2023_02_g9ec");
        reveal_with_fuel(lex_le, 11);
        assert(ascii_lower_seq("mp2023_02"@).len() != ascii_lower_seq("mp2023_02_g9ec"@).len());
    }
    assert(lex_lt(ascii_lower_seq("mp2023_02_g9ec"@), ascii_lower_seq("mp2024_01"@))) by {
        reveal_strlit("mp2023_02_g9ec");
        reveal_strlit("mp2024_01");
        reveal_with_fuel(lex_le, 7);
        assert(ascii_lower_seq("mp2023_02_g9ec"@)[5] != ascii_lower_seq("mp2024_01"@)[5]);
    }
    assert(lex_lt(ascii_lower_seq("mp2024_01"@), ascii_lower_seq("mp2024_01_g9ec"@))) by {
        reveal_strlit("mp2024_01");
        reveal_strlit("mp2024_01_g9ec");
        reveal_with_fuel(lex_le, 11);
        assert(ascii_lower_seq("mp2024_01"@).len() != ascii_lower_seq("mp2024_01_g9ec"@).len());
    }
    assert(lex_lt(ascii_lower_seq("mp2024_01_g9ec"@), ascii_lower_seq("mp2024_02"@))) by {
        reveal_strlit("mp2024_01_g9ec");
        reveal_strlit("mp2024_02");
        reveal_with_fuel(lex_le, 10);
        assert(ascii_lower_seq("mp2024_01_g9ec"@)[8] != ascii_lower_seq("mp2024_02"@)[8]);
    }
    assert(lex_lt(ascii_lower_seq("mp2024_02"@), ascii_lower_seq("mp2024_02_g9ec"@))) by {
        reveal_strlit("mp2024_02");
        reveal_strlit("mp2024_02_g9ec");
        reveal_with_fuel(lex_le, 11);
        assert(ascii_lower_seq("mp2024_02"@).len() != ascii_lower_seq("mp2024_02_g9ec"@).len());
    }
    assert(lex_lt(ascii_lower_seq("mp2024_02_g9ec"@), ascii_lower_seq("mp2025_01"@))) by {
        reveal_strlit("mp2024_02_g9ec");
        reveal_strlit("mp2025_01");
        reveal_with_fuel(lex_le, 7);
        assert(ascii_lower_seq("mp2024_02_g9ec"@)[5] != ascii_lower_seq("mp2025_01"@)[5]);
    }
    assert(lex_lt(ascii_lower_seq("mp2025_01"@), ascii_lower_seq("mp2025_01_G9EC"@))) by {
        reveal_strlit("mp2025_01");
        reveal_strlit("mp2025_01_G9EC");
        reveal_with_fuel(lex_le, 11);
        assert(ascii_lower_seq("mp2025_01"@).len() != ascii_lower_seq("mp2025_01_G9EC"@).len());
    }
    assert(lex_lt(ascii_lower_seq("mp2025_01_G9EC"@), ascii_lower_seq("mpairraces"@))) by {
        reveal_strlit("mp2025_01_G9EC");
        reveal_strlit("mpairraces");
        reveal_with_fuel(lex_le, 4);
        assert(ascii_lower_seq("mp2025_01_G9EC"@)[2] != ascii_lower_seq("mpairraces"@)[2]);
    }
    assert(lex_lt(ascii_lower_seq("mpairraces"@), ascii_lower_seq("mpapartment"@))) by {
        reveal_strlit("mpairraces");
        reveal_strlit("mpapartment");
        reveal_with_fuel(lex_le, 5);
        assert(ascii_lower_seq("mpairraces"@)[3] != ascii_lower_seq("mpapartment"@)[3]);
    }
    assert(lex_lt(ascii_lower_seq("mpapartment"@), ascii_lower_seq("mpassault"@))) by {
        reveal_strlit("mpapartment");
        reveal_strlit("mpassault");
        reveal_with_fuel(lex_le, 5);
        assert(ascii_lower_seq("mpapartment"@)[3] != ascii_lower_seq("mpassault"@)[3]);
    }
    assert(lex_lt(ascii_lower_seq("mpassault"@), ascii_lower_seq("mpbattle"@))) by {
        reveal_strlit("mpassault");
        reveal_strlit("mpbattle");
        reveal_with_fuel(lex_le, 4);
        assert(ascii_lower_seq("mpassault"@)[2] != ascii_lower_seq("mpbattle"@)[2]);
    }
    assert(lex_lt(ascii_lower_seq("mpbattle"@), ascii_lower_seq("mpbiker"@))) by {
        reveal_strlit("mpbattle");
        reveal_strlit("mpbiker");
        reveal_with_fuel(lex_le, 5);
        assert(ascii_lower_seq("mpbattle"@)[3] != ascii_lower_seq("mpbiker"@)[3]);
    }
    assert(lex_lt(ascii_lower_seq("mpbiker"@), ascii_lower_seq("mpchristmas2"@))) by {
        reveal_strlit("mpbiker");
        reveal_strlit("mpchristmas2");
        reveal_with_fuel(lex_le, 4);
        assert(ascii_lower_seq("mpbiker"@)[2] != ascii_lower_seq("mpchristmas2"@)[2]);
    }
    assert(lex_lt(ascii_lower_seq("mpchristmas2"@), ascii_lower_seq("mpchristmas2017"@))) by {
        reveal_strlit("mpchristmas2");
        reveal_strlit("mpchristmas2017");
        reveal_with_fuel(lex_le, 14);
        assert(ascii_lower_seq("mpchristmas2"@).len() != ascii_lower_seq("mpchristmas2017"@).len());
    }
    assert(lex_lt(ascii_lower_seq("mpchristmas2017"@), ascii_lower_seq("mpchristmas2018"@))) by {
        reveal_strlit("mpchristmas2017");
        reveal_strlit("mpchristmas2018");
        reveal_with_fuel(lex_le, 16);
        assert(ascii_lower_seq("mpchristmas2017"@)[14] != ascii_lower_seq("mpchristmas2018"@)[14]);
    }
    assert(lex_lt(ascii_lower_seq("mpchristmas2018"@), ascii_lower_seq("mpchristmas3"@))) by {
        reveal_strlit("mpchristmas2018");
        reveal_strlit("mpchristmas3");
        reveal_with_fuel(lex_le, 13);
        assert(ascii_lower_seq("mpchristmas2018"@)[11] != ascii_lower_seq("mpchristmas3"@)[11]);
    }
    assert(lex_lt(ascii_lower_seq("mpchristmas3"@), ascii_lower_seq("mpchristmas3_g9ec"@))) by {
        reveal_strlit("mpchristmas3");
        reveal_strlit("mpchristmas3_g9ec");
        reveal_with_fuel(lex_le, 14);
        assert(ascii_lower_seq("mpchristmas3"@).len() != ascii_lower_seq("mpchristmas3_g9ec"@).len());
    }
    assert(lex_lt(ascii_lower_seq("mpchristmas3_g9ec"@), ascii_lower_seq("mpexecutive"@))) by {
        reveal_strlit("mpchristmas3_g9ec");
        reveal_strlit("mpexecutive");
        reveal_with_fuel(lex_le, 4);
        assert(ascii_lower_seq("mpchristmas3_g9ec"@)[2] != ascii_lower_seq("mpexecutive"@)[2]);
    }
    assert(lex_lt(ascii_lower_seq("mpexecutive"@), ascii_lower_seq("mpg9ec"@))) by {
        reveal_strlit("mpexecutive");
        reveal_strlit("mpg9ec");
        reveal_with_fuel(lex_le, 4);
        assert(ascii_lower_seq("mpexecutive"@)[2] != ascii_lower_seq("mpg9ec"@)[2]);
    }
}

/// The second quarter of the game's packs, in ASCII lower case, each strictly
/// before the next.
proof fn lemma_base_pairs_second()
    ensures
        lex_lt(ascii_lower_seq("mpg9ec"@), ascii_lower_seq("mpgunrunning"@)),
        lex_lt(ascii_lower_seq("mpgunrunning"@), ascii_lower_seq("mphalloween"@)),
        lex_lt(ascii_lower_seq("mphalloween"@), ascii_lower_seq("mpheist"@)),
        lex_lt(ascii_lower_seq("mpheist"@), ascii_lower_seq("mpheist3"@)),
        lex_lt(ascii_lower_seq("mpheist3"@), ascii_lower_seq("mpheist4"@)),
        lex_lt(ascii_lower_seq("mpheist4"@), ascii_lower_seq("mpimportexport"@)),
        lex_lt(ascii_lower_seq("mpimportexport"@), ascii_lower_seq("mpjanuary2016"@)),
        lex_lt(ascii_lower_seq("mpjanuary2016"@), ascii_lower_seq("mplowrider"@)),
        lex_lt(ascii_lower_seq("mplowrider"@), ascii_lower_seq("mplowrider2"@)),
        lex_lt(ascii_lower_seq("mplowrider2"@), ascii_lower_seq("mpluxe"@)),
        lex_lt(ascii_lower_seq("mpluxe"@), ascii_lower_seq("mpluxe2"@)),
        lex_lt(ascii_lower_seq("mpluxe2"@), ascii_lower_seq("mppatchesng"@)),
        lex_lt(ascii_lower_seq("mppatchesng"@), ascii_lower_seq("mpreplay"@)),
        lex_lt(ascii_lower_seq("mpreplay"@), ascii_lower_seq("mpsecurity"@)),
        lex_lt(ascii_lower_seq("mpsecurity"@), ascii_lower_seq("mpsmuggler"@)),
        lex_lt(ascii_lower_seq("mpsmuggler"@), ascii_lower_seq("mpspecialraces"@)),
        lex_lt(ascii_lower_seq("mpspecialraces"@), ascii_lower_seq("mpstunt"@)),
        lex_lt(ascii_lower_seq("mpstunt"@), ascii_lower_seq("mpsum"@)),
        lex_lt(ascii_lower_seq("mpsum"@), ascii_lower_seq("mpsum2"@)),
        lex_lt(ascii_lower_seq("mpsum2"@), ascii_lower_seq("mpSum2_G9EC"@)),
        lex_lt(ascii_lower_seq("mpSum2_G9EC"@), ascii_lower_seq("mptuner"@)),
{
    assert(lex_lt(ascii_lower_seq("mpg9ec"@), ascii_lower_seq("mpgunrunning"@))) by {
        reveal_strlit("mpg9ec");
        reveal_strlit("mpgunrunning");
        reveal_with_fuel(lex_le, 5);
        assert(ascii_lower_seq("mpg9ec"@)[3] != ascii_lower_seq("mpgunrunning"@)[3]);
    }
    assert(lex_lt(ascii_lower_seq("mpgunrunning"@), ascii_lower_seq("mphalloween"@))) by {
        reveal_strlit("mpgunrunning");
        reveal_strlit("mphalloween");
        reveal_with_fuel(lex_le, 4);
        assert(ascii_lower_seq("mpgunrunning"@)[2] != ascii_lower_seq("mphalloween"@)[2]);
    }
    assert(lex_lt(ascii_lower_seq("mphalloween"@), ascii_lower_seq("mpheist"@))) by {
        reveal_strlit("mphalloween");
        reveal_strlit("mpheist");
        reveal_with_fuel(lex_le, 5);
        assert(ascii_lower_seq("mphalloween"@)[3] != ascii_lower_seq("mpheist"@)[3]);
    }
    assert(lex_lt(ascii_lower_seq("mpheist"@), ascii_lower_seq("mpheist3"@))) by {
        reveal_strlit("mpheist");
        reveal_strlit("mpheist3");
        reveal_with_fuel(lex_le, 9);
        assert(ascii_lower_seq("mpheist"@).len() != ascii_lower_seq("mpheist3"@).len());
    }
    assert(lex_lt(ascii_lower_seq("mpheist3"@), ascii_lower_seq("mpheist4"@))) by {
        reveal_strlit("mpheist3");
        reveal_strlit("mpheist4");
        reveal_with_fuel(lex_le, 9);
        assert(ascii_lower_seq("mpheist3"@)[7] != ascii_lower_seq("mpheist4"@)[7]);
    }
    assert(lex_lt(ascii_lower_seq("mpheist4"@), ascii_lower_seq("mpimportexport"@))) by {
        reveal_strlit("mpheist4");
        reveal_strlit("mpimportexport");
        reveal_with_fuel(lex_le, 4);
        assert(ascii_lower_seq("mpheist4"@)[2] != ascii_lower_seq("mpimportexport"@)[2]);
    }
    assert(lex_lt(ascii_lower_seq("mpimportexport"@), ascii_lower_seq("mpjanuary2016"@))) by {
        reveal_strlit("mpimportexport");
        reveal_strlit("mpjanuary2016");
        reveal_with_fuel(lex_le, 4);
        assert(ascii_lower_seq("mpimportexport"@)[2] != ascii_lower_seq("mpjanuary2016"@)[2]);
    }
    assert(lex_lt(ascii_lower_seq("mpjanuary2016"@), ascii_lower_seq("mplowrider"@))) by {
        reveal_strlit("mpjanuary2016");
        reveal_strlit("mplowrider");
        reveal_with_fuel(lex_le, 4);
        assert(ascii_lower_seq("mpjanuary2016"@)[2] != ascii_lower_seq("mplowrider"@)[2]);
    }
    assert(lex_lt(ascii_lower_seq("mplowrider"@), ascii_lower_seq("mplowrider2"@))) by {
        reveal_strlit("mplowrider");
        reveal_strlit("mplowrider2");
        reveal_with_fuel(lex_le, 12);
        assert(ascii_lower_seq("mplowrider"@).len() != ascii_lower_seq("mplowrider2"@).len());
    }
    assert(lex_lt(ascii_lower_seq("mplowrider2"@), ascii_lower_seq("mpluxe"@))) by {
        reveal_strlit("mplowrider2");
        reveal_strlit("mpluxe");
        reveal_with_fuel(lex_le, 5);
        assert(ascii_lower_seq("mplowrider2"@)[3] != ascii_lower_seq("mpluxe"@)[3]);
    }
    assert(lex_lt(ascii_lower_seq("mpluxe"@), ascii_lower_seq("mpluxe2"@))) by {
        reveal_strlit("mpluxe");
        reveal_strlit("mpluxe2");
        reveal_with_fuel(lex_le, 8);
        assert(ascii_lower_seq("mpluxe"@).len() != ascii_lower_seq("mpluxe2"@).len());
    }
    assert(lex_lt(ascii_lower_seq("mpluxe2"@), ascii_lower_seq("mppatchesng"@))) by {
        reveal_strlit("mpluxe2");
        reveal_strlit("mppatchesng");
        reveal_with_fuel(lex_le, 4);
        assert(ascii_lower_seq("mpluxe2"@)[2] != ascii_lower_seq("mppatchesng"@)[2]);
    }
    assert(lex_lt(ascii_lower_seq("mppatchesng"@), ascii_lower_seq("mpreplay"@))) by {
        reveal_strlit("mppatchesng");
        reveal_strlit("mpreplay");
        reveal_with_fuel(lex_le, 4);
        assert(ascii_lower_seq("mppatchesng"@)[2] != ascii_lower_seq("mpreplay"@)[2]);
    }
    assert(lex_lt(ascii_lower_seq("mpreplay"@), ascii_lower_seq("mpsecurity"@))) by {
        reveal_strlit("mpreplay");
        reveal_strlit("mpsecurity");
        reveal_with_fuel(lex_le, 4);
        assert(ascii_lower_seq("mpreplay"@)[2] != ascii_lower_seq("mpsecurity"@)[2]);
    }
    assert(lex_lt(ascii_lower_seq("mpsecurity"@), ascii_lower_seq("mpsmuggler"@))) by {
        reveal_strlit("mpsecurity");
        reveal_strlit("mpsmuggler");
        reveal_with_fuel(lex_le, 5);
        assert(ascii_lower_seq("mpsecurity"@)[3] != ascii_lower_seq("mpsmuggler"@)[3]);
    }
    assert(lex_lt(ascii_lower_seq("mpsmuggler"@), ascii_lower_seq("mpspecialraces"@))) by {
        reveal_strlit("mpsmuggler");
        reveal_strlit("mpspecialraces");
        reveal_with_fuel(lex_le, 5);
        assert(ascii_lower_seq("mpsmuggler"@)[3] != ascii_lower_seq("mpspecialraces"@)[3]);
    }
    assert(lex_lt(ascii_lower_seq("mpspecialraces"@), ascii_lower_seq("mpstunt"@))) by {
        reveal_strlit("mpspecialraces");
        reveal_strlit("mpstunt");
        reveal_with_fuel(lex_le, 5);
        assert(ascii_lower_seq("mpspecialraces"@)[3] != ascii_lower_seq("mpstunt"@)[3]);
    }
    assert(lex_lt(ascii_lower_seq("mpstunt"@), ascii_lower_seq("mpsum"@))) by {
        reveal_strlit("mpstunt");
        reveal_strlit("mpsum");
        reveal_with_fuel(lex_le, 5);
        assert(ascii_lower_seq("mpstunt"@)[3] != ascii_lower_seq("mpsum"@)[3]);
    }
    assert(lex_lt(ascii_lower_seq("mpsum"@), ascii_lower_seq("mpsum2"@))) by {
        reveal_strlit("mpsum");
        reveal_strlit("mpsum2");
        reveal_with_fuel(lex_le, 7);
        assert(ascii_lower_seq("mpsum"@).len() != ascii_lower_seq("mpsum2"@).len());
    }
    assert(lex_lt(ascii_lower_seq("mpsum2"@), ascii_lower_seq("mpSum2_G9EC"@))) by {
        reveal_strlit("mpsum2");
        reveal_strlit("mpSum2_G9EC");
        reveal_with_fuel(lex_le, 8);
        assert(ascii_lower_seq("mpsum2"@).len() != ascii_lower_seq("mpSum2_G9EC"@).len());
    }
    assert(lex_lt(ascii_lower_seq("mpSum2_G9EC"@), ascii_lower_seq("mptuner"@))) by {
        reveal_strlit("mpSum2_G9EC");
        reveal_strlit("mptuner");
        reveal_with_fuel(lex_le, 4);
        assert(ascii_lower_seq("mpSum2_G9EC"@)[2] != ascii_lower_seq("mptuner"@)[2]);
    }
}

/// The third quarter of the game's packs, in ASCII lower case, each strictly
/// before the next.
proof fn lemma_base_pairs_third()
    ensures
        lex_lt(ascii_lower_seq("mptuner"@), ascii_lower_seq("mpvalentines2"@)),
        lex_lt(ascii_lower_seq("mpvalentines2"@), ascii_lower_seq("mpvinewood"@)),
        lex_lt(ascii_lower_seq("mpvinewood"@), ascii_lower_seq("mpxmas_604490"@)),
        lex_lt(ascii_lower_seq("mpxmas_604490"@), ascii_lower_seq("patch2023_01"@)),
        lex_lt(ascii_lower_seq("patch2023_01"@), ascii_lower_seq("patch2023_01_g9ec"@)),
        lex_lt(ascii_lower_seq("patch2023_01_g9ec"@), ascii_lower_seq("patch2023_02"@)),
        lex_lt(ascii_lower_seq("patch2023_02"@), ascii_lower_seq("patch2024_01"@)),
        lex_lt(ascii_lower_seq("patch2024_01"@), ascii_lower_seq("patch2024_01_g9ec"@)),
        lex_lt(ascii_lower_seq("patch2024_01_g9ec"@), ascii_lower_seq("patch2024_02"@)),
        lex_lt(ascii_lower_seq("patch2024_02"@), ascii_lower_seq("patch2025_01"@)),
        lex_lt(ascii_lower_seq("patch2025_01"@), ascii_lower_seq("patchday10ng"@)),
        lex_lt(ascii_lower_seq("patchday10ng"@), ascii_lower_seq("patchday11ng"@)),
        lex_lt(ascii_lower_seq("patchday11ng"@), ascii_lower_seq("patchday12ng"@)),
        lex_lt(ascii_lower_seq("patchday12ng"@), ascii_lower_seq("patchday13ng"@)),
        lex_lt(ascii_lower_seq("patchday13ng"@), ascii_lower_seq("patchday14ng"@)),
        lex_lt(ascii_lower_seq("patchday14ng"@), ascii_lower_seq("patchday15ng"@)),
        lex_lt(ascii_lower_seq("patchday15ng"@), ascii_lower_seq("patchday16ng"@)),
        lex_lt(ascii_lower_seq("patchday16ng"@), ascii_lower_seq("patchday17ng"@)),
        lex_lt(ascii_lower_seq("patchday17ng"@), ascii_lower_seq("patchday18ng"@)),
        lex_lt(ascii_lower_seq("patchday18ng"@), ascii_lower_seq("patchday19ng"@)),
        lex_lt(ascii_lower_seq("patchday19ng"@), ascii_lower_seq("patchday1ng"@)),
{
    assert(lex_lt(ascii_lower_seq("mptuner"@), ascii_lower_seq("mpvalentines2"@))) by {
        reveal_strlit("mptuner");
        reveal_strlit("mpvalentines2");
        reveal_with_fuel(lex_le, 4);
        assert(ascii_lower_seq("mptuner"@)[2] != ascii_lower_seq("mpvalentines2"@)[2]);
    }
    assert(lex_lt(ascii_lower_seq("mpvalentines2"@), ascii_lower_seq("mpvinewood"@))) by {
        reveal_strlit("mpvalentines2");
        reveal_strlit("mpvinewood");
        reveal_with_fuel(lex_le, 5);
        assert(ascii_lower_seq("mpvalentines2"@)[3] != ascii_lower_seq("mpvinewood"@)[3]);
    }
    assert(lex_lt(ascii_lower_seq("mpvinewood"@), ascii_lower_seq("mpxmas_604490"@))) by {
        reveal_strlit("mpvinewood");
        reveal_strlit("mpxmas_604490");
        reveal_with_fuel(lex_le, 4);
        assert(ascii_lower_seq("mpvinewood"@)[2] != ascii_lower_seq("mpxmas_604490"@)[2]);
    }
    assert(lex_lt(ascii_lower_seq("mpxmas_604490"@), ascii_lower_seq("patch2023_01"@))) by {
        reveal_strlit("mpxmas_604490");
        reveal_strlit("patch2023_01");
        reveal_with_fuel(lex_le, 2);
        assert(ascii_lower_seq("mpxmas_604490"@)[0] != ascii_lower_seq("patch2023_01"@)[0]);
    }
    assert(lex_lt(ascii_lower_seq("patch2023_01"@), ascii_lower_seq("patch2023_01_g9ec"@))) by {
        reveal_strlit("patch2023_01");
        reveal_strlit("patch2023_01_g9ec");
        reveal_with_fuel(lex_le, 14);
        assert(ascii_lower_seq("patch2023_01"@).len() != ascii_lower_seq("patch2023_01_g9ec"@).len());
    }
    assert(lex_lt(ascii_lower_seq("patch2023_01_g9ec"@), ascii_lower_seq("patch2023_02"@))) by {
        reveal_strlit("patch2023_01_g9ec");
        reveal_strlit("patch2023_02");
        reveal_with_fuel(lex_le, 13);
        assert(ascii_lower_seq("patch2023_01_g9ec"@)[11] != ascii_lower_seq("patch2023_02"@)[11]);
    }
    assert(lex_lt(ascii_lower_seq("patch2023_02"@), ascii_lower_seq("patch2024_01"@))) by {
        reveal_strlit("patch2023_02");
        reveal_strlit("patch2024_01");
        reveal_with_fuel(lex_le, 10);
        assert(ascii_lower_seq("patch2023_02"@)[8] != ascii_lower_seq("patch2024_01"@)[8]);
    }
    assert(lex_lt(ascii_lower_seq("patch2024_01"@), ascii_lower_seq("patch2024_01_g9ec"@))) by {
        reveal_strlit("patch2024_01");
        reveal_strlit("patch2024_01_g9ec");
        reveal_with_fuel(lex_le, 14);
        assert(ascii_lower_seq("patch2024_01"@).len() != ascii_lower_seq("patch2024_01_g9ec"@).len());
    }
    assert(lex_lt(ascii_lower_seq("patch2024_01_g9ec"@), ascii_lower_seq("patch2024_02"@))) by {
        reveal_strlit("patch2024_01_g9ec");
        reveal_strlit("patch2024_02");
        reveal_with_fuel(lex_le, 13);
        assert(ascii_lower_seq("patch2024_01_g9ec"@)[11] != ascii_lower_seq("patch2024_02"@)[11]);
    }
    assert(lex_lt(ascii_lower_seq("patch2024_02"@), ascii_lower_seq("patch2025_01"@))) by {
        reveal_strlit("patch2024_02");
        reveal_strlit("patch2025_01");
        reveal_with_fuel(lex_le, 10);
        assert(ascii_lower_seq("patch2024_02"@)[8] != ascii_lower_seq("patch2025_01"@)[8]);
    }
    assert(lex_lt(ascii_lower_seq("patch2025_01"@), ascii_lower_seq("patchday10ng"@))) by {
        reveal_strlit("patch2025_01");
        reveal_strlit("patchday10ng");
        reveal_with_fuel(lex_le, 7);
        assert(ascii_lower_seq("patch2025_01"@)[5] != ascii_lower_seq("patchday10ng"@)[5]);
    }
    assert(lex_lt(ascii_lower_seq("patchday10ng"@), ascii_lower_seq("patchday11ng"@))) by {
        reveal_strlit("patchday10ng");
        reveal_strlit("patchday11ng");
        reveal_with_fuel(lex_le, 11);
        assert(ascii_lower_seq("patchday10ng"@)[9] != ascii_lower_seq("patchday11ng"@)[9]);
    }
    assert(lex_lt(ascii_lower_seq("patchday11ng"@), ascii_lower_seq("patchday12ng"@))) by {
        reveal_strlit("patchday11ng");
        reveal_strlit("patchday12ng");
        reveal_with_fuel(lex_le, 11);
        assert(ascii_lower_seq("patchday11ng"@)[9] != ascii_lower_seq("patchday12ng"@)[9]);
    }
    assert(lex_lt(ascii_lower_seq("patchday12ng"@), ascii_lower_seq("patchday13ng"@))) by {
        reveal_strlit("patchday12ng");
        reveal_strlit("patchday13ng");
        reveal_with_fuel(lex_le, 11);
        assert(ascii_lower_seq("patchday12ng"@)[9] != ascii_lower_seq("patchday13ng"@)[9]);
    }
    assert(lex_lt(ascii_lower_seq("patchday13ng"@), ascii_lower_seq("patchday14ng"@))) by {
        reveal_strlit("patchday13ng");
        reveal_strlit("patchday14ng");
        reveal_with_fuel(lex_le, 11);
        assert(ascii_lower_seq("patchday13ng"@)[9] != ascii_lower_seq("patchday14ng"@)[9]);
    }
    assert(lex_lt(ascii_lower_seq("patchday14ng"@), ascii_lower_seq("patchday15ng"@))) by {
        reveal_strlit("patchday14ng");
        reveal_strlit("patchday15ng");
        reveal_with_fuel(lex_le, 11);
        assert(ascii_lower_seq("patchday14ng"@)[9] != ascii_lower_seq("patchday15ng"@)[9]);
    }
    assert(lex_lt(ascii_lower_seq("patchday15ng"@), ascii_lower_seq("patchday16ng"@))) by {
        reveal_strlit("patchday15ng");
        reveal_strlit("patchday16ng");
        reveal_with_fuel(lex_le, 11);
        assert(ascii_lower_seq("patchday15ng"@)[9] != ascii_lower_seq("patchday16ng"@)[9]);
    }
    assert(lex_lt(ascii_lower_seq("patchday16ng"@), ascii_lower_seq("patchday17ng"@))) by {
        reveal_strlit("patchday16ng");
        reveal_strlit("patchday17ng");
        reveal_with_fuel(lex_le, 11);
        assert(ascii_lower_seq("patchday16ng"@)[9] != ascii_lower_seq("patchday17ng"@)[9]);
    }
    assert(lex_lt(ascii_lower_seq("patchday17ng"@), ascii_lower_seq("patchday18ng"@))) by {
        reveal_strlit("patchday17ng");
        reveal_strlit("patchday18ng");
        reveal_with_fuel(lex_le, 11);
        assert(ascii_lower_seq("patchday17ng"@)[9] != ascii_lower_seq("patchday18ng"@)[9]);
    }
    assert(lex_lt(ascii_lower_seq("patchday18ng"@), ascii_lower_seq("patchday19ng"@))) by {
        reveal_strlit("patchday18ng");
        reveal_strlit("patchday19ng");
        reveal_with_fuel(lex_le, 11);
        assert(ascii_lower_seq("patchday18ng"@)[9] != ascii_lower_seq("patchday19ng"@)[9]);
    }
    assert(lex_lt(ascii_lower_seq("patchday19ng"@), ascii_lower_seq("patchday1ng"@))) by {
        reveal_strlit("patchday19ng");
        reveal_strlit("patchday1ng");
        reveal_with_fuel(lex_le, 11);
        assert(ascii_lower_seq("patchday19ng"@)[9] != ascii_lower_seq("patchday1ng"@)[9]);
    }
}

/// The fourth quarter of the game's packs, in ASCII lower case, each strictly
/// before the next.
proof fn lemma_base_pairs_fourth()
    ensures
        lex_lt(ascii_lower_seq("patchday1ng"@), ascii_lower_seq("patchday20ng"@)),
        lex_lt(ascii_lower_seq("patchday20ng"@), ascii_lower_seq("patchday21ng"@)),
        lex_lt(ascii_lower_seq("patchday21ng"@), ascii_lower_seq("patchday22ng"@)),
        lex_lt(ascii_lower_seq("patchday22ng"@), ascii_lower_seq("patchday23ng"@)),
        lex_lt(ascii_lower_seq("patchday23ng"@), ascii_lower_seq("patchday24ng"@)),
        lex_lt(ascii_lower_seq("patchday24ng"@), ascii_lower_seq("patchday25ng"@)),
        lex_lt(ascii_lower_seq("patchday25ng"@), ascii_lower_seq("patchday26ng"@)),
        lex_lt(ascii_lower_seq("patchday26ng"@), ascii_lower_seq("patchday27g9ecng"@)),
        lex_lt(ascii_lower_seq("patchday27g9ecng"@), ascii_lower_seq("patchday27ng"@)),
        lex_lt(ascii_lower_seq("patchday27ng"@), ascii_lower_seq("patchday28g9ecng"@)),
        lex_lt(ascii_lower_seq("patchday28g9ecng"@), ascii_lower_seq("patchday28ng"@)),
        lex_lt(ascii_lower_seq("patchday28ng"@), ascii_lower_seq("patchday2bng"@)),
        lex_lt(ascii_lower_seq("patchday2bng"@), ascii_lower_seq("patchday2ng"@)),
        lex_lt(ascii_lower_seq("patchday2ng"@), ascii_lower_seq("patchday3ng"@)),
        lex_lt(ascii_lower_seq("patchday3ng"@), ascii_lower_seq("patchday4ng"@)),
        lex_lt(ascii_lower_seq("patchday4ng"@), ascii_lower_seq("patchday5ng"@)),
        lex_lt(ascii_lower_seq("patchday5ng"@), ascii_lower_seq("patchday6ng"@)),
        lex_lt(ascii_lower_seq("patchday6ng"@), ascii_lower_seq("patchday7ng"@)),
        lex_lt(ascii_lower_seq("patchday7ng"@), ascii_lower_seq("patchday8ng"@)),
        lex_lt(ascii_lower_seq("patchday8ng"@), ascii_lower_seq("patchday9ng"@)),
        lex_lt(ascii_lower_seq("patchday9ng"@), ascii_lower_seq("patchdayg9ecng"@)),
{
    assert(lex_lt(ascii_lower_seq("patchday1ng"@), ascii_lower_seq("patchday20ng"@))) by {
        reveal_strlit("patchday1ng");
        reveal_strlit("patchday20ng");
        reveal_with_fuel(lex_le, 10);
        assert(ascii_lower_seq("patchday1ng"@)[8] != ascii_lower_seq("patchday20ng"@)[8]);
    }
    assert(lex_lt(ascii_lower_seq("patchday20ng"@), ascii_lower_seq("patchday21ng"@))) by {
        reveal_strlit("patchday20ng");
        reveal_strlit("patchday21ng");
        reveal_with_fuel(lex_le, 11);
        assert(ascii_lower_seq("patchday20ng"@)[9] != ascii_lower_seq("patchday21ng"@)[9]);
    }
    assert(lex_lt(ascii_lower_seq("patchday21ng"@), ascii_lower_seq("patchday22ng"@))) by {
        reveal_strlit("patchday21ng");
        reveal_strlit("patchday22ng");
        reveal_with_fuel(lex_le, 11);
        assert(ascii_lower_seq("patchday21ng"@)[9] != ascii_lower_seq("patchday22ng"@)[9]);
    }
    assert(lex_lt(ascii_lower_seq("patchday22ng"@), ascii_lower_seq("patchday23ng"@))) by {
        reveal_strlit("patchday22ng");
        reveal_strlit("patchday23ng");
        reveal_with_fuel(lex_le, 11);
        assert(ascii_lower_seq("patchday22ng"@)[9] != ascii_lower_seq("patchday23ng"@)[9]);
    }
    assert(lex_lt(ascii_lower_seq("patchday23ng"@), ascii_lower_seq("patchday24ng"@))) by {
        reveal_strlit("patchday23ng");
        reveal_strlit("patchday24ng");
        reveal_with_fuel(lex_le, 11);
        assert(ascii_lower_seq("patchday23ng"@)[9] != ascii_lower_seq("patchday24ng"@)[9]);
    }
    assert(lex_lt(ascii_lower_seq("patchday24ng"@), ascii_lower_seq("patchday25ng"@))) by {
        reveal_strlit("patchday24ng");
        reveal_strlit("patchday25ng");
        reveal_with_fuel(lex_le, 11);
        assert(ascii_lower_seq("patchday24ng"@)[9] != ascii_lower_seq("patchday25ng"@)[9]);
    }
    assert(lex_lt(ascii_lower_seq("patchday25ng"@), ascii_lower_seq("patchday26ng"@))) by {
        reveal_strlit("patchday25ng");
        reveal_strlit("patchday26ng");
        reveal_with_fuel(lex_le, 11);
        assert(ascii_lower_seq("patchday25ng"@)[9] != ascii_lower_seq("patchday26ng"@)[9]);
    }
    assert(lex_lt(ascii_lower_seq("patchday26ng"@), ascii_lower_seq("patchday27g9ecng"@))) by {
        reveal_strlit("patchday26ng");
        reveal_strlit("patchday27g9ecng");
        reveal_with_fuel(lex_le, 11);
        assert(ascii_lower_seq("patchday26ng"@)[9] != ascii_lower_seq("patchday27g9ecng"@)[9]);
    }
    assert(lex_lt(ascii_lower_seq("patchday27g9ecng"@), ascii_lower_seq("patchday27ng"@))) by {
        reveal_strlit("patchday27g9ecng");
        reveal_strlit("patchday27ng");
        reveal_with_fuel(lex_le, 12);
        assert(ascii_lower_seq("patchday27g9ecng"@)[10] != ascii_lower_seq("patchday27ng"@)[10]);
    }
    assert(lex_lt(ascii_lower_seq("patchday27ng"@), ascii_lower_seq("patchday28g9ecng"@))) by {
        reveal_strlit("patchday27ng");
        reveal_strlit("patchday28g9ecng");
        reveal_with_fuel(lex_le, 11);
        assert(ascii_lower_seq("patchday27ng"@)[9] != ascii_lower_seq("patchday28g9ecng"@)[9]);
    }
    assert(lex_lt(ascii_lower_seq("patchday28g9ecng"@), ascii_lower_seq("patchday28ng"@))) by {
        reveal_strlit("patchday28g9ecng");
        reveal_strlit("patchday28ng");
        reveal_with_fuel(lex_le, 12);
        assert(ascii_lower_seq("patchday28g9ecng"@)[10] != ascii_lower_seq("patchday28ng"@)[10]);
    }
    assert(lex_lt(ascii_lower_seq("patchday28ng"@), ascii_lower_seq("patchday2bng"@))) by {
        reveal_strlit("patchday28ng");
        reveal_strlit("patchday2bng");
        reveal_with_fuel(lex_le, 11);
        assert(ascii_lower_seq("patchday28ng"@)[9] != ascii_lower_seq("patchday2bng"@)[9]);
    }
    assert(lex_lt(ascii_lower_seq("patchday2bng"@), ascii_lower_seq("patchday2ng"@))) by {
        reveal_strlit("patchday2bng");
        reveal_strlit("patchday2ng");
        reveal_with_fuel(lex_le, 11);
        assert(ascii_lower_seq("patchday2bng"@)[9] != ascii_lower_seq("patchday2ng"@)[9]);
    }
    assert(lex_lt(ascii_lower_seq("patchday2ng"@), ascii_lower_seq("patchday3ng"@))) by {
        reveal_strlit("patchday2ng");
        reveal_strlit("patchday3ng");
        reveal_with_fuel(lex_le, 10);
        assert(ascii_lower_seq("patchday2ng"@)[8] != ascii_lower_seq("patchday3ng"@)[8]);
    }
    assert(lex_lt(ascii_lower_seq("patchday3ng"@), ascii_lower_seq("patchday4ng"@))) by {
        reveal_strlit("patchday3ng");
        reveal_strlit("patchday4ng");
        reveal_with_fuel(lex_le, 10);
        assert(ascii_lower_seq("patchday3ng"@)[8] != ascii_lower_seq("patchday4ng"@)[8]);
    }
    assert(lex_lt(ascii_lower_seq("patchday4ng"@), ascii_lower_seq("patchday5ng"@))) by {
        reveal_strlit("patchday4ng");
        reveal_strlit("patchday5ng");
        reveal_with_fuel(lex_le, 10);
        assert(ascii_lower_seq("patchday4ng"@)[8] != ascii_lower_seq("patchday5ng"@)[8]);
    }
    assert(lex_lt(ascii_lower_seq("patchday5ng"@), ascii_lower_seq("patchday6ng"@))) by {
        reveal_strlit("patchday5ng");
        reveal_strlit("patchday6ng");
        reveal_with_fuel(lex_le, 10);
        assert(ascii_lower_seq("patchday5ng"@)[8] != ascii_lower_seq("patchday6ng"@)[8]);
    }
    assert(lex_lt(ascii_lower_seq("patchday6ng"@), ascii_lower_seq("patchday7ng"@))) by {
        reveal_strlit("patchday6ng");
        reveal_strlit("patchday7ng");
        reveal_with_fuel(lex_le, 10);
        assert(ascii_lower_seq("patchday6ng"@)[8] != ascii_lower_seq("patchday7ng"@)[8]);
    }
    assert(lex_lt(ascii_lower_seq("patchday7ng"@), ascii_lower_seq("patchday8ng"@))) by {
        reveal_strlit("patchday7ng");
        reveal_strlit("patchday8ng");
        reveal_with_fuel(lex_le, 10);
        assert(ascii_lower_seq("patchday7ng"@)[8] != ascii_lower_seq("patchday8ng"@)[8]);
    }
    assert(lex_lt(ascii_lower_seq("patchday8ng"@), ascii_lower_seq("patchday9ng"@))) by {
        reveal_strlit("patchday8ng");
        reveal_strlit("patchday9ng");
        reveal_with_fuel(lex_le, 10);
        assert(ascii_lower_seq("patchday8ng"@)[8] != ascii_lower_seq("patchday9ng"@)[8]);
    }
    assert(lex_lt(ascii_lower_seq("patchday9ng"@), ascii_lower_seq("patchdayg9ecng"@))) by {
        reveal_strlit("patchday9ng");
        reveal_strlit("patchdayg9ecng");
        reveal_with_fuel(lex_le, 10);
        assert(ascii_lower_seq("patchday9ng"@)[8] != ascii_lower_seq("patchdayg9ecng"@)[8]);
    }
}

/// Each of the game's packs comes, in ASCII lower case, strictly before the
/// next one.
proof fn lemma_base_packs_ascending_pairs()
    ensures
        base_dlc_packs().len() == 85,
        forall|k: int|
            0 <= k < base_dlc_packs().len() - 1 ==> #[trigger] lowered_ascending_at(
                base_dlc_packs(),
                k,
            ),
{
    lemma_base_pack_names();
    lemma_base_pairs_first();
    lemma_base_pairs_second();
    lemma_base_pairs_third();
    lemma_base_pairs_fourth();
    let b = base_dlc_packs();
    assert forall|k: int| 0 <= k < b.len() - 1 implies #[trigger] lowered_ascending_at(b, k) by {
        if k == 0 {
        } else if k == 1 {
        } else if k == 2 {
        } else if k == 3 {
        } else if k == 4 {
        } else if k == 5 {
        } else if k == 6 {
        } else if k == 7 {
        } else if k == 8 {
        } else if k == 9 {
        } else if k == 10 {
        } else if k == 11 {
        } else if k == 12 {
        } else if k == 13 {
        } else if k == 14 {
        } else if k == 15 {
        } else if k == 16 {
        } else if k == 17 {
        } else if k == 18 {
        } else if k == 19 {
        } else if k == 20 {
        } else if k == 21 {
        } else if k == 22 {
        } else if k == 23 {
        } else if k == 24 {
        } else if k == 25 {
        } else if k == 26 {
        } else if k == 27 {
        } else if k == 28 {
        } else if k == 29 {
        } else if k == 30 {
        } else if k == 31 {
        } else if k == 32 {
        } else if k == 33 {
        } else if k == 34 {
        } else if k == 35 {
        } else if k == 36 {
        } else if k == 37 {
        } else if k == 38 {
        } else if k == 39 {
        } else if k == 40 {
        } else if k == 41 {
        } else if k == 42 {
        } else if k == 43 {
        } else if k == 44 {
        } else if k == 45 {
        } else if k == 46 {
        } else if k == 47 {
        } else if k == 48 {
        } else if k == 49 {
        } else if k == 50 {
        } else if k == 51 {
        } else if k == 52 {
        } else if k == 53 {
        } else if k == 54 {
        } else if k == 55 {
        } else if k == 56 {
        } else if k == 57 {
        } else if k == 58 {
        } else if k == 59 {
        } else if k == 60 {
        } else if k == 61 {
        } else if k == 62 {
        } else if k == 63 {
        } else if k == 64 {
        } else if k == 65 {
        } else if k == 66 {
        } else if k == 67 {
        } else if k == 68 {
        } else if k == 69 {
        } else if k == 70 {
        } else if k == 71 {
        } else if k == 72 {
        } else if k == 73 {
        } else if k == 74 {
        } else if k == 75 {
        } else if k == 76 {
        } else if k == 77 {
        } else if k == 78 {
        } else if k == 79 {
        } else if k == 80 {
        } else if k == 81 {
        } else if k == 82 {
        } else if k == 83 {
        }
    }
}

/// Where every pack of `s` comes strictly before the next in ASCII lower
/// case, every pack comes strictly before every later one.
proof fn lemma_lowered_ascending_chain(s: Seq<Seq<char>>, i: int, j: int)
    requires
        0 <= i < j < s.len(),
        forall|k: int| 0 <= k < s.len() - 1 ==> #[trigger] lowered_ascending_at(s, k),
    ensures
        lex_lt(ascii_lower_seq(s[i]), ascii_lower_seq(s[j])),
    decreases j - i,
{
    assert(lowered_ascending_at(s, j - 1));
    if j > i + 1 {
        lemma_lowered_ascending_chain(s, i, j - 1);
        lemma_lex_lt_transitive(ascii_lower_seq(s[i]), ascii_lower_seq(s[j - 1]), ascii_lower_seq(s[j]));
    }
}

/// The game's own packs are the 85 names listed, in strictly ascending order
/// of their names in ASCII lower case; so no name occurs twice, not even up to
/// ASCII case.
pub proof fn law_base_packs_ascending_and_distinct()
    ensures
        base_dlc_packs().len() == 85,
        forall|i: int, j: int|
            0 <= i < j < base_dlc_packs().len() ==> lex_lt(
                ascii_lower_seq(#[trigger] base_dlc_packs()[i]),
                ascii_lower_seq(#[trigger] base_dlc_packs()[j]),
            ),
        forall|i: int, j: int|
            0 <= i < j < base_dlc_packs().len() ==> !eq_ignore_case(
                #[trigger] base_dlc_packs()[i],
                #[trigger] base_dlc_packs()[j],
            ),
{
    lemma_base_packs_ascending_pairs();
    let b = base_dlc_packs();
    assert forall|i: int, j: int| 0 <= i < j < b.len() implies lex_lt(
        ascii_lower_seq(#[trigger] b[i]),
        ascii_lower_seq(#[trigger] b[j]),
    ) by {
        lemma_lowered_ascending_chain(b, i, j);
    }
}

} // verus!
