use gta_mod_manager::dlclist::{
    base_dlc_pack_names, dlclist_entries, is_base_pack_name, pack_entry_text, render_dlclist,
    sort_names, sync_dlclist_root,
};
use gta_mod_manager::text::to_chars;
use xmltree::{Element, XMLNode};

fn strings(v: &[&str]) -> Vec<String> {
    v.iter().map(|s| s.to_string()).collect()
}

fn item_texts(paths: &Element) -> Vec<String> {
    paths
        .children
        .iter()
        .filter_map(|n| n.as_element())
        .map(|item| {
            assert_eq!(item.name, "Item");
            item.get_text().unwrap().to_string()
        })
        .collect()
}

#[test]
fn base_list_has_the_shipped_packs_in_order() {
    let base = base_dlc_pack_names();
    assert_eq!(base.len(), 85);
    assert_eq!(base[0], "mp2023_01");
    assert_eq!(base[9], "mp2025_01_G9EC");
    assert_eq!(base[84], "patchdayg9ecng");
}

#[test]
fn base_pack_check_ignores_ascii_case() {
    assert!(is_base_pack_name(&to_chars("mpbattle")));
    assert!(is_base_pack_name(&to_chars("MPBATTLE")));
    assert!(is_base_pack_name(&to_chars("mp2025_01_g9ec")));
    assert!(is_base_pack_name(&to_chars("MPSUM2_g9ec")));
    assert!(!is_base_pack_name(&to_chars("mpbattle2")));
    assert!(!is_base_pack_name(&to_chars("")));
}

#[test]
fn pack_entry_text_wraps_the_name() {
    assert_eq!(pack_entry_text("mymod"), "dlcpacks:/mymod/");
    assert_eq!(pack_entry_text(""), "dlcpacks://");
}

#[test]
fn sort_names_orders_like_str() {
    let input = vec!["zeta", "Alpha", "alpha", "éclair", "b", "", "alp"];
    let sorted = sort_names(input.iter().map(|s| to_chars(s)).collect());
    let got: Vec<String> = sorted.iter().map(|c| c.iter().collect()).collect();
    let mut want: Vec<String> = input.iter().map(|s| s.to_string()).collect();
    want.sort_unstable();
    assert_eq!(got, want);
}

#[test]
fn entries_list_base_then_sorted_mods_without_base_packs() {
    let folders = strings(&["zmod", "MPBATTLE", "amod", "mpBeach", "Zed"]);
    let entries = dlclist_entries(&folders);
    assert_eq!(entries.len(), 85 + 4);
    for (i, b) in base_dlc_pack_names().iter().enumerate() {
        assert_eq!(entries[i], format!("dlcpacks:/{}/", b));
    }
    assert_eq!(
        &entries[85..],
        &strings(&["dlcpacks:/Zed/", "dlcpacks:/amod/", "dlcpacks:/mpBeach/", "dlcpacks:/zmod/"])[..]
    );
}

#[test]
fn entries_for_no_folders_are_the_base_packs() {
    let entries = dlclist_entries(&Vec::new());
    assert_eq!(entries.len(), 85);
    assert_eq!(entries[84], "dlcpacks:/patchdayg9ecng/");
}

#[test]
fn mod_listed_iff_folder_present() {
    let with = dlclist_entries(&strings(&["coolcar", "other"]));
    assert!(with.contains(&"dlcpacks:/coolcar/".to_string()));
    let without = dlclist_entries(&strings(&["other"]));
    assert!(!without.contains(&"dlcpacks:/coolcar/".to_string()));
}

#[test]
fn sync_keeps_document_and_replaces_paths() {
    let xml = "<?xml version=\"1.0\"?>\n<SMandatoryPacksData>\n  <Comment>keep me</Comment>\n  <Paths>\n    <Item>dlcpacks:/oldmod/</Item>\n  </Paths>\n  <Other/>\n</SMandatoryPacksData>\n";
    let root = sync_dlclist_root(xml, &strings(&["newmod"]));
    assert_eq!(root.name, "SMandatoryPacksData");
    let names: Vec<&str> = root.children.iter().filter_map(|n| n.as_element()).map(|e| e.name.as_str()).collect();
    assert_eq!(names, vec!["Comment", "Paths", "Other"]);
    let texts = item_texts(root.get_child("Paths").unwrap());
    assert_eq!(texts.len(), 86);
    assert_eq!(texts[0], "dlcpacks:/mp2023_01/");
    assert_eq!(texts[85], "dlcpacks:/newmod/");
    assert!(!texts.contains(&"dlcpacks:/oldmod/".to_string()));
    assert_eq!(root.get_child("Comment").unwrap().get_text().unwrap(), "keep me");
}

#[test]
fn sync_of_unparsable_text_builds_a_fresh_document() {
    let root = sync_dlclist_root("this is <not xml", &strings(&["m1"]));
    assert_eq!(root.name, "SMandatoryPacksData");
    assert_eq!(root.children.len(), 1);
    let paths = root.get_child("Paths").unwrap();
    let texts = item_texts(paths);
    assert_eq!(texts.len(), 86);
    assert_eq!(texts[85], "dlcpacks:/m1/");
}

#[test]
fn sync_without_paths_builds_a_fresh_document() {
    let root = sync_dlclist_root("<Root><Foo/></Root>", &Vec::new());
    assert_eq!(root.name, "SMandatoryPacksData");
    assert_eq!(root.children.len(), 1);
    assert_eq!(item_texts(root.get_child("Paths").unwrap()).len(), 85);
}

#[test]
fn sync_replaces_only_the_first_paths() {
    let xml = "<R><Paths><Item>a</Item></Paths><Paths><Item>b</Item></Paths></R>";
    let root = sync_dlclist_root(xml, &Vec::new());
    let all: Vec<&Element> = root.children.iter().filter_map(|n| n.as_element()).collect();
    assert_eq!(all.len(), 2);
    assert_eq!(item_texts(all[0]).len(), 85);
    assert_eq!(item_texts(all[1]), vec!["b".to_string()]);
}

#[test]
fn render_starts_with_declaration_and_reparses() {
    let root = sync_dlclist_root("", &strings(&["mymod"]));
    let bytes = render_dlclist(&root).unwrap();
    let text = String::from_utf8(bytes.clone()).unwrap();
    assert!(text.starts_with("<?xml version=\"1.0\" encoding=\"UTF-8\"?>\n<SMandatoryPacksData>"));
    assert!(text.contains("\n  <Paths>\n    <Item>dlcpacks:/mp2023_01/</Item>"));
    let reparsed = Element::parse(&bytes[..]).unwrap();
    let texts = item_texts(reparsed.get_child("Paths").unwrap());
    assert_eq!(texts.last().unwrap(), "dlcpacks:/mymod/");
    assert_eq!(texts.len(), 86);
}

#[test]
fn syncing_twice_changes_nothing() {
    let folders = strings(&["b_mod", "a_mod"]);
    let once = render_dlclist(&sync_dlclist_root("<X><Paths/></X>", &folders)).unwrap();
    let once_text = String::from_utf8(once.clone()).unwrap();
    let twice = render_dlclist(&sync_dlclist_root(&once_text, &folders)).unwrap();
    assert_eq!(once, twice);
}

#[test]
fn synced_paths_do_not_depend_on_old_list() {
    let folders = strings(&["x"]);
    let a = sync_dlclist_root("<R><Paths><Item>dlcpacks:/gone/</Item></Paths></R>", &folders);
    let b = sync_dlclist_root("<R><Paths/></R>", &folders);
    assert_eq!(item_texts(a.get_child("Paths").unwrap()), item_texts(b.get_child("Paths").unwrap()));
    match &a.children[0] {
        XMLNode::Element(e) => assert_eq!(e.name, "Paths"),
        _ => panic!("expected an element"),
    }
}

#[test]
fn sync_keeps_attributes_and_other_nodes() {
    let xml = "<R b=\"2\" a=\"1\"><!-- note --><Paths kind=\"x\"><Item>old</Item></Paths><Tail/></R>";
    let root = sync_dlclist_root(xml, &Vec::new());
    assert_eq!(root.attributes.get("a").map(|s| s.as_str()), Some("1"));
    assert_eq!(root.attributes.get("b").map(|s| s.as_str()), Some("2"));
    assert!(matches!(&root.children[0], XMLNode::Comment(c) if c == " note "));
    let paths = root.get_child("Paths").unwrap();
    assert_eq!(paths.attributes.get("kind").map(|s| s.as_str()), Some("x"));
    assert_eq!(item_texts(paths).len(), 85);
    assert!(root.get_child("Tail").is_some());
}

#[test]
fn render_writes_the_exact_indented_document() {
    let mut root = Element::new("SMandatoryPacksData");
    let mut paths = Element::new("Paths");
    let mut item = Element::new("Item");
    item.children.push(XMLNode::Text("dlcpacks:/a/".to_string()));
    paths.children.push(XMLNode::Element(item));
    root.children.push(XMLNode::Element(paths));
    let bytes = render_dlclist(&root).unwrap();
    assert_eq!(
        String::from_utf8(bytes).unwrap(),
        "<?xml version=\"1.0\" encoding=\"UTF-8\"?>\n<SMandatoryPacksData>\n  <Paths>\n    <Item>dlcpacks:/a/</Item>\n  </Paths>\n</SMandatoryPacksData>"
    );
}

#[test]
fn render_writes_attributes_in_sorted_order() {
    let root = sync_dlclist_root("<R z=\"1\" a=\"2\" m=\"3\"><Paths/></R>", &Vec::new());
    let text = String::from_utf8(render_dlclist(&root).unwrap()).unwrap();
    assert!(text.contains("<R a=\"2\" m=\"3\" z=\"1\">"));
}
