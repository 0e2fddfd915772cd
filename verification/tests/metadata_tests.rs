use gta_mod_manager::metadata::{
    content_name_is_readable, extract_failed, extract_mod_metadata_from_files, file_roles,
    find_name_line, name_from_content, scan_installed_mod_checked, vehicle_class_kind,
    vehicle_type_kind, ExtractFailure, ModFile,
};
use gta_mod_manager::text::to_chars;

fn file(name: &str, content: &str) -> ModFile {
    ModFile { file_name: name.to_string(), path: format!("/x/{}", name), content: content.to_string() }
}

fn name_of(content: &str) -> Option<String> {
    name_from_content(&to_chars(content)).map(|v| v.into_iter().collect())
}

#[test]
fn roles_follow_lower_case_name() {
    let r = file_roles("Content.XML");
    assert!(r.metadata_xml && !r.preview_image);
    let r = file_roles("SETUP2.xml");
    assert!(r.metadata_xml);
    let r = file_roles("Preview.PNG");
    assert!(r.preview_image && !r.metadata_xml);
    let r = file_roles("car_ICON.jpg");
    assert!(r.preview_image);
    let r = file_roles("vehicles.meta");
    assert!(!r.metadata_xml && !r.preview_image);
}

#[test]
fn name_is_read_from_first_name_line() {
    assert_eq!(name_of("<a>\n  <name>  Cool Car \t</name>\r\n<name>Second</name>"), Some("Cool Car".to_string()));
    assert_eq!(name_of("<x/>\n<dataName>dlc_car</dataName>"), Some("dlc_car".to_string()));
    assert_eq!(name_of("<nameX>no</nameX>\n"), None);
    assert_eq!(name_of(""), None);
    assert_eq!(name_of("\n\n<name>last</name>"), Some("last".to_string()));
}

#[test]
fn name_line_search_sees_each_line() {
    let l = find_name_line(&to_chars("a\n<b><name>c</name></b>\nd")).unwrap();
    assert_eq!(l.into_iter().collect::<String>(), "<b><name>c</name></b>");
}

#[test]
fn unreadable_name_line_is_detected() {
    assert!(!content_name_is_readable("<name>Broken"));
    assert!(!content_name_is_readable("x\n<dataName>"));
    assert!(content_name_is_readable("<name>Ok</name>"));
    assert!(content_name_is_readable("no names here"));
    assert!(content_name_is_readable("<name></name>"));
}

#[test]
fn installed_scan_reads_name_type_and_preview() {
    let files = vec![
        file("content.xml", "<dataName>MyCar</dataName>\n<type>vehicle</type> bike"),
        file("preview.png", ""),
        file("icon.png", ""),
        file("readme.txt", "vehicle plane"),
    ];
    let s = scan_installed_mod_checked("folder".to_string(), &files).unwrap();
    assert_eq!(s.name, "MyCar");
    assert_eq!(s.mod_type, "motorcycle");
    assert_eq!(s.preview_file, Some(2));
}

#[test]
fn installed_scan_defaults() {
    let s = scan_installed_mod_checked("folder".to_string(), &vec![]).unwrap();
    assert_eq!(s.name, "folder");
    assert_eq!(s.mod_type, "unknown");
    assert_eq!(s.preview_file, None);
}

#[test]
fn installed_scan_kinds() {
    let kind = |c: &str| scan_installed_mod_checked("f".to_string(), &vec![file("setup2.xml", c)]).unwrap().mod_type;
    assert_eq!(kind("vehicle plane bike"), "plane");
    assert_eq!(kind("vehicles"), "car");
    assert_eq!(kind("a.ymap"), "map");
    assert_eq!(kind("peds.meta"), "ped");
    assert_eq!(kind("nothing"), "unknown");
}

#[test]
fn installed_scan_later_file_wins() {
    let files = vec![file("content.xml", "<name>First</name> ymap"), file("setup2.xml", "<name>Second</name> vehicle")];
    let s = scan_installed_mod_checked("f".to_string(), &files).unwrap();
    assert_eq!(s.name, "Second");
    assert_eq!(s.mod_type, "car");
}

#[test]
fn installed_scan_refuses_unreadable_name() {
    let files = vec![file("content.xml", "<name>Broken")];
    assert!(scan_installed_mod_checked("f".to_string(), &files).is_none());
    let files = vec![file("other.xml", "<name>Broken")];
    assert!(scan_installed_mod_checked("f".to_string(), &files).is_some());
}

#[test]
fn vehicle_class_kinds() {
    let k = |s: &str| vehicle_class_kind(&to_chars(s));
    assert_eq!(k("VC_BIKE"), "motorcycle");
    assert_eq!(k("VC_MOTORCYCLE"), "motorcycle");
    assert_eq!(k("VC_PLANE"), "plane");
    assert_eq!(k("VC_BOAT"), "boat");
    assert_eq!(k("VC_HELI"), "helicopter");
    assert_eq!(k("VC_SPORT"), "car");
    assert_eq!(k("SPORT"), "unknown");
}

#[test]
fn vehicle_type_kinds() {
    let k = |s: &str| vehicle_type_kind(&to_chars(s));
    assert_eq!(k("BIKE"), "motorcycle");
    assert_eq!(k("MOTORCYCLE"), "motorcycle");
    assert_eq!(k("PLANE"), "plane");
    assert_eq!(k("BOAT"), "boat");
    assert_eq!(k("HELI"), "helicopter");
    assert_eq!(k("CAR"), "car");
    assert_eq!(k("QUADBIKE"), "unknown");
}

#[test]
fn extract_reads_vehicle_class() {
    let files = vec![
        file("vehicles.meta", "<Item>\n <vehicleClass> VC_HELI </vehicleClass>\n</Item>"),
        file("content.xml", "<dataName>heli_pack</dataName>"),
        file("Preview.jpg", ""),
    ];
    let r = extract_mod_metadata_from_files(&files).unwrap();
    assert!(r.success && r.error.is_none());
    assert_eq!(r.mod_type.as_deref(), Some("helicopter"));
    assert_eq!(r.mod_name.as_deref(), Some("heli_pack"));
    assert_eq!(r.preview_image.as_deref(), Some("/x/Preview.jpg"));
}

#[test]
fn extract_vehicle_class_overrides_earlier_kind() {
    let files = vec![
        file("content.xml", "<ymap>"),
        file("v.meta", "<vehicleClass>VC_BOAT</vehicleClass>"),
    ];
    let r = extract_mod_metadata_from_files(&files).unwrap();
    assert_eq!(r.mod_type.as_deref(), Some("boat"));
}

#[test]
fn extract_reads_vehicle_type_then_fallbacks() {
    let t = |c: &str, n: &str| extract_mod_metadata_from_files(&vec![file(n, c)]).unwrap().mod_type;
    assert_eq!(t("<type>VEHICLE_TYPE_CAR</type>", "a.meta").as_deref(), Some("car"));
    assert_eq!(t("<type>  VEHICLE_TYPE_SUBMARINE </type>", "a.meta").as_deref(), Some("unknown"));
    assert_eq!(t("<type>OTHER</type>", "a.meta"), None);
    assert_eq!(t("<vehicleClass>bad value!</vehicleClass>", "a.meta"), None);
    assert_eq!(t("<ymap>", "content.xml").as_deref(), Some("map"));
    assert_eq!(t("<ymap>", "a.xml"), None);
    assert_eq!(t("", "peds.meta").as_deref(), Some("ped"));
    assert_eq!(t("<pedPersonality>", "x.meta").as_deref(), Some("ped"));
}

#[test]
fn extract_of_nothing_is_empty_success() {
    let r = extract_mod_metadata_from_files(&vec![]).unwrap();
    assert!(r.success);
    assert!(r.mod_name.is_none() && r.preview_image.is_none() && r.mod_type.is_none());
}

#[test]
fn extract_refuses_unreadable_name() {
    assert!(extract_mod_metadata_from_files(&vec![file("content.xml", "<name>x")]).is_none());
}

#[test]
fn extract_failures_carry_their_message() {
    let r = extract_failed(ExtractFailure::CreateOutputDir("denied".to_string()));
    assert!(!r.success);
    assert_eq!(r.error.as_deref(), Some("Failed to create output dir: denied"));
    let r = extract_failed(ExtractFailure::RunTool("not found".to_string()));
    assert_eq!(r.error.as_deref(), Some("Failed to run rpf.exe: not found"));
    let r = extract_failed(ExtractFailure::ToolFailed("bad archive".to_string()));
    assert_eq!(r.error.as_deref(), Some("bad archive"));
    assert!(r.mod_name.is_none() && r.preview_image.is_none() && r.mod_type.is_none());
}
