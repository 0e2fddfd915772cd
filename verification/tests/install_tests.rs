use gta_mod_manager::install::{
    archive_kind, delete_succeeded, install_progress, install_succeeded, install_temp_dir_name,
    locate_dlc_folder, metadata_temp_dir_name, mod_name_of_folder, rar_extract_args, ArchiveKind,
    InstallStage, WalkEntry,
};

fn visited(name: &str, parent: Option<&str>) -> WalkEntry {
    WalkEntry::Visited { file_name: name.to_string(), parent: parent.map(|p| p.to_string()) }
}

#[test]
fn temp_dir_name_is_prefix_and_md5_hex() {
    assert_eq!(install_temp_dir_name("abc"), "mod_install_temp_900150983cd24fb0d6963f7d28e17f72");
    assert_eq!(install_temp_dir_name(""), "mod_install_temp_d41d8cd98f00b204e9800998ecf8427e");
    let path = "C:\\Users\\me\\Downloads\\car.zip";
    assert_eq!(
        install_temp_dir_name(path),
        format!("mod_install_temp_{:x}", md5::compute(path.as_bytes()))
    );
}

#[test]
fn metadata_dir_name_is_prefix_and_md5_hex() {
    let path = "D:\\GTA\\mods\\update\\x64\\dlcpacks\\mymod\\dlc.rpf";
    assert_eq!(metadata_temp_dir_name(path), format!("mod_temp_{:x}", md5::compute(path.as_bytes())));
    assert_eq!(metadata_temp_dir_name("é"), format!("mod_temp_{:x}", md5::compute("é".as_bytes())));
}

#[test]
fn archive_kind_accepts_zip_and_rar_in_any_case() {
    assert!(archive_kind("zip") == Ok(ArchiveKind::Zip));
    assert!(archive_kind("ZIP") == Ok(ArchiveKind::Zip));
    assert!(archive_kind("Rar") == Ok(ArchiveKind::Rar));
}

#[test]
fn archive_kind_refuses_others() {
    for ext in ["7z", "", "zipx", "tar", "r ar"] {
        match archive_kind(ext) {
            Err(m) => assert_eq!(m, "Unsupported archive type. Only zip and rar are supported."),
            Ok(_) => panic!("{} accepted", ext),
        }
    }
}

#[test]
fn progress_reports_six_steps() {
    let p = install_progress(InstallStage::Starting);
    assert_eq!((p.current, p.total, p.message.as_str()), (0, 6, "Starting installation..."));
    let p = install_progress(InstallStage::Extracting);
    assert_eq!((p.current, p.total, p.message.as_str()), (1, 6, "Extracting archive..."));
    let p = install_progress(InstallStage::FindingModFolder);
    assert_eq!((p.current, p.total, p.message.as_str()), (2, 6, "Finding mod folder..."));
    let p = install_progress(InstallStage::CopyingFiles);
    assert_eq!((p.current, p.total, p.message.as_str()), (3, 6, "Copying mod files..."));
    let p = install_progress(InstallStage::UpdatingDlclist);
    assert_eq!((p.current, p.total, p.message.as_str()), (4, 6, "Updating dlclist.xml..."));
    let p = install_progress(InstallStage::Complete);
    assert_eq!((p.current, p.total, p.message.as_str()), (6, 6, "Installation complete!"));
}

#[test]
fn locate_finds_first_dlc_rpf() {
    let entries = vec![
        visited("readme.txt", Some("/t")),
        visited("mymod", Some("/t")),
        visited("dlc.rpf", Some("/t/mymod")),
        visited("dlc.rpf", Some("/t/other")),
    ];
    assert_eq!(locate_dlc_folder(&entries), Ok("/t/mymod".to_string()));
}

#[test]
fn locate_stops_at_an_earlier_error() {
    let entries = vec![
        visited("a", Some("/t")),
        WalkEntry::Failed { message: "permission denied".to_string() },
        visited("dlc.rpf", Some("/t/x")),
    ];
    assert_eq!(locate_dlc_folder(&entries), Err("permission denied".to_string()));
}

#[test]
fn locate_ignores_a_later_error() {
    let entries = vec![visited("dlc.rpf", Some("/t/x")), WalkEntry::Failed { message: "boom".to_string() }];
    assert_eq!(locate_dlc_folder(&entries), Ok("/t/x".to_string()));
}

#[test]
fn locate_reports_missing_dlc_rpf() {
    let none = "No dlc.rpf found in extracted archive".to_string();
    assert_eq!(locate_dlc_folder(&vec![]), Err(none.clone()));
    assert_eq!(locate_dlc_folder(&vec![visited("DLC.RPF", Some("/t"))]), Err(none.clone()));
    assert_eq!(locate_dlc_folder(&vec![visited("dlc.rpf", None)]), Err(none));
}

#[test]
fn mod_name_defaults_to_unknown_mod() {
    assert_eq!(mod_name_of_folder(Some("coolcar".to_string())), "coolcar");
    assert_eq!(mod_name_of_folder(None), "unknown_mod");
}

#[test]
fn results_report_success() {
    let r = install_succeeded("coolcar".to_string());
    assert!(r.success && r.error.is_none());
    assert_eq!(r.mod_name, Some("coolcar".to_string()));
    let d = delete_succeeded();
    assert!(d.success && d.error.is_none());
}

#[test]
fn rar_args_extract_into_dest() {
    assert_eq!(rar_extract_args("a.rar", "/tmp/x"), vec!["x", "a.rar", "/tmp/x"]);
}

use gta_mod_manager::install::{
    install_step, ArchiveFailure, InstallAction, InstallEvent, InstallState, InstallWork,
};

fn messages(a: &InstallAction) -> Vec<(u32, u32, String)> {
    a.progress.iter().map(|p| (p.current, p.total, p.message.clone())).collect()
}

fn failure(a: InstallAction) -> String {
    match a.work {
        InstallWork::Finish { outcome: Err(m) } => m,
        _ => panic!("expected a failure"),
    }
}

#[test]
fn install_runs_every_stage_in_order() {
    let (s, a) = install_step(
        InstallState::Start,
        InstallEvent::Begin { archive_path: "abc".to_string(), extension: "ZIP".to_string() },
    );
    assert_eq!(messages(&a), vec![(0, 6, "Starting installation...".to_string())]);
    match &a.work {
        InstallWork::CreateTempDir { name } => {
            assert_eq!(name, "mod_install_temp_900150983cd24fb0d6963f7d28e17f72")
        }
        _ => panic!("expected the temporary folder first"),
    }
    let (s, a) = install_step(s, InstallEvent::TempDirCreated { result: Ok(()) });
    assert_eq!(messages(&a), vec![(1, 6, "Extracting archive...".to_string())]);
    assert!(matches!(a.work, InstallWork::ExtractZip));
    let (s, a) = install_step(s, InstallEvent::Extracted { result: Ok(()) });
    assert_eq!(messages(&a), vec![(2, 6, "Finding mod folder...".to_string())]);
    assert!(matches!(a.work, InstallWork::WalkExtracted));
    let entries = vec![WalkEntry::Visited { file_name: "dlc.rpf".to_string(), parent: Some("/t/car".to_string()) }];
    let (s, a) = install_step(s, InstallEvent::Walked { entries });
    assert!(a.progress.is_empty());
    match &a.work {
        InstallWork::NameFolder { folder } => assert_eq!(folder, "/t/car"),
        _ => panic!("expected the folder to be named"),
    }
    let (s, a) = install_step(s, InstallEvent::FolderNamed { name: Some("car".to_string()) });
    assert_eq!(messages(&a), vec![(3, 6, "Copying mod files...".to_string())]);
    match &a.work {
        InstallWork::CopyMod { folder, mod_name } => {
            assert_eq!(folder, "/t/car");
            assert_eq!(mod_name, "car");
        }
        _ => panic!("expected the copy"),
    }
    let (s, a) = install_step(s, InstallEvent::Copied { result: Ok(()) });
    assert_eq!(
        messages(&a),
        vec![(4, 6, "Updating dlclist.xml...".to_string()), (6, 6, "Installation complete!".to_string())]
    );
    assert!(matches!(a.work, InstallWork::RemoveTempDir));
    let (s, a) = install_step(s, InstallEvent::CleanedUp);
    assert!(matches!(s, InstallState::Done));
    match a.work {
        InstallWork::Finish { outcome: Ok(r) } => {
            assert!(r.success && r.error.is_none());
            assert_eq!(r.mod_name.as_deref(), Some("car"));
        }
        _ => panic!("expected success"),
    }
}

#[test]
fn install_of_rar_extracts_with_unrar() {
    let (_, a) = install_step(
        InstallState::CreatingTempDir { extension: "rar".to_string() },
        InstallEvent::TempDirCreated { result: Ok(()) },
    );
    assert!(matches!(a.work, InstallWork::ExtractRar));
}

#[test]
fn install_stops_on_each_failure() {
    let (_, a) = install_step(
        InstallState::CreatingTempDir { extension: "zip".to_string() },
        InstallEvent::TempDirCreated { result: Err("denied".to_string()) },
    );
    assert!(a.progress.is_empty());
    assert_eq!(failure(a), "Failed to create temp dir: denied");
    let (_, a) = install_step(
        InstallState::CreatingTempDir { extension: "7z".to_string() },
        InstallEvent::TempDirCreated { result: Ok(()) },
    );
    assert_eq!(messages(&a), vec![(1, 6, "Extracting archive...".to_string())]);
    assert_eq!(failure(a), "Unsupported archive type. Only zip and rar are supported.");
    let fail = |f: ArchiveFailure| {
        let (_, a) = install_step(InstallState::Extracting, InstallEvent::Extracted { result: Err(f) });
        failure(a)
    };
    assert_eq!(fail(ArchiveFailure::OpenArchive("gone".to_string())), "Failed to open archive: gone");
    assert_eq!(fail(ArchiveFailure::ReadZip("bad".to_string())), "Failed to read zip: bad");
    assert_eq!(fail(ArchiveFailure::ZipEntry("io".to_string())), "io");
    assert_eq!(fail(ArchiveFailure::RunUnrar("missing".to_string())), "Failed to run UnRAR.exe: missing");
    assert_eq!(fail(ArchiveFailure::UnrarFailed), "Failed to extract RAR archive");
    let (_, a) = install_step(InstallState::FindingModFolder, InstallEvent::Walked { entries: vec![] });
    assert_eq!(failure(a), "No dlc.rpf found in extracted archive");
    let (_, a) = install_step(
        InstallState::Copying { mod_name: "m".to_string() },
        InstallEvent::Copied { result: Err("disk full".to_string()) },
    );
    assert_eq!(failure(a), "Failed to copy mod folder: disk full");
}

#[test]
fn install_names_unnamed_folder_unknown_mod() {
    let (_, a) = install_step(
        InstallState::NamingMod { folder: "/".to_string() },
        InstallEvent::FolderNamed { name: None },
    );
    match a.work {
        InstallWork::CopyMod { mod_name, .. } => assert_eq!(mod_name, "unknown_mod"),
        _ => panic!("expected the copy"),
    }
}
