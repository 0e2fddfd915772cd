use gta_mod_manager::dlclist::{render_dlclist, sync_dlclist_root};
use gta_mod_manager::gta_path::{
    first_game_dir, game_dir_candidates, game_exe_path, installed_packs_dir, validated_game_dir,
};
use gta_mod_manager::patch_flow::{
    extractor_args, pack_extractor_args, packer_args, patch_step, PatchAction, PatchEvent,
    PatchState, DLCLIST_IN_ARCHIVE,
};
use gta_mod_manager::text::{push_decimal_i32, to_ascii_lowercase, to_chars, trimmed_range};
use gta_mod_manager::valid_mods::active_mod_names_checked;

fn strings(v: &[&str]) -> Vec<String> {
    v.iter().map(|s| s.to_string()).collect()
}

#[test]
fn active_mods_are_in_both_folder_and_list() {
    let folders = strings(&["ModA", "modb", "ModC", "MODA"]);
    let xml = "<Item>dlcpacks:/moda/</Item><Item>dlcpacks:/MODB/</Item><Item>dlcpacks:/zzz/</Item>";
    let mut got = active_mod_names_checked(&folders, xml).unwrap();
    got.sort();
    assert_eq!(got, strings(&["moda", "modb"]));
}

#[test]
fn active_mods_need_a_listed_name() {
    let folders = strings(&["a"]);
    assert!(active_mod_names_checked(&folders, "dlcpacks:/a").unwrap().is_empty());
    assert!(active_mod_names_checked(&folders, "").unwrap().is_empty());
    assert_eq!(active_mod_names_checked(&folders, "dlcpacks:/A/").unwrap(), strings(&["a"]));
    assert!(active_mod_names_checked(&vec![], "dlcpacks:/a/").unwrap().is_empty());
}

#[test]
fn game_dirs_are_tried_in_order() {
    assert_eq!(
        game_dir_candidates(Some("C:/Steam".to_string())),
        strings(&[
            "C:/Steam\\steamapps\\common\\Grand Theft Auto V",
            "C:\\Program Files\\Epic Games\\GTAV",
            "C:\\Program Files\\Rockstar Games\\Grand Theft Auto V",
        ])
    );
    assert_eq!(game_dir_candidates(None).len(), 2);
    let c = strings(&["a", "b", "c"]);
    assert_eq!(first_game_dir(&c, &vec![false, true, true]), Some("b".to_string()));
    assert_eq!(first_game_dir(&c, &vec![false, false, false]), None);
}

#[test]
fn game_paths_are_built_with_backslashes() {
    assert_eq!(game_exe_path("D:\\Games\\GTA"), "D:\\Games\\GTA\\GTA5.exe");
    assert_eq!(installed_packs_dir("D:\\G"), "D:\\G\\mods\\update\\x64\\dlcpacks");
    assert_eq!(validated_game_dir("x".to_string(), true), Some("x".to_string()));
    assert_eq!(validated_game_dir("x".to_string(), false), None);
}

#[test]
fn tool_arguments() {
    assert_eq!(
        extractor_args("u.rpf", DLCLIST_IN_ARCHIVE, "/tmp/t"),
        strings(&["extract", "u.rpf", "common/data/dlclist.xml", "--output", "/tmp/t"])
    );
    assert_eq!(pack_extractor_args("d.rpf", "/o"), strings(&["extract", "d.rpf", "--output", "/o"]));
    assert_eq!(packer_args("G", "u", "i", "f"), strings(&["G", "u", "i", "f"]));
}

#[test]
fn patch_run_succeeds_through_every_step() {
    let (s, a) = patch_step(PatchState::Start, PatchEvent::Begin);
    assert!(matches!(a, PatchAction::PrepareTempDir));
    let (s, a) = patch_step(s, PatchEvent::TempDirReady { result: Ok(()) });
    assert!(matches!(a, PatchAction::RunExtractor));
    let (s, a) = patch_step(s, PatchEvent::ExtractorExited { success: true, stderr: String::new() });
    assert!(matches!(a, PatchAction::SyncDlclist));
    let (s, a) = patch_step(s, PatchEvent::DlclistSynced { result: Ok(()) });
    assert!(matches!(a, PatchAction::RunPacker));
    let (s, a) = patch_step(s, PatchEvent::PackerExited { success: true });
    assert!(matches!(a, PatchAction::RemoveTempDir));
    let (s, a) = patch_step(s, PatchEvent::CleanedUp);
    assert!(matches!(s, PatchState::Finished));
    assert!(matches!(a, PatchAction::Finish { outcome: Ok(()) }));
}

fn finish_error(a: PatchAction) -> String {
    match a {
        PatchAction::Finish { outcome: Err(e) } => e,
        _ => panic!("expected a failure"),
    }
}

#[test]
fn patch_run_stops_on_early_failures() {
    let (_, a) = patch_step(PatchState::PreparingTempDir, PatchEvent::TempDirReady { result: Err("no space".to_string()) });
    assert_eq!(finish_error(a), "no space");
    let (_, a) = patch_step(PatchState::Extracting, PatchEvent::ExtractorExited { success: false, stderr: "bad rpf".to_string() });
    assert_eq!(finish_error(a), "rpf.exe extraction failed: bad rpf");
    let (_, a) = patch_step(PatchState::Syncing, PatchEvent::DlclistSynced { result: Err("Failed to read dlclist.xml: x".to_string()) });
    assert_eq!(finish_error(a), "Failed to read dlclist.xml: x");
}

#[test]
fn patch_run_cleans_up_after_packer_failure() {
    let stderr = "oops \"quoted\"\n".to_string();
    let (s, a) = patch_step(PatchState::Packing, PatchEvent::PackerExited { success: false });
    assert!(matches!(a, PatchAction::RemoveTempDir));
    let (s, a) = patch_step(s, PatchEvent::CleanedUp);
    assert!(matches!(a, PatchAction::InspectPackerFailure));
    let (s, a) = patch_step(s, PatchEvent::PackerFailureInspected { code: Some(-3), stderr: stderr.clone() });
    assert!(matches!(s, PatchState::Finished));
    assert_eq!(finish_error(a), format!("CodeWalkerCLI failed: {:?}, {:?}", Some(-3), stderr));
    let (_, a) = patch_step(
        PatchState::InspectingPackerFailure,
        PatchEvent::PackerFailureInspected { code: None, stderr: String::new() },
    );
    assert_eq!(finish_error(a), "CodeWalkerCLI failed: None, \"\"");
}

#[test]
fn decimal_matches_display() {
    for n in [0, 7, 10, 42, -1, -10, 1234567, i32::MAX, i32::MIN] {
        let mut s = String::from(">");
        push_decimal_i32(&mut s, n);
        assert_eq!(s, format!(">{}", n));
    }
}

#[test]
fn ascii_lowercase_and_trim() {
    assert_eq!(to_ascii_lowercase("MiXeD É 123"), "mixed É 123");
    let v = to_chars("\u{3000} a b\t\n");
    let t: String = trimmed_range(&v, 0, v.len()).into_iter().collect();
    assert_eq!(t, "a b");
    let t: String = trimmed_range(&v, 2, 3).into_iter().collect();
    assert_eq!(t, "a");
}

#[test]
fn listing_after_a_sync_activates_every_folder() {
    let folders = strings(&["CoolCar", "mpbattle", "zz_map"]);
    let written = render_dlclist(&sync_dlclist_root("", &folders)).unwrap();
    let text = String::from_utf8(written).unwrap();
    let mut active = active_mod_names_checked(&folders, &text).unwrap();
    active.sort();
    assert_eq!(active, strings(&["coolcar", "mpbattle", "zz_map"]));
}

#[test]
fn detected_folder_validates_to_itself() {
    let c = game_dir_candidates(Some("S".to_string()));
    let flags = vec![false, true, false];
    let d = first_game_dir(&c, &flags).unwrap();
    assert_eq!(validated_game_dir(d.clone(), flags[1]), Some(d));
}

#[test]
fn syncing_the_written_file_again_gives_the_same_root() {
    let folders = strings(&["m2", "m1"]);
    let first = sync_dlclist_root("<R a=\"1\"><X/><Paths/></R>", &folders);
    let text = String::from_utf8(render_dlclist(&first).unwrap()).unwrap();
    let second = sync_dlclist_root(&text, &folders);
    assert_eq!(first, second);
}
