//! The decisions of installing and deleting a mod: the working folder's
//! name, which archives are accepted, where the mod's folder is, what it is
//! called, and what the caller is told.

use vstd::prelude::*;
use vstd::string::*;
use crate::digest::{md5_compute, md5_digest};
use crate::text::{chars_eq_str, hex_lower, push_hex_lower, to_chars, to_lowercase, unicode_lowercase};

verus! {

/// The outcome of installing a mod, as the front end receives it.
pub struct InstallResult {
    pub success: bool,
    pub error: Option<String>,
    pub mod_name: Option<String>,
}

/// The outcome of deleting a mod, as the front end receives it.
pub struct DeleteResult {
    pub success: bool,
    pub error: Option<String>,
}

/// One progress report of an installation.
pub struct ProgressPayload {
    pub current: u32,
    pub total: u32,
    pub message: String,
}

/// The stages of an installation that are reported.
pub enum InstallStage {
    Starting,
    Extracting,
    FindingModFolder,
    CopyingFiles,
    UpdatingDlclist,
    Complete,
}

/// The archive formats that can be installed.
#[derive(PartialEq, Eq, Structural)]
pub enum ArchiveKind {
    Zip,
    Rar,
}

/// One step of walking the extracted archive: an entry with its file name and
/// the path of the folder that holds it, or an error of the walk.
pub enum WalkEntry {
    Visited { file_name: String, parent: Option<String> },
    Failed { message: String },
}

/// The step number of a stage; there are six steps in all.
pub open spec fn stage_step(stage: InstallStage) -> u32 {
    match stage {
        InstallStage::Starting => 0,
        InstallStage::Extracting => 1,
        InstallStage::FindingModFolder => 2,
        InstallStage::CopyingFiles => 3,
        InstallStage::UpdatingDlclist => 4,
        InstallStage::Complete => 6,
    }
}

/// The message shown for a stage.
pub open spec fn stage_message(stage: InstallStage) -> Seq<char> {
    match stage {
        InstallStage::Starting => "Starting installation..."@,
        InstallStage::Extracting => "Extracting archive..."@,
        InstallStage::FindingModFolder => "Finding mod folder..."@,
        InstallStage::CopyingFiles => "Copying mod files..."@,
        InstallStage::UpdatingDlclist => "Updating dlclist.xml..."@,
        InstallStage::Complete => "Installation complete!"@,
    }
}

/// The progress report for a stage: its step out of six, and its message.
pub fn install_progress(stage: InstallStage) -> (p: ProgressPayload)
    ensures
        p.current == stage_step(stage),
        p.total == 6,
        p.message@ == stage_message(stage),
{
    let (current, message) = match stage {
        InstallStage::Starting => (0, "Starting installation..."),
        InstallStage::Extracting => (1, "Extracting archive..."),
        InstallStage::FindingModFolder => (2, "Finding mod folder..."),
        InstallStage::CopyingFiles => (3, "Copying mod files..."),
        InstallStage::UpdatingDlclist => (4, "Updating dlclist.xml..."),
        InstallStage::Complete => (6, "Installation complete!"),
    };
    ProgressPayload { current, total: 6, message: String::from_str(message) }
}

/// `prefix` followed by the lower-case hexadecimal MD5 digest of the UTF-8
/// bytes of `key` (`format!("{prefix}{:x}", md5::compute(key))`).
pub open spec fn digest_name(prefix: Seq<char>, key: Seq<char>) -> Seq<char> {
    prefix + hex_lower(md5_digest(vstd::utf8::encode_utf8(key)))
}

fn digest_dir_name(prefix: &str, key: &str) -> (r: String)
    ensures
        r@ == digest_name(prefix@, key@),
{
    let digest = md5_compute(key.as_bytes());
    let mut r = String::from_str(prefix);
    push_hex_lower(&mut r, &digest);
    r
}

/// The name of the working folder, under the temporary directory, into which
/// the archive at `archive_path` is extracted.
pub fn install_temp_dir_name(archive_path: &str) -> (r: String)
    ensures
        r@ == digest_name("mod_install_temp_"@, archive_path@),
{
    digest_dir_name("mod_install_temp_", archive_path)
}

/// The name of the folder, under the temporary directory, into which the
/// pack `dlc.rpf` (named by its path or its folder's path) is extracted to read
/// its metadata.
pub fn metadata_temp_dir_name(path: &str) -> (r: String)
    ensures
        r@ == digest_name("mod_temp_"@, path@),
{
    digest_dir_name("mod_temp_", path)
}

/// The message for an archive that is neither zip nor rar.
pub open spec fn unsupported_archive_message() -> Seq<char> {
    "Unsupported archive type. Only zip and rar are supported."@
}

/// The format of an archive from the extension of its file name (empty where
/// it has none), compared in lower case.
pub fn archive_kind(extension: &str) -> (r: Result<ArchiveKind, String>)
    ensures
        r == Ok::<ArchiveKind, String>(ArchiveKind::Zip) <==> unicode_lowercase(extension@)
            == "zip"@,
        r == Ok::<ArchiveKind, String>(ArchiveKind::Rar) <==> unicode_lowercase(extension@)
            == "rar"@,
        r matches Err(m) ==> m@ == unsupported_archive_message() && unicode_lowercase(
            extension@,
        ) != "zip"@ && unicode_lowercase(extension@) != "rar"@,
{
    let lower = to_lowercase(extension);
    let chars = to_chars(lower.as_str());
    proof {
        reveal_strlit("zip");
        reveal_strlit("rar");
        assert("zip"@[0] != "rar"@[0]);
    }
    if chars_eq_str(&chars, "zip") {
        Ok(ArchiveKind::Zip)
    } else if chars_eq_str(&chars, "rar") {
        Ok(ArchiveKind::Rar)
    } else {
        Err(String::from_str("Unsupported archive type. Only zip and rar are supported."))
    }
}

/// The arguments of `UnRAR.exe` that extract `archive` into `dest`.
pub fn rar_extract_args(archive: &str, dest: &str) -> (r: Vec<String>)
    ensures
        r@.len() == 3,
        r@[0]@ == "x"@,
        r@[1]@ == archive@,
        r@[2]@ == dest@,
{
    let mut r: Vec<String> = Vec::new();
    r.push(String::from_str("x"));
    r.push(String::from_str(archive));
    r.push(String::from_str(dest));
    r
}

/// The folder found by walking the extracted archive in order: the first
/// error ends the walk with it; the first entry named `dlc.rpf` ends it with
/// the folder that holds it (none where the entry has no parent).
pub open spec fn dlc_search(es: Seq<WalkEntry>) -> Result<Option<Seq<char>>, Seq<char>>
    decreases es.len(),
{
    if es.len() == 0 {
        Ok(None)
    } else {
        match es[0] {
            WalkEntry::Failed { message } => Err(message@),
            WalkEntry::Visited { file_name, parent } => if file_name@ == "dlc.rpf"@ {
                Ok(
                    match parent {
                        Some(p) => Some(p@),
                        None => None,
                    },
                )
            } else {
                dlc_search(es.drop_first())
            },
        }
    }
}

/// The message where no folder with a `dlc.rpf` was found.
pub open spec fn no_dlc_message() -> Seq<char> {
    "No dlc.rpf found in extracted archive"@
}

/// The folder of the mod in the extracted archive, or the message that
/// stops the installation.
pub fn locate_dlc_folder(entries: &Vec<WalkEntry>) -> (r: Result<String, String>)
    ensures
        match dlc_search(entries@) {
            Ok(Some(p)) => r matches Ok(f) && f@ == p,
            Ok(None) => r matches Err(m) && m@ == no_dlc_message(),
            Err(e) => r matches Err(m) && m@ == e,
        },
{
    let mut i: usize = 0;
    assert(entries@.skip(0) =~= entries@);
    while i < entries.len()
        invariant
            i <= entries.len(),
            dlc_search(entries@) == dlc_search(entries@.skip(i as int)),
        decreases entries.len() - i,
    {
        assert(entries@.skip(i as int)[0] == entries@[i as int]);
        assert(entries@.skip(i as int).drop_first() =~= entries@.skip(i + 1));
        match &entries[i] {
            WalkEntry::Failed { message } => {
                return Err(message.clone());
            },
            WalkEntry::Visited { file_name, parent } => {
                let name = to_chars(file_name.as_str());
                if chars_eq_str(&name, "dlc.rpf") {
                    return match parent {
                        Some(p) => Ok(p.clone()),
                        None => Err(String::from_str("No dlc.rpf found in extracted archive")),
                    };
                }
            },
        }
        i = i + 1;
    }
    assert(entries@.skip(i as int) =~= Seq::<WalkEntry>::empty());
    Err(String::from_str("No dlc.rpf found in extracted archive"))
}

/// The name of an installed mod: the name of its folder, or `unknown_mod`
/// where the folder has none.
pub fn mod_name_of_folder(folder_name: Option<String>) -> (r: String)
    ensures
        match folder_name {
            Some(n) => r@ == n@,
            None => r@ == "unknown_mod"@,
        },
{
    match folder_name {
        Some(n) => n,
        None => String::from_str("unknown_mod"),
    }
}

/// The answer to a completed installation of the mod `mod_name`.
pub fn install_succeeded(mod_name: String) -> (r: InstallResult)
    ensures
        r.success,
        r.error is None,
        r.mod_name == Some(mod_name),
{
    InstallResult { success: true, error: None, mod_name: Some(mod_name) }
}

/// The answer to a completed deletion.
pub fn delete_succeeded() -> (r: DeleteResult)
    ensures
        r.success,
        r.error is None,
{
    DeleteResult { success: true, error: None }
}

/// Why extracting an archive failed.
pub enum ArchiveFailure {
    /// The archive could not be opened (the error's text).
    OpenArchive(String),
    /// The archive is not a readable zip (the error's text).
    ReadZip(String),
    /// An entry of the zip could not be extracted (the error's text).
    ZipEntry(String),
    /// `UnRAR.exe` could not be run (the error's text).
    RunUnrar(String),
    /// `UnRAR.exe` reported a failure.
    UnrarFailed,
}

/// The message for an extraction failure.
pub open spec fn archive_failure_message(f: ArchiveFailure) -> Seq<char> {
    match f {
        ArchiveFailure::OpenArchive(e) => "Failed to open archive: "@ + e@,
        ArchiveFailure::ReadZip(e) => "Failed to read zip: "@ + e@,
        ArchiveFailure::ZipEntry(e) => e@,
        ArchiveFailure::RunUnrar(e) => "Failed to run UnRAR.exe: "@ + e@,
        ArchiveFailure::UnrarFailed => "Failed to extract RAR archive"@,
    }
}

fn archive_failure_text(f: ArchiveFailure) -> (r: String)
    ensures
        r@ == archive_failure_message(f),
{
    match f {
        ArchiveFailure::OpenArchive(e) => {
            let mut m = String::from_str("Failed to open archive: ");
            m.append(e.as_str());
            m
        },
        ArchiveFailure::ReadZip(e) => {
            let mut m = String::from_str("Failed to read zip: ");
            m.append(e.as_str());
            m
        },
        ArchiveFailure::ZipEntry(e) => e,
        ArchiveFailure::RunUnrar(e) => {
            let mut m = String::from_str("Failed to run UnRAR.exe: ");
            m.append(e.as_str());
            m
        },
        ArchiveFailure::UnrarFailed => String::from_str("Failed to extract RAR archive"),
    }
}

/// Where an installation stands.
pub enum InstallState {
    Start,
    CreatingTempDir { extension: String },
    Extracting,
    FindingModFolder,
    NamingMod { folder: String },
    Copying { mod_name: String },
    CleaningUp { mod_name: String },
    Done,
}

/// How the last piece of work went.
pub enum InstallEvent {
    /// The installation of the archive at `archive_path`, whose file name has
    /// the extension `extension` (empty where it has none), begins.
    Begin { archive_path: String, extension: String },
    TempDirCreated { result: Result<(), String> },
    Extracted { result: Result<(), ArchiveFailure> },
    Walked { entries: Vec<WalkEntry> },
    FolderNamed { name: Option<String> },
    Copied { result: Result<(), String> },
    CleanedUp,
}

/// The work the caller does next.
pub enum InstallWork {
    /// Create the folder `name` under the temporary directory.
    CreateTempDir { name: String },
    /// Extract the zip archive into the temporary folder.
    ExtractZip,
    /// Extract the rar archive into the temporary folder with `UnRAR.exe`.
    ExtractRar,
    /// Walk the temporary folder, five levels deep.
    WalkExtracted,
    /// Find the name of the folder `folder`.
    NameFolder { folder: String },
    /// Remove the installed pack `mod_name` if it exists, then copy `folder`
    /// into the pack folders.
    CopyMod { folder: String, mod_name: String },
    /// Remove the temporary folder.
    RemoveTempDir,
    /// Stop, with this outcome.
    Finish { outcome: Result<InstallResult, String> },
}

/// The progress to report, then the work to do.
pub struct InstallAction {
    pub progress: Vec<ProgressPayload>,
    pub work: InstallWork,
}

/// The event that answers the work of each state.
pub open spec fn install_expects(state: InstallState, event: InstallEvent) -> bool {
    match (state, event) {
        (InstallState::Start, InstallEvent::Begin { .. }) => true,
        (InstallState::CreatingTempDir { .. }, InstallEvent::TempDirCreated { .. }) => true,
        (InstallState::Extracting, InstallEvent::Extracted { .. }) => true,
        (InstallState::FindingModFolder, InstallEvent::Walked { .. }) => true,
        (InstallState::NamingMod { .. }, InstallEvent::FolderNamed { .. }) => true,
        (InstallState::Copying { .. }, InstallEvent::Copied { .. }) => true,
        (InstallState::CleaningUp { .. }, InstallEvent::CleanedUp) => true,
        _ => false,
    }
}

/// `p` reports the stages `stages`, in order.
pub open spec fn reports(p: Seq<ProgressPayload>, stages: Seq<InstallStage>) -> bool {
    &&& p.len() == stages.len()
    &&& forall|i: int|
        0 <= i < p.len() ==> {
            &&& #[trigger] p[i].current == stage_step(stages[i])
            &&& p[i].total == 6
            &&& p[i].message@ == stage_message(stages[i])
        }
}

/// The installation stops with the failure `m`, reporting nothing more.
pub open spec fn install_fails_with(r: (InstallState, InstallAction), m: Seq<char>) -> bool {
    &&& r.0 is Done
    &&& r.1.progress@.len() == 0
    &&& r.1.work matches InstallWork::Finish { outcome } && (outcome matches Err(e) && e@ == m)
}

/// The work is `w` and nothing is reported before it.
pub open spec fn quietly(r: (InstallState, InstallAction), w: InstallWork) -> bool {
    r.1.progress@.len() == 0 && r.1.work == w
}

/// The step taken for `event` in `state`: each failure stops the installation
/// with its message; the stages are reported as the work reaches them; a
/// completed copy reports the last two stages, then the temporary folder is
/// removed, and then the installation ends with the mod's name.
pub open spec fn is_install_step(
    state: InstallState,
    event: InstallEvent,
    r: (InstallState, InstallAction),
) -> bool {
    match (state, event) {
        (InstallState::Start, InstallEvent::Begin { archive_path, extension }) => {
            &&& r.0 == (InstallState::CreatingTempDir { extension })
            &&& reports(r.1.progress@, seq![InstallStage::Starting])
            &&& r.1.work matches InstallWork::CreateTempDir { name } && name@ == digest_name(
                "mod_install_temp_"@,
                archive_path@,
            )
        },
        (
            InstallState::CreatingTempDir { extension },
            InstallEvent::TempDirCreated { result },
        ) => match result {
            Err(e) => install_fails_with(r, "Failed to create temp dir: "@ + e@),
            Ok(()) => {
                let lower = unicode_lowercase(extension@);
                &&& reports(r.1.progress@, seq![InstallStage::Extracting])
                &&& if lower == "zip"@ {
                    r.0 is Extracting && r.1.work is ExtractZip
                } else if lower == "rar"@ {
                    r.0 is Extracting && r.1.work is ExtractRar
                } else {
                    &&& r.0 is Done
                    &&& r.1.work matches InstallWork::Finish { outcome } && (outcome matches Err(
                        m,
                    ) && m@ == unsupported_archive_message())
                }
            },
        },
        (InstallState::Extracting, InstallEvent::Extracted { result }) => match result {
            Err(f) => install_fails_with(r, archive_failure_message(f)),
            Ok(()) => {
                &&& r.0 is FindingModFolder
                &&& reports(r.1.progress@, seq![InstallStage::FindingModFolder])
                &&& r.1.work is WalkExtracted
            },
        },
        (InstallState::FindingModFolder, InstallEvent::Walked { entries }) => match dlc_search(
            entries@,
        ) {
            Ok(Some(p)) => {
                &&& r.0 matches InstallState::NamingMod { folder } && folder@ == p
                &&& r.1.work matches InstallWork::NameFolder { folder } && folder@ == p
                &&& r.1.progress@.len() == 0
            },
            Ok(None) => install_fails_with(r, no_dlc_message()),
            Err(e) => install_fails_with(r, e),
        },
        (InstallState::NamingMod { folder }, InstallEvent::FolderNamed { name }) => {
            let mod_name = match name {
                Some(n) => n@,
                None => "unknown_mod"@,
            };
            &&& reports(r.1.progress@, seq![InstallStage::CopyingFiles])
            &&& r.0 matches InstallState::Copying { mod_name: m } && m@ == mod_name
            &&& r.1.work matches InstallWork::CopyMod { folder: f, mod_name: m } && f == folder
                && m@ == mod_name
        },
        (InstallState::Copying { mod_name }, InstallEvent::Copied { result }) => match result {
            Err(e) => install_fails_with(r, "Failed to copy mod folder: "@ + e@),
            Ok(()) => {
                &&& r.0 == (InstallState::CleaningUp { mod_name })
                &&& reports(
                    r.1.progress@,
                    seq![InstallStage::UpdatingDlclist, InstallStage::Complete],
                )
                &&& r.1.work is RemoveTempDir
            },
        },
        (InstallState::CleaningUp { mod_name }, InstallEvent::CleanedUp) => {
            &&& r.0 is Done
            &&& r.1.progress@.len() == 0
            &&& r.1.work matches InstallWork::Finish { outcome } && (outcome matches Ok(res) && res
                == (InstallResult { success: true, error: None, mod_name: Some(mod_name) }))
        },
        _ => false,
    }
}

fn stop_with(message: String) -> (r: (InstallState, InstallAction))
    ensures
        install_fails_with(r, message@),
{
    (InstallState::Done, InstallAction { progress: Vec::new(), work: InstallWork::Finish { outcome: Err(message) } })
}

/// The next state and action of an installation.
pub fn install_step(state: InstallState, event: InstallEvent) -> (r: (InstallState, InstallAction))
    requires
        install_expects(state, event),
    ensures
        is_install_step(state, event, r),
{
    match (state, event) {
        (InstallState::Start, InstallEvent::Begin { archive_path, extension }) => {
            let mut progress = Vec::new();
            progress.push(install_progress(InstallStage::Starting));
            let name = install_temp_dir_name(archive_path.as_str());
            (
                InstallState::CreatingTempDir { extension },
                InstallAction { progress, work: InstallWork::CreateTempDir { name } },
            )
        },
        (
            InstallState::CreatingTempDir { extension },
            InstallEvent::TempDirCreated { result },
        ) => match result {
            Err(e) => {
                let mut m = String::from_str("Failed to create temp dir: ");
                m.append(e.as_str());
                stop_with(m)
            },
            Ok(()) => {
                let mut progress = Vec::new();
                progress.push(install_progress(InstallStage::Extracting));
                match archive_kind(extension.as_str()) {
                    Ok(ArchiveKind::Zip) => (
                        InstallState::Extracting,
                        InstallAction { progress, work: InstallWork::ExtractZip },
                    ),
                    Ok(ArchiveKind::Rar) => (
                        InstallState::Extracting,
                        InstallAction { progress, work: InstallWork::ExtractRar },
                    ),
                    Err(m) => (
                        InstallState::Done,
                        InstallAction { progress, work: InstallWork::Finish { outcome: Err(m) } },
                    ),
                }
            },
        },
        (InstallState::Extracting, InstallEvent::Extracted { result }) => match result {
            Err(f) => stop_with(archive_failure_text(f)),
            Ok(()) => {
                let mut progress = Vec::new();
                progress.push(install_progress(InstallStage::FindingModFolder));
                (
                    InstallState::FindingModFolder,
                    InstallAction { progress, work: InstallWork::WalkExtracted },
                )
            },
        },
        (InstallState::FindingModFolder, InstallEvent::Walked { entries }) => {
            match locate_dlc_folder(&entries) {
                Ok(folder) => {
                    let f2 = folder.clone();
                    (
                        InstallState::NamingMod { folder },
                        InstallAction {
                            progress: Vec::new(),
                            work: InstallWork::NameFolder { folder: f2 },
                        },
                    )
                },
                Err(m) => stop_with(m),
            }
        },
        (InstallState::NamingMod { folder }, InstallEvent::FolderNamed { name }) => {
            let mod_name = mod_name_of_folder(name);
            let mut progress = Vec::new();
            progress.push(install_progress(InstallStage::CopyingFiles));
            let m2 = mod_name.clone();
            (
                InstallState::Copying { mod_name },
                InstallAction { progress, work: InstallWork::CopyMod { folder, mod_name: m2 } },
            )
        },
        (InstallState::Copying { mod_name }, InstallEvent::Copied { result }) => match result {
            Err(e) => {
                let mut m = String::from_str("Failed to copy mod folder: ");
                m.append(e.as_str());
                stop_with(m)
            },
            Ok(()) => {
                let mut progress = Vec::new();
                progress.push(install_progress(InstallStage::UpdatingDlclist));
                progress.push(install_progress(InstallStage::Complete));
                (
                    InstallState::CleaningUp { mod_name },
                    InstallAction { progress, work: InstallWork::RemoveTempDir },
                )
            },
        },
        (InstallState::CleaningUp { mod_name }, InstallEvent::CleanedUp) => (
            InstallState::Done,
            InstallAction {
                progress: Vec::new(),
                work: InstallWork::Finish { outcome: Ok(install_succeeded(mod_name)) },
            },
        ),
        _ => {
            assert(false);
            stop_with(String::new())
        },
    }
}

/// An installation succeeds only right after the temporary folder was
/// removed, which follows a completed copy.
pub proof fn law_install_succeeds_only_after_cleanup(
    state: InstallState,
    event: InstallEvent,
    r: (InstallState, InstallAction),
)
    requires
        install_expects(state, event),
        is_install_step(state, event, r),
        r.1.work matches InstallWork::Finish { outcome } && outcome is Ok,
    ensures
        state is CleaningUp,
        (event is CleanedUp),
{
}

/// The mod is copied into the pack folders only once the extracted archive
/// showed a folder holding a `dlc.rpf` and that folder was named.
pub proof fn law_copy_only_after_finding(
    state: InstallState,
    event: InstallEvent,
    r: (InstallState, InstallAction),
)
    requires
        install_expects(state, event),
        is_install_step(state, event, r),
        r.1.work is CopyMod,
    ensures
        state is NamingMod,
        (event is FolderNamed),
{
}

/// The entry is a visited file named `dlc.rpf`.
pub open spec fn is_dlc_entry(e: WalkEntry) -> bool {
    e matches WalkEntry::Visited { file_name, .. } && file_name@ == "dlc.rpf"@
}

/// The walk for the mod's folder stops at the first entry that is an error or
/// a `dlc.rpf`: an error ends it with that error, the first `dlc.rpf` with the
/// folder that holds it, and a walk with neither finds nothing.
pub proof fn law_dlc_search_stops_at_first(es: Seq<WalkEntry>, i: int)
    requires
        0 <= i < es.len(),
        es[i] is Failed || is_dlc_entry(es[i]),
        forall|j: int| 0 <= j < i ==> #[trigger] es[j] is Visited && !is_dlc_entry(es[j]),
    ensures
        es[i] matches WalkEntry::Failed { message } ==> dlc_search(es) == Err::<
            Option<Seq<char>>,
            Seq<char>,
        >(message@),
        es[i] matches WalkEntry::Visited { parent, .. } ==> dlc_search(es) == Ok::<
            Option<Seq<char>>,
            Seq<char>,
        >(
            match parent {
                Some(p) => Some(p@),
                None => None,
            },
        ),
    decreases i,
{
    if i > 0 {
        let d = es.drop_first();
        assert(es[0] is Visited && !is_dlc_entry(es[0]));
        assert forall|j: int| 0 <= j < i - 1 implies #[trigger] d[j] is Visited && !is_dlc_entry(
            d[j],
        ) by {
            assert(d[j] == es[j + 1]);
        }
        assert(d[i - 1] == es[i]);
        law_dlc_search_stops_at_first(d, i - 1);
    }
}

/// A walk with no error and no `dlc.rpf` finds no folder.
pub proof fn law_dlc_search_finds_nothing(es: Seq<WalkEntry>)
    requires
        forall|j: int| 0 <= j < es.len() ==> #[trigger] es[j] is Visited && !is_dlc_entry(es[j]),
    ensures
        dlc_search(es) == Ok::<Option<Seq<char>>, Seq<char>>(None),
    decreases es.len(),
{
    if es.len() > 0 {
        let d = es.drop_first();
        assert(es[0] is Visited && !is_dlc_entry(es[0]));
        assert forall|j: int| 0 <= j < d.len() implies #[trigger] d[j] is Visited && !is_dlc_entry(
            d[j],
        ) by {
            assert(d[j] == es[j + 1]);
        }
        law_dlc_search_finds_nothing(d);
    }
}

} // verus!
