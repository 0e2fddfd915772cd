//! The steps of writing the synced `dlclist.xml` back into the game: extract
//! it from `update.rpf`, sync it with the pack folders, pack it back, and
//! clean up. The caller performs each action and reports how it went.

use vstd::prelude::*;
use vstd::string::*;
use crate::text::{debug_quote, debug_quoted, decimal_int, push_decimal_i32};

verus! {

/// The pack folders, relative to the game's folder.
pub const DLCPACKS_SUBDIR: &'static str = "mods/update/x64/dlcpacks";

/// The archive that holds `dlclist.xml`, relative to the game's folder.
pub const UPDATE_RPF_SUBDIR: &'static str = "mods/update/update.rpf";

/// Where `dlclist.xml` stands inside `update.rpf` and in the folder it is
/// extracted to.
pub const DLCLIST_IN_ARCHIVE: &'static str = "common/data/dlclist.xml";

/// Where the run stands.
pub enum PatchState {
    Start,
    PreparingTempDir,
    Extracting,
    Syncing,
    Packing,
    CleaningUp { packed: bool },
    InspectingPackerFailure,
    Finished,
}

/// How the last action went.
pub enum PatchEvent {
    Begin,
    TempDirReady { result: Result<(), String> },
    ExtractorExited { success: bool, stderr: String },
    DlclistSynced { result: Result<(), String> },
    PackerExited { success: bool },
    CleanedUp,
    PackerFailureInspected { code: Option<i32>, stderr: String },
}

/// What the caller does next.
pub enum PatchAction {
    /// Remove the temporary folder if it exists, then create it.
    PrepareTempDir,
    /// Extract `dlclist.xml` from `update.rpf` into the temporary folder.
    RunExtractor,
    /// Sync the extracted `dlclist.xml` with the pack folders.
    SyncDlclist,
    /// Put the synced `dlclist.xml` back into `update.rpf`.
    RunPacker,
    /// Remove the temporary folder.
    RemoveTempDir,
    /// Run the packer again for its exit code and what it writes to standard
    /// error.
    InspectPackerFailure,
    /// Stop, with this outcome.
    Finish { outcome: Result<(), String> },
}

/// The event that answers the action of each state.
pub open spec fn expects(state: PatchState, event: PatchEvent) -> bool {
    match (state, event) {
        (PatchState::Start, PatchEvent::Begin) => true,
        (PatchState::PreparingTempDir, PatchEvent::TempDirReady { .. }) => true,
        (PatchState::Extracting, PatchEvent::ExtractorExited { .. }) => true,
        (PatchState::Syncing, PatchEvent::DlclistSynced { .. }) => true,
        (PatchState::Packing, PatchEvent::PackerExited { .. }) => true,
        (PatchState::CleaningUp { .. }, PatchEvent::CleanedUp) => true,
        (PatchState::InspectingPackerFailure, PatchEvent::PackerFailureInspected { .. }) => true,
        _ => false,
    }
}

/// The message where the extractor failed.
pub open spec fn extractor_failure(stderr: Seq<char>) -> Seq<char> {
    "rpf.exe extraction failed: "@ + stderr
}

/// How `{:?}` writes an exit code.
pub open spec fn code_debug(code: Option<i32>) -> Seq<char> {
    match code {
        Some(c) => "Some("@ + decimal_int(c as int) + ")"@,
        None => "None"@,
    }
}

/// The message where the packer failed.
pub open spec fn packer_failure(code: Option<i32>, stderr: Seq<char>) -> Seq<char> {
    "CodeWalkerCLI failed: "@ + code_debug(code) + ", "@ + debug_quoted(stderr)
}

/// The outcome `o` is the failure with message `m`.
pub open spec fn fails_with(o: Result<(), String>, m: Seq<char>) -> bool {
    o matches Err(e) && e@ == m
}

/// The run stops with the failure `m`.
pub open spec fn stops_with_failure(r: (PatchState, PatchAction), m: Seq<char>) -> bool {
    &&& r.0 is Finished
    &&& r.1 matches PatchAction::Finish { outcome } && fails_with(outcome, m)
}

/// The step taken for `event` in `state`: a failure to prepare, extract or
/// sync ends the run at once with its message; after the packer ran, the
/// temporary folder is removed whatever came of it; then a successful run
/// ends, and a failed one looks at the packer's failure once more and ends
/// with its exit code and error output.
pub open spec fn is_patch_step(state: PatchState, event: PatchEvent, r: (PatchState, PatchAction)) -> bool {
    match (state, event) {
        (PatchState::Start, PatchEvent::Begin) => r.0 is PreparingTempDir && r.1 is PrepareTempDir,
        (PatchState::PreparingTempDir, PatchEvent::TempDirReady { result }) => match result {
            Ok(()) => r.0 is Extracting && r.1 is RunExtractor,
            Err(e) => stops_with_failure(r, e@),
        },
        (PatchState::Extracting, PatchEvent::ExtractorExited { success, stderr }) => if success {
            r.0 is Syncing && r.1 is SyncDlclist
        } else {
            stops_with_failure(r, extractor_failure(stderr@))
        },
        (PatchState::Syncing, PatchEvent::DlclistSynced { result }) => match result {
            Ok(()) => r.0 is Packing && r.1 is RunPacker,
            Err(e) => stops_with_failure(r, e@),
        },
        (PatchState::Packing, PatchEvent::PackerExited { success }) => r.1 is RemoveTempDir && r.0
            == PatchState::CleaningUp { packed: success },
        (PatchState::CleaningUp { packed }, PatchEvent::CleanedUp) => if packed {
            r.0 is Finished && r.1 == PatchAction::Finish { outcome: Ok(()) }
        } else {
            r.0 is InspectingPackerFailure && r.1 is InspectPackerFailure
        },
        (
            PatchState::InspectingPackerFailure,
            PatchEvent::PackerFailureInspected { code, stderr },
        ) => stops_with_failure(r, packer_failure(code, stderr@)),
        _ => false,
    }
}

/// The next state and action of a run.
pub fn patch_step(state: PatchState, event: PatchEvent) -> (r: (PatchState, PatchAction))
    requires
        expects(state, event),
    ensures
        is_patch_step(state, event, r),
{
    match (state, event) {
        (PatchState::Start, PatchEvent::Begin) => (
            PatchState::PreparingTempDir,
            PatchAction::PrepareTempDir,
        ),
        (PatchState::PreparingTempDir, PatchEvent::TempDirReady { result }) => match result {
            Ok(()) => (PatchState::Extracting, PatchAction::RunExtractor),
            Err(e) => (PatchState::Finished, PatchAction::Finish { outcome: Err(e) }),
        },
        (PatchState::Extracting, PatchEvent::ExtractorExited { success, stderr }) => if success {
            (PatchState::Syncing, PatchAction::SyncDlclist)
        } else {
            let mut m = String::from_str("rpf.exe extraction failed: ");
            m.append(stderr.as_str());
            assert(m@ =~= extractor_failure(stderr@));
            (PatchState::Finished, PatchAction::Finish { outcome: Err(m) })
        },
        (PatchState::Syncing, PatchEvent::DlclistSynced { result }) => match result {
            Ok(()) => (PatchState::Packing, PatchAction::RunPacker),
            Err(e) => (PatchState::Finished, PatchAction::Finish { outcome: Err(e) }),
        },
        (PatchState::Packing, PatchEvent::PackerExited { success }) => (
            PatchState::CleaningUp { packed: success },
            PatchAction::RemoveTempDir,
        ),
        (PatchState::CleaningUp { packed }, PatchEvent::CleanedUp) => if packed {
            (PatchState::Finished, PatchAction::Finish { outcome: Ok(()) })
        } else {
            (PatchState::InspectingPackerFailure, PatchAction::InspectPackerFailure)
        },
        (
            PatchState::InspectingPackerFailure,
            PatchEvent::PackerFailureInspected { code, stderr },
        ) => {
            let mut m = String::from_str("CodeWalkerCLI failed: ");
            match code {
                Some(c) => {
                    m.append("Some(");
                    push_decimal_i32(&mut m, c);
                    m.append(")");
                },
                None => {
                    m.append("None");
                },
            }
            m.append(", ");
            let q = debug_quote(stderr.as_str());
            m.append(q.as_str());
            assert(m@ =~= packer_failure(code, stderr@));
            (PatchState::Finished, PatchAction::Finish { outcome: Err(m) })
        },
        _ => {
            assert(false);
            (PatchState::Finished, PatchAction::Finish { outcome: Ok(()) })
        },
    }
}

/// `update.rpf` is packed again only right after a successful sync of the
/// extracted `dlclist.xml`.
pub proof fn law_packing_follows_successful_sync(
    state: PatchState,
    event: PatchEvent,
    r: (PatchState, PatchAction),
)
    requires
        expects(state, event),
        is_patch_step(state, event, r),
        r.1 is RunPacker,
    ensures
        state is Syncing,
        event matches PatchEvent::DlclistSynced { result } && result is Ok,
{
}

/// Once the packer has run, the temporary folder is removed next, whether
/// the packer succeeded or not.
pub proof fn law_cleanup_after_packing(state: PatchState, event: PatchEvent, r: (PatchState, PatchAction))
    requires
        expects(state, event),
        state is Packing,
        is_patch_step(state, event, r),
    ensures
        r.1 is RemoveTempDir,
        r.0 is CleaningUp,
{
}

/// A run ends successfully only right after the temporary folder was
/// removed following a successful packing.
pub proof fn law_success_only_after_packing(
    state: PatchState,
    event: PatchEvent,
    r: (PatchState, PatchAction),
)
    requires
        expects(state, event),
        is_patch_step(state, event, r),
        r.1 == (PatchAction::Finish { outcome: Ok(()) }),
    ensures
        state == (PatchState::CleaningUp { packed: true }),
        (event is CleanedUp),
{
}

/// The arguments of `rpf.exe` that extract `inner` from `archive` into `dest`.
pub fn extractor_args(archive: &str, inner: &str, dest: &str) -> (r: Vec<String>)
    ensures
        r@.map_values(|s: String| s@) == seq!["extract"@, archive@, inner@, "--output"@, dest@],
{
    let mut r: Vec<String> = Vec::new();
    r.push(String::from_str("extract"));
    r.push(String::from_str(archive));
    r.push(String::from_str(inner));
    r.push(String::from_str("--output"));
    r.push(String::from_str(dest));
    assert(r@.map_values(|s: String| s@) =~= seq!["extract"@, archive@, inner@, "--output"@, dest@]);
    r
}

/// The arguments of `rpf.exe` that extract a whole pack into `dest`.
pub fn pack_extractor_args(pack: &str, dest: &str) -> (r: Vec<String>)
    ensures
        r@.map_values(|s: String| s@) == seq!["extract"@, pack@, "--output"@, dest@],
{
    let mut r: Vec<String> = Vec::new();
    r.push(String::from_str("extract"));
    r.push(String::from_str(pack));
    r.push(String::from_str("--output"));
    r.push(String::from_str(dest));
    assert(r@.map_values(|s: String| s@) =~= seq!["extract"@, pack@, "--output"@, dest@]);
    r
}

/// The arguments of `CodeWalkerCLI.exe` that put `file` back into `archive`
/// as `inner`.
pub fn packer_args(game_dir: &str, archive: &str, inner: &str, file: &str) -> (r: Vec<String>)
    ensures
        r@.map_values(|s: String| s@) == seq![game_dir@, archive@, inner@, file@],
{
    let mut r: Vec<String> = Vec::new();
    r.push(String::from_str(game_dir));
    r.push(String::from_str(archive));
    r.push(String::from_str(inner));
    r.push(String::from_str(file));
    assert(r@.map_values(|s: String| s@) =~= seq![game_dir@, archive@, inner@, file@]);
    r
}

} // verus!
