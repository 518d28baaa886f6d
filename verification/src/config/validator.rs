//! Validation of the configuration: the first rule that is broken, with its message.
use crate::config::schema::{GoogleDriveConfig, SourceConfig, SyncConfig};
use crate::error::{Result, RustDriveSyncError};
use crate::text::same_text;
use vstd::prelude::*;

verus! {

/// The message of the first rule that the settings break, or `None` when they break none.
/// The rules, in order: the source directory exists; a target folder is named by identifier
/// or by name; the mode is "once" or "watch"; the conflict resolution is "overwrite", "skip"
/// or "rename"; the chunk size is positive; the size limit is positive; the number of
/// attempts is positive; the backoff multiplier is positive.
pub open spec fn config_problem(
    source_exists: bool,
    source_path: Seq<char>,
    has_folder_id: bool,
    has_folder_name: bool,
    mode: Seq<char>,
    conflict_resolution: Seq<char>,
    chunk_size_mb: u64,
    max_file_size_mb: u64,
    max_attempts: u32,
    backoff_multiplier_positive: bool,
) -> Option<Seq<char>> {
    if !source_exists {
        Some("Pasta de origem não existe: "@ + source_path)
    } else if !has_folder_id && !has_folder_name {
        Some("É necessário especificar target_folder_id ou target_folder_name"@)
    } else if mode != "once"@ && mode != "watch"@ {
        Some("Modo de sync inválido: "@ + mode + ". Use 'once' ou 'watch'"@)
    } else if conflict_resolution != "overwrite"@ && conflict_resolution != "skip"@
        && conflict_resolution != "rename"@ {
        Some(
            "Resolução de conflito inválida: "@ + conflict_resolution
                + ". Use 'overwrite', 'skip' ou 'rename'"@,
        )
    } else if chunk_size_mb == 0 {
        Some("chunk_size_mb deve ser maior que 0"@)
    } else if max_file_size_mb == 0 {
        Some("max_file_size_mb deve ser maior que 0"@)
    } else if max_attempts == 0 {
        Some("max_attempts deve ser maior que 0"@)
    } else if !backoff_multiplier_positive {
        Some("backoff_multiplier deve ser maior que 0"@)
    } else {
        None
    }
}

/// Each of the three conflict resolutions "overwrite", "skip" and "rename" is accepted: with
/// every other setting valid, validation finds no problem. Any other conflict resolution is
/// refused with its own message once the settings before it are valid.
pub proof fn law_conflict_resolutions_accepted(
    source_path: Seq<char>,
    has_folder_id: bool,
    has_folder_name: bool,
    mode: Seq<char>,
    conflict_resolution: Seq<char>,
    chunk_size_mb: u64,
    max_file_size_mb: u64,
    max_attempts: u32,
)
    requires
        has_folder_id || has_folder_name,
        mode == "once"@ || mode == "watch"@,
    ensures
        (conflict_resolution == "overwrite"@ || conflict_resolution == "skip"@
            || conflict_resolution == "rename"@) && chunk_size_mb > 0 && max_file_size_mb > 0
            && max_attempts > 0 ==> config_problem(
            true,
            source_path,
            has_folder_id,
            has_folder_name,
            mode,
            conflict_resolution,
            chunk_size_mb,
            max_file_size_mb,
            max_attempts,
            true,
        ) is None,
        conflict_resolution != "overwrite"@ && conflict_resolution != "skip"@
            && conflict_resolution != "rename"@ ==> config_problem(
            true,
            source_path,
            has_folder_id,
            has_folder_name,
            mode,
            conflict_resolution,
            chunk_size_mb,
            max_file_size_mb,
            max_attempts,
            true,
        ) == Some(
            "Resolução de conflito inválida: "@ + conflict_resolution
                + ". Use 'overwrite', 'skip' ou 'rename'"@,
        ),
{
}

/// The outcome owed for a given problem: success when there is none, otherwise an invalid
/// configuration error with that message.
pub open spec fn check_outcome(problem: Option<Seq<char>>, r: Result<()>) -> bool {
    match problem {
        None => r is Ok,
        Some(m) => r matches Err(RustDriveSyncError::ConfigInvalid { message }) && message@ == m,
    }
}

fn invalid(message: String) -> (r: Result<()>)
    ensures
        r matches Err(RustDriveSyncError::ConfigInvalid { message: m }) && m@ == message@,
{
    Err(RustDriveSyncError::ConfigInvalid { message })
}

fn three_part(a: &str, b: &str, c: &str) -> (r: String)
    ensures
        r@ == a@ + b@ + c@,
{
    let mut s = String::from_str(a);
    s.append(b);
    s.append(c);
    s
}

/// Validates the settings read from the configuration. `source_exists` tells whether the
/// source directory `source.path` exists, and `backoff_multiplier_positive` whether the
/// retry backoff multiplier is above zero (both are read outside, the second from a float).
pub fn check_config(
    source: &SourceConfig,
    source_exists: bool,
    drive: &GoogleDriveConfig,
    sync: &SyncConfig,
    max_attempts: u32,
    backoff_multiplier_positive: bool,
) -> (r: Result<()>)
    ensures
        check_outcome(
            config_problem(
                source_exists,
                source.path@,
                drive.target_folder_id is Some,
                drive.target_folder_name is Some,
                sync.mode@,
                sync.conflict_resolution@,
                sync.chunk_size_mb,
                sync.max_file_size_mb,
                max_attempts,
                backoff_multiplier_positive,
            ),
            r,
        ),
        source_exists && (drive.target_folder_id is Some || drive.target_folder_name is Some) && (
        sync.mode@ == "once"@ || sync.mode@ == "watch"@) && (sync.conflict_resolution@
            == "overwrite"@ || sync.conflict_resolution@ == "skip"@ || sync.conflict_resolution@
            == "rename"@) && sync.chunk_size_mb > 0 && sync.max_file_size_mb > 0 && max_attempts
            > 0 && backoff_multiplier_positive ==> r is Ok,
{
    if !source_exists {
        let mut m = String::from_str("Pasta de origem não existe: ");
        m.append(source.path.as_str());
        return invalid(m);
    }
    if drive.target_folder_id.is_none() && drive.target_folder_name.is_none() {
        return invalid(
            String::from_str("É necessário especificar target_folder_id ou target_folder_name"),
        );
    }
    let mode = sync.mode.as_str();
    if !same_text(mode, "once") && !same_text(mode, "watch") {
        return invalid(three_part("Modo de sync inválido: ", mode, ". Use 'once' ou 'watch'"));
    }
    let cr = sync.conflict_resolution.as_str();
    if !same_text(cr, "overwrite") && !same_text(cr, "skip") && !same_text(cr, "rename") {
        return invalid(
            three_part(
                "Resolução de conflito inválida: ",
                cr,
                ". Use 'overwrite', 'skip' ou 'rename'",
            ),
        );
    }
    if sync.chunk_size_mb == 0 {
        return invalid(String::from_str("chunk_size_mb deve ser maior que 0"));
    }
    if sync.max_file_size_mb == 0 {
        return invalid(String::from_str("max_file_size_mb deve ser maior que 0"));
    }
    if max_attempts == 0 {
        return invalid(String::from_str("max_attempts deve ser maior que 0"));
    }
    if !backoff_multiplier_positive {
        return invalid(String::from_str("backoff_multiplier deve ser maior que 0"));
    }
    Ok(())
}

} // verus!
