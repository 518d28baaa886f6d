//! How the command line and the configuration choose the synchronisation mode.
use crate::sync::engine_v2::SyncMode;
use crate::text::same_text;
use vstd::prelude::*;

verus! {

/// The mode chosen by the flags and the configured mode: `--once` wins, then `--watch`,
/// then the configuration ("watch" selects watching; anything else runs once).
pub open spec fn chosen_mode(once: bool, watch: bool, configured: Seq<char>) -> SyncMode {
    if once {
        SyncMode::Once
    } else if watch {
        SyncMode::Watch
    } else if configured == "watch"@ {
        SyncMode::Watch
    } else {
        SyncMode::Once
    }
}

/// The synchronisation mode for the flags `once` and `watch` and the configured mode.
pub fn resolve_sync_mode(once: bool, watch: bool, configured_mode: &str) -> (r: SyncMode)
    ensures
        r == chosen_mode(once, watch, configured_mode@),
        once ==> r == SyncMode::Once,
        !once && watch ==> r == SyncMode::Watch,
{
    if once {
        SyncMode::Once
    } else if watch {
        SyncMode::Watch
    } else if same_text(configured_mode, "watch") {
        SyncMode::Watch
    } else {
        SyncMode::Once
    }
}

/// `--once` always wins: with it the run happens once, whatever `--watch` and the
/// configuration say. Without it, `--watch` makes the run watch; without either flag the
/// run watches exactly when the configured mode is "watch".
pub proof fn law_once_flag_wins(once: bool, watch: bool, configured: Seq<char>)
    ensures
        once ==> chosen_mode(once, watch, configured) == SyncMode::Once,
        !once && watch ==> chosen_mode(once, watch, configured) == SyncMode::Watch,
        !once && !watch ==> (chosen_mode(once, watch, configured) == SyncMode::Watch <==> configured
            == "watch"@),
        !once && !watch ==> (chosen_mode(once, watch, configured) == SyncMode::Once <==> configured
            != "watch"@),
{
}

} // verus!
