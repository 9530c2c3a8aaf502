//! The first-run decision: whether the one-time prompt should be shown.

use vstd::prelude::*;

use crate::settings::HistoryFileReference;

verus! {

/// The decision policy, first matching rule wins:
/// 1. an explicitly empty history-file reference means the user opted out of
///    history persistence, which counts as already configured: no prompt;
/// 2. a history-file reference naming a file that exists is evidence of a
///    prior run: no prompt;
/// 3. with no cache directory there is no durable place to record that the
///    prompt ran, so rather than prompt on every invocation: no prompt;
/// 4. an existing marker file means the prompt was already accepted: no
///    prompt;
/// 5. otherwise: prompt.
pub open spec fn should_prompt_spec(
    history: HistoryFileReference,
    history_file_exists: bool,
    cache_dir_available: bool,
    marker_exists: bool,
) -> bool {
    if history is Empty {
        false
    } else if history is Path && history_file_exists {
        false
    } else if !cache_dir_available {
        false
    } else if marker_exists {
        false
    } else {
        true
    }
}

/// Decides whether the first-run prompt should be shown, given the
/// user-supplied history-file reference and three facts about the
/// environment: whether the referenced history file exists, whether a cache
/// directory could be resolved, and whether the version marker file exists.
pub fn should_prompt(
    history: &HistoryFileReference,
    history_file_exists: bool,
    cache_dir_available: bool,
    marker_exists: bool,
) -> (r: bool)
    ensures
        r == should_prompt_spec(*history, history_file_exists, cache_dir_available, marker_exists),
{
    match history {
        HistoryFileReference::Empty => false,
        HistoryFileReference::Path(_) if history_file_exists => false,
        _ => cache_dir_available && !marker_exists,
    }
}

/// An explicitly empty history-file reference suppresses the prompt
/// regardless of the marker and cache-directory state.
pub proof fn lemma_empty_history_never_prompts(
    history_file_exists: bool,
    cache_dir_available: bool,
    marker_exists: bool,
)
    ensures
        !should_prompt_spec(
            HistoryFileReference::Empty,
            history_file_exists,
            cache_dir_available,
            marker_exists,
        ),
{
}

/// A history-file reference whose file exists suppresses the prompt
/// regardless of the marker and cache-directory state.
pub proof fn lemma_existing_history_file_never_prompts(
    path: String,
    cache_dir_available: bool,
    marker_exists: bool,
)
    ensures
        !should_prompt_spec(
            HistoryFileReference::Path(path),
            true,
            cache_dir_available,
            marker_exists,
        ),
{
}

/// When no cache directory can be resolved, the prompt is suppressed for
/// every settings and marker state.
pub proof fn lemma_no_cache_dir_never_prompts(
    history: HistoryFileReference,
    history_file_exists: bool,
    marker_exists: bool,
)
    ensures
        !should_prompt_spec(history, history_file_exists, false, marker_exists),
{
}

/// Once the marker file exists — in particular after a successful marker
/// write — every later first-run check is suppressed, whatever the settings:
/// the prompt is shown at most once per cache directory.
pub proof fn lemma_marker_suppresses_prompt(
    history: HistoryFileReference,
    history_file_exists: bool,
    cache_dir_available: bool,
)
    ensures
        !should_prompt_spec(history, history_file_exists, cache_dir_available, true),
{
}

} // verus!
