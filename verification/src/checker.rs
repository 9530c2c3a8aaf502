//! The first-run check itself: interpreting the prompt answer and combining
//! the decision, the prompt outcome and the marker obligation.

use vstd::prelude::*;

use crate::decider::should_prompt_spec;
use crate::decider::should_prompt;
use crate::settings::Settings;

verus! {

/// What the prompt interaction handed back: a line of input, or a failure
/// because no interactive terminal is attached.
#[derive(Debug, Clone)]
pub enum PromptResponse {
    Answer(String),
    NonInteractive,
}

/// How a prompt response resolves: the user confirmed, or declined.
#[derive(Debug, Clone, Copy, PartialEq, Eq, Structural)]
pub enum PromptResolution {
    Confirmed,
    Declined,
}

/// The outcome of one first-run check.
#[derive(Debug, Clone, Copy, PartialEq, Eq, Structural)]
pub enum FirstRunOutcome {
    /// No prompt was needed; startup proceeds with no side effect.
    Skipped,
    /// The user confirmed; the caller should write the marker file and
    /// proceed.
    Confirmed,
    /// The user declined, or no terminal was attached; the caller should
    /// abort startup.
    Declined,
}

/// Exactly the inputs `y` and `Y` are affirmative.
pub open spec fn affirmative_spec(input: Seq<char>) -> bool {
    input == "y"@ || input == "Y"@
}

/// Whether a prompt answer is affirmative: `y` and `Y` are, and every other
/// input counts as a decline — the reversible, low-risk reading of an
/// ambiguous answer.
pub fn interpret_answer(input: &str) -> (r: bool)
    ensures
        r == affirmative_spec(input@),
{
    let answer = input.to_owned();
    answer == "y".to_owned() || answer == "Y".to_owned()
}

/// How a prompt response resolves: an affirmative answer confirms; any other
/// answer declines, and so does a non-interactive terminal, which is treated
/// as an implicit decline rather than an error.
pub open spec fn resolution_spec(response: PromptResponse) -> PromptResolution {
    match response {
        PromptResponse::Answer(input) => if affirmative_spec(input@) {
            PromptResolution::Confirmed
        } else {
            PromptResolution::Declined
        },
        PromptResponse::NonInteractive => PromptResolution::Declined,
    }
}

/// Resolves a prompt response into a confirmation or a decline.
pub fn resolve_response(response: &PromptResponse) -> (r: PromptResolution)
    ensures
        r == resolution_spec(*response),
{
    match response {
        PromptResponse::Answer(input) => {
            if interpret_answer(input.as_str()) {
                PromptResolution::Confirmed
            } else {
                PromptResolution::Declined
            }
        },
        PromptResponse::NonInteractive => PromptResolution::Declined,
    }
}

/// The whole check as one step: skip when no prompt is warranted, otherwise
/// follow the prompt resolution.
pub open spec fn first_run_outcome_spec(
    settings: Settings,
    history_file_exists: bool,
    cache_dir_available: bool,
    marker_exists: bool,
    response: PromptResponse,
) -> FirstRunOutcome {
    if !should_prompt_spec(
        settings.history_file,
        history_file_exists,
        cache_dir_available,
        marker_exists,
    ) {
        FirstRunOutcome::Skipped
    } else {
        match resolution_spec(response) {
            PromptResolution::Confirmed => FirstRunOutcome::Confirmed,
            PromptResolution::Declined => FirstRunOutcome::Declined,
        }
    }
}

/// Runs the first-run state machine on the given settings, environment facts
/// and prompt response. When the decision policy suppresses the prompt the
/// outcome is `Skipped` and the response is ignored; otherwise an affirmative
/// response yields `Confirmed` (the caller then writes the marker) and any
/// other response yields `Declined` (the caller then aborts startup).
pub fn check_first_run_with_prompt(
    settings: &Settings,
    history_file_exists: bool,
    cache_dir_available: bool,
    marker_exists: bool,
    response: &PromptResponse,
) -> (outcome: FirstRunOutcome)
    ensures
        outcome == first_run_outcome_spec(
            *settings,
            history_file_exists,
            cache_dir_available,
            marker_exists,
            *response,
        ),
{
    if !should_prompt(
        &settings.history_file,
        history_file_exists,
        cache_dir_available,
        marker_exists,
    ) {
        FirstRunOutcome::Skipped
    } else {
        match resolve_response(response) {
            PromptResolution::Confirmed => FirstRunOutcome::Confirmed,
            PromptResolution::Declined => FirstRunOutcome::Declined,
        }
    }
}

} // verus!
