use tere::checker::check_first_run_with_prompt;
use tere::checker::interpret_answer;
use tere::checker::resolve_response;
use tere::checker::FirstRunOutcome;
use tere::checker::PromptResolution;
use tere::checker::PromptResponse;
use tere::decider::should_prompt;
use tere::marker::MarkerStore;
use tere::messages::cancellation_message;
use tere::messages::first_run_prompt_text;
use tere::messages::marker_file_contents;
use tere::settings::HistoryFileReference;
use tere::settings::Settings;

fn bools() -> [bool; 2] {
    [false, true]
}

#[test]
fn empty_history_suppresses_prompt_everywhere() {
    for history_file_exists in bools() {
        for cache_dir_available in bools() {
            for marker_exists in bools() {
                assert!(!should_prompt(
                    &HistoryFileReference::Empty,
                    history_file_exists,
                    cache_dir_available,
                    marker_exists,
                ));
            }
        }
    }
}

#[test]
fn existing_history_file_suppresses_prompt() {
    for cache_dir_available in bools() {
        for marker_exists in bools() {
            assert!(!should_prompt(
                &HistoryFileReference::Path(String::from("/home/user/.local/share/tere/history.json")),
                true,
                cache_dir_available,
                marker_exists,
            ));
        }
    }
}

#[test]
fn unavailable_cache_dir_suppresses_prompt() {
    let references = [
        HistoryFileReference::Absent,
        HistoryFileReference::Empty,
        HistoryFileReference::Path(String::from("/tmp/history.json")),
    ];
    for history in &references {
        for history_file_exists in bools() {
            for marker_exists in bools() {
                assert!(!should_prompt(history, history_file_exists, false, marker_exists));
            }
        }
    }
}

#[test]
fn marker_suppresses_prompt_once_written() {
    // After a successful marker write the marker exists, so a later check
    // with the same cache directory and a missing history file must not
    // prompt again.
    let references = [
        HistoryFileReference::Absent,
        HistoryFileReference::Path(String::from("/tmp/history.json")),
    ];
    for history in &references {
        assert!(should_prompt(history, false, true, false));
        assert!(!should_prompt(history, false, true, true));
    }
}

#[test]
fn fresh_environment_prompts() {
    assert!(should_prompt(&HistoryFileReference::Absent, false, true, false));
    let missing = HistoryFileReference::Path(String::from("/tmp/no-such-history.json"));
    assert!(should_prompt(&missing, false, true, false));
}

#[test]
fn empty_history_file_argument_skips_prompt() {
    // Scenario: the caller passes an explicitly empty history-file argument.
    let settings = Settings { history_file: HistoryFileReference::Empty };
    let outcome =
        check_first_run_with_prompt(&settings, false, true, false, &PromptResponse::NonInteractive);
    assert!(matches!(outcome, FirstRunOutcome::Skipped));
}

#[test]
fn fresh_cache_dir_prompt_declined_cancels() {
    // Scenario: fresh cache directory, no marker, no history file; the user
    // answers "n".
    let settings = Settings { history_file: HistoryFileReference::Absent };
    assert!(should_prompt(&settings.history_file, false, true, false));
    assert!(first_run_prompt_text().contains("first time"));
    let response = PromptResponse::Answer(String::from("n"));
    let outcome = check_first_run_with_prompt(&settings, false, true, false, &response);
    assert!(matches!(outcome, FirstRunOutcome::Declined));
    assert_eq!(cancellation_message(), "Cancelled.");
}

#[test]
fn fresh_cache_dir_prompt_confirmed_resolves_marker_path() {
    // Scenario: same fresh environment, but the user answers "y"; the caller
    // is then to write the marker at the resolved path.
    let settings = Settings { history_file: HistoryFileReference::Absent };
    let response = PromptResponse::Answer(String::from("y"));
    let outcome = check_first_run_with_prompt(&settings, false, true, false, &response);
    assert!(matches!(outcome, FirstRunOutcome::Confirmed));
    let store = MarkerStore::new(Some(String::from("/tmp/tere-test-cache")));
    assert_eq!(store.version_file_path(), Some(String::from("/tmp/tere-test-cache/tere/version")));
}

#[test]
fn preexisting_marker_skips_prompt() {
    // Scenario: a marker file is left over from a prior run in the same
    // cache directory.
    let settings = Settings { history_file: HistoryFileReference::Absent };
    let outcome =
        check_first_run_with_prompt(&settings, false, true, true, &PromptResponse::NonInteractive);
    assert!(matches!(outcome, FirstRunOutcome::Skipped));
}

#[test]
fn answer_interpretation() {
    assert!(interpret_answer("y"));
    assert!(interpret_answer("Y"));
    assert!(!interpret_answer("n"));
    assert!(!interpret_answer("N"));
    assert!(!interpret_answer(""));
    assert!(!interpret_answer("yes"));
    assert!(!interpret_answer(" y"));
}

#[test]
fn non_interactive_prompt_declines() {
    let r = resolve_response(&PromptResponse::NonInteractive);
    assert!(matches!(r, PromptResolution::Declined));
    let settings = Settings { history_file: HistoryFileReference::Absent };
    let outcome =
        check_first_run_with_prompt(&settings, false, true, false, &PromptResponse::NonInteractive);
    assert!(matches!(outcome, FirstRunOutcome::Declined));
}

#[test]
fn unrecognized_answer_declines() {
    let response = PromptResponse::Answer(String::from("maybe"));
    let r = resolve_response(&response);
    assert!(matches!(r, PromptResolution::Declined));
}

#[test]
fn marker_path_requires_cache_dir() {
    let store = MarkerStore::new(None);
    assert!(!store.cache_dir_available());
    assert_eq!(store.version_file_path(), None);
}

#[test]
fn platform_store_is_consistent() {
    let store = MarkerStore::from_platform();
    match store.version_file_path() {
        Some(path) => {
            assert!(store.cache_dir_available());
            assert!(path.ends_with("/tere/version"));
            assert!(path.len() > "/tere/version".len());
        }
        None => assert!(!store.cache_dir_available()),
    }
}

#[test]
fn marker_contents_non_empty() {
    assert!(!marker_file_contents().is_empty());
}
