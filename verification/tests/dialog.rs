use notepad::dialog::{default_filters, filter_string, make_request, picker_outcome, DialogMode};
use notepad::outcome::{FailureReason, PickerResult};
use notepad::shell::AppShell;

#[test]
fn default_filter_text_is_fully_rendered() {
    let filters = default_filters();
    assert_eq!(filter_string(&filters), "Text(*.txt)|Any(*.*)");
}

#[test]
fn filter_string_of_empty_list_is_empty() {
    let filters: Vec<(String, String)> = Vec::new();
    assert_eq!(filter_string(&filters), "");
}

#[test]
fn filter_string_of_one_pair_has_no_separator() {
    let filters = vec![("Logs".to_owned(), "*.log".to_owned())];
    assert_eq!(filter_string(&filters), "Logs(*.log)");
}

#[test]
fn filter_string_joins_three_pairs() {
    let filters = vec![
        ("A".to_owned(), "*.a".to_owned()),
        ("B".to_owned(), "*.b".to_owned()),
        ("C".to_owned(), "*.c".to_owned()),
    ];
    assert_eq!(filter_string(&filters), "A(*.a)|B(*.b)|C(*.c)");
}

#[test]
fn default_filters_list_text_then_any() {
    let filters = default_filters();
    assert_eq!(filters.len(), 2);
    assert_eq!(filters[0], ("Text".to_owned(), "*.txt".to_owned()));
    assert_eq!(filters[1], ("Any".to_owned(), "*.*".to_owned()));
}

#[test]
fn open_request_carries_mode_dir_and_filter() {
    let shell = AppShell::new("/home/user/downloads".to_owned());
    let req = shell.open_request();
    assert_eq!(req.mode, DialogMode::Open);
    assert_eq!(req.start_dir, "/home/user/downloads");
    assert_eq!(req.filter, "Text(*.txt)|Any(*.*)");
}

#[test]
fn save_request_carries_mode_dir_and_filter() {
    let shell = AppShell::new("/data/docs".to_owned());
    let req = shell.save_request();
    assert_eq!(req.mode, DialogMode::Save);
    assert_eq!(req.start_dir, "/data/docs");
    assert_eq!(req.filter, "Text(*.txt)|Any(*.*)");
}

#[test]
fn unconstructed_chooser_fails_construction() {
    assert_eq!(
        picker_outcome(false, false, None),
        PickerResult::Failed(FailureReason::DialogConstruction)
    );
}

#[test]
fn dismissed_chooser_is_a_cancellation() {
    assert_eq!(picker_outcome(true, false, None), PickerResult::Cancelled);
}

#[test]
fn unretrievable_selection_fails_retrieval() {
    assert_eq!(
        picker_outcome(true, true, None),
        PickerResult::Failed(FailureReason::PathRetrieval)
    );
}

#[test]
fn retrieved_selection_is_chosen() {
    assert_eq!(
        picker_outcome(true, true, Some("picked.txt".to_owned())),
        PickerResult::Chosen("picked.txt".to_owned())
    );
}

#[test]
fn make_request_uses_given_mode_and_dir() {
    let req = make_request(DialogMode::Save, "/var/tmp".to_owned());
    assert_eq!(req.mode, DialogMode::Save);
    assert_eq!(req.start_dir, "/var/tmp");
}
