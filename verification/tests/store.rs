use notepad::outcome::{FailureReason, FileOpOutcome};
use notepad::store::FileStore;

#[test]
fn read_missing_fails_open() {
    let fs = FileStore::new();
    let r = fs.read_all(&"missing.txt".to_owned());
    assert_eq!(r, Err(FileOpOutcome::Failure(FailureReason::FileOpen)));
    match r {
        Err(FileOpOutcome::Failure(reason)) => {
            assert_eq!(reason.message(), "open error");
        }
        _ => unreachable!(),
    }
}

#[test]
fn read_returns_full_content() {
    let mut fs = FileStore::new();
    fs.add_text_file("notes.txt".to_owned(), "line one\nline two".to_owned());
    let r = fs.read_all(&"notes.txt".to_owned());
    assert_eq!(r, Ok("line one\nline two".to_owned()));
}

#[test]
fn read_undecodable_fails_decode() {
    let mut fs = FileStore::new();
    fs.add_undecodable_file("blob.bin".to_owned());
    let r = fs.read_all(&"blob.bin".to_owned());
    assert_eq!(r, Err(FileOpOutcome::Failure(FailureReason::FileDecode)));
    match r {
        Err(FileOpOutcome::Failure(reason)) => {
            assert_eq!(reason.message(), "decode error");
        }
        _ => unreachable!(),
    }
}

#[test]
fn round_trip_through_fresh_write() {
    let mut fs = FileStore::new();
    fs.add_text_file("a.txt".to_owned(), "alpha beta".to_owned());
    let original = match fs.read_all(&"a.txt".to_owned()) {
        Ok(text) => text,
        Err(_) => unreachable!(),
    };
    let outcome = fs.write_all(&"b.txt".to_owned(), &original);
    assert_eq!(outcome, FileOpOutcome::Success);
    let reread = fs.read_all(&"b.txt".to_owned());
    assert_eq!(reread, Ok("alpha beta".to_owned()));
}

#[test]
fn write_to_locked_path_fails_create_and_preserves_file() {
    let mut fs = FileStore::new();
    fs.add_text_file("keep.txt".to_owned(), "old content".to_owned());
    fs.lock_path("keep.txt".to_owned());
    let outcome = fs.write_all(&"keep.txt".to_owned(), &"new content".to_owned());
    assert_eq!(outcome, FileOpOutcome::Failure(FailureReason::FileCreate));
    match outcome {
        FileOpOutcome::Failure(reason) => {
            assert_eq!(reason.message(), "create error");
        }
        _ => unreachable!(),
    }
    let r = fs.read_all(&"keep.txt".to_owned());
    assert_eq!(r, Ok("old content".to_owned()));
}

#[test]
fn second_write_replaces_first() {
    let mut fs = FileStore::new();
    let path = "doc.txt".to_owned();
    assert_eq!(fs.write_all(&path, &"first".to_owned()), FileOpOutcome::Success);
    assert_eq!(fs.write_all(&path, &"second".to_owned()), FileOpOutcome::Success);
    assert_eq!(fs.read_all(&path), Ok("second".to_owned()));
}

#[test]
fn write_leaves_other_paths_alone() {
    let mut fs = FileStore::new();
    fs.add_text_file("one.txt".to_owned(), "one".to_owned());
    fs.add_text_file("two.txt".to_owned(), "two".to_owned());
    assert_eq!(fs.write_all(&"one.txt".to_owned(), &"changed".to_owned()), FileOpOutcome::Success);
    assert_eq!(fs.read_all(&"two.txt".to_owned()), Ok("two".to_owned()));
    assert_eq!(fs.read_all(&"one.txt".to_owned()), Ok("changed".to_owned()));
}

#[test]
fn empty_text_round_trips() {
    let mut fs = FileStore::new();
    assert_eq!(fs.write_all(&"empty.txt".to_owned(), &String::new()), FileOpOutcome::Success);
    assert_eq!(fs.read_all(&"empty.txt".to_owned()), Ok(String::new()));
}
