//! A file store with the editor's whole-file access semantics: reading a
//! missing path fails to open, reading content that is not text fails to
//! decode, and writing a locked path fails to create. The binary performs
//! the same operations against the real filesystem at its edge; scenarios
//! and proofs run against this store.

use vstd::prelude::*;

use crate::outcome::{FailureReason, FileOpOutcome};

verus! {

/// What one path holds: decodable text, or bytes that cannot be
/// interpreted as text.
pub enum StoredFile {
    /// Content that decodes as text.
    Text(String),
    /// Content that does not decode as text.
    Undecodable,
}

/// The content a stored file presents to a reader: `None` marks content
/// that does not decode as text.
pub open spec fn stored_view(f: StoredFile) -> Option<Seq<char>> {
    match f {
        StoredFile::Text(s) => Some(s@),
        StoredFile::Undecodable => None,
    }
}

/// Abstract state of a file store: each known path maps to its readable
/// content (`None` for content that does not decode), and locked paths
/// cannot be created or truncated.
pub struct StoreView {
    pub files: Map<Seq<char>, Option<Seq<char>>>,
    pub locked: Set<Seq<char>>,
}

/// What reading the whole file at `path` returns: the open fails when the
/// path is absent, the decode fails when its content is not text, and
/// otherwise the full content comes back.
pub open spec fn read_spec(v: StoreView, path: Seq<char>) -> Result<Seq<char>, FailureReason> {
    if !v.files.contains_key(path) {
        Err(FailureReason::FileOpen)
    } else {
        match v.files[path] {
            Some(text) => Ok(text),
            None => Err(FailureReason::FileDecode),
        }
    }
}

/// The store after writing the whole of `text` to `path`: a locked path
/// rejects the write and the store is unchanged; otherwise the path now
/// holds exactly `text` and every other path keeps its content.
pub open spec fn write_spec(v: StoreView, path: Seq<char>, text: Seq<char>) -> StoreView {
    if v.locked.contains(path) {
        v
    } else {
        StoreView { files: v.files.insert(path, Some(text)), locked: v.locked }
    }
}

/// The outcome reported for writing to `path`: a locked path cannot be
/// created; any other write completes.
pub open spec fn write_outcome_spec(v: StoreView, path: Seq<char>) -> FileOpOutcome {
    if v.locked.contains(path) {
        FileOpOutcome::Failure(FailureReason::FileCreate)
    } else {
        FileOpOutcome::Success
    }
}

/// The content at `path` among `entries`, where a later entry for the same
/// path shadows an earlier one.
spec fn lookup(entries: Seq<(String, StoredFile)>, path: Seq<char>) -> Option<Option<Seq<char>>>
    decreases entries.len(),
{
    if entries.len() == 0 {
        None
    } else if entries.last().0@ == path {
        Some(stored_view(entries.last().1))
    } else {
        lookup(entries.drop_last(), path)
    }
}

/// Whether some element of `locked` names the path `p`.
spec fn has_locked(locked: Seq<String>, p: Seq<char>) -> bool {
    exists|i: int| 0 <= i < locked.len() && locked[i]@ == p
}

proof fn lemma_lookup_push(entries: Seq<(String, StoredFile)>, e: (String, StoredFile), q: Seq<char>)
    ensures
        lookup(entries.push(e), q) == (if e.0@ == q {
            Some(stored_view(e.1))
        } else {
            lookup(entries, q)
        }),
{
    let s = entries.push(e);
    assert(s.last() == e);
    assert(s.drop_last() =~= entries);
}

/// An in-memory file store. Later entries shadow earlier ones for the
/// same path; locked paths reject writes.
pub struct FileStore {
    entries: Vec<(String, StoredFile)>,
    locked: Vec<String>,
}

impl View for FileStore {
    type V = StoreView;

    closed spec fn view(&self) -> StoreView {
        StoreView {
            files: Map::new(
                |p: Seq<char>| lookup(self.entries@, p) is Some,
                |p: Seq<char>| lookup(self.entries@, p)->Some_0,
            ),
            locked: Set::new(|p: Seq<char>| has_locked(self.locked@, p)),
        }
    }
}

impl FileStore {
    /// A store with no files and no locked paths.
    pub fn new() -> (r: FileStore)
        ensures
            r@.files == Map::<Seq<char>, Option<Seq<char>>>::empty(),
            r@.locked == Set::<Seq<char>>::empty(),
    {
        let r = FileStore { entries: Vec::new(), locked: Vec::new() };
        proof {
            assert(r@.files =~= Map::<Seq<char>, Option<Seq<char>>>::empty());
            assert(r@.locked =~= Set::<Seq<char>>::empty());
        }
        r
    }

    /// Puts decodable text at `path`, setting up the starting state of a
    /// scenario.
    pub fn add_text_file(&mut self, path: String, text: String)
        ensures
            final(self)@.files == old(self)@.files.insert(path@, Some(text@)),
            final(self)@.locked == old(self)@.locked,
    {
        let ghost before = self.entries@;
        self.entries.push((path, StoredFile::Text(text)));
        proof {
            assert forall|q: Seq<char>|
                lookup(self.entries@, q) == (if path@ == q {
                    Some(Some(text@))
                } else {
                    lookup(before, q)
                }) by {
                lemma_lookup_push(before, (path, StoredFile::Text(text)), q);
            }
            assert(self@.files =~= old(self)@.files.insert(path@, Some(text@)));
            assert(self@.locked =~= old(self)@.locked);
        }
    }

    /// Puts content that does not decode as text at `path`.
    pub fn add_undecodable_file(&mut self, path: String)
        ensures
            final(self)@.files == old(self)@.files.insert(path@, None),
            final(self)@.locked == old(self)@.locked,
    {
        let ghost before = self.entries@;
        self.entries.push((path, StoredFile::Undecodable));
        proof {
            assert forall|q: Seq<char>|
                lookup(self.entries@, q) == (if path@ == q {
                    Some(None::<Seq<char>>)
                } else {
                    lookup(before, q)
                }) by {
                lemma_lookup_push(before, (path, StoredFile::Undecodable), q);
            }
            assert(self@.files =~= old(self)@.files.insert(path@, None));
            assert(self@.locked =~= old(self)@.locked);
        }
    }

    /// Marks `path` as impossible to create or truncate, as when
    /// permissions forbid writing there.
    pub fn lock_path(&mut self, path: String)
        ensures
            final(self)@.files == old(self)@.files,
            final(self)@.locked == old(self)@.locked.insert(path@),
    {
        let ghost before = self.locked@;
        self.locked.push(path);
        proof {
            assert(self@.files =~= old(self)@.files);
            assert forall|q: Seq<char>|
                self@.locked.contains(q) == old(self)@.locked.insert(path@).contains(q) by {
                let s2 = self.locked@;
                if q == path@ {
                    assert(s2[s2.len() - 1]@ == q);
                }
                if has_locked(before, q) {
                    let i = choose|i: int| 0 <= i < before.len() && before[i]@ == q;
                    assert(s2[i]@ == q);
                }
                if has_locked(s2, q) {
                    let i = choose|i: int| 0 <= i < s2.len() && s2[i]@ == q;
                    if i < before.len() {
                        assert(before[i]@ == q);
                    } else {
                        assert(s2[i]@ == path@);
                    }
                }
            }
            assert(self@.locked =~= old(self)@.locked.insert(path@));
        }
    }

    /// Whether `path` is locked against writes.
    fn is_locked(&self, path: &String) -> (r: bool)
        ensures
            r == self@.locked.contains(path@),
    {
        let mut i: usize = 0;
        while i < self.locked.len()
            invariant
                i <= self.locked@.len(),
                forall|j: int| 0 <= j < i ==> self.locked@[j]@ != path@,
            decreases self.locked@.len() - i,
        {
            if self.locked[i] == *path {
                proof {
                    assert(has_locked(self.locked@, path@));
                }
                return true;
            }
            i = i + 1;
        }
        proof {
            if has_locked(self.locked@, path@) {
                let j = choose|j: int| 0 <= j < self.locked@.len() && self.locked@[j]@ == path@;
                assert(false);
            }
        }
        false
    }

    /// Reads the whole file at `path`: the open fails when the path is
    /// absent, the decode fails when its content is not text, and
    /// otherwise the full content comes back.
    pub fn read_all(&self, path: &String) -> (r: Result<String, FileOpOutcome>)
        ensures
            match r {
                Ok(text) => read_spec(self@, path@) == Ok::<Seq<char>, FailureReason>(text@),
                Err(out) => match out {
                    FileOpOutcome::Failure(reason) => read_spec(self@, path@) == Err::<
                        Seq<char>,
                        FailureReason,
                    >(reason),
                    FileOpOutcome::Success => false,
                },
            },
    {
        proof {
            assert(self.entries@.subrange(0, self.entries@.len() as int) =~= self.entries@);
        }
        let mut i: usize = self.entries.len();
        while i > 0
            invariant
                i <= self.entries@.len(),
                lookup(self.entries@, path@) == lookup(
                    self.entries@.subrange(0, i as int),
                    path@,
                ),
            decreases i,
        {
            i = i - 1;
            let (p, f) = &self.entries[i];
            if *p == *path {
                proof {
                    let prefix = self.entries@.subrange(0, i as int + 1);
                    assert(prefix.last() == self.entries@[i as int]);
                }
                match f {
                    StoredFile::Text(s) => {
                        return Ok(s.clone());
                    },
                    StoredFile::Undecodable => {
                        return Err(FileOpOutcome::Failure(FailureReason::FileDecode));
                    },
                }
            }
            proof {
                let prefix = self.entries@.subrange(0, i as int + 1);
                assert(prefix.last() == self.entries@[i as int]);
                assert(prefix.drop_last() =~= self.entries@.subrange(0, i as int));
            }
        }
        proof {
            assert(self.entries@.subrange(0, 0) =~= Seq::<(String, StoredFile)>::empty());
        }
        Err(FileOpOutcome::Failure(FailureReason::FileOpen))
    }

    /// Writes the whole of `text` to `path` and reports the outcome: a
    /// locked path cannot be created and the store is left untouched;
    /// otherwise the path now holds exactly `text` and every other path
    /// keeps its content.
    pub fn write_all(&mut self, path: &String, text: &String) -> (r: FileOpOutcome)
        ensures
            final(self)@ == write_spec(old(self)@, path@, text@),
            r == write_outcome_spec(old(self)@, path@),
    {
        if self.is_locked(path) {
            FileOpOutcome::Failure(FailureReason::FileCreate)
        } else {
            let ghost before = self.entries@;
            self.entries.push((path.clone(), StoredFile::Text(text.clone())));
            proof {
                assert forall|q: Seq<char>|
                    lookup(self.entries@, q) == (if path@ == q {
                        Some(Some(text@))
                    } else {
                        lookup(before, q)
                    }) by {
                    lemma_lookup_push(before, self.entries@.last(), q);
                }
                assert(self@.files =~= old(self)@.files.insert(path@, Some(text@)));
                assert(self@.locked =~= old(self)@.locked);
            }
            FileOpOutcome::Success
        }
    }
}

/// Text read from one file, saved through a fresh write, reads back the
/// same: the round trip preserves content exactly.
pub proof fn lemma_read_write_read(
    v: StoreView,
    source: Seq<char>,
    target: Seq<char>,
    text: Seq<char>,
)
    requires
        read_spec(v, source) == Ok::<Seq<char>, FailureReason>(text),
        !v.locked.contains(target),
    ensures
        read_spec(write_spec(v, target, text), target) == Ok::<Seq<char>, FailureReason>(text),
{
}

/// A write to a locked path reports the create error and leaves the
/// store — any pre-existing file at that path included — exactly as it
/// was.
pub proof fn lemma_locked_write_unchanged(v: StoreView, path: Seq<char>, text: Seq<char>)
    requires
        v.locked.contains(path),
    ensures
        write_spec(v, path, text) == v,
        write_outcome_spec(v, path) == FileOpOutcome::Failure(FailureReason::FileCreate),
{
}

/// A write changes no file but the one at its target path.
pub proof fn lemma_write_preserves_others(
    v: StoreView,
    target: Seq<char>,
    text: Seq<char>,
    other: Seq<char>,
)
    requires
        other != target,
    ensures
        read_spec(write_spec(v, target, text), other) == read_spec(v, other),
{
}

} // verus!
