//! The shell that wires user actions to the other components: it decides
//! what follows a chooser outcome, applies file-operation results to the
//! editor surface, and names the report shown to the user.

use vstd::prelude::*;
use vstd::string::StringExecFns;

use crate::dialog::{default_filters_spec, filter_string_spec, make_request, DialogMode,
    DialogRequest};
use crate::editor::EditorSurface;
use crate::outcome::{FailureReason, FileOpOutcome, PickerResult};
use crate::store::{read_spec, write_outcome_spec, write_spec, FileStore};

verus! {

/// What the shell reports to the user after an action.
#[derive(Clone, Copy, Debug, PartialEq, Eq, Structural)]
pub enum Notice {
    /// The file was saved.
    Saved,
    /// The action failed for this reason.
    Error(FailureReason),
}

/// What the shell does next once a chooser has returned.
pub enum ChooserAction {
    /// Perform the file operation on this chosen path.
    Proceed(String),
    /// Report this failure; no file operation takes place.
    Report(FailureReason),
    /// The user cancelled: no file operation and no report.
    Nothing,
}

/// The action that follows a chooser outcome: only a confirmed choice
/// leads to a file operation; a cancellation leads to nothing at all.
pub open spec fn chooser_action_spec(picked: PickerResult) -> ChooserAction {
    match picked {
        PickerResult::Chosen(path) => ChooserAction::Proceed(path),
        PickerResult::Cancelled => ChooserAction::Nothing,
        PickerResult::Failed(reason) => ChooserAction::Report(reason),
    }
}

/// Decides what follows the chooser. After a cancellation no file access
/// happens: the decision is `Nothing`.
pub fn chooser_action(picked: PickerResult) -> (r: ChooserAction)
    ensures
        r == chooser_action_spec(picked),
{
    match picked {
        PickerResult::Chosen(path) => ChooserAction::Proceed(path),
        PickerResult::Cancelled => ChooserAction::Nothing,
        PickerResult::Failed(reason) => ChooserAction::Report(reason),
    }
}

/// The report for a write outcome: success is announced, failure carries
/// its reason.
pub open spec fn report_spec(outcome: FileOpOutcome) -> Notice {
    match outcome {
        FileOpOutcome::Success => Notice::Saved,
        FileOpOutcome::Failure(reason) => Notice::Error(reason),
    }
}

/// Turns the outcome of writing the chosen file into the report shown to
/// the user.
pub fn save_report(outcome: FileOpOutcome) -> (r: Notice)
    ensures
        r == report_spec(outcome),
{
    match outcome {
        FileOpOutcome::Success => Notice::Saved,
        FileOpOutcome::Failure(reason) => Notice::Error(reason),
    }
}

/// The greeting the hello button shows for `name`.
pub open spec fn greeting_spec(name: Seq<char>) -> Seq<char> {
    "Hello "@ + name
}

/// Renders the greeting for `name`.
pub fn greeting(name: &str) -> (r: String)
    ensures
        r@ == greeting_spec(name@),
{
    let mut r = "Hello ".to_owned();
    r.append(name);
    r
}

/// The farewell shown for `name` when the window closes.
pub open spec fn farewell_spec(name: Seq<char>) -> Seq<char> {
    "Goodbye "@ + name
}

/// Renders the farewell for `name`.
pub fn farewell(name: &str) -> (r: String)
    ensures
        r@ == farewell_spec(name@),
{
    let mut r = "Goodbye ".to_owned();
    r.append(name);
    r
}

/// Owns the editor surface and the chooser configuration, and turns
/// chooser and file outcomes into state changes and reports.
pub struct AppShell {
    editor: EditorSurface,
    start_dir: String,
}

impl AppShell {
    /// The text currently in the editor surface.
    pub closed spec fn text(&self) -> Seq<char> {
        self.editor@
    }

    /// The directory choosers start in.
    pub closed spec fn start_dir_spec(&self) -> Seq<char> {
        self.start_dir@
    }

    /// A shell over an empty document whose choosers start in
    /// `start_dir`.
    pub fn new(start_dir: String) -> (r: AppShell)
        ensures
            r.text() == Seq::<char>::empty(),
            r.start_dir_spec() == start_dir@,
    {
        AppShell { editor: EditorSurface::new(), start_dir: start_dir }
    }

    /// A copy of the editor text, as a save reads it.
    pub fn get_text(&self) -> (r: String)
        ensures
            r@ == self.text(),
    {
        self.editor.get_text()
    }

    /// Replaces the editor text, as the user's editing does.
    pub fn set_text(&mut self, text: String)
        ensures
            final(self).text() == text@,
            final(self).start_dir_spec() == old(self).start_dir_spec(),
    {
        self.editor.set_text(text);
    }

    /// The chooser request issued by the Open action.
    pub fn open_request(&self) -> (r: DialogRequest)
        ensures
            r.mode == DialogMode::Open,
            r.start_dir@ == self.start_dir_spec(),
            r.filter@ == filter_string_spec(default_filters_spec()),
    {
        make_request(DialogMode::Open, self.start_dir.clone())
    }

    /// The chooser request issued by the Save action.
    pub fn save_request(&self) -> (r: DialogRequest)
        ensures
            r.mode == DialogMode::Save,
            r.start_dir@ == self.start_dir_spec(),
            r.filter@ == filter_string_spec(default_filters_spec()),
    {
        make_request(DialogMode::Save, self.start_dir.clone())
    }

    /// Applies what reading the chosen file produced: text replaces the
    /// editor content with nothing to report; a failure leaves the
    /// content untouched and is reported.
    pub fn apply_read(&mut self, read: Result<String, FileOpOutcome>) -> (r: Option<Notice>)
        ensures
            final(self).start_dir_spec() == old(self).start_dir_spec(),
            match read {
                Ok(text) => final(self).text() == text@ && r is None,
                Err(out) => final(self).text() == old(self).text() && (match out {
                    FileOpOutcome::Failure(reason) => r == Some(Notice::Error(reason)),
                    FileOpOutcome::Success => r is None,
                }),
            },
    {
        match read {
            Ok(text) => {
                self.editor.set_text(text);
                None
            },
            Err(FileOpOutcome::Failure(reason)) => Some(Notice::Error(reason)),
            Err(FileOpOutcome::Success) => None,
        }
    }

    /// Runs the Open action once the chooser has returned: a chosen
    /// file's text is loaded into the editor, a failure of the chooser
    /// or of the read is reported and changes nothing, and a
    /// cancellation leaves the editor content unchanged with nothing to
    /// report.
    pub fn on_open(&mut self, fs: &FileStore, picked: PickerResult) -> (r: Option<Notice>)
        ensures
            final(self).start_dir_spec() == old(self).start_dir_spec(),
            match picked {
                PickerResult::Cancelled => final(self).text() == old(self).text() && r is None,
                PickerResult::Failed(reason) => final(self).text() == old(self).text() && r
                    == Some(Notice::Error(reason)),
                PickerResult::Chosen(path) => match read_spec(fs@, path@) {
                    Ok(text) => final(self).text() == text && r is None,
                    Err(reason) => final(self).text() == old(self).text() && r == Some(
                        Notice::Error(reason),
                    ),
                },
            },
    {
        match chooser_action(picked) {
            ChooserAction::Proceed(path) => {
                let read = fs.read_all(&path);
                self.apply_read(read)
            },
            ChooserAction::Report(reason) => Some(Notice::Error(reason)),
            ChooserAction::Nothing => None,
        }
    }

    /// Runs the Save action once the chooser has returned: the editor
    /// text is written to the chosen path and the outcome reported, a
    /// chooser failure is reported with nothing written, and a
    /// cancellation leaves the store unchanged with nothing to report.
    pub fn on_save(&self, fs: &mut FileStore, picked: PickerResult) -> (r: Option<Notice>)
        ensures
            match picked {
                PickerResult::Cancelled => final(fs)@ == old(fs)@ && r is None,
                PickerResult::Failed(reason) => final(fs)@ == old(fs)@ && r == Some(
                    Notice::Error(reason),
                ),
                PickerResult::Chosen(path) => final(fs)@ == write_spec(
                    old(fs)@,
                    path@,
                    self.text(),
                ) && r == Some(report_spec(write_outcome_spec(old(fs)@, path@))),
            },
    {
        match chooser_action(picked) {
            ChooserAction::Proceed(path) => {
                let text = self.editor.get_text();
                let outcome = fs.write_all(&path, &text);
                Some(save_report(outcome))
            },
            ChooserAction::Report(reason) => Some(Notice::Error(reason)),
            ChooserAction::Nothing => None,
        }
    }
}

} // verus!
