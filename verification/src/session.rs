//! The executable document session.
//!
//! The session does no work of its own on the outside world. It is told what
//! happened, as an [`Event`], and answers with what is to be done next, as an
//! [`Action`]; whoever owns the window, the dialogs and the disk performs the
//! action and reports back. Every answer is the one that the model gives.

use crate::file_stream::IoError;
use crate::model::{
    title_for, ActionView, ChoiceView, ChooserMode, EventView, SessionView, StageView,
};
use vstd::prelude::*;

verus! {

/// The outcome of one showing of the file chooser.
#[derive(Debug, PartialEq, Eq)]
pub enum FileChooserResult {
    /// The user confirmed the path.
    Confirmed(String),
    /// The user dismissed the dialog.
    Cancelled,
}

impl View for FileChooserResult {
    type V = ChoiceView;

    open spec fn view(&self) -> ChoiceView {
        match self {
            FileChooserResult::Confirmed(path) => ChoiceView::Confirmed(path@),
            FileChooserResult::Cancelled => ChoiceView::Cancelled,
        }
    }
}

/// What the session is told.
#[derive(Debug, PartialEq, Eq)]
pub enum Event {
    /// The user asked to open a file.
    OpenRequested,
    /// The user asked to save the document.
    SaveRequested,
    /// The file chooser was closed.
    Chosen(FileChooserResult),
    /// The full text of the text surface, as asked for.
    SurfaceText(String),
    /// The read that was asked for has ended, with the file's text or an error.
    FileRead(Result<String, IoError>),
    /// The write that was asked for has ended.
    FileWritten(Result<(), IoError>),
}

impl View for Event {
    type V = EventView;

    open spec fn view(&self) -> EventView {
        match self {
            Event::OpenRequested => EventView::OpenRequested,
            Event::SaveRequested => EventView::SaveRequested,
            Event::Chosen(outcome) => EventView::Chosen(outcome@),
            Event::SurfaceText(text) => EventView::SurfaceText(text@),
            Event::FileRead(Ok(text)) => EventView::FileRead(Ok(text@)),
            Event::FileRead(Err(error)) => EventView::FileRead(Err(*error)),
            Event::FileWritten(outcome) => EventView::FileWritten(*outcome),
        }
    }
}

/// What the session asks its surroundings to do next.
#[derive(Debug, PartialEq, Eq)]
pub enum Action {
    /// Nothing is to be done.
    Nothing,
    /// Show a modal file chooser, and answer with [`Event::Chosen`].
    Choose { mode: ChooserMode, title: String },
    /// Take the full text of the text surface, and answer with
    /// [`Event::SurfaceText`].
    ReadSurface,
    /// Read the whole file at `path`, and answer with [`Event::FileRead`].
    ReadFile { path: String },
    /// Replace the file at `path` by `text`, and answer with
    /// [`Event::FileWritten`].
    WriteFile { path: String, text: String },
    /// Replace the content of the text surface by `text` and the window title
    /// by `title`.
    ShowDocument { text: String, title: String },
    /// Replace the window title by `title`.
    ShowTitle { title: String },
    /// Tell the user that the operation failed. The program goes on.
    Report(IoError),
}

impl View for Action {
    type V = ActionView;

    open spec fn view(&self) -> ActionView {
        match self {
            Action::Nothing => ActionView::Nothing,
            Action::Choose { mode, title } => ActionView::Choose { mode: *mode, title: title@ },
            Action::ReadSurface => ActionView::ReadSurface,
            Action::ReadFile { path } => ActionView::ReadFile { path: path@ },
            Action::WriteFile { path, text } => ActionView::WriteFile { path: path@, text: text@ },
            Action::ShowDocument { text, title } => ActionView::ShowDocument {
                text: text@,
                title: title@,
            },
            Action::ShowTitle { title } => ActionView::ShowTitle { title: title@ },
            Action::Report(error) => ActionView::Report(*error),
        }
    }
}

/// How far the operation in progress has come.
enum Stage {
    Idle,
    ChoosingOpen,
    ChoosingSave,
    Reading { path: String },
    FetchingText { path: String },
    Writing { path: String, text: String },
}

impl View for Stage {
    type V = StageView;

    closed spec fn view(&self) -> StageView {
        match self {
            Stage::Idle => StageView::Idle,
            Stage::ChoosingOpen => StageView::ChoosingOpen,
            Stage::ChoosingSave => StageView::ChoosingSave,
            Stage::Reading { path } => StageView::Reading { path: path@ },
            Stage::FetchingText { path } => StageView::FetchingText { path: path@ },
            Stage::Writing { path, text } => StageView::Writing { path: path@, text: text@ },
        }
    }
}

/// The window title of a document at `path`.
fn titled(path: &str) -> (title: String)
    ensures
        title@ == title_for(Some(path@)),
{
    String::from_str("Text Editor 3 - ").concat(path)
}

/// The text of the document, the file it belongs to, and the operation that
/// is in progress on it.
pub struct DocumentSession {
    content: String,
    associated_path: Option<String>,
    title: String,
    stage: Stage,
}

impl View for DocumentSession {
    type V = SessionView;

    closed spec fn view(&self) -> SessionView {
        SessionView {
            content: self.content@,
            associated_path: match self.associated_path {
                Some(path) => Some(path@),
                None => None,
            },
            title: self.title@,
            stage: self.stage@,
        }
    }
}

impl DocumentSession {
    /// A session as it is when the program starts: untitled, with no text.
    pub fn new() -> (session: DocumentSession)
        ensures
            session@ == SessionView::initial(),
            session@.wf(),
    {
        DocumentSession {
            content: String::new(),
            associated_path: None,
            title: String::from_str("Text Editor 3 - Untitled"),
            stage: Stage::Idle,
        }
    }

    /// The text as of the last open or save that succeeded.
    pub fn content(&self) -> (content: &str)
        ensures
            content@ == self@.content,
    {
        self.content.as_str()
    }

    /// The path last opened or saved to, if there has been one.
    pub fn associated_path(&self) -> (path: Option<&str>)
        ensures
            match path {
                Some(path) => self@.associated_path == Some(path@),
                None => self@.associated_path is None,
            },
    {
        match &self.associated_path {
            Some(path) => Some(path.as_str()),
            None => None,
        }
    }

    /// The title that the window has, or is about to have once the last
    /// action is performed.
    pub fn title(&self) -> (title: &str)
        ensures
            title@ == self@.title,
    {
        self.title.as_str()
    }

    /// Whether an open or a save is in progress.
    pub fn is_busy(&self) -> (busy: bool)
        ensures
            busy == !(self@.stage is Idle),
    {
        match &self.stage {
            Stage::Idle => false,
            _ => true,
        }
    }

    /// Takes `event` in and says what is to be done next.
    ///
    /// The session and the action are those of the model. A session made by
    /// [`DocumentSession::new`] is well-formed, and stays so.
    pub fn step(&mut self, event: Event) -> (action: Action)
        ensures
            final(self)@ == old(self)@.step(event@).0,
            action@ == old(self)@.step(event@).1,
            old(self)@.wf() ==> final(self)@.wf(),
    {
        let mut stage = Stage::Idle;
        core::mem::swap(&mut self.stage, &mut stage);
        match stage {
            Stage::Idle => match event {
                Event::OpenRequested => {
                    self.stage = Stage::ChoosingOpen;
                    Action::Choose { mode: ChooserMode::Open, title: String::from_str("Open File") }
                },
                Event::SaveRequested => match &self.associated_path {
                    Some(path) => {
                        self.stage = Stage::FetchingText { path: path.clone() };
                        Action::ReadSurface
                    },
                    None => {
                        self.stage = Stage::ChoosingSave;
                        Action::Choose {
                            mode: ChooserMode::Save,
                            title: String::from_str("Save File"),
                        }
                    },
                },
                _ => Action::Nothing,
            },
            Stage::ChoosingOpen => match event {
                Event::Chosen(FileChooserResult::Confirmed(path)) => {
                    self.stage = Stage::Reading { path: path.clone() };
                    Action::ReadFile { path }
                },
                Event::Chosen(FileChooserResult::Cancelled) => Action::Nothing,
                _ => {
                    self.stage = Stage::ChoosingOpen;
                    Action::Nothing
                },
            },
            Stage::ChoosingSave => match event {
                Event::Chosen(FileChooserResult::Confirmed(path)) => {
                    self.stage = Stage::FetchingText { path };
                    Action::ReadSurface
                },
                Event::Chosen(FileChooserResult::Cancelled) => Action::Nothing,
                _ => {
                    self.stage = Stage::ChoosingSave;
                    Action::Nothing
                },
            },
            Stage::Reading { path } => match event {
                Event::FileRead(Ok(text)) => {
                    let title = titled(path.as_str());
                    self.content = text.clone();
                    self.associated_path = Some(path);
                    self.title = title.clone();
                    Action::ShowDocument { text, title }
                },
                Event::FileRead(Err(error)) => Action::Report(error),
                _ => {
                    self.stage = Stage::Reading { path };
                    Action::Nothing
                },
            },
            Stage::FetchingText { path } => match event {
                Event::SurfaceText(text) => {
                    self.stage = Stage::Writing { path: path.clone(), text: text.clone() };
                    Action::WriteFile { path, text }
                },
                _ => {
                    self.stage = Stage::FetchingText { path };
                    Action::Nothing
                },
            },
            Stage::Writing { path, text } => match event {
                Event::FileWritten(Ok(_)) => {
                    let was_untitled = self.associated_path.is_none();
                    let title = titled(path.as_str());
                    self.content = text;
                    self.associated_path = Some(path);
                    self.title = title.clone();
                    if was_untitled {
                        Action::ShowTitle { title }
                    } else {
                        Action::Nothing
                    }
                },
                Event::FileWritten(Err(error)) => Action::Report(error),
                _ => {
                    self.stage = Stage::Writing { path, text };
                    Action::Nothing
                },
            },
        }
    }
}

} // verus!
