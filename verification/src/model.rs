//! The document session as mathematics: its states, the events that reach it,
//! the actions it asks for, and the one transition function that relates them.
//!
//! Text is a sequence of characters and a path is text. The executable session
//! is held to `step` in this module, and the laws are proved of it.

use crate::file_stream::IoError;
use vstd::prelude::*;

verus! {

/// What a file chooser is shown for.
#[derive(Clone, Copy, Debug, PartialEq, Eq, Structural)]
pub enum ChooserMode {
    /// Selection of an existing file.
    Open,
    /// Selection of a destination.
    Save,
}

/// How a file chooser was closed.
pub enum ChoiceView {
    /// The user confirmed the path.
    Confirmed(Seq<char>),
    /// The user dismissed the dialog.
    Cancelled,
}

/// What the session is told.
pub enum EventView {
    /// The user asked to open a file.
    OpenRequested,
    /// The user asked to save the document.
    SaveRequested,
    /// The file chooser was closed.
    Chosen(ChoiceView),
    /// The full text of the text surface, as asked for.
    SurfaceText(Seq<char>),
    /// The read that was asked for has ended, with the file's text or an error.
    FileRead(Result<Seq<char>, IoError>),
    /// The write that was asked for has ended.
    FileWritten(Result<(), IoError>),
}

/// What the session asks its surroundings to do next.
pub enum ActionView {
    /// Nothing is to be done.
    Nothing,
    /// Show a modal file chooser, and answer with `Chosen`.
    Choose { mode: ChooserMode, title: Seq<char> },
    /// Take the full text of the text surface, and answer with `SurfaceText`.
    ReadSurface,
    /// Read the whole file at `path`, and answer with `FileRead`.
    ReadFile { path: Seq<char> },
    /// Replace the file at `path` by `text`, and answer with `FileWritten`.
    WriteFile { path: Seq<char>, text: Seq<char> },
    /// Replace the content of the text surface by `text` and the window title
    /// by `title`.
    ShowDocument { text: Seq<char>, title: Seq<char> },
    /// Replace the window title by `title`.
    ShowTitle { title: Seq<char> },
    /// Tell the user that the operation failed. The program goes on.
    Report(IoError),
}

/// How far the operation in progress has come.
pub enum StageView {
    /// No operation is in progress.
    Idle,
    /// An open waits for its file chooser.
    ChoosingOpen,
    /// A save waits for its file chooser.
    ChoosingSave,
    /// An open waits for the file at `path` to be read.
    Reading { path: Seq<char> },
    /// A save to `path` waits for the text of the surface.
    FetchingText { path: Seq<char> },
    /// A save waits for `text` to be written to `path`.
    Writing { path: Seq<char>, text: Seq<char> },
}

/// A document session.
pub struct SessionView {
    /// The text as of the last open or save that succeeded.
    pub content: Seq<char>,
    /// The path last opened or saved to, if there has been one.
    pub associated_path: Option<Seq<char>>,
    /// The title of the window.
    pub title: Seq<char>,
    /// The operation in progress.
    pub stage: StageView,
}

/// The title of the chooser that an open shows.
pub open spec fn open_chooser_title() -> Seq<char> {
    "Open File"@
}

/// The title of the chooser that a save shows.
pub open spec fn save_chooser_title() -> Seq<char> {
    "Save File"@
}

/// The window title of a session with the given associated path.
pub open spec fn title_for(path: Option<Seq<char>>) -> Seq<char> {
    match path {
        Some(path) => "Text Editor 3 - "@ + path,
        None => "Text Editor 3 - Untitled"@,
    }
}

/// Whether an action reads or writes a file.
pub open spec fn is_file_io(action: ActionView) -> bool {
    action is ReadFile || action is WriteFile
}

/// Whether an action shows a dialog.
pub open spec fn is_dialog(action: ActionView) -> bool {
    action is Choose
}

impl SessionView {
    /// The session at the start of the program: no text, no path, nothing in
    /// progress.
    pub open spec fn initial() -> SessionView {
        SessionView {
            content: Seq::empty(),
            associated_path: None,
            title: title_for(None),
            stage: StageView::Idle,
        }
    }

    /// What holds of every session: the title names the associated path, a
    /// save asks for a destination only while no path is associated, and a
    /// save in progress goes to the associated path where there is one.
    pub open spec fn wf(self) -> bool {
        &&& self.title == title_for(self.associated_path)
        &&& match self.stage {
            StageView::ChoosingSave => self.associated_path is None,
            StageView::FetchingText { path } => self.associated_path is None
                || self.associated_path == Some(path),
            StageView::Writing { path, text } => self.associated_path is None
                || self.associated_path == Some(path),
            _ => true,
        }
    }

    /// The same document at another stage.
    pub open spec fn at(self, stage: StageView) -> SessionView {
        SessionView { stage, ..self }
    }

    /// The session after an open of `path` or a save to it has succeeded with
    /// the text `text`.
    pub open spec fn completed_with(self, path: Seq<char>, text: Seq<char>) -> SessionView {
        SessionView {
            content: text,
            associated_path: Some(path),
            title: title_for(Some(path)),
            stage: StageView::Idle,
        }
    }

    /// Whether `event` ends an open or a save with success.
    pub open spec fn completes(self, event: EventView) -> bool {
        ||| self.stage is Reading && event matches EventView::FileRead(Ok(_))
        ||| self.stage is Writing && event matches EventView::FileWritten(Ok(_))
    }

    /// The session after `event`, and the action that it asks for.
    ///
    /// An event that the stage does not wait for changes nothing and asks for
    /// nothing: a second operation cannot begin while one is in progress.
    pub open spec fn step(self, event: EventView) -> (SessionView, ActionView) {
        match self.stage {
            StageView::Idle => match event {
                EventView::OpenRequested => (
                    self.at(StageView::ChoosingOpen),
                    ActionView::Choose { mode: ChooserMode::Open, title: open_chooser_title() },
                ),
                EventView::SaveRequested => match self.associated_path {
                    Some(path) => (
                        self.at(StageView::FetchingText { path }),
                        ActionView::ReadSurface,
                    ),
                    None => (
                        self.at(StageView::ChoosingSave),
                        ActionView::Choose {
                            mode: ChooserMode::Save,
                            title: save_chooser_title(),
                        },
                    ),
                },
                _ => (self, ActionView::Nothing),
            },
            StageView::ChoosingOpen => match event {
                EventView::Chosen(ChoiceView::Confirmed(path)) => (
                    self.at(StageView::Reading { path }),
                    ActionView::ReadFile { path },
                ),
                EventView::Chosen(ChoiceView::Cancelled) => (
                    self.at(StageView::Idle),
                    ActionView::Nothing,
                ),
                _ => (self, ActionView::Nothing),
            },
            StageView::ChoosingSave => match event {
                EventView::Chosen(ChoiceView::Confirmed(path)) => (
                    self.at(StageView::FetchingText { path }),
                    ActionView::ReadSurface,
                ),
                EventView::Chosen(ChoiceView::Cancelled) => (
                    self.at(StageView::Idle),
                    ActionView::Nothing,
                ),
                _ => (self, ActionView::Nothing),
            },
            StageView::Reading { path } => match event {
                EventView::FileRead(Ok(text)) => (
                    self.completed_with(path, text),
                    ActionView::ShowDocument { text, title: title_for(Some(path)) },
                ),
                EventView::FileRead(Err(error)) => (
                    self.at(StageView::Idle),
                    ActionView::Report(error),
                ),
                _ => (self, ActionView::Nothing),
            },
            StageView::FetchingText { path } => match event {
                EventView::SurfaceText(text) => (
                    self.at(StageView::Writing { path, text }),
                    ActionView::WriteFile { path, text },
                ),
                _ => (self, ActionView::Nothing),
            },
            StageView::Writing { path, text } => match event {
                EventView::FileWritten(Ok(_)) => (
                    self.completed_with(path, text),
                    if self.associated_path is None {
                        ActionView::ShowTitle { title: title_for(Some(path)) }
                    } else {
                        ActionView::Nothing
                    },
                ),
                EventView::FileWritten(Err(error)) => (
                    self.at(StageView::Idle),
                    ActionView::Report(error),
                ),
                _ => (self, ActionView::Nothing),
            },
        }
    }

    /// The session after the events of `events`, one after the other.
    pub open spec fn run(self, events: Seq<EventView>) -> SessionView
        decreases events.len(),
    {
        if events.len() == 0 {
            self
        } else {
            self.run(events.drop_last()).step(events.last()).0
        }
    }

    /// How many opens and saves end with success while the events of `events`
    /// come in, one after the other.
    pub open spec fn successes(self, events: Seq<EventView>) -> nat
        decreases events.len(),
    {
        if events.len() == 0 {
            0
        } else if self.run(events.drop_last()).completes(events.last()) {
            self.successes(events.drop_last()) + 1
        } else {
            self.successes(events.drop_last())
        }
    }
}

} // verus!
