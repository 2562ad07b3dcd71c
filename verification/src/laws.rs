//! What holds of every document session, proved of the model that the
//! executable session is held to.

use crate::file_stream::IoError;
use crate::model::{
    is_dialog, is_file_io, open_chooser_title, save_chooser_title, title_for, ActionView,
    ChoiceView, ChooserMode, EventView, SessionView,
};
use vstd::prelude::*;

verus! {

/// No event leads a well-formed session to one that is not.
pub proof fn step_keeps_well_formed(session: SessionView, event: EventView)
    requires
        session.wf(),
    ensures
        session.step(event).0.wf(),
{
}

/// Every session that events can lead to from the start is well-formed.
pub proof fn every_session_is_well_formed(events: Seq<EventView>)
    ensures
        SessionView::initial().run(events).wf(),
    decreases events.len(),
{
    if events.len() > 0 {
        every_session_is_well_formed(events.drop_last());
        step_keeps_well_formed(SessionView::initial().run(events.drop_last()), events.last());
    }
}

/// The document changes only when an open or a save ends with success: any
/// other event leaves the content, the associated path and the title as they
/// were. A success associates a path and ends the operation.
pub proof fn document_changes_only_on_success(session: SessionView, event: EventView)
    ensures
        !session.completes(event) ==> session.step(event).0.at(session.stage) == session,
        session.completes(event) ==> session.step(event).0.associated_path is Some
            && session.step(event).0.stage is Idle,
{
}

/// At any time a path is associated if and only if at least one open or save
/// has succeeded since the session began.
pub proof fn path_is_associated_exactly_after_a_success(events: Seq<EventView>)
    ensures
        SessionView::initial().run(events).associated_path is Some
            <==> SessionView::initial().successes(events) > 0,
    decreases events.len(),
{
    if events.len() > 0 {
        path_is_associated_exactly_after_a_success(events.drop_last());
        document_changes_only_on_success(
            SessionView::initial().run(events.drop_last()),
            events.last(),
        );
    }
}

/// An associated path is never cleared: whatever happens, it stays or gives
/// way to another path.
pub proof fn path_is_never_cleared(session: SessionView, events: Seq<EventView>)
    requires
        session.associated_path is Some,
    ensures
        session.run(events).associated_path is Some,
    decreases events.len(),
{
    if events.len() > 0 {
        path_is_never_cleared(session, events.drop_last());
    }
}

/// While an operation is in progress, a request for another one is ignored.
pub proof fn requests_wait_for_the_operation_in_progress(session: SessionView)
    requires
        !(session.stage is Idle),
    ensures
        session.step(EventView::OpenRequested) == (session, ActionView::Nothing),
        session.step(EventView::SaveRequested) == (session, ActionView::Nothing),
{
}

/// A save of an untitled document asks for a destination; when the chooser is
/// cancelled the session is as it was before, no path is associated, and no
/// file has been read or written.
pub proof fn cancelled_save_changes_nothing(session: SessionView)
    requires
        session.wf(),
        session.stage is Idle,
        session.associated_path is None,
    ensures
        ({
            let (asking, first) = session.step(EventView::SaveRequested);
            let (after, second) = asking.step(EventView::Chosen(ChoiceView::Cancelled));
            &&& first == (ActionView::Choose {
                mode: ChooserMode::Save,
                title: save_chooser_title(),
            })
            &&& second == ActionView::Nothing
            &&& !is_file_io(first) && !is_file_io(second)
            &&& after == session
            &&& after.associated_path is None
        }),
{
}

/// An open whose chooser is cancelled leaves the session as it was, and no
/// file has been read or written.
pub proof fn cancelled_open_changes_nothing(session: SessionView)
    requires
        session.wf(),
        session.stage is Idle,
    ensures
        ({
            let (asking, first) = session.step(EventView::OpenRequested);
            let (after, second) = asking.step(EventView::Chosen(ChoiceView::Cancelled));
            &&& first == (ActionView::Choose {
                mode: ChooserMode::Open,
                title: open_chooser_title(),
            })
            &&& second == ActionView::Nothing
            &&& !is_file_io(first) && !is_file_io(second)
            &&& after == session
        }),
{
}

/// A save of a document with an associated path takes the text of the surface
/// and asks for exactly one write, of that text to that path. It shows no
/// dialog. When the write succeeds the text is the session's content and the
/// path stays; when it fails the error is reported and the session is as it
/// was before.
pub proof fn save_with_path_writes_once(
    session: SessionView,
    path: Seq<char>,
    text: Seq<char>,
    written: Result<(), IoError>,
)
    requires
        session.wf(),
        session.stage is Idle,
        session.associated_path == Some(path),
    ensures
        ({
            let (fetching, first) = session.step(EventView::SaveRequested);
            let (writing, second) = fetching.step(EventView::SurfaceText(text));
            let (after, third) = writing.step(EventView::FileWritten(written));
            &&& first == ActionView::ReadSurface
            &&& second == (ActionView::WriteFile { path, text })
            &&& !is_file_io(first) && !is_file_io(third)
            &&& !is_dialog(first) && !is_dialog(second) && !is_dialog(third)
            &&& after.stage is Idle
            &&& after.associated_path == Some(path)
            &&& after.title == session.title
            &&& match written {
                Ok(_) => third == ActionView::Nothing && after.content == text,
                Err(error) => third == ActionView::Report(error) && after == session,
            }
        }),
{
}

/// A save of an untitled document, once the chooser is confirmed, writes the
/// text of the surface to the chosen path. When the write succeeds that path
/// is associated and the title names it; when it fails the error is reported
/// and the session is as it was before, still untitled.
pub proof fn save_of_untitled_writes_to_chosen_path(
    session: SessionView,
    path: Seq<char>,
    text: Seq<char>,
    written: Result<(), IoError>,
)
    requires
        session.wf(),
        session.stage is Idle,
        session.associated_path is None,
    ensures
        ({
            let (asking, first) = session.step(EventView::SaveRequested);
            let (fetching, second) = asking.step(
                EventView::Chosen(ChoiceView::Confirmed(path)),
            );
            let (writing, third) = fetching.step(EventView::SurfaceText(text));
            let (after, fourth) = writing.step(EventView::FileWritten(written));
            &&& first == (ActionView::Choose {
                mode: ChooserMode::Save,
                title: save_chooser_title(),
            })
            &&& second == ActionView::ReadSurface
            &&& third == (ActionView::WriteFile { path, text })
            &&& match written {
                Ok(_) => {
                    &&& fourth == (ActionView::ShowTitle { title: title_for(Some(path)) })
                    &&& after == session.completed_with(path, text)
                },
                Err(error) => fourth == ActionView::Report(error) && after == session,
            }
        }),
{
}

/// The first save of an untitled document asks for a destination; once it has
/// succeeded, the next save goes straight to the same path: it shows no dialog
/// and writes the text that the surface has by then.
pub proof fn save_after_first_save_is_direct(
    session: SessionView,
    path: Seq<char>,
    text: Seq<char>,
    later_text: Seq<char>,
)
    requires
        session.wf(),
        session.stage is Idle,
        session.associated_path is None,
    ensures
        ({
            let (asking, first) = session.step(EventView::SaveRequested);
            let (fetching, _) = asking.step(EventView::Chosen(ChoiceView::Confirmed(path)));
            let (writing, _) = fetching.step(EventView::SurfaceText(text));
            let (saved, _) = writing.step(EventView::FileWritten(Ok(())));
            let (fetching_again, fifth) = saved.step(EventView::SaveRequested);
            let (_, sixth) = fetching_again.step(EventView::SurfaceText(later_text));
            &&& is_dialog(first)
            &&& saved.associated_path == Some(path)
            &&& saved.title == title_for(Some(path))
            &&& fifth == ActionView::ReadSurface
            &&& sixth == (ActionView::WriteFile { path, text: later_text })
        }),
{
}

/// An open whose chooser is confirmed reads the chosen file. When the read
/// succeeds, the file's text replaces the content of the surface, whatever it
/// was, the chosen path is associated, whatever path was before, and the title
/// names it.
pub proof fn confirmed_open_replaces_document(
    session: SessionView,
    path: Seq<char>,
    text: Seq<char>,
)
    requires
        session.wf(),
        session.stage is Idle,
    ensures
        ({
            let (asking, first) = session.step(EventView::OpenRequested);
            let (reading, second) = asking.step(
                EventView::Chosen(ChoiceView::Confirmed(path)),
            );
            let (after, third) = reading.step(EventView::FileRead(Ok(text)));
            &&& first == (ActionView::Choose {
                mode: ChooserMode::Open,
                title: open_chooser_title(),
            })
            &&& second == (ActionView::ReadFile { path })
            &&& third == (ActionView::ShowDocument { text, title: title_for(Some(path)) })
            &&& after.associated_path == Some(path)
            &&& after.content == text
            &&& after.title == title_for(Some(path))
            &&& after.stage is Idle
        }),
{
}

/// An open whose read fails reports the error and leaves the session as it
/// was before: the content, the associated path and the title are unchanged.
pub proof fn failed_open_changes_nothing(session: SessionView, path: Seq<char>, error: IoError)
    requires
        session.wf(),
        session.stage is Idle,
    ensures
        ({
            let (asking, _) = session.step(EventView::OpenRequested);
            let (reading, _) = asking.step(EventView::Chosen(ChoiceView::Confirmed(path)));
            let (after, third) = reading.step(EventView::FileRead(Err(error)));
            &&& third == ActionView::Report(error)
            &&& after == session
        }),
{
}

/// Opening the same file again, or saving the same text again, asks for the
/// same work and leaves the session as it was after the first time.
pub proof fn repeating_an_operation_repeats_its_result(
    session: SessionView,
    path: Seq<char>,
    text: Seq<char>,
)
    ensures
        ({
            let once = session.completed_with(path, text);
            let (fetching, _) = once.step(EventView::SaveRequested);
            let (writing, write) = fetching.step(EventView::SurfaceText(text));
            let (saved, _) = writing.step(EventView::FileWritten(Ok(())));
            let (asking, _) = once.step(EventView::OpenRequested);
            let (reading, read) = asking.step(EventView::Chosen(ChoiceView::Confirmed(path)));
            let (opened, _) = reading.step(EventView::FileRead(Ok(text)));
            &&& write == (ActionView::WriteFile { path, text })
            &&& read == (ActionView::ReadFile { path })
            &&& saved == once
            &&& opened == once
        }),
{
}

} // verus!
