//! What the commands about files come to.
use vstd::prelude::*;

use crate::action::Action;
use crate::command_laws::{comes_to, lemma_acts};
use crate::message::{ImportNews, Message};
use crate::state::{BrokkrV, MenusV, PromptsV};
use crate::values::{ConfirmChoice, ExportFormat, FilePath, PendingAction};

verus! {

/// A file picked in a dialog is the file that is written, whatever file the document
/// has, and a dialog that was dismissed writes nothing.
pub proof fn the_picked_file_is_the_one_written(s: BrokkrV, path: FilePath)
    requires
        s.prompts.renaming is None,
    ensures
        comes_to(
            s,
            Message::SaveChosen(Some(path)),
            s,
            seq![Action::SaveProject { path: path.handle, continuing: false }],
        ),
        comes_to(
            s,
            Message::SavedThenContinue(Some(path)),
            s,
            seq![Action::SaveProject { path: path.handle, continuing: true }],
        ),
        comes_to(s, Message::SaveChosen(None), s, seq![]),
        comes_to(s, Message::SavedThenContinue(None), s, seq![]),
{
    lemma_acts(s, Message::SaveChosen(Some(path)));
    lemma_acts(s, Message::SavedThenContinue(Some(path)));
    lemma_acts(s, Message::SaveChosen(None));
    lemma_acts(s, Message::SavedThenContinue(None));
    reveal(BrokkrV::dispatch_saving);
}

/// A file picked in a dialog is the file that is opened, as a document of its own and
/// not as a crash net, and a dialog that was dismissed opens nothing.
pub proof fn the_picked_file_is_the_one_opened(s: BrokkrV, path: FilePath)
    requires
        s.prompts.renaming is None,
    ensures
        comes_to(
            s,
            Message::OpenChosen(Some(path)),
            s,
            seq![Action::OpenProject { path: path.handle, recover: false }],
        ),
        comes_to(s, Message::OpenChosen(None), s, seq![]),
{
    lemma_acts(s, Message::OpenChosen(Some(path)));
    lemma_acts(s, Message::OpenChosen(None));
    reveal(BrokkrV::dispatch_saving);
}

/// Save writes the document's own file where it has one, and asks for a file where it
/// has none; Save As always asks.
pub proof fn save_writes_the_documents_own_file(s: BrokkrV)
    requires
        s.prompts.renaming is None,
    ensures
        s.file.project_path matches Some(own) ==> comes_to(
            s,
            Message::SaveRequested,
            s,
            seq![Action::SaveProject { path: own.handle, continuing: false }],
        ),
        s.file.project_path is None ==> comes_to(
            s,
            Message::SaveRequested,
            s,
            seq![Action::PickProjectToSave { continuing: false }],
        ),
        comes_to(
            s,
            Message::SaveAsRequested,
            s,
            seq![Action::PickProjectToSave { continuing: false }],
        ),
{
    lemma_acts(s, Message::SaveRequested);
    lemma_acts(s, Message::SaveAsRequested);
    reveal(BrokkrV::dispatch_saving);
}

/// An export is written in the format that was asked for, to the file that was
/// picked for it, and is no handoff to the slicer; the dialog that asks for the file
/// is that format's.
pub proof fn an_export_is_the_format_and_the_file_asked_for(
    s: BrokkrV,
    format: ExportFormat,
    path: FilePath,
)
    requires
        s.prompts.renaming is None,
    ensures
        comes_to(
            s,
            Message::ExportChosen(format, Some(path)),
            s,
            seq![Action::Export { format: format, path: path.handle, handoff: false }],
        ),
        comes_to(s, Message::ExportChosen(format, None), s, seq![]),
        comes_to(s, Message::Export(format), s, seq![Action::PickExportTarget(format)]),
        comes_to(s, Message::ExportRequested(format), s, seq![Action::PickExportTarget(format)]),
{
    lemma_acts(s, Message::ExportChosen(format, Some(path)));
    lemma_acts(s, Message::ExportChosen(format, None));
    lemma_acts(s, Message::Export(format));
    lemma_acts(s, Message::ExportRequested(format));
    reveal(BrokkrV::dispatch_exchange);
}

/// A mesh is read from the file that was picked for it, and the line names it.
pub proof fn a_mesh_is_read_from_the_picked_file(s: BrokkrV, path: FilePath)
    requires
        s.prompts.renaming is None,
    ensures
        comes_to(
            s,
            Message::ImportChosen(Some(path)),
            BrokkrV { status: "importing "@ + path.display@ + "…"@, ..s },
            seq![Action::ReadMesh(path.handle)],
        ),
        comes_to(s, Message::ImportChosen(None), s, seq![]),
{
    lemma_acts(s, Message::ImportChosen(Some(path)));
    lemma_acts(s, Message::ImportChosen(None));
    reveal(BrokkrV::dispatch_exchange);
}

/// A mesh that was read takes the document's place; one that could not be read
/// changes the status line alone, and one that was taken already does nothing.
pub proof fn only_a_mesh_that_was_read_is_adopted(s: BrokkrV, error: String)
    requires
        s.prompts.renaming is None,
    ensures
        comes_to(s, Message::ImportLoaded(ImportNews::Ready), s, seq![Action::AdoptImport]),
        comes_to(
            s,
            Message::ImportLoaded(ImportNews::Failed(error)),
            BrokkrV { status: "could not import: "@ + error@, ..s },
            seq![],
        ),
        comes_to(s, Message::ImportLoaded(ImportNews::Taken), s, seq![]),
{
    lemma_acts(s, Message::ImportLoaded(ImportNews::Ready));
    lemma_acts(s, Message::ImportLoaded(ImportNews::Failed(error)));
    lemma_acts(s, Message::ImportLoaded(ImportNews::Taken));
    reveal(BrokkrV::dispatch_exchange);
}

/// What a command that replaces the document, or ends the session, waits to do.
pub open spec fn waiting(m: Message) -> Option<PendingAction> {
    match m {
        Message::NewSculpt | Message::ResetSphere => Some(PendingAction::NewSculpt),
        Message::OpenRequested => Some(PendingAction::Open),
        Message::OpenRecent(path) => Some(PendingAction::OpenRecent(path)),
        Message::RecoverAutosave => Some(PendingAction::RecoverAutosave),
        Message::ImportRequested => Some(PendingAction::Import),
        Message::CloseRequested(window) => Some(PendingAction::Quit(window)),
        _ => None,
    }
}

/// The request by which what waited is done.
pub open spec fn done_by(s: BrokkrV, what: PendingAction) -> Seq<Action> {
    match what {
        PendingAction::NewSculpt => seq![Action::NewDocument],
        PendingAction::Open => seq![Action::PickProjectToOpen],
        PendingAction::OpenRecent(path) => seq![
            Action::OpenProject { path: path, recover: false },
        ],
        PendingAction::RecoverAutosave => match s.file.autosave_file {
            Some(path) => seq![Action::OpenProject { path: path, recover: true }],
            None => seq![],
        },
        PendingAction::Import => seq![Action::PickMeshToImport],
        PendingAction::Quit(window) => seq![Action::CloseWindow(window)],
    }
}

/// A command that replaces the document or ends the session is carried out at once
/// where nothing is unsaved, and, for an import, where there is one body at most; in
/// every other session it brings up the prompt for that very command, closes the
/// menus that would lie over it, and asks for nothing.
pub proof fn a_replacing_command_asks_where_there_is_work_to_lose(
    s: BrokkrV,
    m: Message,
    what: PendingAction,
)
    requires
        s.prompts.renaming is None,
        waiting(m) == Some(what),
    ensures
        !s.file.unsaved && (what is Import ==> s.outline.body_count() <= 1) ==> comes_to(
            s,
            m,
            s,
            done_by(s, what),
        ),
        s.file.unsaved || (what is Import && s.outline.body_count() > 1) ==> comes_to(
            s,
            m,
            BrokkrV {
                prompts: PromptsV { confirm: Some(what), ..s.prompts },
                menus: MenusV { top_menu: None, menu: None, ..s.menus },
                ..s
            },
            seq![],
        ),
{
    lemma_acts(s, m);
    reveal(BrokkrV::dispatch_guarded);
}

/// The prompt's answers: Cancel takes it down and does nothing; Discard takes it down
/// and does what waited, that and nothing else; Save leaves it up and saves to the
/// document's own file, or asks for one, and goes on from there.
pub proof fn the_prompt_does_as_it_is_answered(s: BrokkrV)
    requires
        s.prompts.renaming is None,
    ensures
        ({
            let down = BrokkrV { prompts: PromptsV { confirm: None, ..s.prompts }, ..s };
            &&& comes_to(s, Message::ConfirmAnswered(ConfirmChoice::Cancel), down, seq![])
            &&& s.prompts.confirm matches Some(what) ==> comes_to(
                s,
                Message::ConfirmAnswered(ConfirmChoice::Discard),
                down,
                done_by(s, what),
            )
            &&& s.prompts.confirm is None ==> comes_to(
                s,
                Message::ConfirmAnswered(ConfirmChoice::Discard),
                s,
                seq![],
            )
            &&& s.file.project_path matches Some(own) ==> comes_to(
                s,
                Message::ConfirmAnswered(ConfirmChoice::Save),
                s,
                seq![Action::SaveProject { path: own.handle, continuing: true }],
            )
            &&& s.file.project_path is None ==> comes_to(
                s,
                Message::ConfirmAnswered(ConfirmChoice::Save),
                s,
                seq![Action::PickProjectToSave { continuing: true }],
            )
        }),
{
    lemma_acts(s, Message::ConfirmAnswered(ConfirmChoice::Cancel));
    lemma_acts(s, Message::ConfirmAnswered(ConfirmChoice::Discard));
    lemma_acts(s, Message::ConfirmAnswered(ConfirmChoice::Save));
    reveal(BrokkrV::dispatch_saving);
}

} // verus!
