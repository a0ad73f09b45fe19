//! What the replies never do: lose work, or throw the crash net away.
use vstd::prelude::*;

use crate::action::{lemma_not_among, Action, CutOutcome, OpenOutcome, Reply};
use crate::replies::ReplyKind;
use crate::state::{BrokkrV, Step};
use crate::values::{FilePathV, HistoryNote, PerAxis};

verus! {

/// Whether a reply says that the document was saved.
pub open spec fn saves_the_work(r: Reply) -> bool {
    match r {
        Reply::SaveFinished { outcome, .. } => outcome is Saved,
        _ => false,
    }
}

/// Whether a reply says that the document was saved, or that another document
/// took its place: a file that was opened, or a fresh one.
pub open spec fn settles_the_work(r: Reply) -> bool {
    match r {
        Reply::SaveFinished { outcome, .. } => outcome is Saved,
        Reply::ProjectOpened { outcome, .. } => outcome is Opened,
        Reply::DocumentReset { .. } => true,
        _ => false,
    }
}

/// Whether a reply says that another document took the place of this one, or
/// that every body of this one was made anew.
pub open spec fn swaps_the_document(r: Reply) -> bool {
    match r {
        Reply::ProjectOpened { outcome, .. } => outcome is Opened,
        Reply::DocumentReset { .. } => true,
        Reply::ImportAdopted { .. } => true,
        Reply::Resampled { .. } => true,
        Reply::Rescaled { .. } => true,
        Reply::Oriented(outcome) => outcome is Some,
        _ => false,
    }
}

/// Whether a save is the only reply that throws the crash net away here, and
/// work is called saved only where it is.
pub open spec fn keeps_work(s: BrokkrV, r: Reply, t: Step) -> bool {
    &&& s.file.unsaved && !t.state.file.unsaved ==> settles_the_work(r)
    &&& t.actions.contains(Action::ClearAutosave) ==> saves_the_work(r)
    &&& t.state.outline.rows != s.outline.rows && !settles_the_work(r) ==> t.state.file.unsaved
    &&& t.state.file.project_path != s.file.project_path ==> settles_the_work(r)
        || r is ImportAdopted
}

proof fn lemma_making(s: BrokkrV, r: Reply)
    ensures
        keeps_work(s, r, s.reply_making(r)),
{
    reveal(BrokkrV::reply_making);
    let t = s.reply_making(r);
    lemma_not_among(t.actions, Action::ClearAutosave);
}

proof fn lemma_joining(s: BrokkrV, r: Reply)
    ensures
        keeps_work(s, r, s.reply_joining(r)),
{
    reveal(BrokkrV::reply_joining);
    let t = s.reply_joining(r);
    lemma_not_among(t.actions, Action::ClearAutosave);
}

proof fn lemma_folders(s: BrokkrV, r: Reply)
    ensures
        keeps_work(s, r, s.reply_folders(r)),
{
    reveal(BrokkrV::reply_folders);
    let t = s.reply_folders(r);
    lemma_not_among(t.actions, Action::ClearAutosave);
}

proof fn lemma_tool(s: BrokkrV, r: Reply)
    ensures
        keeps_work(s, r, s.reply_tool(r)),
{
    reveal(BrokkrV::reply_tool);
    let t = s.reply_tool(r);
    lemma_not_among(t.actions, Action::ClearAutosave);
}

proof fn lemma_pointing(s: BrokkrV, r: Reply)
    ensures
        keeps_work(s, r, s.reply_pointing(r)),
{
    reveal(BrokkrV::reply_pointing);
    let t = s.reply_pointing(r);
    lemma_not_among(t.actions, Action::ClearAutosave);
}

proof fn lemma_sizing(s: BrokkrV, r: Reply)
    ensures
        keeps_work(s, r, s.reply_sizing(r)),
{
    reveal(BrokkrV::reply_sizing);
    let t = s.reply_sizing(r);
    lemma_not_among(t.actions, Action::ClearAutosave);
}

proof fn lemma_timeline(s: BrokkrV, r: Reply)
    ensures
        keeps_work(s, r, s.reply_timeline(r)),
{
    reveal(BrokkrV::reply_timeline);
    let t = s.reply_timeline(r);
    lemma_not_among(t.actions, Action::ClearAutosave);
}

/// A recovery that fails changes the status line alone.
pub proof fn a_failed_recovery_changes_nothing(s: BrokkrV, path: FilePathV, outcome: OpenOutcome)
    requires
        !(outcome is Opened),
    ensures
        s.recovered(path, outcome).state == s.saying(s.recovered(path, outcome).state.status),
{
}

proof fn lemma_documents(s: BrokkrV, r: Reply)
    ensures
        keeps_work(s, r, s.reply_documents(r)),
{
    reveal(BrokkrV::reply_documents);
    let t = s.reply_documents(r);
    lemma_not_among(t.actions, Action::ClearAutosave);
}

proof fn lemma_saving(s: BrokkrV, r: Reply)
    ensures
        keeps_work(s, r, s.reply_saving(r)),
{
    reveal(BrokkrV::reply_saving);
    let t = s.reply_saving(r);
    if !saves_the_work(r) {
        lemma_not_among(t.actions, Action::ClearAutosave);
    }
}

proof fn lemma_exporting(s: BrokkrV, r: Reply)
    ensures
        keeps_work(s, r, s.reply_exporting(r)),
{
    reveal(BrokkrV::reply_exporting);
    let t = s.reply_exporting(r);
    lemma_not_among(t.actions, Action::ClearAutosave);
}

proof fn lemma_reporting(s: BrokkrV, r: Reply)
    ensures
        keeps_work(s, r, s.reply_reporting(r)),
{
    reveal(BrokkrV::reply_reporting);
    let t = s.reply_reporting(r);
    lemma_not_among(t.actions, Action::ClearAutosave);
}

/// Work is called saved only once it was saved, or once another document took
/// its place; rows that changed are work to save; the document's file changes
/// only with a save, an open, a new sculpt or an import; and the crash net goes
/// only with a save that worked.
pub proof fn a_reply_keeps_the_work(s: BrokkrV, r: Reply)
    ensures
        keeps_work(s, r, s.reply(r)),
{
    reveal(BrokkrV::reply);
    lemma_making(s, r);
    lemma_joining(s, r);
    lemma_folders(s, r);
    lemma_tool(s, r);
    lemma_pointing(s, r);
    lemma_sizing(s, r);
    lemma_timeline(s, r);
    lemma_documents(s, r);
    lemma_saving(s, r);
    lemma_exporting(s, r);
    lemma_reporting(s, r);
}

/// What a reply says that an undo entry did to the history, where it tells of one.
pub open spec fn entry_of(r: Reply) -> Option<HistoryNote> {
    match r {
        Reply::OutlineWritten(note) => Some(note),
        Reply::PrimitiveBuilt { history, .. } => Some(history),
        Reply::Copied { history, .. } => Some(history),
        Reply::Merged { outcome: Some(done), .. } => Some(done.history),
        Reply::RowsRemoved { outcome: Some(done), .. } => Some(done.history),
        Reply::Grouped(Some(edit)) => Some(edit.history),
        Reply::Ungrouped { outcome: Some(edit), .. } => Some(edit.history),
        Reply::MovedToFolder { outcome: Some(edit), .. } => Some(edit.history),
        Reply::CollapseSet(Some(edit)) => Some(edit.history),
        Reply::StrokeEnded(edit) => edit,
        Reply::CutDone(CutOutcome::Clipped { bricks, history, .. }) => if bricks > 0 {
            Some(history)
        } else {
            None
        },
        _ => None,
    }
}

/// Whether a step counts what an entry did to the history, and says so where it
/// pushed a deleted body out for good.
pub open spec fn speaks_of(t: Step, note: HistoryNote) -> bool {
    &&& t.state.books.history_stats == note.stats
    &&& note.stats.dropped_bodies > note.dropped_before ==> t.state.status
        == "undo history is full — a deleted body can no longer be brought back"@
}

proof fn lemma_making_entries(s: BrokkrV, r: Reply, note: HistoryNote)
    requires
        entry_of(r) == Some(note),
        crate::replies::about(r) is Making,
    ensures
        speaks_of(s.reply_making(r), note),
{
    reveal(BrokkrV::reply_making);
}

proof fn lemma_joining_entries(s: BrokkrV, r: Reply, note: HistoryNote)
    requires
        entry_of(r) == Some(note),
        crate::replies::about(r) is Joining,
    ensures
        speaks_of(s.reply_joining(r), note),
{
    reveal(BrokkrV::reply_joining);
}

proof fn lemma_folders_entries(s: BrokkrV, r: Reply, note: HistoryNote)
    requires
        entry_of(r) == Some(note),
        crate::replies::about(r) is Folders,
    ensures
        speaks_of(s.reply_folders(r), note),
{
    reveal(BrokkrV::reply_folders);
}

proof fn lemma_tool_entries(s: BrokkrV, r: Reply, note: HistoryNote)
    requires
        entry_of(r) == Some(note),
        crate::replies::about(r) is Tool,
    ensures
        speaks_of(s.reply_tool(r), note),
{
    reveal(BrokkrV::reply_tool);
}

/// A deleted body that is pushed out of the history for good is never lost in
/// silence: whatever entry pushed it out, the status line says so rather than what
/// the entry was.
pub proof fn an_eviction_has_the_last_word(s: BrokkrV, r: Reply, note: HistoryNote)
    requires
        entry_of(r) == Some(note),
    ensures
        speaks_of(s.reply(r), note),
{
    reveal(BrokkrV::reply);
    match crate::replies::about(r) {
        ReplyKind::Making => lemma_making_entries(s, r, note),
        ReplyKind::Joining => lemma_joining_entries(s, r, note),
        ReplyKind::Folders => lemma_folders_entries(s, r, note),
        ReplyKind::Tool => lemma_tool_entries(s, r, note),
        _ => {},
    }
}

/// A name or eyes that were written change no row of the session and ask for
/// nothing more, nor does a measurement of the active body: what the next request
/// writes is what the message before them left.
pub proof fn a_row_write_changes_no_row(s: BrokkrV, note: HistoryNote, across: Option<PerAxis>)
    ensures
        s.reply(Reply::OutlineWritten(note)).state.outline == s.outline,
        s.reply(Reply::OutlineWritten(note)).actions.len() == 0,
        s.reply(Reply::ActiveMeasured(across)).state.outline == s.outline,
        s.reply(Reply::ActiveMeasured(across)).actions.len() == 0,
{
    reveal(BrokkrV::reply);
    reveal(BrokkrV::reply_making);
}

/// Whether a step starts another document afresh: solo is off, the renderer and
/// the rows agree, and the mesh pool is to be emptied.
pub open spec fn starts_afresh(t: Step) -> bool {
    &&& t.state.looking.solo is None
    &&& t.state.agrees()
    &&& t.actions.contains(Action::RebuildEverything)
}

proof fn lemma_another_document(s: BrokkrV, r: Reply)
    requires
        swaps_the_document(r),
        crate::replies::about(r) is Documents,
    ensures
        starts_afresh(s.reply_documents(r)),
{
    reveal(BrokkrV::reply_documents);
    let t = s.reply_documents(r);
    if r is ProjectOpened {
        assert(t.actions[1] == Action::RebuildEverything);
    } else {
        assert(t.actions[0] == Action::RebuildEverything);
    }
}

proof fn lemma_made_anew(s: BrokkrV, r: Reply)
    requires
        swaps_the_document(r),
        crate::replies::about(r) is Sizing,
    ensures
        starts_afresh(s.reply_sizing(r)),
{
    reveal(BrokkrV::reply_sizing);
    let t = s.reply_sizing(r);
    assert(t.actions[0] == Action::RebuildEverything);
}

/// Another document never inherits the solo of the one before it, agrees with
/// the renderer at once, and has the mesh pool emptied for it; so does a document
/// whose every body was made anew.
pub proof fn another_document_empties_the_pool(s: BrokkrV, r: Reply)
    requires
        swaps_the_document(r),
    ensures
        starts_afresh(s.reply(r)),
{
    reveal(BrokkrV::reply);
    if crate::replies::about(r) is Documents {
        lemma_another_document(s, r);
    } else {
        lemma_made_anew(s, r);
    }
}

} // verus!
