//! The document's file: the unsaved-work prompt, saving, opening, importing,
//! exporting, and the crash net.
use vstd::prelude::*;

use crate::action::{Action, ExportOutcome, OpenOutcome, SaveOutcome, SlicerSearch};
use crate::message::ImportNews;
use crate::outline::{Outline, OutlineV};
use crate::state::{
    Brokkr, BrokkrV, Clock, FileStateV, MenusV, PromptsV, Step, AUTOSAVE_IDLE_GAP_MS,
    AUTOSAVE_INTERVAL_MS,
};
use crate::text;
use crate::values::{
    ConfirmChoice, ExportFormat, Facing, FilePath, FilePathV, HistoryStats, PendingAction,
};

verus! {

/// What follows once every body is to be meshed afresh.
pub open spec fn rebuilding() -> Seq<Action> {
    seq![Action::RebuildEverything, Action::RefreshAdvice, Action::RefreshOverlay]
}

/// Why a file that was written is not this document, where it is not.
pub open spec fn written_problem(
    s: OutlineV,
    rows: nat,
    bodies: nat,
    same_voxel: bool,
    file_voxel: Seq<char>,
    voxel: Seq<char>,
) -> Option<Seq<char>> {
    if rows != s.rows.len() || bodies != s.body_count() {
        Some(
            "the file came back with "@ + text::decimal(rows) + " rows and "@ + text::decimal(
                bodies,
            ) + " bodies, and the document has "@ + text::decimal(s.rows.len()) + " and "@
                + text::decimal(s.body_count()),
        )
    } else if !same_voxel {
        Some(
            "the file came back at a "@ + file_voxel + " mm voxel, and the document is at "@
                + voxel + " mm"@,
        )
    } else {
        None
    }
}

impl BrokkrV {
    /// The document's name, as the title bar has it.
    pub open spec fn document_name(self) -> Seq<char> {
        match self.file.project_path {
            Some(path) => path.label(),
            None => "untitled"@,
        }
    }

    /// The window's title. A star marks work that is not saved.
    pub open spec fn title(self) -> Seq<char> {
        self.document_name() + (if self.file.unsaved {
            "*"@
        } else {
            ""@
        }) + " — BrokkrSculpt"@
    }

    /// The session with something else waiting for the unsaved-work prompt, or
    /// nothing.
    pub open spec fn confirming(self, action: Option<PendingAction>) -> BrokkrV {
        BrokkrV { prompts: PromptsV { confirm: action, ..self.prompts }, ..self }
    }

    /// The session with another file, saved or not.
    pub open spec fn filed(self, path: Option<FilePathV>, unsaved: bool) -> BrokkrV {
        BrokkrV { file: FileStateV { project_path: path, unsaved: unsaved, ..self.file }, ..self }
    }

    /// What something that was waiting asks for.
    pub open spec fn run_pending(self, action: PendingAction) -> Step {
        match action {
            PendingAction::NewSculpt => self.asking(Action::NewDocument),
            PendingAction::Open => self.asking(Action::PickProjectToOpen),
            PendingAction::OpenRecent(path) => self.asking(
                Action::OpenProject { path: path, recover: false },
            ),
            PendingAction::RecoverAutosave => match self.file.autosave_file {
                Some(path) => self.asking(Action::OpenProject { path: path, recover: true }),
                None => self.quiet(),
            },
            PendingAction::Import => self.asking(Action::PickMeshToImport),
            PendingAction::Quit(window) => self.asking(Action::CloseWindow(window)),
        }
    }

    /// Whether going ahead would lose work: what is unsaved, or, for an import,
    /// bodies that it would take the place of.
    pub open spec fn would_lose_work(self, action: PendingAction) -> bool {
        self.file.unsaved || (action is Import && self.outline.body_count() > 1)
    }

    /// Something that replaces the document: asked about where it would lose
    /// work, and done where it would not.
    pub open spec fn guard(self, action: PendingAction) -> Step {
        if self.would_lose_work(action) {
            self.with_menus(MenusV { top_menu: None, menu: None, ..self.menus }).confirming(
                Some(action),
            ).quiet()
        } else {
            self.run_pending(action)
        }
    }

    /// What was waiting, done.
    pub open spec fn proceed(self) -> Step {
        match self.prompts.confirm {
            Some(action) => self.confirming(None).run_pending(action),
            None => self.quiet(),
        }
    }

    /// The prompt answered.
    pub open spec fn answer_confirm(self, choice: ConfirmChoice) -> Step {
        match choice {
            ConfirmChoice::Cancel => self.confirming(None).quiet(),
            ConfirmChoice::Discard => self.proceed(),
            ConfirmChoice::Save => match self.file.project_path {
                Some(path) => self.asking(
                    Action::SaveProject { path: path.handle, continuing: true },
                ),
                None => self.asking(Action::PickProjectToSave { continuing: true }),
            },
        }
    }

    /// A save that came to its end, one way or another.
    pub open spec fn saved(self, path: FilePathV, outcome: SaveOutcome) -> Step {
        let could_not_write = "could not write "@ + path.display + ": "@;
        match outcome {
            SaveOutcome::CreateFailed(error) => self.saying(could_not_write + error@).quiet(),
            SaveOutcome::WriteFailed(error) => self.saying(could_not_write + error@).asking(
                Action::RemoveTemporary(path.handle),
            ),
            SaveOutcome::VerifyFailed(problem) => self.saying(could_not_write + problem@).asking(
                Action::RemoveTemporary(path.handle),
            ),
            SaveOutcome::ReplaceFailed(error) => self.saying(
                "could not replace "@ + path.display + ": "@ + error@,
            ).asking(Action::RemoveTemporary(path.handle)),
            SaveOutcome::Saved => Step {
                state: self.filed(Some(path), false).saying("saved "@ + path.display),
                actions: seq![Action::RecordRecent(path.handle), Action::ClearAutosave],
            },
        }
    }

    /// A save, and what was waiting for it where it worked.
    pub open spec fn save_finished(
        self,
        path: FilePathV,
        continuing: bool,
        outcome: SaveOutcome,
    ) -> Step {
        let saved = self.saved(path, outcome);
        if continuing && outcome is Saved {
            Step {
                state: saved.state.proceed().state,
                actions: saved.actions + saved.state.proceed().actions,
            }
        } else {
            saved
        }
    }

    /// A project that was opened, or could not be.
    pub open spec fn opened(self, path: FilePathV, outcome: OpenOutcome) -> Step {
        match outcome {
            OpenOutcome::CannotOpen(error) => self.saying(
                "could not open "@ + path.display + ": "@ + error@,
            ).asking(Action::ForgetRecent(path.handle)),
            OpenOutcome::CannotRead(error) => self.saying(
                "could not read "@ + path.display + ": "@ + error@,
            ).quiet(),
            OpenOutcome::Opened { outline, view, stats } => Step {
                state: self.with_outline(outline@).saying("opened "@ + path.display).apply_view(
                    view,
                ).counting(stats).filed(Some(path), false).unmeasured().rebuilt(),
                actions: seq![Action::RecordRecent(path.handle)] + rebuilding(),
            },
        }
    }

    /// An autosave that was opened: it is nobody's file yet, and not saved.
    pub open spec fn recovered(self, path: FilePathV, outcome: OpenOutcome) -> Step {
        let opened = self.opened(path, outcome);
        if outcome is Opened {
            Step {
                state: opened.state.filed(None, true).saying(
                    "recovered the autosave — save it somewhere"@,
                ),
                actions: opened.actions + seq![Action::ForgetRecent(path.handle)],
            }
        } else {
            opened
        }
    }

    /// A new sculpt.
    pub open spec fn document_reset(self, outline: OutlineV, stats: HistoryStats) -> Step {
        Step {
            state: self.with_outline(outline).counting(stats).filed(None, false).saying(
                ""@,
            ).rebuilt(),
            actions: rebuilding(),
        }
    }

    /// A mesh that took the place of every body. Where it seems to lie on its
    /// side, the user is asked.
    pub open spec fn import_adopted(
        self,
        source: FilePathV,
        summary: Seq<char>,
        millis: Seq<char>,
        resting_up: Option<Facing>,
        outline: OutlineV,
        stats: HistoryStats,
    ) -> Step {
        let taken = self.with_outline(outline).counting(stats).filed(None, true).saying(
            "imported "@ + source.label() + ": "@ + summary + ", "@ + millis + " ms"@,
        );
        Step {
            state: taken.asking_up(
                match resting_up {
                    Some(up) => if up == Facing::Up {
                        None
                    } else {
                        Some(up)
                    },
                    None => None,
                },
            ).rebuilt(),
            actions: rebuilding(),
        }
    }

    /// The session with another way up to ask about, or none.
    pub open spec fn asking_up(self, up: Option<Facing>) -> BrokkrV {
        BrokkrV { prompts: PromptsV { orient_prompt: up, ..self.prompts }, ..self }
    }

    /// How an import that ran in the background ended.
    pub open spec fn import_loaded(self, news: ImportNews) -> Step {
        match news {
            ImportNews::Ready => self.asking(Action::AdoptImport),
            ImportNews::Failed(error) => self.saying("could not import: "@ + error@).quiet(),
            ImportNews::Taken => self.quiet(),
        }
    }

    /// How many bodies an export of `parts` bodies left out.
    pub open spec fn omitted(self, parts: nat) -> nat {
        if parts <= self.outline.body_count() {
            (self.outline.body_count() - parts) as nat
        } else {
            0
        }
    }

    /// An export that ended. Where it was written, the status line says how many
    /// bodies it holds and how many were left out, even where none was.
    pub open spec fn exported(
        self,
        format: ExportFormat,
        path: FilePathV,
        outcome: ExportOutcome,
    ) -> BrokkrV {
        match outcome {
            ExportOutcome::Refused(why) => self.saying("not exported, "@ + why@),
            ExportOutcome::Written { parts, summary, megabytes, millis } => self.saying(
                "exported "@ + text::decimal(parts as nat) + " of "@ + text::decimal(
                    self.outline.body_count(),
                ) + " bodies; "@ + text::decimal(self.omitted(parts as nat)) + " hidden"@ + (
                if format == ExportFormat::Stl && parts > 1 {
                    " (STL fuses them into one part)"@
                } else {
                    ""@
                }) + " -- "@ + summary@ + " to "@ + path.display + " ("@ + megabytes@ + " MB, "@
                    + millis@ + " ms)"@,
            ),
            ExportOutcome::Failed(error) => self.saying(
                "could not write "@ + path.display + ": "@ + error@,
            ),
        }
    }

    /// The export for the slicer: where it wrote the file, and the file is there,
    /// the slicer is opened.
    pub open spec fn staged_exported(
        self,
        path: FilePathV,
        outcome: ExportOutcome,
        is_file: bool,
    ) -> Step {
        let done = self.exported(ExportFormat::ThreeMf, path, outcome);
        if is_file && outcome is Written {
            done.asking(Action::OpenSlicer)
        } else {
            done.quiet()
        }
    }

    /// What was found on the way to the slicer.
    pub open spec fn slicer_sought(self, found: SlicerSearch) -> Step {
        match found {
            SlicerSearch::NoSlicer => self.saying(
                "could not find OrcaSlicer — install it and try again"@,
            ).quiet(),
            SlicerSearch::NoPlace => self.saying(
                "could not work out where to put the file"@,
            ).quiet(),
            SlicerSearch::CannotMake { parent, error } => self.saying(
                "could not make "@ + parent@ + ": "@ + error@,
            ).quiet(),
            SlicerSearch::Ready { staged } => self.asking(
                Action::Export { format: ExportFormat::ThreeMf, path: staged, handoff: true },
            ),
        }
    }

    /// The slicer opened, or not.
    pub open spec fn slicer_opened(self, outcome: Result<String, String>) -> BrokkrV {
        match outcome {
            Ok(slicer) => self.saying("opened in "@ + slicer@),
            Err(why) => self.saying("could not open the slicer: "@ + why@),
        }
    }

    /// Whether the crash net is to be written: there is work to lose, no stroke
    /// and no drag is under way, the last one is long enough ago, and the pointer
    /// rests.
    pub open spec fn autosave_due(self, now: u64, stroke_active: bool) -> bool {
        &&& self.file.unsaved
        &&& !stroke_active
        &&& self.hand.drag is None
        &&& now - self.clock.last_autosave >= AUTOSAVE_INTERVAL_MS
        &&& now - self.clock.last_activity >= AUTOSAVE_IDLE_GAP_MS
    }
}

impl Brokkr {
    /// The document's name.
    pub fn document_name(&self) -> (r: String)
        ensures
            r@ == self@.document_name(),
    {
        match &self.file.project_path {
            Some(path) => path.label(),
            None => String::from_str("untitled"),
        }
    }

    /// The window's title.
    pub fn title(&self) -> (r: String)
        ensures
            r@ == self@.title(),
    {
        let star: &str = if self.file.unsaved {
            "*"
        } else {
            ""
        };
        self.document_name().concat(star).concat(" — BrokkrSculpt")
    }

    /// Asks for what was waiting.
    pub fn run_pending(&self, action: PendingAction) -> (actions: Vec<Action>)
        ensures
            self@.run_pending(action).state == self@,
            actions@ == self@.run_pending(action).actions,
    {
        match action {
            PendingAction::NewSculpt => vec![Action::NewDocument],
            PendingAction::Open => vec![Action::PickProjectToOpen],
            PendingAction::OpenRecent(path) => vec![Action::OpenProject { path, recover: false }],
            PendingAction::RecoverAutosave => match self.file.autosave_file {
                Some(path) => vec![Action::OpenProject { path, recover: true }],
                None => Vec::new(),
            },
            PendingAction::Import => vec![Action::PickMeshToImport],
            PendingAction::Quit(window) => vec![Action::CloseWindow(window)],
        }
    }

    /// Whether going ahead would lose work.
    pub fn would_lose_work(&self, action: &PendingAction) -> (r: bool)
        ensures
            r == self@.would_lose_work(*action),
    {
        let import: bool = match action {
            PendingAction::Import => true,
            _ => false,
        };
        self.file.unsaved || (import && self.outline.body_count() > 1)
    }

    /// Asks the user first where work would be lost, and goes ahead otherwise.
    pub fn guard(&mut self, action: PendingAction) -> (actions: Vec<Action>)
        requires
            old(self)@.wf(),
        ensures
            final(self)@ == old(self)@.guard(action).state,
            actions@ == old(self)@.guard(action).actions,
            final(self)@.wf(),
    {
        if self.would_lose_work(&action) {
            self.menus.top_menu = None;
            self.menus.menu = None;
            self.prompts.confirm = Some(action);
            return Vec::new();
        }
        self.run_pending(action)
    }

    fn proceed(&mut self) -> (actions: Vec<Action>)
        requires
            old(self)@.wf(),
        ensures
            final(self)@ == old(self)@.proceed().state,
            actions@ == old(self)@.proceed().actions,
            final(self)@.wf(),
    {
        match self.prompts.confirm {
            Some(action) => {
                self.prompts.confirm = None;
                self.run_pending(action)
            },
            None => Vec::new(),
        }
    }

    /// Answers the unsaved-work prompt.
    pub fn answer_confirm(&mut self, choice: ConfirmChoice) -> (actions: Vec<Action>)
        requires
            old(self)@.wf(),
        ensures
            final(self)@ == old(self)@.answer_confirm(choice).state,
            actions@ == old(self)@.answer_confirm(choice).actions,
            final(self)@.wf(),
    {
        match choice {
            ConfirmChoice::Cancel => {
                self.prompts.confirm = None;
                Vec::new()
            },
            ConfirmChoice::Discard => self.proceed(),
            ConfirmChoice::Save => match &self.file.project_path {
                Some(path) => vec![Action::SaveProject { path: path.handle, continuing: true }],
                None => vec![Action::PickProjectToSave { continuing: true }],
            },
        }
    }

    fn saved(&mut self, path: FilePath, outcome: SaveOutcome) -> (actions: Vec<Action>)
        requires
            old(self)@.wf(),
        ensures
            final(self)@ == old(self)@.saved(path@, outcome).state,
            actions@ == old(self)@.saved(path@, outcome).actions,
            final(self)@.wf(),
    {
        let handle: u64 = path.handle;
        let could_not_write: String = String::from_str("could not write ").concat(
            path.display.as_str(),
        ).concat(": ");
        match outcome {
            SaveOutcome::CreateFailed(error) => {
                self.status = could_not_write.concat(error.as_str());
                Vec::new()
            },
            SaveOutcome::WriteFailed(error) => {
                self.status = could_not_write.concat(error.as_str());
                vec![Action::RemoveTemporary(handle)]
            },
            SaveOutcome::VerifyFailed(problem) => {
                self.status = could_not_write.concat(problem.as_str());
                vec![Action::RemoveTemporary(handle)]
            },
            SaveOutcome::ReplaceFailed(error) => {
                self.status = String::from_str("could not replace ").concat(
                    path.display.as_str(),
                ).concat(": ").concat(error.as_str());
                vec![Action::RemoveTemporary(handle)]
            },
            SaveOutcome::Saved => {
                self.status = String::from_str("saved ").concat(path.display.as_str());
                self.file.project_path = Some(path);
                self.file.unsaved = false;
                vec![Action::RecordRecent(handle), Action::ClearAutosave]
            },
        }
    }

    /// Takes in how a save ended, and goes on with what waited for it.
    pub fn save_finished(&mut self, path: FilePath, continuing: bool, outcome: SaveOutcome) -> (
        actions: Vec<Action>)
        requires
            old(self)@.wf(),
        ensures
            final(self)@ == old(self)@.save_finished(path@, continuing, outcome).state,
            actions@ == old(self)@.save_finished(path@, continuing, outcome).actions,
            final(self)@.wf(),
    {
        let worked: bool = match outcome {
            SaveOutcome::Saved => true,
            _ => false,
        };
        let mut actions: Vec<Action> = self.saved(path, outcome);
        if continuing && worked {
            let mut more: Vec<Action> = self.proceed();
            actions.append(&mut more);
        }
        actions
    }

    /// Why a file that was written is not this document, where it is not.
    pub fn verify_written(
        &self,
        rows: usize,
        bodies: usize,
        same_voxel: bool,
        file_voxel: String,
        voxel: String,
    ) -> (r: Result<(), String>)
        ensures
            match r {
                Ok(_) => written_problem(
                    self@.outline,
                    rows as nat,
                    bodies as nat,
                    same_voxel,
                    file_voxel@,
                    voxel@,
                ) is None,
                Err(problem) => written_problem(
                    self@.outline,
                    rows as nat,
                    bodies as nat,
                    same_voxel,
                    file_voxel@,
                    voxel@,
                ) == Some(problem@),
            },
    {
        let own_rows: usize = self.outline.node_count();
        let own_bodies: usize = self.outline.body_count();
        if rows != own_rows || bodies != own_bodies {
            let a: String = text::write_decimal(rows as u64);
            let b: String = text::write_decimal(bodies as u64);
            let c: String = text::write_decimal(own_rows as u64);
            let d: String = text::write_decimal(own_bodies as u64);
            return Err(
                String::from_str("the file came back with ").concat(a.as_str()).concat(
                    " rows and ",
                ).concat(b.as_str()).concat(" bodies, and the document has ").concat(
                    c.as_str(),
                ).concat(" and ").concat(d.as_str()),
            );
        }
        if !same_voxel {
            return Err(
                String::from_str("the file came back at a ").concat(file_voxel.as_str()).concat(
                    " mm voxel, and the document is at ",
                ).concat(voxel.as_str()).concat(" mm"),
            );
        }
        Ok(())
    }

    fn opened(&mut self, path: FilePath, outcome: OpenOutcome) -> (actions: Vec<Action>)
        requires
            old(self)@.wf(),
            outcome matches OpenOutcome::Opened { outline, .. } ==> outline@.wf(),
        ensures
            final(self)@ == old(self)@.opened(path@, outcome).state,
            actions@ == old(self)@.opened(path@, outcome).actions,
            final(self)@.wf(),
    {
        let handle: u64 = path.handle;
        match outcome {
            OpenOutcome::CannotOpen(error) => {
                self.status = String::from_str("could not open ").concat(
                    path.display.as_str(),
                ).concat(": ").concat(error.as_str());
                vec![Action::ForgetRecent(handle)]
            },
            OpenOutcome::CannotRead(error) => {
                self.status = String::from_str("could not read ").concat(
                    path.display.as_str(),
                ).concat(": ").concat(error.as_str());
                Vec::new()
            },
            OpenOutcome::Opened { outline, view, stats } => {
                self.outline = outline;
                self.status = String::from_str("opened ").concat(path.display.as_str());
                self.apply_view(view);
                self.books.history_stats = stats;
                self.file.project_path = Some(path);
                self.file.unsaved = false;
                self.books.model_radius_body = None;
                self.rebuilt();
                vec![
                    Action::RecordRecent(handle),
                    Action::RebuildEverything,
                    Action::RefreshAdvice,
                    Action::RefreshOverlay,
                ]
            },
        }
    }

    /// Takes in a project that was opened, or an autosave that was recovered.
    pub fn project_opened(&mut self, path: FilePath, recover: bool, outcome: OpenOutcome) -> (
        actions: Vec<Action>)
        requires
            old(self)@.wf(),
            outcome matches OpenOutcome::Opened { outline, .. } ==> outline@.wf(),
        ensures
            final(self)@ == if recover {
                old(self)@.recovered(path@, outcome).state
            } else {
                old(self)@.opened(path@, outcome).state
            },
            actions@ == if recover {
                old(self)@.recovered(path@, outcome).actions
            } else {
                old(self)@.opened(path@, outcome).actions
            },
            final(self)@.wf(),
    {
        let handle: u64 = path.handle;
        let opened: bool = match outcome {
            OpenOutcome::Opened { .. } => true,
            _ => false,
        };
        let mut actions: Vec<Action> = self.opened(path, outcome);
        if recover && opened {
            self.file.project_path = None;
            self.file.unsaved = true;
            self.status = String::from_str("recovered the autosave — save it somewhere");
            actions.push(Action::ForgetRecent(handle));
            assert(actions@ =~= old(self)@.recovered(path@, outcome).actions);
        }
        actions
    }

    /// Takes in a new sculpt.
    pub fn document_reset(&mut self, outline: Outline, stats: HistoryStats) -> (actions: Vec<
        Action,
    >)
        requires
            old(self)@.wf(),
            outline@.wf(),
        ensures
            final(self)@ == old(self)@.document_reset(outline@, stats).state,
            actions@ == old(self)@.document_reset(outline@, stats).actions,
            final(self)@.wf(),
    {
        self.outline = outline;
        self.books.history_stats = stats;
        self.file.project_path = None;
        self.file.unsaved = false;
        self.status = String::from_str("");
        self.rebuilt();
        vec![Action::RebuildEverything, Action::RefreshAdvice, Action::RefreshOverlay]
    }

    /// Takes in a mesh that took the place of every body.
    pub fn import_adopted(
        &mut self,
        source: FilePath,
        summary: String,
        millis: String,
        resting_up: Option<Facing>,
        outline: Outline,
        stats: HistoryStats,
    ) -> (actions: Vec<Action>)
        requires
            old(self)@.wf(),
            outline@.wf(),
        ensures
            final(self)@ == old(self)@.import_adopted(
                source@,
                summary@,
                millis@,
                resting_up,
                outline@,
                stats,
            ).state,
            actions@ == old(self)@.import_adopted(
                source@,
                summary@,
                millis@,
                resting_up,
                outline@,
                stats,
            ).actions,
            final(self)@.wf(),
    {
        self.outline = outline;
        self.books.history_stats = stats;
        self.file.project_path = None;
        self.file.unsaved = true;
        let label: String = source.label();
        self.status = String::from_str("imported ").concat(label.as_str()).concat(": ").concat(
            summary.as_str(),
        ).concat(", ").concat(millis.as_str()).concat(" ms");
        self.prompts.orient_prompt = match resting_up {
            Some(up) => {
                if up == Facing::Up {
                    None
                } else {
                    Some(up)
                }
            },
            None => None,
        };
        self.rebuilt();
        vec![Action::RebuildEverything, Action::RefreshAdvice, Action::RefreshOverlay]
    }

    /// Starts an import in the background.
    pub fn import_chosen(&mut self, path: Option<FilePath>) -> (actions: Vec<Action>)
        requires
            old(self)@.wf(),
        ensures
            final(self)@ == match path {
                Some(path) => old(self)@.saying("importing "@ + path@.display + "…"@),
                None => old(self)@,
            },
            actions@ == match path {
                Some(path) => seq![Action::ReadMesh(path@.handle)],
                None => seq![],
            },
            final(self)@.wf(),
    {
        match path {
            Some(path) => {
                self.status = String::from_str("importing ").concat(
                    path.display.as_str(),
                ).concat("…");
                vec![Action::ReadMesh(path.handle)]
            },
            None => Vec::new(),
        }
    }

    /// Takes in how an import ended.
    pub fn import_loaded(&mut self, news: ImportNews) -> (actions: Vec<Action>)
        requires
            old(self)@.wf(),
        ensures
            final(self)@ == old(self)@.import_loaded(news).state,
            actions@ == old(self)@.import_loaded(news).actions,
            final(self)@.wf(),
    {
        match news {
            ImportNews::Ready => vec![Action::AdoptImport],
            ImportNews::Failed(error) => {
                self.status = String::from_str("could not import: ").concat(error.as_str());
                Vec::new()
            },
            ImportNews::Taken => Vec::new(),
        }
    }

    /// Says how an export ended.
    pub fn exported(&mut self, format: ExportFormat, path: FilePath, outcome: ExportOutcome)
        requires
            old(self)@.wf(),
        ensures
            final(self)@ == old(self)@.exported(format, path@, outcome),
            final(self)@.wf(),
    {
        match outcome {
            ExportOutcome::Refused(why) => {
                self.status = String::from_str("not exported, ").concat(why.as_str());
            },
            ExportOutcome::Written { parts, summary, megabytes, millis } => {
                let bodies: usize = self.outline.body_count();
                let omitted: usize = if parts <= bodies {
                    bodies - parts
                } else {
                    0
                };
                let fused: &str = match format {
                    ExportFormat::Stl => if parts > 1 {
                        " (STL fuses them into one part)"
                    } else {
                        ""
                    },
                    _ => "",
                };
                let a: String = text::write_decimal(parts as u64);
                let b: String = text::write_decimal(bodies as u64);
                let c: String = text::write_decimal(omitted as u64);
                self.status = String::from_str("exported ").concat(a.as_str()).concat(
                    " of ",
                ).concat(b.as_str()).concat(" bodies; ").concat(c.as_str()).concat(
                    " hidden",
                ).concat(fused).concat(" -- ").concat(summary.as_str()).concat(" to ").concat(
                    path.display.as_str(),
                ).concat(" (").concat(megabytes.as_str()).concat(" MB, ").concat(
                    millis.as_str(),
                ).concat(" ms)");
            },
            ExportOutcome::Failed(error) => {
                self.status = String::from_str("could not write ").concat(
                    path.display.as_str(),
                ).concat(": ").concat(error.as_str());
            },
        }
    }

    /// Opens the slicer on the file that was exported for it.
    pub fn staged_exported(&mut self, path: FilePath, outcome: ExportOutcome, is_file: bool) -> (
        actions: Vec<Action>)
        requires
            old(self)@.wf(),
        ensures
            final(self)@ == old(self)@.staged_exported(path@, outcome, is_file).state,
            actions@ == old(self)@.staged_exported(path@, outcome, is_file).actions,
            final(self)@.wf(),
    {
        let written: bool = match outcome {
            ExportOutcome::Written { .. } => true,
            _ => false,
        };
        self.exported(ExportFormat::ThreeMf, path, outcome);
        if is_file && written {
            vec![Action::OpenSlicer]
        } else {
            Vec::new()
        }
    }

    /// Takes in what was found on the way to the slicer.
    pub fn slicer_sought(&mut self, found: SlicerSearch) -> (actions: Vec<Action>)
        requires
            old(self)@.wf(),
        ensures
            final(self)@ == old(self)@.slicer_sought(found).state,
            actions@ == old(self)@.slicer_sought(found).actions,
            final(self)@.wf(),
    {
        match found {
            SlicerSearch::NoSlicer => {
                self.status = String::from_str(
                    "could not find OrcaSlicer — install it and try again",
                );
                Vec::new()
            },
            SlicerSearch::NoPlace => {
                self.status = String::from_str("could not work out where to put the file");
                Vec::new()
            },
            SlicerSearch::CannotMake { parent, error } => {
                self.status = String::from_str("could not make ").concat(
                    parent.as_str(),
                ).concat(": ").concat(error.as_str());
                Vec::new()
            },
            SlicerSearch::Ready { staged } => vec![
                Action::Export { format: ExportFormat::ThreeMf, path: staged, handoff: true },
            ],
        }
    }

    /// Says whether the slicer opened.
    pub fn slicer_opened(&mut self, outcome: Result<String, String>)
        ensures
            final(self)@ == old(self)@.slicer_opened(outcome),
    {
        self.status = match outcome {
            Ok(slicer) => String::from_str("opened in ").concat(slicer.as_str()),
            Err(why) => String::from_str("could not open the slicer: ").concat(why.as_str()),
        };
    }

    /// Asks for the crash net to be written, where it is due.
    pub fn autosave_tick(&self, now: u64, stroke_active: bool) -> (actions: Vec<Action>)
        ensures
            actions@ == if self@.autosave_due(now, stroke_active) {
                seq![Action::WriteAutosave]
            } else {
                seq![]
            },
    {
        let last: u64 = self.clock.last_autosave;
        let touched: u64 = self.clock.last_activity;
        if self.file.unsaved && !stroke_active && self.hand.drag.is_none() && now >= last && now
            - last >= AUTOSAVE_INTERVAL_MS && now >= touched && now - touched
            >= AUTOSAVE_IDLE_GAP_MS {
            vec![Action::WriteAutosave]
        } else {
            Vec::new()
        }
    }

    /// Notes when the crash net was last tried.
    pub fn autosave_written(&mut self, now: u64)
        ensures
            final(self)@ == (BrokkrV {
                clock: Clock { last_autosave: now, ..old(self)@.clock },
                ..old(self)@
            }),
    {
        self.clock.last_autosave = now;
    }
}

/// The name that a dialog suggests for a file with this extension.
pub fn suggested_file_name(extension: &str) -> (r: String)
    ensures
        r@ == "sculpt."@ + extension@,
{
    String::from_str("sculpt.").concat(extension)
}

} // verus!
