//! The body panel's commands: add, duplicate, merge, delete, and the folders.
//!
//! Each one decides first, asks the document to do the work, and takes in what
//! came back.
use vstd::prelude::*;

use crate::action::{Action, MergeOutcome, MergeTarget, Regrouped, Removal, StepOutcome};
use crate::laws;
use crate::outline;
use crate::outline::{NodeId, Outline, OutlineV};
use crate::state::{Books, Brokkr, BrokkrV, PromptsV, Step, MAX_BODIES, MAX_DEPTH, MAX_NODES};
use crate::text;
use crate::values::{
    HistoryNote, HistoryStats, PendingDelete, PendingDeleteV, PendingMerge, PendingMergeV,
    PrimitiveKind,
};

verus! {

/// How many more vertices the mesh pool can take. A pool that is not there yet
/// sets no limit.
pub fn vertex_headroom(capacity: u64, watermark: u64) -> (r: u64)
    ensures
        r == if capacity == 0 {
            u64::MAX as int
        } else if watermark <= capacity {
            capacity - watermark
        } else {
            0
        },
{
    if capacity == 0 {
        u64::MAX
    } else if watermark <= capacity {
        capacity - watermark
    } else {
        0
    }
}

/// The name of the `n`th group.
pub open spec fn group_name(n: nat) -> Seq<char> {
    "Group "@ + text::decimal(n)
}

/// The first number from `n` on whose group name no folder has.
pub open spec fn free_group_from(rows: Seq<outline::RowV>, n: nat) -> nat
    decreases MAX_NODES + 1 - n,
{
    if n > MAX_NODES || outline::folder_name_free(rows, rows.len() as int, group_name(n)) {
        n
    } else {
        free_group_from(rows, n + 1)
    }
}

/// One request to the renderer for each body that is gone.
pub open spec fn forgetting(bodies: Seq<NodeId>) -> Seq<Action> {
    bodies.map_values(|id: NodeId| Action::ForgetBody(id))
}

impl BrokkrV {
    /// Why nothing more can be added, where a limit is reached.
    pub open spec fn full_line(self, what: Seq<char>) -> Option<Seq<char>> {
        if self.outline.body_count() >= MAX_BODIES {
            Some(
                what + ": this document holds "@ + text::decimal(self.outline.body_count())
                    + " bodies, which is the limit"@,
            )
        } else if self.outline.rows.len() >= MAX_NODES {
            Some(
                what + ": this document holds "@ + text::decimal(self.outline.rows.len())
                    + " rows, which is the limit"@,
            )
        } else {
            None
        }
    }

    /// The session with what an entry did to the history. Where it pushed a
    /// deleted body out for good, the status line says so.
    pub open spec fn record_history(self, note: HistoryNote) -> BrokkrV {
        let counted = self.counting(note.stats);
        if note.stats.dropped_bodies > note.dropped_before {
            counted.saying("undo history is full — a deleted body can no longer be brought back"@)
        } else {
            counted
        }
    }

    /// The session with another count of the history.
    pub open spec fn counting(self, stats: HistoryStats) -> BrokkrV {
        BrokkrV { books: Books { history_stats: stats, ..self.books }, ..self }
    }

    /// The session with the model's size measured on the active body.
    pub open spec fn measured(self) -> BrokkrV {
        BrokkrV {
            books: Books { model_radius_body: Some(self.outline.active), ..self.books },
            ..self
        }
    }

    /// The session whose brush already goes with the size that the model is about to
    /// be measured at.
    pub open spec fn unmeasured(self) -> BrokkrV {
        BrokkrV { books: Books { model_radius_body: None, ..self.books }, ..self }
    }

    /// Whether the brush is to follow the model's size when that is next measured:
    /// where the user wants that, and the size was measured on the same body before.
    pub open spec fn brush_follows(self) -> bool {
        self.tool.pen.dynamic_radius && self.books.model_radius_body == Some(self.outline.active)
    }

    /// A shape to add, unless a limit is reached.
    pub open spec fn add_primitive(self, kind: PrimitiveKind) -> Step {
        match self.full_line("could not add a "@ + kind.word()) {
            Some(why) => self.saying(why).quiet(),
            None => self.asking(Action::AddPrimitive(kind)),
        }
    }

    /// A shape that there is no room for.
    pub open spec fn primitive_refused(
        self,
        kind: PrimitiveKind,
        across: Seq<char>,
        why: Seq<char>,
        workable: Seq<char>,
    ) -> BrokkrV {
        self.saying(
            "could not add a "@ + kind.word() + " "@ + across + " mm across: "@ + why + " ("@
                + workable + " mm)"@,
        )
    }

    /// A shape that became a body: it is selected.
    pub open spec fn primitive_built(
        self,
        kind: PrimitiveKind,
        id: NodeId,
        across: Seq<char>,
        outline: OutlineV,
        history: HistoryNote,
    ) -> Step {
        self.with_outline(outline).dirty().select_body_saying(
            id,
            "added a "@ + kind.word() + " "@ + across + " mm across"@,
        ).then_recorded(history).then_drawn()
    }

    /// The name of a copy of the active body.
    pub open spec fn copy_name(self) -> Seq<char> {
        text::fitting(self.outline.name_of(self.outline.active) + " copy"@)
    }

    /// A copy of the active body, right below it and as deep, unless a limit is
    /// reached.
    pub open spec fn duplicate_active_body(self) -> Step {
        match self.full_line("could not duplicate"@) {
            Some(why) => self.saying(why).quiet(),
            None => {
                let at = self.outline.at(self.outline.active);
                self.asking(
                    Action::Duplicate {
                        source: self.outline.active,
                        at: (at + 1) as usize,
                        depth: self.outline.rows[at].depth,
                    },
                )
            },
        }
    }

    /// A copy that there is no room for.
    pub open spec fn copy_refused(self, why: Seq<char>) -> BrokkrV {
        self.saying(
            "could not duplicate "@ + self.outline.name_of(self.outline.active) + ": "@ + why,
        )
    }

    /// A copy that was made: it is selected.
    pub open spec fn copied(self, id: NodeId, outline: OutlineV, history: HistoryNote) -> Step {
        self.with_outline(outline).dirty().select_body_saying(
            id,
            "duplicated "@ + self.outline.name_of(self.outline.active) + " as "@
                + self.copy_name(),
        ).then_recorded(history).then_drawn()
    }

    /// What a planned merge comes to: a refusal, a prompt, or the merge.
    pub open spec fn merge_planned(self, source: NodeId, target: MergeTarget) -> Step {
        let name = self.outline.name_or(source, ""@);
        match target {
            MergeTarget::Bottom => self.saying(
                "could not merge "@ + name + ": there is no body below it"@,
            ).quiet(),
            MergeTarget::Folder(folder) => self.saying(
                "could not merge "@ + name + ": "@ + self.outline.name_or(folder, "a folder"@)
                    + " is a folder, and a merge joins two bodies"@,
            ).quiet(),
            MergeTarget::Body { target, plan } => match plan {
                Some(plan) => if plan.bytes >= self.books.merge_prompt_bytes {
                    self.merging_later(
                        Some(
                            PendingMergeV {
                                source: source,
                                source_name: name,
                                target_name: self.outline.name_or(target, ""@),
                                plan: plan,
                            },
                        ),
                    ).quiet()
                } else {
                    self.asking(Action::MergeDown(source))
                },
                None => self.quiet(),
            },
        }
    }

    /// The session with another merge that waits for an answer, or none.
    pub open spec fn merging_later(self, pending: Option<PendingMergeV>) -> BrokkrV {
        BrokkrV { prompts: PromptsV { pending_merge: pending, ..self.prompts }, ..self }
    }

    /// The session with another delete that waits for an answer, or none.
    pub open spec fn deleting_later(self, pending: Option<PendingDeleteV>) -> BrokkrV {
        BrokkrV { prompts: PromptsV { pending_delete: pending, ..self.prompts }, ..self }
    }

    /// A merge that was made.
    pub open spec fn merged(
        self,
        source: NodeId,
        target: NodeId,
        bricks: nat,
        outline: OutlineV,
        history: HistoryNote,
    ) -> Step {
        let line = "merged "@ + self.outline.name_or(source, ""@) + " into "@ + outline.name_or(
            target,
            ""@,
        );
        Step {
            state: self.with_outline(outline).dirty().saying(
                if bricks == 0 {
                    line + " — it was already inside it"@
                } else {
                    line + " — "@ + text::decimal(bricks) + " bricks changed"@
                },
            ).record_history(history).measured(),
            actions: seq![
                Action::ForgetBody(source),
                Action::MarkEverythingDirty,
                Action::RefreshModelRadius,
                Action::Remesh,
                Action::RefreshOverlay,
            ],
        }
    }

    /// A row to delete, with everything in it. The last body is kept.
    pub open spec fn delete_row(self, id: NodeId) -> Step {
        if self.outline.subtree_body_count(id) >= self.outline.body_count() {
            self.saying("cannot delete the last body — a sculpt always holds one"@).quiet()
        } else if self.outline.has(id) {
            self.asking(Action::WeighRows(id))
        } else {
            self.quiet()
        }
    }

    /// A folder to delete. A body is left alone: it has a delete of its own.
    pub open spec fn delete_folder(self, id: NodeId) -> Step {
        if self.outline.has(id) && !self.outline.rows[self.outline.at(id)].is_body {
            self.delete_row(id)
        } else {
            self.quiet()
        }
    }

    /// What a row weighs with everything in it.
    pub open spec fn subtree_bytes(self, id: NodeId, weights: Seq<usize>) -> nat {
        if self.outline.has(id) {
            outline::weight_in(
                weights,
                self.outline.at(id),
                self.outline.end_of(self.outline.at(id)),
            )
        } else {
            0
        }
    }

    /// A row that was weighed: where undo may not be able to hold it, the user is
    /// asked first.
    pub open spec fn rows_weighed(self, id: NodeId, weights: Seq<usize>) -> Step {
        let bytes = self.subtree_bytes(id, weights);
        if !self.outline.has(id) {
            self.quiet()
        } else if bytes >= self.books.delete_prompt_bytes {
            self.deleting_later(
                Some(
                    PendingDeleteV {
                        id: id,
                        name: self.outline.name_of(id),
                        bytes: bytes as usize,
                        bodies: self.outline.subtree_body_count(id) as usize,
                    },
                ),
            ).quiet()
        } else {
            self.asking(Action::RemoveRows(id))
        }
    }

    /// Rows that are gone.
    pub open spec fn rows_removed(
        self,
        id: NodeId,
        bodies: Seq<NodeId>,
        outline: OutlineV,
        history: HistoryNote,
    ) -> Step {
        let line = "deleted "@ + self.outline.name_or(id, ""@);
        Step {
            state: self.with_outline(outline).dirty().saying(
                if bodies.len() > 1 {
                    line + " and the "@ + text::decimal(bodies.len()) + " bodies in it"@
                } else {
                    line
                },
            ).record_history(history).measured(),
            actions: forgetting(bodies) + seq![
                Action::MarkEverythingDirty,
                Action::RefreshModelRadius,
                Action::Remesh,
                Action::RefreshOverlay,
            ],
        }
    }

    /// The answer yes to a delete that waited.
    pub open spec fn confirm_delete(self) -> Step {
        match self.prompts.pending_delete {
            Some(pending) => self.deleting_later(None).asking(Action::RemoveRows(pending.id)),
            None => self.quiet(),
        }
    }

    /// The answer yes to a merge that waited.
    pub open spec fn confirm_merge(self) -> Step {
        match self.prompts.pending_merge {
            Some(pending) => self.merging_later(None).asking(Action::MergeDown(pending.source)),
            None => self.quiet(),
        }
    }

    /// The first group name that no folder has.
    pub open spec fn next_group_name(self) -> Seq<char> {
        group_name(free_group_from(self.outline.rows, 1))
    }

    /// The active row to wrap in a folder, unless the list is full.
    pub open spec fn group_active_body(self) -> Step {
        if self.outline.rows.len() >= MAX_NODES {
            self.saying(
                "could not group: this document holds "@ + text::decimal(self.outline.rows.len())
                    + " rows, which is the limit"@,
            ).quiet()
        } else {
            self.asking(Action::Group(self.outline.active))
        }
    }

    /// The session with an edit of the tree taken in, and a status line.
    pub open spec fn regrouped(
        self,
        outline: OutlineV,
        history: HistoryNote,
        line: Seq<char>,
    ) -> BrokkrV {
        self.with_outline(outline).dirty().saying(line).record_history(history)
    }

    /// The folder that the active row lies in, to dissolve.
    pub open spec fn ungroup_active_body(self) -> Step {
        match self.outline.parent_of(self.outline.active) {
            Some(folder) => self.asking(Action::Ungroup(folder)),
            None => self.saying("nothing to ungroup — this row is not in a folder"@).quiet(),
        }
    }

    /// Where a move leads, as a status line names it.
    pub open spec fn destination(self, into: Option<NodeId>) -> Seq<char> {
        match into {
            Some(folder) => self.outline.name_or(folder, "a folder"@),
            None => "the top level"@,
        }
    }

    /// The active row to move, unless it is there already.
    pub open spec fn move_to_folder(self, into: Option<NodeId>) -> Step {
        if self.outline.parent_of(self.outline.active) == into {
            self.saying("this body is already in "@ + self.destination(into)).quiet()
        } else {
            self.asking(Action::MoveToFolder { row: self.outline.active, into: into })
        }
    }

    /// A folder to fold away, or to unfold.
    pub open spec fn toggle_collapse(self, folder: NodeId) -> Step {
        if self.outline.has(folder) {
            self.asking(
                Action::SetCollapsed {
                    folder: folder,
                    collapsed: !self.outline.rows[self.outline.at(folder)].collapsed,
                },
            )
        } else {
            self.quiet()
        }
    }

    /// A step through the history that was made.
    pub open spec fn history_applied(self, outline: OutlineV, stats: HistoryStats) -> Step {
        Step {
            state: self.with_outline(outline).counting(stats).dirty(),
            actions: seq![Action::Remesh, Action::RefreshOverlay],
        }
    }

    /// A step through the history that an eye vetoed.
    pub open spec fn history_refused(self, redo: bool, node: NodeId) -> Step {
        self.saying(
            (if redo {
                "redo"@
            } else {
                "undo"@
            }) + " would change "@ + self.outline.name_or(node, "a hidden body"@)
                + ", which is hidden"@,
        ).asking(Action::RefreshOverlay)
    }
}

impl Step {
    /// The same, with what its entry did to the history. Where that lost a deleted
    /// body, saying so comes last.
    pub open spec fn then_recorded(self, history: HistoryNote) -> Step {
        Step { state: self.state.record_history(history), actions: self.actions }
    }

    /// The same, and then everything new is meshed and the overlay redrawn.
    pub open spec fn then_drawn(self) -> Step {
        Step {
            state: self.state,
            actions: self.actions + seq![Action::Remesh, Action::RefreshOverlay],
        }
    }
}

impl Brokkr {
    /// Why nothing more can be added, where a limit is reached.
    pub fn full_line(&self, what: &str) -> (r: Option<String>)
        ensures
            match r {
                Some(line) => self@.full_line(what@) == Some(line@),
                None => self@.full_line(what@) is None,
            },
    {
        let bodies: usize = self.outline.body_count();
        let rows: usize = self.outline.node_count();
        if bodies >= MAX_BODIES {
            let number: String = text::write_decimal(bodies as u64);
            Some(
                String::from_str(what).concat(": this document holds ").concat(
                    number.as_str(),
                ).concat(" bodies, which is the limit"),
            )
        } else if rows >= MAX_NODES {
            let number: String = text::write_decimal(rows as u64);
            Some(
                String::from_str(what).concat(": this document holds ").concat(
                    number.as_str(),
                ).concat(" rows, which is the limit"),
            )
        } else {
            None
        }
    }

    /// The name of the active body.
    pub fn active_name(&self) -> (r: String)
        requires
            self@.wf(),
        ensures
            r@ == self@.outline.name_of(self@.outline.active),
    {
        proof {
            outline::lemma_active(self@.outline);
        }
        self.outline.name_or(self.outline.active, "")
    }

    /// Takes in what an entry did to the history.
    pub fn record_history(&mut self, note: HistoryNote)
        ensures
            final(self)@ == old(self)@.record_history(note),
    {
        self.books.history_stats = note.stats;
        if note.stats.dropped_bodies > note.dropped_before {
            self.status = String::from_str(
                "undo history is full — a deleted body can no longer be brought back",
            );
        }
    }

    /// Notes that the model's size was measured on the active body.
    pub fn refresh_model_radius(&mut self)
        ensures
            final(self)@ == old(self)@.measured(),
    {
        self.books.model_radius_body = Some(self.outline.active);
    }

    /// Notes that the model was meshed and measured, and says whether the brush is
    /// to follow its size.
    pub fn note_remesh(&mut self) -> (follow: bool)
        ensures
            final(self)@ == old(self)@.measured(),
            follow == old(self)@.brush_follows(),
    {
        let same_body: bool = match self.books.model_radius_body {
            Some(body) => body == self.outline.active,
            None => false,
        };
        self.books.model_radius_body = Some(self.outline.active);
        self.tool.pen.dynamic_radius && same_body
    }

    /// Asks for a shape, unless a limit is reached.
    pub fn add_primitive(&mut self, kind: PrimitiveKind) -> (actions: Vec<Action>)
        requires
            old(self)@.wf(),
        ensures
            final(self)@ == old(self)@.add_primitive(kind).state,
            actions@ == old(self)@.add_primitive(kind).actions,
            final(self)@.wf(),
    {
        let what: String = String::from_str("could not add a ").concat(kind.noun());
        match self.full_line(what.as_str()) {
            Some(why) => {
                self.status = why;
                Vec::new()
            },
            None => vec![Action::AddPrimitive(kind)],
        }
    }

    /// Says that there is no room for a shape.
    pub fn primitive_refused(
        &mut self,
        kind: PrimitiveKind,
        across: String,
        why: String,
        workable: String,
    )
        ensures
            final(self)@ == old(self)@.primitive_refused(kind, across@, why@, workable@),
    {
        self.status = String::from_str("could not add a ").concat(kind.noun()).concat(" ").concat(
            across.as_str(),
        ).concat(" mm across: ").concat(why.as_str()).concat(" (").concat(
            workable.as_str(),
        ).concat(" mm)");
    }

    /// Takes in a shape that became a body, and selects it.
    pub fn primitive_built(
        &mut self,
        kind: PrimitiveKind,
        id: NodeId,
        across: String,
        outline: Outline,
        history: HistoryNote,
    ) -> (actions: Vec<Action>)
        requires
            old(self)@.wf(),
            outline@.wf(),
            outline@.has_body(id),
        ensures
            final(self)@ == old(self)@.primitive_built(
                kind,
                id,
                across@,
                outline@,
                history,
            ).state,
            actions@ == old(self)@.primitive_built(kind, id, across@, outline@, history).actions,
            final(self)@.wf(),
    {
        self.outline = outline;
        self.file.unsaved = true;
        let note: String = String::from_str("added a ").concat(kind.noun()).concat(" ").concat(
            across.as_str(),
        ).concat(" mm across");
        let mut actions: Vec<Action> = self.select_body_saying(id, note);
        self.record_history(history);
        actions.push(Action::Remesh);
        actions.push(Action::RefreshOverlay);
        actions
    }

    /// The name of a copy of the active body.
    pub fn copy_name(&self) -> (r: String)
        requires
            self@.wf(),
        ensures
            r@ == self@.copy_name(),
    {
        let name: String = self.active_name().concat(" copy");
        text::name_that_fits(name.as_str())
    }

    /// Asks for a copy of the active body, unless a limit is reached.
    pub fn duplicate_active_body(&mut self) -> (actions: Vec<Action>)
        requires
            old(self)@.wf(),
        ensures
            final(self)@ == old(self)@.duplicate_active_body().state,
            actions@ == old(self)@.duplicate_active_body().actions,
            final(self)@.wf(),
    {
        match self.full_line("could not duplicate") {
            Some(why) => {
                self.status = why;
                return Vec::new();
            },
            None => {},
        }
        proof {
            outline::lemma_active(self@.outline);
        }
        let source: NodeId = self.outline.active;
        match self.outline.index_of(source) {
            Some(at) => {
                let count: usize = self.outline.rows.len();
                assert(at < count);
                let depth: u8 = self.outline.rows[at].depth;
                vec![Action::Duplicate { source, at: at + 1, depth }]
            },
            None => Vec::new(),
        }
    }

    /// Says that there is no room for a copy.
    pub fn copy_refused(&mut self, why: String)
        requires
            old(self)@.wf(),
        ensures
            final(self)@ == old(self)@.copy_refused(why@),
            final(self)@.wf(),
    {
        let name: String = self.active_name();
        self.status = String::from_str("could not duplicate ").concat(name.as_str()).concat(
            ": ",
        ).concat(why.as_str());
    }

    /// Takes in a copy, and selects it.
    pub fn copied(&mut self, id: NodeId, outline: Outline, history: HistoryNote) -> (actions: Vec<
        Action,
    >)
        requires
            old(self)@.wf(),
            outline@.wf(),
            outline@.has_body(id),
        ensures
            final(self)@ == old(self)@.copied(id, outline@, history).state,
            actions@ == old(self)@.copied(id, outline@, history).actions,
            final(self)@.wf(),
    {
        let name: String = self.active_name();
        let copy_name: String = self.copy_name();
        let note: String = String::from_str("duplicated ").concat(name.as_str()).concat(
            " as ",
        ).concat(copy_name.as_str());
        self.outline = outline;
        self.file.unsaved = true;
        let mut actions: Vec<Action> = self.select_body_saying(id, note);
        self.record_history(history);
        actions.push(Action::Remesh);
        actions.push(Action::RefreshOverlay);
        actions
    }

    /// Asks what lies below the active body.
    pub fn merge_active_body_down(&self) -> (actions: Vec<Action>)
        ensures
            actions@ == seq![Action::PlanMerge(self@.outline.active)],
    {
        vec![Action::PlanMerge(self.outline.active)]
    }

    /// Refuses a merge, asks about it, or asks for it.
    pub fn merge_planned(&mut self, source: NodeId, target: MergeTarget) -> (actions: Vec<Action>)
        requires
            old(self)@.wf(),
        ensures
            final(self)@ == old(self)@.merge_planned(source, target).state,
            actions@ == old(self)@.merge_planned(source, target).actions,
            final(self)@.wf(),
    {
        let name: String = self.outline.name_or(source, "");
        match target {
            MergeTarget::Bottom => {
                self.status = String::from_str("could not merge ").concat(name.as_str()).concat(
                    ": there is no body below it",
                );
                Vec::new()
            },
            MergeTarget::Folder(folder) => {
                let folder_name: String = self.outline.name_or(folder, "a folder");
                self.status = String::from_str("could not merge ").concat(name.as_str()).concat(
                    ": ",
                ).concat(folder_name.as_str()).concat(
                    " is a folder, and a merge joins two bodies",
                );
                Vec::new()
            },
            MergeTarget::Body { target, plan } => match plan {
                Some(plan) => {
                    if plan.bytes >= self.books.merge_prompt_bytes {
                        let target_name: String = self.outline.name_or(target, "");
                        self.prompts.pending_merge = Some(
                            PendingMerge { source, source_name: name, target_name, plan },
                        );
                        Vec::new()
                    } else {
                        vec![Action::MergeDown(source)]
                    }
                },
                None => Vec::new(),
            },
        }
    }

    /// Takes in a merge.
    pub fn merged(&mut self, source: NodeId, outcome: MergeOutcome) -> (actions: Vec<Action>)
        requires
            old(self)@.wf(),
            outcome.outline@.wf(),
        ensures
            final(self)@ == old(self)@.merged(
                source,
                outcome.target,
                outcome.bricks as nat,
                outcome.outline@,
                outcome.history,
            ).state,
            actions@ == old(self)@.merged(
                source,
                outcome.target,
                outcome.bricks as nat,
                outcome.outline@,
                outcome.history,
            ).actions,
            final(self)@.wf(),
    {
        let source_name: String = self.outline.name_or(source, "");
        self.outline = outcome.outline;
        let target_name: String = self.outline.name_or(outcome.target, "");
        self.file.unsaved = true;
        let line: String = String::from_str("merged ").concat(source_name.as_str()).concat(
            " into ",
        ).concat(target_name.as_str());
        self.status = if outcome.bricks == 0 {
            line.concat(" — it was already inside it")
        } else {
            let number: String = text::write_decimal(outcome.bricks);
            line.concat(" — ").concat(number.as_str()).concat(" bricks changed")
        };
        self.record_history(outcome.history);
        self.refresh_model_radius();
        vec![
            Action::ForgetBody(source),
            Action::MarkEverythingDirty,
            Action::RefreshModelRadius,
            Action::Remesh,
            Action::RefreshOverlay,
        ]
    }

    /// Asks for a row to be weighed before it is deleted, unless it holds the
    /// last body.
    pub fn delete_row(&mut self, id: NodeId) -> (actions: Vec<Action>)
        requires
            old(self)@.wf(),
        ensures
            final(self)@ == old(self)@.delete_row(id).state,
            actions@ == old(self)@.delete_row(id).actions,
            final(self)@.wf(),
    {
        if self.outline.subtree_body_count(id) >= self.outline.body_count() {
            self.status = String::from_str(
                "cannot delete the last body — a sculpt always holds one",
            );
            Vec::new()
        } else if self.outline.index_of(id).is_some() {
            vec![Action::WeighRows(id)]
        } else {
            Vec::new()
        }
    }

    /// Deletes the active body.
    pub fn delete_active_body(&mut self) -> (actions: Vec<Action>)
        requires
            old(self)@.wf(),
        ensures
            final(self)@ == old(self)@.delete_row(old(self)@.outline.active).state,
            actions@ == old(self)@.delete_row(old(self)@.outline.active).actions,
            final(self)@.wf(),
    {
        self.delete_row(self.outline.active)
    }

    /// Deletes a folder with everything in it.
    pub fn delete_folder(&mut self, id: NodeId) -> (actions: Vec<Action>)
        requires
            old(self)@.wf(),
        ensures
            final(self)@ == old(self)@.delete_folder(id).state,
            actions@ == old(self)@.delete_folder(id).actions,
            final(self)@.wf(),
    {
        match self.outline.index_of(id) {
            Some(at) => {
                if self.outline.rows[at].is_body {
                    Vec::new()
                } else {
                    self.delete_row(id)
                }
            },
            None => Vec::new(),
        }
    }

    /// Asks before a heavy delete, or asks for the delete.
    pub fn rows_weighed(&mut self, id: NodeId, weights: Vec<usize>) -> (actions: Vec<Action>)
        requires
            old(self)@.wf(),
            weights@.len() == old(self)@.outline.rows.len(),
            outline::weight_in(weights@, 0, weights@.len() as int) <= usize::MAX,
        ensures
            final(self)@ == old(self)@.rows_weighed(id, weights@).state,
            actions@ == old(self)@.rows_weighed(id, weights@).actions,
            final(self)@.wf(),
    {
        let bytes: usize = self.outline.subtree_weight(id, &weights);
        match self.outline.index_of(id) {
            Some(at) => {
                if bytes >= self.books.delete_prompt_bytes {
                    let name: String = self.outline.rows[at].name.clone();
                    assert(name@ == self@.outline.name_of(id));
                    let bodies: usize = self.outline.subtree_body_count(id);
                    self.prompts.pending_delete = Some(PendingDelete { id, name, bytes, bodies });
                    Vec::new()
                } else {
                    vec![Action::RemoveRows(id)]
                }
            },
            None => Vec::new(),
        }
    }

    /// Takes in a removal.
    pub fn rows_removed(&mut self, id: NodeId, outcome: Removal) -> (actions: Vec<Action>)
        requires
            old(self)@.wf(),
            outcome.outline@.wf(),
        ensures
            final(self)@ == old(self)@.rows_removed(
                id,
                outcome.bodies@,
                outcome.outline@,
                outcome.history,
            ).state,
            actions@ == old(self)@.rows_removed(
                id,
                outcome.bodies@,
                outcome.outline@,
                outcome.history,
            ).actions,
            final(self)@.wf(),
    {
        let name: String = self.outline.name_or(id, "");
        self.outline = outcome.outline;
        self.file.unsaved = true;
        let count: usize = outcome.bodies.len();
        let line: String = String::from_str("deleted ").concat(name.as_str());
        self.status = if count > 1 {
            let number: String = text::write_decimal(count as u64);
            line.concat(" and the ").concat(number.as_str()).concat(" bodies in it")
        } else {
            line
        };
        self.record_history(outcome.history);
        self.refresh_model_radius();
        let mut actions: Vec<Action> = Vec::new();
        let mut i: usize = 0;
        while i < count
            invariant
                i <= count,
                count == outcome.bodies@.len(),
                actions@ == forgetting(outcome.bodies@.take(i as int)),
            decreases count - i,
        {
            actions.push(Action::ForgetBody(outcome.bodies[i]));
            i = i + 1;
            assert(actions@ =~= forgetting(outcome.bodies@.take(i as int)));
        }
        assert(outcome.bodies@.take(count as int) =~= outcome.bodies@);
        actions.push(Action::MarkEverythingDirty);
        actions.push(Action::RefreshModelRadius);
        actions.push(Action::Remesh);
        actions.push(Action::RefreshOverlay);
        actions
    }

    /// Goes ahead with a delete that waited.
    pub fn confirm_delete(&mut self) -> (actions: Vec<Action>)
        requires
            old(self)@.wf(),
        ensures
            final(self)@ == old(self)@.confirm_delete().state,
            actions@ == old(self)@.confirm_delete().actions,
            final(self)@.wf(),
    {
        match self.prompts.pending_delete.take() {
            Some(pending) => vec![Action::RemoveRows(pending.id)],
            None => Vec::new(),
        }
    }

    /// Goes ahead with a merge that waited.
    pub fn confirm_merge(&mut self) -> (actions: Vec<Action>)
        requires
            old(self)@.wf(),
        ensures
            final(self)@ == old(self)@.confirm_merge().state,
            actions@ == old(self)@.confirm_merge().actions,
            final(self)@.wf(),
    {
        match self.prompts.pending_merge.take() {
            Some(pending) => vec![Action::MergeDown(pending.source)],
            None => Vec::new(),
        }
    }

    /// The first group name that no folder has.
    pub fn next_group_name(&self) -> (r: String)
        requires
            self@.outline.rows.len() <= MAX_NODES,
        ensures
            r@ == self@.next_group_name(),
            outline::folder_name_free(
                self@.outline.rows,
                self@.outline.rows.len() as int,
                r@,
            ),
    {
        proof {
            laws::a_new_group_has_a_free_name(self@);
        }
        let mut n: u64 = 1;
        while n <= MAX_NODES as u64
            invariant
                1 <= n <= MAX_NODES + 1,
                free_group_from(self@.outline.rows, 1) == free_group_from(
                    self@.outline.rows,
                    n as nat,
                ),
            decreases MAX_NODES + 1 - n,
        {
            let number: String = text::write_decimal(n);
            let name: String = String::from_str("Group ").concat(number.as_str());
            if self.outline.folder_name_is_free(name.as_str()) {
                return name;
            }
            n = n + 1;
        }
        let number: String = text::write_decimal(n);
        String::from_str("Group ").concat(number.as_str())
    }

    /// Asks for the active row to be wrapped in a folder.
    pub fn group_active_body(&mut self) -> (actions: Vec<Action>)
        requires
            old(self)@.wf(),
        ensures
            final(self)@ == old(self)@.group_active_body().state,
            actions@ == old(self)@.group_active_body().actions,
            final(self)@.wf(),
    {
        let rows: usize = self.outline.node_count();
        if rows >= MAX_NODES {
            let number: String = text::write_decimal(rows as u64);
            self.status = String::from_str("could not group: this document holds ").concat(
                number.as_str(),
            ).concat(" rows, which is the limit");
            Vec::new()
        } else {
            vec![Action::Group(self.outline.active)]
        }
    }

    fn take_in(&mut self, edit: Regrouped, line: String)
        requires
            edit.outline@.wf(),
            old(self)@.wf(),
        ensures
            final(self)@ == old(self)@.regrouped(edit.outline@, edit.history, line@),
            final(self)@.wf(),
    {
        self.outline = edit.outline;
        self.file.unsaved = true;
        self.status = line;
        self.record_history(edit.history);
    }

    /// Takes in a row that was wrapped, or says that the tree is as deep as it
    /// goes.
    pub fn grouped(&mut self, outcome: Option<Regrouped>)
        requires
            old(self)@.wf(),
            old(self)@.outline.rows.len() <= MAX_NODES,
            outcome matches Some(edit) ==> edit.outline@.wf(),
        ensures
            final(self)@ == match outcome {
                Some(edit) => old(self)@.regrouped(
                    edit.outline@,
                    edit.history,
                    "grouped into "@ + old(self)@.next_group_name(),
                ),
                None => old(self)@.saying(
                    "could not group: "@ + text::decimal(MAX_DEPTH as nat)
                        + " folders deep is as far as the panel goes"@,
                ),
            },
            final(self)@.wf(),
    {
        match outcome {
            Some(edit) => {
                let name: String = self.next_group_name();
                let line: String = String::from_str("grouped into ").concat(name.as_str());
                self.take_in(edit, line);
            },
            None => {
                let number: String = text::write_decimal(MAX_DEPTH);
                self.status = String::from_str("could not group: ").concat(
                    number.as_str(),
                ).concat(" folders deep is as far as the panel goes");
            },
        }
    }

    /// Asks for the folder over the active row to be dissolved.
    pub fn ungroup_active_body(&mut self) -> (actions: Vec<Action>)
        requires
            old(self)@.wf(),
        ensures
            final(self)@ == old(self)@.ungroup_active_body().state,
            actions@ == old(self)@.ungroup_active_body().actions,
            final(self)@.wf(),
    {
        match self.outline.parent_of(self.outline.active) {
            Some(folder) => vec![Action::Ungroup(folder)],
            None => {
                self.status = String::from_str(
                    "nothing to ungroup — this row is not in a folder",
                );
                Vec::new()
            },
        }
    }

    /// Takes in a folder that was dissolved.
    pub fn ungrouped(&mut self, folder: NodeId, outcome: Option<Regrouped>)
        requires
            old(self)@.wf(),
            outcome matches Some(edit) ==> edit.outline@.wf(),
        ensures
            final(self)@ == match outcome {
                Some(edit) => old(self)@.regrouped(
                    edit.outline@,
                    edit.history,
                    "dissolved "@ + old(self)@.outline.name_or(folder, ""@),
                ),
                None => old(self)@,
            },
            final(self)@.wf(),
    {
        match outcome {
            Some(edit) => {
                let name: String = self.outline.name_or(folder, "");
                let line: String = String::from_str("dissolved ").concat(name.as_str());
                self.take_in(edit, line);
            },
            None => {},
        }
    }

    fn destination(&self, into: Option<NodeId>) -> (r: String)
        requires
            self@.wf(),
        ensures
            r@ == self@.destination(into),
    {
        match into {
            Some(folder) => self.outline.name_or(folder, "a folder"),
            None => String::from_str("the top level"),
        }
    }

    /// Asks for the active row to be moved, unless it is there already.
    pub fn move_to_folder(&mut self, into: Option<NodeId>) -> (actions: Vec<Action>)
        requires
            old(self)@.wf(),
        ensures
            final(self)@ == old(self)@.move_to_folder(into).state,
            actions@ == old(self)@.move_to_folder(into).actions,
            final(self)@.wf(),
    {
        let row: NodeId = self.outline.active;
        let parent: Option<NodeId> = self.outline.parent_of(row);
        let there: bool = match (parent, into) {
            (Some(a), Some(b)) => a == b,
            (None, None) => true,
            _ => false,
        };
        if there {
            let place: String = self.destination(into);
            self.status = String::from_str("this body is already in ").concat(place.as_str());
            Vec::new()
        } else {
            vec![Action::MoveToFolder { row, into }]
        }
    }

    /// Takes in a row that was moved, or says that it could not be.
    pub fn moved_to_folder(&mut self, into: Option<NodeId>, outcome: Option<Regrouped>)
        requires
            old(self)@.wf(),
            outcome matches Some(edit) ==> edit.outline@.wf(),
        ensures
            final(self)@ == match outcome {
                Some(edit) => old(self)@.regrouped(
                    edit.outline@,
                    edit.history,
                    "moved to "@ + old(self)@.destination(into),
                ),
                None => old(self)@.saying(
                    "could not move this body to "@ + old(self)@.destination(into),
                ),
            },
            final(self)@.wf(),
    {
        let place: String = self.destination(into);
        match outcome {
            Some(edit) => {
                let line: String = String::from_str("moved to ").concat(place.as_str());
                self.take_in(edit, line);
            },
            None => {
                self.status = String::from_str("could not move this body to ").concat(
                    place.as_str(),
                );
            },
        }
    }

    /// Asks for a folder to be folded away, or unfolded.
    pub fn toggle_collapse(&mut self, folder: NodeId) -> (actions: Vec<Action>)
        requires
            old(self)@.wf(),
        ensures
            final(self)@ == old(self)@.toggle_collapse(folder).state,
            actions@ == old(self)@.toggle_collapse(folder).actions,
            final(self)@.wf(),
    {
        match self.outline.index_of(folder) {
            Some(at) => {
                let collapsed: bool = !self.outline.rows[at].collapsed;
                assert(collapsed == !self@.outline.rows[at as int].collapsed);
                vec![Action::SetCollapsed { folder, collapsed }]
            },
            None => Vec::new(),
        }
    }

    /// Takes in a fold. It has no status line of its own.
    pub fn collapse_set(&mut self, outcome: Option<Regrouped>)
        requires
            old(self)@.wf(),
            outcome matches Some(edit) ==> edit.outline@.wf(),
        ensures
            final(self)@ == match outcome {
                Some(edit) => old(self)@.with_outline(edit.outline@).record_history(
                    edit.history,
                ).dirty(),
                None => old(self)@,
            },
            final(self)@.wf(),
    {
        match outcome {
            Some(edit) => {
                self.outline = edit.outline;
                self.record_history(edit.history);
                self.file.unsaved = true;
            },
            None => {},
        }
    }

    /// Takes in a step through the history.
    pub fn history_stepped(&mut self, redo: bool, outcome: StepOutcome) -> (actions: Vec<Action>)
        requires
            old(self)@.wf(),
            outcome matches StepOutcome::Applied { outline, .. } ==> outline@.wf(),
        ensures
            final(self)@ == match outcome {
                StepOutcome::Applied { outline, stats } => old(self)@.history_applied(
                    outline@,
                    stats,
                ).state,
                StepOutcome::Refused(node) => old(self)@.history_refused(redo, node).state,
                StepOutcome::Nothing => old(self)@,
            },
            actions@ == match outcome {
                StepOutcome::Applied { outline, stats } => old(self)@.history_applied(
                    outline@,
                    stats,
                ).actions,
                StepOutcome::Refused(node) => old(self)@.history_refused(redo, node).actions,
                StepOutcome::Nothing => seq![],
            },
            final(self)@.wf(),
    {
        match outcome {
            StepOutcome::Applied { outline, stats } => {
                self.outline = outline;
                self.books.history_stats = stats;
                self.file.unsaved = true;
                vec![Action::Remesh, Action::RefreshOverlay]
            },
            StepOutcome::Refused(node) => {
                let name: String = self.outline.name_or(node, "a hidden body");
                let verb: &str = if redo {
                    "redo"
                } else {
                    "undo"
                };
                self.status = String::from_str(verb).concat(" would change ").concat(
                    name.as_str(),
                ).concat(", which is hidden");
                vec![Action::RefreshOverlay]
            },
            StepOutcome::Nothing => Vec::new(),
        }
    }
}

} // verus!
