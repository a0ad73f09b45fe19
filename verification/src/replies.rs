//! What each reply does, group by group. The groups are opaque, so that a proof
//! about one of them reveals that one alone.
use vstd::prelude::*;

use crate::action::{Action, OpenOutcome, Reply, StepOutcome, TimelinePress};
use crate::detail;
use crate::outline;
use crate::state::{Brokkr, BrokkrV, Clock, Step, MAX_DEPTH, MAX_NODES};
use crate::text;
use crate::values;
use crate::values::Brush;

verus! {

/// What a reply is about.
#[derive(Clone, Copy, Debug, PartialEq, Eq, Structural)]
pub enum ReplyKind {
    Making,
    Joining,
    Folders,
    Tool,
    Pointing,
    Sizing,
    Timeline,
    Documents,
    Saving,
    Exporting,
    Reporting,
}

/// What a reply is about.
pub open spec fn about(r: Reply) -> ReplyKind {
    match r {
        Reply::ActiveMeasured(_)
        | Reply::OutlineWritten(_)
        | Reply::PrimitiveRefused { .. }
        | Reply::PrimitiveBuilt { .. }
        | Reply::CopyRefused { .. }
        | Reply::Copied { .. } => ReplyKind::Making,
        Reply::MergePlanned { .. }
        | Reply::Merged { .. }
        | Reply::RowsWeighed { .. }
        | Reply::RowsRemoved { .. } => ReplyKind::Joining,
        Reply::Grouped(_)
        | Reply::Ungrouped { .. }
        | Reply::MovedToFolder { .. }
        | Reply::CollapseSet(_)
        | Reply::HistoryStepped { .. } => ReplyKind::Folders,
        Reply::MirrorMeasured { .. }
        | Reply::RadiusClamped(_)
        | Reply::StrengthClamped(_)
        | Reply::StrokeEnded(_)
        | Reply::CutDone(_) => ReplyKind::Tool,
        Reply::CubePicked { .. }
        | Reply::HoverPicked(_)
        | Reply::HoverSurface(_) => ReplyKind::Pointing,
        Reply::Oriented(_)
        | Reply::ResampleMeasured(_)
        | Reply::Resampled { .. }
        | Reply::WorkingSizeRead(_)
        | Reply::Rescaled { .. } => ReplyKind::Sizing,
        Reply::TimelineHovered { .. }
        | Reply::TimelinePressed(_)
        | Reply::TimelineRemoved(_) => ReplyKind::Timeline,
        Reply::DocumentReset { .. }
        | Reply::ProjectOpened { .. }
        | Reply::ImportAdopted { .. } => ReplyKind::Documents,
        Reply::SaveFinished { .. }
        | Reply::AutosaveTick { .. }
        | Reply::AutosaveWritten { .. } => ReplyKind::Saving,
        Reply::Exported { .. }
        | Reply::StagedExported { .. }
        | Reply::SlicerSought(_)
        | Reply::SlicerOpened(_) => ReplyKind::Exporting,
        Reply::DiagnosticsCopied
        | Reply::ReportCopied
        | Reply::ReportSent
        | Reply::PrinterSought(_) => ReplyKind::Reporting,
    }
}

impl Reply {
    /// Whether a reply is one that the session can take: the rows it brings are
    /// sound, a new body is among them, the list a folder was added to was within
    /// its limit, and what was counted adds up.
    pub open spec fn fits(self, s: BrokkrV) -> bool {
        match self {
            Reply::PrimitiveBuilt { id, outline, .. } => outline@.wf() && outline@.has_body(id),
            Reply::Copied { id, outline, .. } => outline@.wf() && outline@.has_body(id),
            Reply::Merged { outcome, .. } => outcome matches Some(o) ==> o.outline@.wf(),
            Reply::RowsWeighed { weights, .. } => weights@.len() == s.outline.rows.len()
                && outline::weight_in(weights@, 0, weights@.len() as int) <= usize::MAX,
            Reply::RowsRemoved { outcome, .. } => outcome matches Some(o) ==> o.outline@.wf(),
            Reply::Grouped(outcome) => s.outline.rows.len() <= MAX_NODES && (outcome matches Some(
                o,
            ) ==> o.outline@.wf()),
            Reply::Ungrouped { outcome, .. } => outcome matches Some(o) ==> o.outline@.wf(),
            Reply::MovedToFolder { outcome, .. } => outcome matches Some(o) ==> o.outline@.wf(),
            Reply::CollapseSet(outcome) => outcome matches Some(o) ==> o.outline@.wf(),
            Reply::HistoryStepped { outcome, .. } => outcome matches StepOutcome::Applied {
                outline,
                ..
            } ==> outline@.wf(),
            Reply::Oriented(outcome) => outcome matches Some(o) ==> o.0.outline@.wf(),
            Reply::DocumentReset { outline, .. } => outline@.wf(),
            Reply::ProjectOpened { outcome, .. } => outcome matches OpenOutcome::Opened {
                outline,
                ..
            } ==> outline@.wf(),
            Reply::ImportAdopted { outline, .. } => outline@.wf(),
            Reply::Resampled { outline, .. } => outline@.wf(),
            Reply::Rescaled { outline, .. } => outline@.wf(),
            Reply::TimelinePressed(press) => match press {
                TimelinePress::WentTo { index, keys, .. } => index < keys,
                TimelinePress::Added { index, keys } => index < keys,
                TimelinePress::Nothing => true,
            },
            _ => true,
        }
    }
}

impl BrokkrV {
    /// A reply about new rows.
    #[verifier::opaque]
    pub open spec fn reply_making(self, r: Reply) -> Step {
        match r {
            Reply::ActiveMeasured(straddles) => self.refuse_mirrors(
                straddles,
                "turned off"@,
            ).quiet(),
            Reply::OutlineWritten(note) => self.record_history(note).quiet(),
            Reply::PrimitiveRefused { kind, across, why, workable } => self.primitive_refused(
                kind,
                across@,
                why@,
                workable@,
            ).quiet(),
            Reply::PrimitiveBuilt { kind, id, across, outline, history } => self.primitive_built(
                kind,
                id,
                across@,
                outline@,
                history,
            ),
            Reply::CopyRefused { why } => self.copy_refused(why@).quiet(),
            Reply::Copied { id, outline, history } => self.copied(id, outline@, history),
            _ => self.quiet(),
        }
    }

    /// A reply about rows that were merged or removed.
    #[verifier::opaque]
    pub open spec fn reply_joining(self, r: Reply) -> Step {
        match r {
            Reply::MergePlanned { source, target } => self.merge_planned(source, target),
            Reply::Merged { source, outcome } => match outcome {
                Some(o) => self.merged(
                    source,
                    o.target,
                    o.bricks as nat,
                    o.outline@,
                    o.history,
                ),
                None => self.quiet(),
            },
            Reply::RowsWeighed { id, weights } => self.rows_weighed(id, weights@),
            Reply::RowsRemoved { id, outcome } => match outcome {
                Some(o) => self.rows_removed(id, o.bodies@, o.outline@, o.history),
                None => self.quiet(),
            },
            _ => self.quiet(),
        }
    }

    /// A reply about an edit of the tree or a step through the history.
    #[verifier::opaque]
    pub open spec fn reply_folders(self, r: Reply) -> Step {
        match r {
            Reply::Grouped(outcome) => (match outcome {
                Some(edit) => self.regrouped(
                    edit.outline@,
                    edit.history,
                    "grouped into "@ + self.next_group_name(),
                ),
                None => self.saying(
                    "could not group: "@ + text::decimal(MAX_DEPTH as nat)
                        + " folders deep is as far as the panel goes"@,
                ),
            }).quiet(),
            Reply::Ungrouped { folder, outcome } => (match outcome {
                Some(edit) => self.regrouped(
                    edit.outline@,
                    edit.history,
                    "dissolved "@ + self.outline.name_or(folder, ""@),
                ),
                None => self,
            }).quiet(),
            Reply::MovedToFolder { into, outcome } => (match outcome {
                Some(edit) => self.regrouped(
                    edit.outline@,
                    edit.history,
                    "moved to "@ + self.destination(into),
                ),
                None => self.saying("could not move this body to "@ + self.destination(into)),
            }).quiet(),
            Reply::CollapseSet(outcome) => (match outcome {
                Some(edit) => self.with_outline(edit.outline@).record_history(
                    edit.history,
                ).dirty(),
                None => self,
            }).quiet(),
            Reply::HistoryStepped { redo, outcome } => match outcome {
                StepOutcome::Applied { outline, stats } => self.history_applied(outline@, stats),
                StepOutcome::Refused(node) => self.history_refused(redo, node),
                StepOutcome::Nothing => self.quiet(),
            },
            _ => self.quiet(),
        }
    }

    /// A reply about the tool.
    #[verifier::opaque]
    pub open spec fn reply_tool(self, r: Reply) -> Step {
        match r {
            Reply::MirrorMeasured { axis, straddles } => self.mirror_measured(
                axis,
                straddles,
            ).quiet(),
            Reply::RadiusClamped(radius) => self.wielding(
                Brush { radius: radius, ..self.tool.brush },
            ).quiet(),
            Reply::StrengthClamped(strength) => self.wielding(
                Brush { strength: strength, ..self.tool.brush },
            ).quiet(),
            Reply::StrokeEnded(edit) => self.stroke_ended(edit).quiet(),
            Reply::CutDone(outcome) => self.cut_done(outcome),
            _ => self.quiet(),
        }
    }

    /// A reply about what is under the pointer.
    #[verifier::opaque]
    pub open spec fn reply_pointing(self, r: Reply) -> Step {
        match r {
            Reply::CubePicked { part, at } => self.cube_picked(part, at),
            Reply::HoverPicked(body) => self.hovering(body).quiet(),
            Reply::HoverSurface(hit) => self.hovering(
                if hit {
                    Some(self.outline.active)
                } else {
                    None
                },
            ).quiet(),
            _ => self.quiet(),
        }
    }

    /// A reply about the model's size and stance.
    #[verifier::opaque]
    pub open spec fn reply_sizing(self, r: Reply) -> Step {
        match r {
            Reply::Oriented(outcome) => match outcome {
                Some(turn) => self.oriented(
                    turn.0.outline@,
                    turn.0.history.stats,
                    turn.1@,
                ),
                None => self.quiet(),
            },
            Reply::ResampleMeasured(facts) => self.resample_measured(facts),
            Reply::Resampled { outline, stats, size, wanted, dense, megabytes, millis } =>
            self.resampled(
                outline@,
                stats,
                detail::resampled_line(
                    size@,
                    values::chars_of(wanted),
                    dense as nat,
                    megabytes@,
                    millis@,
                ),
            ),
            Reply::WorkingSizeRead(facts) => self.working_size_read(facts),
            Reply::Rescaled { outline, radius, longest, advice } => self.rescaled(
                outline@,
                radius,
                longest@,
                advice@,
            ),
            _ => self.quiet(),
        }
    }

    /// A reply about the timeline.
    #[verifier::opaque]
    pub open spec fn reply_timeline(self, r: Reply) -> Step {
        match r {
            Reply::TimelineHovered { dragging } => self.timeline_hovered(dragging).quiet(),
            Reply::TimelinePressed(press) => self.timeline_pressed(press),
            Reply::TimelineRemoved(left) => self.timeline_removed(left).quiet(),
            _ => self.quiet(),
        }
    }

    /// A reply about another document.
    #[verifier::opaque]
    pub open spec fn reply_documents(self, r: Reply) -> Step {
        match r {
            Reply::DocumentReset { outline, stats } => self.document_reset(outline@, stats),
            Reply::ProjectOpened { path, recover, outcome } => if recover {
                self.recovered(path@, outcome)
            } else {
                self.opened(path@, outcome)
            },
            Reply::ImportAdopted { source, summary, millis, resting_up, outline, stats } =>
            self.import_adopted(source@, summary@, millis@, resting_up, outline@, stats),
            _ => self.quiet(),
        }
    }

    /// A reply about a save or the crash net.
    #[verifier::opaque]
    pub open spec fn reply_saving(self, r: Reply) -> Step {
        match r {
            Reply::SaveFinished { path, continuing, outcome } => self.save_finished(
                path@,
                continuing,
                outcome,
            ),
            Reply::AutosaveTick { now, stroke_active } => if self.autosave_due(
                now,
                stroke_active,
            ) {
                self.asking(Action::WriteAutosave)
            } else {
                self.quiet()
            },
            Reply::AutosaveWritten { now } => BrokkrV {
                clock: Clock { last_autosave: now, ..self.clock },
                ..self
            }.quiet(),
            _ => self.quiet(),
        }
    }

    /// A reply about an export or the slicer.
    #[verifier::opaque]
    pub open spec fn reply_exporting(self, r: Reply) -> Step {
        match r {
            Reply::Exported { format, path, outcome } => self.exported(
                format,
                path@,
                outcome,
            ).quiet(),
            Reply::StagedExported { path, outcome, is_file } => self.staged_exported(
                path@,
                outcome,
                is_file,
            ),
            Reply::SlicerSought(found) => self.slicer_sought(found),
            Reply::SlicerOpened(outcome) => self.slicer_opened(outcome).quiet(),
            _ => self.quiet(),
        }
    }

    /// A reply about a report or the printer.
    #[verifier::opaque]
    pub open spec fn reply_reporting(self, r: Reply) -> Step {
        match r {
            Reply::DiagnosticsCopied => self.without_top_menu().saying(
                "diagnostics copied"@,
            ).quiet(),
            Reply::ReportCopied => self.saying("report copied — paste it into an issue"@).quiet(),
            Reply::ReportSent => self.report_sent().quiet(),
            Reply::PrinterSought(found) => self.printer_sought(found),
            _ => self.quiet(),
        }
    }

    /// What a reply does.
    #[verifier::opaque]
    pub open spec fn reply(self, r: Reply) -> Step {
        match about(r) {
            ReplyKind::Making => self.reply_making(r),
            ReplyKind::Joining => self.reply_joining(r),
            ReplyKind::Folders => self.reply_folders(r),
            ReplyKind::Tool => self.reply_tool(r),
            ReplyKind::Pointing => self.reply_pointing(r),
            ReplyKind::Sizing => self.reply_sizing(r),
            ReplyKind::Timeline => self.reply_timeline(r),
            ReplyKind::Documents => self.reply_documents(r),
            ReplyKind::Saving => self.reply_saving(r),
            ReplyKind::Exporting => self.reply_exporting(r),
            ReplyKind::Reporting => self.reply_reporting(r),
        }
    }
}

impl Brokkr {
    fn reply_making(&mut self, r: Reply) -> (actions: Vec<Action>)
        requires
            old(self)@.wf(),
            r.fits(old(self)@),
        ensures
            final(self)@ == old(self)@.reply_making(r).state,
            actions@ == old(self)@.reply_making(r).actions,
            final(self)@.wf(),
    {
        proof {
            reveal(BrokkrV::reply_making);
        }
        match r {
            Reply::ActiveMeasured(straddles) => {
                self.refuse_mirrors_the_body_does_not_straddle(straddles, "turned off");
                Vec::new()
            },
            Reply::OutlineWritten(note) => {
                self.record_history(note);
                Vec::new()
            },
            Reply::PrimitiveRefused { kind, across, why, workable } => {
                self.primitive_refused(kind, across, why, workable);
                Vec::new()
            },
            Reply::PrimitiveBuilt { kind, id, across, outline, history } => self.primitive_built(
                kind,
                id,
                across,
                outline,
                history,
            ),
            Reply::CopyRefused { why } => {
                self.copy_refused(why);
                Vec::new()
            },
            Reply::Copied { id, outline, history } => self.copied(id, outline, history),
            _ => Vec::new(),
        }
    }

    fn reply_joining(&mut self, r: Reply) -> (actions: Vec<Action>)
        requires
            old(self)@.wf(),
            r.fits(old(self)@),
        ensures
            final(self)@ == old(self)@.reply_joining(r).state,
            actions@ == old(self)@.reply_joining(r).actions,
            final(self)@.wf(),
    {
        proof {
            reveal(BrokkrV::reply_joining);
        }
        match r {
            Reply::MergePlanned { source, target } => self.merge_planned(source, target),
            Reply::Merged { source, outcome } => match outcome {
                Some(o) => self.merged(source, o),
                None => Vec::new(),
            },
            Reply::RowsWeighed { id, weights } => self.rows_weighed(id, weights),
            Reply::RowsRemoved { id, outcome } => match outcome {
                Some(o) => self.rows_removed(id, o),
                None => Vec::new(),
            },
            _ => Vec::new(),
        }
    }

    fn reply_folders(&mut self, r: Reply) -> (actions: Vec<Action>)
        requires
            old(self)@.wf(),
            r.fits(old(self)@),
        ensures
            final(self)@ == old(self)@.reply_folders(r).state,
            actions@ == old(self)@.reply_folders(r).actions,
            final(self)@.wf(),
    {
        proof {
            reveal(BrokkrV::reply_folders);
        }
        match r {
            Reply::Grouped(outcome) => {
                self.grouped(outcome);
                Vec::new()
            },
            Reply::Ungrouped { folder, outcome } => {
                self.ungrouped(folder, outcome);
                Vec::new()
            },
            Reply::MovedToFolder { into, outcome } => {
                self.moved_to_folder(into, outcome);
                Vec::new()
            },
            Reply::CollapseSet(outcome) => {
                self.collapse_set(outcome);
                Vec::new()
            },
            Reply::HistoryStepped { redo, outcome } => self.history_stepped(redo, outcome),
            _ => Vec::new(),
        }
    }

    fn reply_tool(&mut self, r: Reply) -> (actions: Vec<Action>)
        requires
            old(self)@.wf(),
            r.fits(old(self)@),
        ensures
            final(self)@ == old(self)@.reply_tool(r).state,
            actions@ == old(self)@.reply_tool(r).actions,
            final(self)@.wf(),
    {
        proof {
            reveal(BrokkrV::reply_tool);
        }
        match r {
            Reply::MirrorMeasured { axis, straddles } => {
                self.mirror_measured(axis, straddles);
                Vec::new()
            },
            Reply::RadiusClamped(radius) => {
                self.tool.brush.radius = radius;
                Vec::new()
            },
            Reply::StrengthClamped(strength) => {
                self.tool.brush.strength = strength;
                Vec::new()
            },
            Reply::StrokeEnded(edit) => {
                self.stroke_ended(edit);
                Vec::new()
            },
            Reply::CutDone(outcome) => self.cut_done(outcome),
            _ => Vec::new(),
        }
    }

    fn reply_pointing(&mut self, r: Reply) -> (actions: Vec<Action>)
        requires
            old(self)@.wf(),
            r.fits(old(self)@),
        ensures
            final(self)@ == old(self)@.reply_pointing(r).state,
            actions@ == old(self)@.reply_pointing(r).actions,
            final(self)@.wf(),
    {
        proof {
            reveal(BrokkrV::reply_pointing);
        }
        match r {
            Reply::CubePicked { part, at } => self.cube_picked(part, at),
            Reply::HoverPicked(body) => {
                self.hover_picked(body);
                Vec::new()
            },
            Reply::HoverSurface(hit) => {
                self.hover_surface(hit);
                Vec::new()
            },
            _ => Vec::new(),
        }
    }

    fn reply_sizing(&mut self, r: Reply) -> (actions: Vec<Action>)
        requires
            old(self)@.wf(),
            r.fits(old(self)@),
        ensures
            final(self)@ == old(self)@.reply_sizing(r).state,
            actions@ == old(self)@.reply_sizing(r).actions,
            final(self)@.wf(),
    {
        proof {
            reveal(BrokkrV::reply_sizing);
        }
        match r {
            Reply::Oriented(outcome) => self.oriented(outcome),
            Reply::ResampleMeasured(facts) => self.resample_measured(facts),
            Reply::Resampled { outline, stats, size, wanted, dense, megabytes, millis } =>
            self.resampled(outline, stats, size, wanted, dense, megabytes, millis),
            Reply::WorkingSizeRead(facts) => self.working_size_read(facts),
            Reply::Rescaled { outline, radius, longest, advice } => self.rescaled(
                outline,
                radius,
                longest,
                advice,
            ),
            _ => Vec::new(),
        }
    }

    fn reply_timeline(&mut self, r: Reply) -> (actions: Vec<Action>)
        requires
            old(self)@.wf(),
            r.fits(old(self)@),
        ensures
            final(self)@ == old(self)@.reply_timeline(r).state,
            actions@ == old(self)@.reply_timeline(r).actions,
            final(self)@.wf(),
    {
        proof {
            reveal(BrokkrV::reply_timeline);
        }
        match r {
            Reply::TimelineHovered { dragging } => {
                self.timeline_hovered(dragging);
                Vec::new()
            },
            Reply::TimelinePressed(press) => self.timeline_pressed(press),
            Reply::TimelineRemoved(left) => {
                self.timeline_removed(left);
                Vec::new()
            },
            _ => Vec::new(),
        }
    }

    fn reply_documents(&mut self, r: Reply) -> (actions: Vec<Action>)
        requires
            old(self)@.wf(),
            r.fits(old(self)@),
        ensures
            final(self)@ == old(self)@.reply_documents(r).state,
            actions@ == old(self)@.reply_documents(r).actions,
            final(self)@.wf(),
    {
        proof {
            reveal(BrokkrV::reply_documents);
        }
        match r {
            Reply::DocumentReset { outline, stats } => self.document_reset(outline, stats),
            Reply::ProjectOpened { path, recover, outcome } => self.project_opened(
                path,
                recover,
                outcome,
            ),
            Reply::ImportAdopted { source, summary, millis, resting_up, outline, stats } =>
            self.import_adopted(source, summary, millis, resting_up, outline, stats),
            _ => Vec::new(),
        }
    }

    fn reply_saving(&mut self, r: Reply) -> (actions: Vec<Action>)
        requires
            old(self)@.wf(),
            r.fits(old(self)@),
        ensures
            final(self)@ == old(self)@.reply_saving(r).state,
            actions@ == old(self)@.reply_saving(r).actions,
            final(self)@.wf(),
    {
        proof {
            reveal(BrokkrV::reply_saving);
        }
        match r {
            Reply::SaveFinished { path, continuing, outcome } => self.save_finished(
                path,
                continuing,
                outcome,
            ),
            Reply::AutosaveTick { now, stroke_active } => self.autosave_tick(now, stroke_active),
            Reply::AutosaveWritten { now } => {
                self.autosave_written(now);
                Vec::new()
            },
            _ => Vec::new(),
        }
    }

    fn reply_exporting(&mut self, r: Reply) -> (actions: Vec<Action>)
        requires
            old(self)@.wf(),
            r.fits(old(self)@),
        ensures
            final(self)@ == old(self)@.reply_exporting(r).state,
            actions@ == old(self)@.reply_exporting(r).actions,
            final(self)@.wf(),
    {
        proof {
            reveal(BrokkrV::reply_exporting);
        }
        match r {
            Reply::Exported { format, path, outcome } => {
                self.exported(format, path, outcome);
                Vec::new()
            },
            Reply::StagedExported { path, outcome, is_file } => self.staged_exported(
                path,
                outcome,
                is_file,
            ),
            Reply::SlicerSought(found) => self.slicer_sought(found),
            Reply::SlicerOpened(outcome) => {
                self.slicer_opened(outcome);
                Vec::new()
            },
            _ => Vec::new(),
        }
    }

    fn reply_reporting(&mut self, r: Reply) -> (actions: Vec<Action>)
        requires
            old(self)@.wf(),
            r.fits(old(self)@),
        ensures
            final(self)@ == old(self)@.reply_reporting(r).state,
            actions@ == old(self)@.reply_reporting(r).actions,
            final(self)@.wf(),
    {
        proof {
            reveal(BrokkrV::reply_reporting);
        }
        match r {
            Reply::DiagnosticsCopied => {
                self.menus.top_menu = None;
                self.status = String::from_str("diagnostics copied");
                Vec::new()
            },
            Reply::ReportCopied => {
                self.status = String::from_str("report copied — paste it into an issue");
                Vec::new()
            },
            Reply::ReportSent => {
                self.report_sent();
                Vec::new()
            },
            Reply::PrinterSought(found) => self.printer_sought(found),
            _ => Vec::new(),
        }
    }

    fn about(r: &Reply) -> (kind: ReplyKind)
        ensures
            kind == about(*r),
    {
        match r {
            Reply::ActiveMeasured(_)
            | Reply::OutlineWritten(_)
            | Reply::PrimitiveRefused { .. }
            | Reply::PrimitiveBuilt { .. }
            | Reply::CopyRefused { .. }
            | Reply::Copied { .. } => ReplyKind::Making,
            Reply::MergePlanned { .. }
            | Reply::Merged { .. }
            | Reply::RowsWeighed { .. }
            | Reply::RowsRemoved { .. } => ReplyKind::Joining,
            Reply::Grouped(_)
            | Reply::Ungrouped { .. }
            | Reply::MovedToFolder { .. }
            | Reply::CollapseSet(_)
            | Reply::HistoryStepped { .. } => ReplyKind::Folders,
            Reply::MirrorMeasured { .. }
            | Reply::RadiusClamped(_)
            | Reply::StrengthClamped(_)
            | Reply::StrokeEnded(_)
            | Reply::CutDone(_) => ReplyKind::Tool,
            Reply::CubePicked { .. }
            | Reply::HoverPicked(_)
            | Reply::HoverSurface(_) => ReplyKind::Pointing,
            Reply::Oriented(_)
            | Reply::ResampleMeasured(_)
            | Reply::Resampled { .. }
            | Reply::WorkingSizeRead(_)
            | Reply::Rescaled { .. } => ReplyKind::Sizing,
            Reply::TimelineHovered { .. }
            | Reply::TimelinePressed(_)
            | Reply::TimelineRemoved(_) => ReplyKind::Timeline,
            Reply::DocumentReset { .. }
            | Reply::ProjectOpened { .. }
            | Reply::ImportAdopted { .. } => ReplyKind::Documents,
            Reply::SaveFinished { .. }
            | Reply::AutosaveTick { .. }
            | Reply::AutosaveWritten { .. } => ReplyKind::Saving,
            Reply::Exported { .. }
            | Reply::StagedExported { .. }
            | Reply::SlicerSought(_)
            | Reply::SlicerOpened(_) => ReplyKind::Exporting,
            Reply::DiagnosticsCopied
            | Reply::ReportCopied
            | Reply::ReportSent
            | Reply::PrinterSought(_) => ReplyKind::Reporting,
        }
    }

    /// Takes in a reply.
    pub fn reply(&mut self, r: Reply) -> (actions: Vec<Action>)
        requires
            old(self)@.wf(),
            r.fits(old(self)@),
        ensures
            final(self)@ == old(self)@.reply(r).state,
            actions@ == old(self)@.reply(r).actions,
            final(self)@.wf(),
    {
        proof {
            reveal(BrokkrV::reply);
        }
        match Self::about(&r) {
            ReplyKind::Making => self.reply_making(r),
            ReplyKind::Joining => self.reply_joining(r),
            ReplyKind::Folders => self.reply_folders(r),
            ReplyKind::Tool => self.reply_tool(r),
            ReplyKind::Pointing => self.reply_pointing(r),
            ReplyKind::Sizing => self.reply_sizing(r),
            ReplyKind::Timeline => self.reply_timeline(r),
            ReplyKind::Documents => self.reply_documents(r),
            ReplyKind::Saving => self.reply_saving(r),
            ReplyKind::Exporting => self.reply_exporting(r),
            ReplyKind::Reporting => self.reply_reporting(r),
        }
    }
}

} // verus!
