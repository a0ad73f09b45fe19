//! What each message does, group by group. The groups are opaque, so that a proof
//! about one of them reveals that one alone.
use vstd::prelude::*;

use crate::action::Action;
use crate::message::Message;
use crate::state::{Brokkr, BrokkrV, MenusV, PanelV, PenSettings, Step, ToolV, ISSUE_URL};
use crate::values::{Brush, FilePath, PendingAction};

verus! {

/// What a message is about.
#[derive(Clone, Copy, Debug, PartialEq, Eq, Structural)]
pub enum MessageKind {
    /// The pointer, the keyboard and the frame tick.
    Ambient,
    /// A press or a submit that only ends a rename.
    Leaving,
    BrushSetting,
    Brush,
    Gesture,
    /// What the session hands on as it is.
    Onwards,
    Eyes,
    Making,
    Removing,
    Folders,
    Renaming,
    Menus,
    Panel,
    Cards,
    BugReport,
    Devices,
    Guarded,
    Saving,
    Exchange,
}

/// The handle of a file, where there is one.
pub open spec fn handle_of(path: Option<FilePath>) -> Option<u64> {
    match path {
        Some(path) => Some(path.handle),
        None => None,
    }
}

/// What a message is about.
pub open spec fn kind_of(m: Message) -> MessageKind {
    match m {
        Message::Pointer { .. } | Message::Frame | Message::KeyPressed { .. } =>
        MessageKind::Ambient,
        Message::PressedNothing | Message::BodyRenameSubmitted => MessageKind::Leaving,
        Message::FalloffChanged(_)
        | Message::PatternChanged(_)
        | Message::PatternScaleChanged(_)
        | Message::PatternDepthChanged(_)
        | Message::DynamicRadiusToggled(_)
        | Message::PressureToggled(_)
        | Message::PressureCurveChanged(_)
        | Message::TiltToggled(_) => MessageKind::BrushSetting,
        Message::BrushKindChanged(_)
        | Message::BrushRadiusChanged(_)
        | Message::BrushStrengthChanged(_)
        | Message::BrushRadiusScaled(_)
        | Message::SymmetryAxisToggled(_) => MessageKind::Brush,
        Message::SizingStarted(_) | Message::SizingEnded | Message::CutToggled =>
        MessageKind::Gesture,
        Message::ResetPressurePeak
        | Message::SpaceMouse(_)
        | Message::Undo
        | Message::Redo
        | Message::Resample(_)
        | Message::TimelineResized(_)
        | Message::TimelineHover(_)
        | Message::TimelinePressed
        | Message::TimelineReleased
        | Message::TimelineLeft
        | Message::TimelineRemoveKey
        | Message::TimelinePlayToggled
        | Message::TitleBarDragged
        | Message::TitleBarDoubleClicked
        | Message::WindowMinimise
        | Message::ResizeStarted(_)
        | Message::WindowClose => MessageKind::Onwards,
        Message::BodySelected(_)
        | Message::BodyVisibilityToggled(_)
        | Message::ActiveBodyVisibilityToggled
        | Message::EveryBodyShown
        | Message::SoloEntered(_)
        | Message::SoloExited => MessageKind::Eyes,
        Message::PrimitiveAdded(_)
        | Message::BodyDuplicated
        | Message::BodyMergedDown
        | Message::BodyMergeConfirmed
        | Message::BodyMergeCancelled => MessageKind::Making,
        Message::BodyDeleted
        | Message::FolderDeleted(_)
        | Message::BodyDeleteConfirmed
        | Message::BodyDeleteCancelled => MessageKind::Removing,
        Message::BodyGrouped
        | Message::BodyUngrouped
        | Message::BodyMovedToFolder(_)
        | Message::FolderCollapseToggled(_) => MessageKind::Folders,
        Message::BodyRenameBegan(_) | Message::BodyRenameEdited(_) => MessageKind::Renaming,
        Message::TopMenuToggled(_)
        | Message::MenuFieldEdited(_, _)
        | Message::MenuFieldSubmitted
        | Message::PrimitiveMenuToggled => MessageKind::Menus,
        Message::ThumbnailsToggled
        | Message::StatsToggled
        | Message::SectionToggled(_)
        | Message::WorkingSizeTyped(_)
        | Message::WorkingSizeCommitted => MessageKind::Panel,
        Message::MenuClosed | Message::OrientFace(_) | Message::OrientPromptAnswered(_) =>
        MessageKind::Cards,
        Message::BugReportOpened
        | Message::BugReportEdited(_)
        | Message::BugReportDetailToggled(_)
        | Message::BugReportDismissed
        | Message::BugReportCopied
        | Message::BugReportSubmitted
        | Message::BugReportFinished(_) => MessageKind::BugReport,
        Message::DiagnosticsCopied
        | Message::IssueOpened
        | Message::OpenInSlicer
        | Message::PrinterChecked
        | Message::PrinterAnswered(_) => MessageKind::Devices,
        Message::ResetSphere
        | Message::NewSculpt
        | Message::CloseRequested(_)
        | Message::OpenRequested
        | Message::OpenRecent(_)
        | Message::RecoverAutosave
        | Message::ImportRequested => MessageKind::Guarded,
        Message::ConfirmAnswered(_)
        | Message::SavedThenContinue(_)
        | Message::OpenChosen(_)
        | Message::SaveRequested
        | Message::SaveAsRequested
        | Message::SaveChosen(_) => MessageKind::Saving,
        Message::ImportChosen(_)
        | Message::ImportLoaded(_)
        | Message::Export(_)
        | Message::ExportRequested(_)
        | Message::ExportChosen(_, _) => MessageKind::Exchange,
    }
}

/// The request of a message that the session hands on as it is.
pub open spec fn handed_on(m: Message) -> Option<Action> {
    match m {
        Message::ResetPressurePeak => Some(Action::ResetPressurePeak),
        Message::SpaceMouse(setting) => Some(Action::ConfigureSpaceMouse(setting)),
        Message::Undo => Some(Action::Undo),
        Message::Redo => Some(Action::Redo),
        Message::Resample(size) => Some(Action::MeasureResample(size)),
        Message::TimelineResized(width) => Some(Action::ResizeTimeline(width)),
        Message::TimelineHover(x) => Some(Action::HoverTimeline(x)),
        Message::TimelinePressed => Some(Action::PressTimeline),
        Message::TimelineReleased => Some(Action::ReleaseTimeline),
        Message::TimelineLeft => Some(Action::LeaveTimeline),
        Message::TimelineRemoveKey => Some(Action::RemoveTimelineKey),
        Message::TimelinePlayToggled => Some(Action::ToggleTimelinePlay),
        Message::TitleBarDragged => Some(Action::DragWindow),
        Message::TitleBarDoubleClicked => Some(Action::ToggleMaximise),
        Message::WindowMinimise => Some(Action::MinimiseWindow),
        Message::ResizeStarted(direction) => Some(Action::ResizeWindow(direction)),
        Message::WindowClose => Some(Action::RequestClose),
        _ => None,
    }
}

/// What waits for the prompt, for a message that goes through it.
pub open spec fn guarded(m: Message) -> Option<PendingAction> {
    match m {
        Message::ResetSphere => Some(PendingAction::NewSculpt),
        Message::NewSculpt => Some(PendingAction::NewSculpt),
        Message::CloseRequested(window) => Some(PendingAction::Quit(window)),
        Message::OpenRequested => Some(PendingAction::Open),
        Message::OpenRecent(path) => Some(PendingAction::OpenRecent(path)),
        Message::RecoverAutosave => Some(PendingAction::RecoverAutosave),
        Message::ImportRequested => Some(PendingAction::Import),
        _ => None,
    }
}

impl BrokkrV {
    /// The session with other settings of the pen.
    pub open spec fn pen_set(self, pen: PenSettings) -> BrokkrV {
        BrokkrV { tool: ToolV { pen: pen, ..self.tool }, ..self }
    }

    #[verifier::opaque]
    pub open spec fn dispatch_ambient(self, m: Message) -> Step {
        match m {
            Message::Pointer { event, now } => self.on_pointer(event, now),
            Message::Frame => self.frame(),
            Message::KeyPressed { key, modifiers } => self.on_key(key, modifiers),
            _ => self.quiet(),
        }
    }

    /// A value stored. The overlay shows the brush, so it is redrawn with it.
    #[verifier::opaque]
    pub open spec fn dispatch_brush_setting(self, m: Message) -> Step {
        match m {
            Message::FalloffChanged(curve) => self.wielding(
                Brush { falloff: curve, ..self.tool.brush },
            ).asking(Action::RefreshOverlay),
            Message::PatternChanged(kind) => self.wielding(
                Brush { pattern: kind, ..self.tool.brush },
            ).asking(Action::RefreshOverlay),
            Message::PatternScaleChanged(scale) => self.wielding(
                Brush { pattern_scale: scale, ..self.tool.brush },
            ).asking(Action::RefreshOverlay),
            Message::PatternDepthChanged(depth) => self.wielding(
                Brush { pattern_depth: depth, ..self.tool.brush },
            ).asking(Action::RefreshOverlay),
            Message::DynamicRadiusToggled(on) => self.pen_set(
                PenSettings { dynamic_radius: on, ..self.tool.pen },
            ).quiet(),
            Message::PressureToggled(on) => self.pen_set(
                PenSettings { pressure_enabled: on, ..self.tool.pen },
            ).quiet(),
            Message::PressureCurveChanged(curve) => self.pen_set(
                PenSettings { pressure_curve: curve, ..self.tool.pen },
            ).quiet(),
            Message::TiltToggled(on) => self.pen_set(
                PenSettings { tilt_enabled: on, ..self.tool.pen },
            ).quiet(),
            _ => self.quiet(),
        }
    }

    #[verifier::opaque]
    pub open spec fn dispatch_brush(self, m: Message) -> Step {
        match m {
            Message::BrushKindChanged(kind) => self.brush_kind_changed(kind).asking(
                Action::RefreshOverlay,
            ),
            Message::BrushRadiusChanged(radius) => Step {
                state: self,
                actions: seq![Action::ClampRadius(radius), Action::RefreshOverlay],
            },
            Message::BrushStrengthChanged(strength) => self.brush_strength_changed(
                strength,
            ).asking(Action::RefreshOverlay),
            Message::BrushRadiusScaled(factor) => Step {
                state: self,
                actions: seq![Action::ScaleRadius(factor), Action::RefreshOverlay],
            },
            Message::SymmetryAxisToggled(axis) => self.toggle_mirror(axis),
            _ => self.quiet(),
        }
    }

    #[verifier::opaque]
    pub open spec fn dispatch_gesture(self, m: Message) -> Step {
        match m {
            Message::SizingStarted(what) => self.sizing_started(what).quiet(),
            Message::SizingEnded => self.sizing_ended().quiet(),
            Message::CutToggled => self.cut_toggled().quiet(),
            _ => self.quiet(),
        }
    }

    #[verifier::opaque]
    pub open spec fn dispatch_onwards(self, m: Message) -> Step {
        match handed_on(m) {
            Some(action) => self.asking(action),
            None => self.quiet(),
        }
    }

    #[verifier::opaque]
    pub open spec fn dispatch_eyes(self, m: Message) -> Step {
        match m {
            Message::BodySelected(id) => self.select_body(id),
            Message::BodyVisibilityToggled(id) => self.toggle_visibility(id),
            Message::ActiveBodyVisibilityToggled => self.toggle_visibility(self.outline.active),
            Message::EveryBodyShown => self.show_everything(),
            Message::SoloEntered(id) => self.enter_solo(id),
            Message::SoloExited => self.exit_solo().quiet(),
            _ => self.quiet(),
        }
    }

    #[verifier::opaque]
    pub open spec fn dispatch_making(self, m: Message) -> Step {
        match m {
            Message::PrimitiveAdded(kind) => self.with_menus(
                MenusV { adding: false, ..self.menus },
            ).add_primitive(kind),
            Message::BodyDuplicated => self.duplicate_active_body(),
            Message::BodyMergedDown => self.asking(Action::PlanMerge(self.outline.active)),
            Message::BodyMergeConfirmed => self.confirm_merge(),
            Message::BodyMergeCancelled => self.merging_later(None).quiet(),
            _ => self.quiet(),
        }
    }

    #[verifier::opaque]
    pub open spec fn dispatch_removing(self, m: Message) -> Step {
        match m {
            Message::BodyDeleted => self.delete_row(self.outline.active),
            Message::FolderDeleted(id) => self.delete_folder(id),
            Message::BodyDeleteConfirmed => self.confirm_delete(),
            Message::BodyDeleteCancelled => self.deleting_later(None).quiet(),
            _ => self.quiet(),
        }
    }

    #[verifier::opaque]
    pub open spec fn dispatch_folders(self, m: Message) -> Step {
        match m {
            Message::BodyGrouped => self.group_active_body(),
            Message::BodyUngrouped => self.ungroup_active_body(),
            Message::BodyMovedToFolder(into) => self.move_to_folder(into),
            Message::FolderCollapseToggled(id) => self.toggle_collapse(id),
            _ => self.quiet(),
        }
    }

    #[verifier::opaque]
    pub open spec fn dispatch_renaming(self, m: Message) -> Step {
        match m {
            Message::BodyRenameBegan(id) => self.begin_rename(id),
            Message::BodyRenameEdited(text) => self.edit_rename(text@).quiet(),
            _ => self.quiet(),
        }
    }

    #[verifier::opaque]
    pub open spec fn dispatch_menus(self, m: Message) -> Step {
        match m {
            Message::TopMenuToggled(which) => self.top_menu_toggled(which).quiet(),
            Message::MenuFieldEdited(which, text) => self.menu_field_edited(which, text@),
            Message::MenuFieldSubmitted => self.with_menus(
                MenusV { menu_edit: None, ..self.menus },
            ).quiet(),
            Message::PrimitiveMenuToggled => self.with_menus(
                MenusV { adding: !self.menus.adding, ..self.menus },
            ).quiet(),
            _ => self.quiet(),
        }
    }

    #[verifier::opaque]
    pub open spec fn dispatch_panel(self, m: Message) -> Step {
        match m {
            Message::ThumbnailsToggled => self.with_panel(
                PanelV { thumbnails: !self.panel.thumbnails, ..self.panel },
            ).quiet(),
            Message::StatsToggled => self.with_panel(
                PanelV { stats_open: !self.panel.stats_open, ..self.panel },
            ).quiet(),
            Message::SectionToggled(section) => self.section_toggled(section).quiet(),
            Message::WorkingSizeTyped(text) => self.with_panel(
                PanelV { working_size_field: text@, ..self.panel },
            ).quiet(),
            Message::WorkingSizeCommitted => self.asking(Action::ReadWorkingSize),
            _ => self.quiet(),
        }
    }

    #[verifier::opaque]
    pub open spec fn dispatch_cards(self, m: Message) -> Step {
        match m {
            Message::MenuClosed => self.menu_closed(),
            Message::OrientFace(to) => self.orient_face(to),
            Message::OrientPromptAnswered(accept) => self.orient_prompt_answered(accept),
            _ => self.quiet(),
        }
    }

    #[verifier::opaque]
    pub open spec fn dispatch_bug_report(self, m: Message) -> Step {
        match m {
            Message::BugReportOpened => self.bug_report_opened().quiet(),
            Message::BugReportEdited(text) => self.bug_report_edited(text@).quiet(),
            Message::BugReportDetailToggled(on) => self.bug_report_detail_toggled(on).quiet(),
            Message::BugReportDismissed => self.drafting(None).quiet(),
            Message::BugReportCopied => self.bug_report_copied(),
            Message::BugReportSubmitted => self.bug_report_submitted(),
            Message::BugReportFinished(outcome) => self.bug_report_finished(outcome).quiet(),
            _ => self.quiet(),
        }
    }

    #[verifier::opaque]
    pub open spec fn dispatch_devices(self, m: Message) -> Step {
        match m {
            Message::DiagnosticsCopied => self.asking(Action::GatherDiagnostics),
            Message::IssueOpened => self.without_top_menu().saying(
                "report bugs at "@ + ISSUE_URL@,
            ).quiet(),
            Message::OpenInSlicer => self.without_top_menu().asking(Action::FindSlicer),
            Message::PrinterChecked => self.without_top_menu().asking(Action::FindPrinter),
            Message::PrinterAnswered(answer) => self.printer_answered(answer).quiet(),
            _ => self.quiet(),
        }
    }

    #[verifier::opaque]
    pub open spec fn dispatch_guarded(self, m: Message) -> Step {
        match guarded(m) {
            Some(action) => self.guard(action),
            None => self.quiet(),
        }
    }

    #[verifier::opaque]
    pub open spec fn dispatch_saving(self, m: Message) -> Step {
        match m {
            Message::ConfirmAnswered(choice) => self.answer_confirm(choice),
            Message::SavedThenContinue(path) => match handle_of(path) {
                Some(path) => self.asking(Action::SaveProject { path: path, continuing: true }),
                None => self.quiet(),
            },
            Message::OpenChosen(path) => match handle_of(path) {
                Some(path) => self.asking(Action::OpenProject { path: path, recover: false }),
                None => self.quiet(),
            },
            Message::SaveRequested => match self.file.project_path {
                Some(path) => self.asking(
                    Action::SaveProject { path: path.handle, continuing: false },
                ),
                None => self.asking(Action::PickProjectToSave { continuing: false }),
            },
            Message::SaveAsRequested => self.asking(
                Action::PickProjectToSave { continuing: false },
            ),
            Message::SaveChosen(path) => match handle_of(path) {
                Some(path) => self.asking(Action::SaveProject { path: path, continuing: false }),
                None => self.quiet(),
            },
            _ => self.quiet(),
        }
    }

    #[verifier::opaque]
    pub open spec fn dispatch_exchange(self, m: Message) -> Step {
        match m {
            Message::ImportChosen(path) => match path {
                Some(path) => self.saying("importing "@ + path@.display + "…"@).asking(
                    Action::ReadMesh(path@.handle),
                ),
                None => self.quiet(),
            },
            Message::ImportLoaded(news) => self.import_loaded(news),
            Message::Export(format) => self.asking(Action::PickExportTarget(format)),
            Message::ExportRequested(format) => self.asking(Action::PickExportTarget(format)),
            Message::ExportChosen(format, path) => match handle_of(path) {
                Some(path) => self.asking(
                    Action::Export { format: format, path: path, handoff: false },
                ),
                None => self.quiet(),
            },
            _ => self.quiet(),
        }
    }

    /// What a message does.
    #[verifier::opaque]
    pub open spec fn dispatch(self, m: Message) -> Step {
        match kind_of(m) {
            MessageKind::Ambient => self.dispatch_ambient(m),
            MessageKind::Leaving => self.quiet(),
            MessageKind::BrushSetting => self.dispatch_brush_setting(m),
            MessageKind::Brush => self.dispatch_brush(m),
            MessageKind::Gesture => self.dispatch_gesture(m),
            MessageKind::Onwards => self.dispatch_onwards(m),
            MessageKind::Eyes => self.dispatch_eyes(m),
            MessageKind::Making => self.dispatch_making(m),
            MessageKind::Removing => self.dispatch_removing(m),
            MessageKind::Folders => self.dispatch_folders(m),
            MessageKind::Renaming => self.dispatch_renaming(m),
            MessageKind::Menus => self.dispatch_menus(m),
            MessageKind::Panel => self.dispatch_panel(m),
            MessageKind::Cards => self.dispatch_cards(m),
            MessageKind::BugReport => self.dispatch_bug_report(m),
            MessageKind::Devices => self.dispatch_devices(m),
            MessageKind::Guarded => self.dispatch_guarded(m),
            MessageKind::Saving => self.dispatch_saving(m),
            MessageKind::Exchange => self.dispatch_exchange(m),
        }
    }
}

impl Brokkr {
    fn dispatch_ambient(&mut self, m: Message) -> (actions: Vec<Action>)
        requires
            old(self)@.wf(),
        ensures
            final(self)@ == old(self)@.dispatch_ambient(m).state,
            actions@ == old(self)@.dispatch_ambient(m).actions,
            final(self)@.wf(),
    {
        proof {
            reveal(BrokkrV::dispatch_ambient);
        }
        match m {
            Message::Pointer { event, now } => self.on_pointer(event, now),
            Message::Frame => self.frame(),
            Message::KeyPressed { key, modifiers } => self.on_key(key, modifiers),
            _ => Vec::new(),
        }
    }

    fn dispatch_brush_setting(&mut self, m: Message) -> (actions: Vec<Action>)
        requires
            old(self)@.wf(),
        ensures
            final(self)@ == old(self)@.dispatch_brush_setting(m).state,
            actions@ == old(self)@.dispatch_brush_setting(m).actions,
            final(self)@.wf(),
    {
        proof {
            reveal(BrokkrV::dispatch_brush_setting);
        }
        match m {
            Message::FalloffChanged(curve) => {
                self.tool.brush.falloff = curve;
                vec![Action::RefreshOverlay]
            },
            Message::PatternChanged(kind) => {
                self.tool.brush.pattern = kind;
                vec![Action::RefreshOverlay]
            },
            Message::PatternScaleChanged(scale) => {
                self.tool.brush.pattern_scale = scale;
                vec![Action::RefreshOverlay]
            },
            Message::PatternDepthChanged(depth) => {
                self.tool.brush.pattern_depth = depth;
                vec![Action::RefreshOverlay]
            },
            Message::DynamicRadiusToggled(on) => {
                self.tool.pen.dynamic_radius = on;
                Vec::new()
            },
            Message::PressureToggled(on) => {
                self.tool.pen.pressure_enabled = on;
                Vec::new()
            },
            Message::PressureCurveChanged(curve) => {
                self.tool.pen.pressure_curve = curve;
                Vec::new()
            },
            Message::TiltToggled(on) => {
                self.tool.pen.tilt_enabled = on;
                Vec::new()
            },
            _ => Vec::new(),
        }
    }

    fn dispatch_brush(&mut self, m: Message) -> (actions: Vec<Action>)
        requires
            old(self)@.wf(),
        ensures
            final(self)@ == old(self)@.dispatch_brush(m).state,
            actions@ == old(self)@.dispatch_brush(m).actions,
            final(self)@.wf(),
    {
        proof {
            reveal(BrokkrV::dispatch_brush);
        }
        match m {
            Message::BrushKindChanged(kind) => {
                self.brush_kind_changed(kind);
                vec![Action::RefreshOverlay]
            },
            Message::BrushRadiusChanged(radius) => vec![
                Action::ClampRadius(radius),
                Action::RefreshOverlay,
            ],
            Message::BrushStrengthChanged(strength) => {
                self.brush_strength_changed(strength);
                vec![Action::RefreshOverlay]
            },
            Message::BrushRadiusScaled(factor) => vec![
                Action::ScaleRadius(factor),
                Action::RefreshOverlay,
            ],
            Message::SymmetryAxisToggled(axis) => self.toggle_mirror(axis),
            _ => Vec::new(),
        }
    }

    fn dispatch_gesture(&mut self, m: Message) -> (actions: Vec<Action>)
        requires
            old(self)@.wf(),
        ensures
            final(self)@ == old(self)@.dispatch_gesture(m).state,
            actions@ == old(self)@.dispatch_gesture(m).actions,
            final(self)@.wf(),
    {
        proof {
            reveal(BrokkrV::dispatch_gesture);
        }
        match m {
            Message::SizingStarted(what) => {
                self.sizing_started(what);
                Vec::new()
            },
            Message::SizingEnded => {
                self.hand.sizing = None;
                Vec::new()
            },
            Message::CutToggled => {
                self.cut_toggled();
                Vec::new()
            },
            _ => Vec::new(),
        }
    }

    fn dispatch_onwards(&self, m: Message) -> (actions: Vec<Action>)
        ensures
            self@.dispatch_onwards(m).state == self@,
            actions@ == self@.dispatch_onwards(m).actions,
    {
        proof {
            reveal(BrokkrV::dispatch_onwards);
        }
        let action: Action = match m {
            Message::ResetPressurePeak => Action::ResetPressurePeak,
            Message::SpaceMouse(setting) => Action::ConfigureSpaceMouse(setting),
            Message::Undo => Action::Undo,
            Message::Redo => Action::Redo,
            Message::Resample(size) => Action::MeasureResample(size),
            Message::TimelineResized(width) => Action::ResizeTimeline(width),
            Message::TimelineHover(x) => Action::HoverTimeline(x),
            Message::TimelinePressed => Action::PressTimeline,
            Message::TimelineReleased => Action::ReleaseTimeline,
            Message::TimelineLeft => Action::LeaveTimeline,
            Message::TimelineRemoveKey => Action::RemoveTimelineKey,
            Message::TimelinePlayToggled => Action::ToggleTimelinePlay,
            Message::TitleBarDragged => Action::DragWindow,
            Message::TitleBarDoubleClicked => Action::ToggleMaximise,
            Message::WindowMinimise => Action::MinimiseWindow,
            Message::ResizeStarted(direction) => Action::ResizeWindow(direction),
            Message::WindowClose => Action::RequestClose,
            _ => {
                return Vec::new();
            },
        };
        vec![action]
    }

    fn dispatch_eyes(&mut self, m: Message) -> (actions: Vec<Action>)
        requires
            old(self)@.wf(),
        ensures
            final(self)@ == old(self)@.dispatch_eyes(m).state,
            actions@ == old(self)@.dispatch_eyes(m).actions,
            final(self)@.wf(),
    {
        proof {
            reveal(BrokkrV::dispatch_eyes);
        }
        match m {
            Message::BodySelected(id) => self.select_body(id),
            Message::BodyVisibilityToggled(id) => self.toggle_visibility(id),
            Message::ActiveBodyVisibilityToggled => self.toggle_visibility(self.outline.active),
            Message::EveryBodyShown => self.show_everything(),
            Message::SoloEntered(id) => self.enter_solo(id),
            Message::SoloExited => {
                self.exit_solo();
                Vec::new()
            },
            _ => Vec::new(),
        }
    }

    fn dispatch_making(&mut self, m: Message) -> (actions: Vec<Action>)
        requires
            old(self)@.wf(),
        ensures
            final(self)@ == old(self)@.dispatch_making(m).state,
            actions@ == old(self)@.dispatch_making(m).actions,
            final(self)@.wf(),
    {
        proof {
            reveal(BrokkrV::dispatch_making);
        }
        match m {
            Message::PrimitiveAdded(kind) => {
                self.menus.adding = false;
                self.add_primitive(kind)
            },
            Message::BodyDuplicated => self.duplicate_active_body(),
            Message::BodyMergedDown => self.merge_active_body_down(),
            Message::BodyMergeConfirmed => self.confirm_merge(),
            Message::BodyMergeCancelled => {
                self.prompts.pending_merge = None;
                Vec::new()
            },
            _ => Vec::new(),
        }
    }

    fn dispatch_removing(&mut self, m: Message) -> (actions: Vec<Action>)
        requires
            old(self)@.wf(),
        ensures
            final(self)@ == old(self)@.dispatch_removing(m).state,
            actions@ == old(self)@.dispatch_removing(m).actions,
            final(self)@.wf(),
    {
        proof {
            reveal(BrokkrV::dispatch_removing);
        }
        match m {
            Message::BodyDeleted => self.delete_active_body(),
            Message::FolderDeleted(id) => self.delete_folder(id),
            Message::BodyDeleteConfirmed => self.confirm_delete(),
            Message::BodyDeleteCancelled => {
                self.prompts.pending_delete = None;
                Vec::new()
            },
            _ => Vec::new(),
        }
    }

    fn dispatch_folders(&mut self, m: Message) -> (actions: Vec<Action>)
        requires
            old(self)@.wf(),
        ensures
            final(self)@ == old(self)@.dispatch_folders(m).state,
            actions@ == old(self)@.dispatch_folders(m).actions,
            final(self)@.wf(),
    {
        proof {
            reveal(BrokkrV::dispatch_folders);
        }
        match m {
            Message::BodyGrouped => self.group_active_body(),
            Message::BodyUngrouped => self.ungroup_active_body(),
            Message::BodyMovedToFolder(into) => self.move_to_folder(into),
            Message::FolderCollapseToggled(id) => self.toggle_collapse(id),
            _ => Vec::new(),
        }
    }

    fn dispatch_renaming(&mut self, m: Message) -> (actions: Vec<Action>)
        requires
            old(self)@.wf(),
        ensures
            final(self)@ == old(self)@.dispatch_renaming(m).state,
            actions@ == old(self)@.dispatch_renaming(m).actions,
            final(self)@.wf(),
    {
        proof {
            reveal(BrokkrV::dispatch_renaming);
        }
        match m {
            Message::BodyRenameBegan(id) => self.begin_rename(id),
            Message::BodyRenameEdited(text) => {
                self.edit_rename(text);
                Vec::new()
            },
            _ => Vec::new(),
        }
    }

    fn dispatch_menus(&mut self, m: Message) -> (actions: Vec<Action>)
        requires
            old(self)@.wf(),
        ensures
            final(self)@ == old(self)@.dispatch_menus(m).state,
            actions@ == old(self)@.dispatch_menus(m).actions,
            final(self)@.wf(),
    {
        proof {
            reveal(BrokkrV::dispatch_menus);
        }
        match m {
            Message::TopMenuToggled(which) => {
                self.top_menu_toggled(which);
                Vec::new()
            },
            Message::MenuFieldEdited(which, text) => self.menu_field_edited(which, text),
            Message::MenuFieldSubmitted => {
                self.menus.menu_edit = None;
                Vec::new()
            },
            Message::PrimitiveMenuToggled => {
                self.menus.adding = !self.menus.adding;
                Vec::new()
            },
            _ => Vec::new(),
        }
    }

    fn dispatch_panel(&mut self, m: Message) -> (actions: Vec<Action>)
        requires
            old(self)@.wf(),
        ensures
            final(self)@ == old(self)@.dispatch_panel(m).state,
            actions@ == old(self)@.dispatch_panel(m).actions,
            final(self)@.wf(),
    {
        proof {
            reveal(BrokkrV::dispatch_panel);
        }
        match m {
            Message::ThumbnailsToggled => {
                self.panel.thumbnails = !self.panel.thumbnails;
                Vec::new()
            },
            Message::StatsToggled => {
                self.panel.stats_open = !self.panel.stats_open;
                Vec::new()
            },
            Message::SectionToggled(section) => {
                self.section_toggled(section);
                Vec::new()
            },
            Message::WorkingSizeTyped(text) => {
                self.panel.working_size_field = text;
                Vec::new()
            },
            Message::WorkingSizeCommitted => vec![Action::ReadWorkingSize],
            _ => Vec::new(),
        }
    }

    fn dispatch_cards(&mut self, m: Message) -> (actions: Vec<Action>)
        requires
            old(self)@.wf(),
        ensures
            final(self)@ == old(self)@.dispatch_cards(m).state,
            actions@ == old(self)@.dispatch_cards(m).actions,
            final(self)@.wf(),
    {
        proof {
            reveal(BrokkrV::dispatch_cards);
        }
        match m {
            Message::MenuClosed => self.menu_closed(),
            Message::OrientFace(to) => self.orient_face(to),
            Message::OrientPromptAnswered(accept) => self.orient_prompt_answered(accept),
            _ => Vec::new(),
        }
    }

    fn dispatch_bug_report(&mut self, m: Message) -> (actions: Vec<Action>)
        requires
            old(self)@.wf(),
        ensures
            final(self)@ == old(self)@.dispatch_bug_report(m).state,
            actions@ == old(self)@.dispatch_bug_report(m).actions,
            final(self)@.wf(),
    {
        proof {
            reveal(BrokkrV::dispatch_bug_report);
        }
        match m {
            Message::BugReportOpened => {
                self.bug_report_opened();
                Vec::new()
            },
            Message::BugReportEdited(text) => {
                self.bug_report_edited(text);
                Vec::new()
            },
            Message::BugReportDetailToggled(on) => {
                self.bug_report_detail_toggled(on);
                Vec::new()
            },
            Message::BugReportDismissed => {
                self.prompts.bug_report = None;
                Vec::new()
            },
            Message::BugReportCopied => self.bug_report_copied(),
            Message::BugReportSubmitted => self.bug_report_submitted(),
            Message::BugReportFinished(outcome) => {
                self.bug_report_finished(outcome);
                Vec::new()
            },
            _ => Vec::new(),
        }
    }

    fn dispatch_devices(&mut self, m: Message) -> (actions: Vec<Action>)
        requires
            old(self)@.wf(),
        ensures
            final(self)@ == old(self)@.dispatch_devices(m).state,
            actions@ == old(self)@.dispatch_devices(m).actions,
            final(self)@.wf(),
    {
        proof {
            reveal(BrokkrV::dispatch_devices);
        }
        match m {
            Message::DiagnosticsCopied => vec![Action::GatherDiagnostics],
            Message::IssueOpened => {
                self.issue_opened();
                Vec::new()
            },
            Message::OpenInSlicer => {
                self.menus.top_menu = None;
                vec![Action::FindSlicer]
            },
            Message::PrinterChecked => {
                self.menus.top_menu = None;
                vec![Action::FindPrinter]
            },
            Message::PrinterAnswered(answer) => {
                self.printer_answered(answer);
                Vec::new()
            },
            _ => Vec::new(),
        }
    }

    fn dispatch_guarded(&mut self, m: Message) -> (actions: Vec<Action>)
        requires
            old(self)@.wf(),
        ensures
            final(self)@ == old(self)@.dispatch_guarded(m).state,
            actions@ == old(self)@.dispatch_guarded(m).actions,
            final(self)@.wf(),
    {
        proof {
            reveal(BrokkrV::dispatch_guarded);
        }
        match m {
            Message::ResetSphere | Message::NewSculpt => self.guard(PendingAction::NewSculpt),
            Message::CloseRequested(window) => self.guard(PendingAction::Quit(window)),
            Message::OpenRequested => self.guard(PendingAction::Open),
            Message::OpenRecent(path) => self.guard(PendingAction::OpenRecent(path)),
            Message::RecoverAutosave => self.guard(PendingAction::RecoverAutosave),
            Message::ImportRequested => self.guard(PendingAction::Import),
            _ => Vec::new(),
        }
    }

    fn dispatch_saving(&mut self, m: Message) -> (actions: Vec<Action>)
        requires
            old(self)@.wf(),
        ensures
            final(self)@ == old(self)@.dispatch_saving(m).state,
            actions@ == old(self)@.dispatch_saving(m).actions,
            final(self)@.wf(),
    {
        proof {
            reveal(BrokkrV::dispatch_saving);
        }
        match m {
            Message::ConfirmAnswered(choice) => self.answer_confirm(choice),
            Message::SavedThenContinue(path) => match path {
                Some(path) => vec![Action::SaveProject { path: path.handle, continuing: true }],
                None => Vec::new(),
            },
            Message::OpenChosen(path) => match path {
                Some(path) => vec![Action::OpenProject { path: path.handle, recover: false }],
                None => Vec::new(),
            },
            Message::SaveRequested => match &self.file.project_path {
                Some(path) => vec![Action::SaveProject { path: path.handle, continuing: false }],
                None => vec![Action::PickProjectToSave { continuing: false }],
            },
            Message::SaveAsRequested => vec![Action::PickProjectToSave { continuing: false }],
            Message::SaveChosen(path) => match path {
                Some(path) => vec![Action::SaveProject { path: path.handle, continuing: false }],
                None => Vec::new(),
            },
            _ => Vec::new(),
        }
    }

    fn dispatch_exchange(&mut self, m: Message) -> (actions: Vec<Action>)
        requires
            old(self)@.wf(),
        ensures
            final(self)@ == old(self)@.dispatch_exchange(m).state,
            actions@ == old(self)@.dispatch_exchange(m).actions,
            final(self)@.wf(),
    {
        proof {
            reveal(BrokkrV::dispatch_exchange);
        }
        match m {
            Message::ImportChosen(path) => self.import_chosen(path),
            Message::ImportLoaded(news) => self.import_loaded(news),
            Message::Export(format) | Message::ExportRequested(format) => vec![
                Action::PickExportTarget(format),
            ],
            Message::ExportChosen(format, path) => match path {
                Some(path) => vec![
                    Action::Export { format, path: path.handle, handoff: false },
                ],
                None => Vec::new(),
            },
            _ => Vec::new(),
        }
    }

    fn kind_of(m: &Message) -> (r: MessageKind)
        ensures
            r == kind_of(*m),
    {
        match m {
            Message::Pointer { .. } | Message::Frame | Message::KeyPressed { .. } =>
            MessageKind::Ambient,
            Message::PressedNothing | Message::BodyRenameSubmitted => MessageKind::Leaving,
            Message::FalloffChanged(_)
            | Message::PatternChanged(_)
            | Message::PatternScaleChanged(_)
            | Message::PatternDepthChanged(_)
            | Message::DynamicRadiusToggled(_)
            | Message::PressureToggled(_)
            | Message::PressureCurveChanged(_)
            | Message::TiltToggled(_) => MessageKind::BrushSetting,
            Message::BrushKindChanged(_)
            | Message::BrushRadiusChanged(_)
            | Message::BrushStrengthChanged(_)
            | Message::BrushRadiusScaled(_)
            | Message::SymmetryAxisToggled(_) => MessageKind::Brush,
            Message::SizingStarted(_) | Message::SizingEnded | Message::CutToggled =>
            MessageKind::Gesture,
            Message::ResetPressurePeak
            | Message::SpaceMouse(_)
            | Message::Undo
            | Message::Redo
            | Message::Resample(_)
            | Message::TimelineResized(_)
            | Message::TimelineHover(_)
            | Message::TimelinePressed
            | Message::TimelineReleased
            | Message::TimelineLeft
            | Message::TimelineRemoveKey
            | Message::TimelinePlayToggled
            | Message::TitleBarDragged
            | Message::TitleBarDoubleClicked
            | Message::WindowMinimise
            | Message::ResizeStarted(_)
            | Message::WindowClose => MessageKind::Onwards,
            Message::BodySelected(_)
            | Message::BodyVisibilityToggled(_)
            | Message::ActiveBodyVisibilityToggled
            | Message::EveryBodyShown
            | Message::SoloEntered(_)
            | Message::SoloExited => MessageKind::Eyes,
            Message::PrimitiveAdded(_)
            | Message::BodyDuplicated
            | Message::BodyMergedDown
            | Message::BodyMergeConfirmed
            | Message::BodyMergeCancelled => MessageKind::Making,
            Message::BodyDeleted
            | Message::FolderDeleted(_)
            | Message::BodyDeleteConfirmed
            | Message::BodyDeleteCancelled => MessageKind::Removing,
            Message::BodyGrouped
            | Message::BodyUngrouped
            | Message::BodyMovedToFolder(_)
            | Message::FolderCollapseToggled(_) => MessageKind::Folders,
            Message::BodyRenameBegan(_) | Message::BodyRenameEdited(_) => MessageKind::Renaming,
            Message::TopMenuToggled(_)
            | Message::MenuFieldEdited(_, _)
            | Message::MenuFieldSubmitted
            | Message::PrimitiveMenuToggled => MessageKind::Menus,
            Message::ThumbnailsToggled
            | Message::StatsToggled
            | Message::SectionToggled(_)
            | Message::WorkingSizeTyped(_)
            | Message::WorkingSizeCommitted => MessageKind::Panel,
            Message::MenuClosed | Message::OrientFace(_) | Message::OrientPromptAnswered(_) =>
            MessageKind::Cards,
            Message::BugReportOpened
            | Message::BugReportEdited(_)
            | Message::BugReportDetailToggled(_)
            | Message::BugReportDismissed
            | Message::BugReportCopied
            | Message::BugReportSubmitted
            | Message::BugReportFinished(_) => MessageKind::BugReport,
            Message::DiagnosticsCopied
            | Message::IssueOpened
            | Message::OpenInSlicer
            | Message::PrinterChecked
            | Message::PrinterAnswered(_) => MessageKind::Devices,
            Message::ResetSphere
            | Message::NewSculpt
            | Message::CloseRequested(_)
            | Message::OpenRequested
            | Message::OpenRecent(_)
            | Message::RecoverAutosave
            | Message::ImportRequested => MessageKind::Guarded,
            Message::ConfirmAnswered(_)
            | Message::SavedThenContinue(_)
            | Message::OpenChosen(_)
            | Message::SaveRequested
            | Message::SaveAsRequested
            | Message::SaveChosen(_) => MessageKind::Saving,
            Message::ImportChosen(_)
            | Message::ImportLoaded(_)
            | Message::Export(_)
            | Message::ExportRequested(_)
            | Message::ExportChosen(_, _) => MessageKind::Exchange,
        }
    }

    /// Carries out a message.
    pub fn dispatch(&mut self, m: Message) -> (actions: Vec<Action>)
        requires
            old(self)@.wf(),
        ensures
            final(self)@ == old(self)@.dispatch(m).state,
            actions@ == old(self)@.dispatch(m).actions,
            final(self)@.wf(),
    {
        proof {
            reveal(BrokkrV::dispatch);
        }
        match Self::kind_of(&m) {
            MessageKind::Ambient => self.dispatch_ambient(m),
            MessageKind::Leaving => Vec::new(),
            MessageKind::BrushSetting => self.dispatch_brush_setting(m),
            MessageKind::Brush => self.dispatch_brush(m),
            MessageKind::Gesture => self.dispatch_gesture(m),
            MessageKind::Onwards => self.dispatch_onwards(m),
            MessageKind::Eyes => self.dispatch_eyes(m),
            MessageKind::Making => self.dispatch_making(m),
            MessageKind::Removing => self.dispatch_removing(m),
            MessageKind::Folders => self.dispatch_folders(m),
            MessageKind::Renaming => self.dispatch_renaming(m),
            MessageKind::Menus => self.dispatch_menus(m),
            MessageKind::Panel => self.dispatch_panel(m),
            MessageKind::Cards => self.dispatch_cards(m),
            MessageKind::BugReport => self.dispatch_bug_report(m),
            MessageKind::Devices => self.dispatch_devices(m),
            MessageKind::Guarded => self.dispatch_guarded(m),
            MessageKind::Saving => self.dispatch_saving(m),
            MessageKind::Exchange => self.dispatch_exchange(m),
        }
    }
}

} // verus!
