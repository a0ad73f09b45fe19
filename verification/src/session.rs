//! The session's life: how it starts, what a message does to it, and what the
//! puck does.
use vstd::prelude::*;

use crate::action::Action;
use crate::message;
use crate::message::Message;
use crate::outline::{NodeId, Outline};
use crate::puck::ButtonAction;
use crate::state::{
    Books, Brokkr, BrokkrV, Clock, FileState, FileStateV, Hand, Looking, LookingV, Menus, MenusV,
    Panel, PanelV, PenSettings, Prompts, PromptsV, Step, Tool, ToolV, Trail, TrailV,
    DEFAULT_RECLAIM_BUDGET,
};
use crate::values::{Brush, BrushKind, HistoryStats, MirrorAxis, PerAxis, Pixel, Scalar};

verus! {

/// What a session starts from.
#[derive(Debug)]
pub struct Startup {
    pub outline: Outline,
    pub brush: Brush,
    /// The strength each brush starts at, in the palette's order.
    pub strengths: Vec<Scalar>,
    /// The brush that shift gives.
    pub smooth: BrushKind,
    pub pressure_curve: Scalar,
    /// Which sections of the side panel start open.
    pub expanded: Vec<bool>,
    pub viewport_size: Pixel,
    pub history_stats: HistoryStats,
    pub autosave_file: Option<u64>,
    /// Whether an earlier session left a crash net behind.
    pub has_autosave: bool,
    pub now: u64,
}

/// The session that starts from this, before anything of it is drawn.
pub open spec fn started(from: Startup) -> BrokkrV {
    BrokkrV {
        outline: from.outline@,
        looking: LookingV {
            solo: None,
            shown: seq![],
            hidden_bodies: seq![],
            hover_body: None,
            cube_hover: None,
        },
        prompts: PromptsV {
            renaming: None,
            pending_delete: None,
            pending_merge: None,
            confirm: None,
            orient_prompt: None,
            bug_report: None,
        },
        menus: MenusV {
            menu: None,
            menu_edit: None,
            top_menu: None,
            cube_menu: None,
            adding: false,
        },
        panel: PanelV {
            thumbnails: true,
            stats_open: false,
            expanded: from.expanded@,
            working_size_field: ""@,
            detail_advice: ""@,
        },
        file: FileStateV { project_path: None, unsaved: false, autosave_file: from.autosave_file },
        status: if from.has_autosave {
            "an autosave from a previous session is in File > Recover"@
        } else {
            ""@
        },
        trail: TrailV { crumbed_status: ""@, facts_recorded: false },
        tool: ToolV {
            brush: from.brush,
            strengths: from.strengths@,
            smooth: from.smooth,
            symmetry: PerAxis { x: false, y: false, z: false },
            pen: PenSettings {
                dynamic_radius: false,
                pressure_enabled: true,
                pressure_curve: from.pressure_curve,
                tilt_enabled: true,
            },
        },
        hand: Hand {
            shift: false,
            control: false,
            alt: false,
            drag: None,
            cursor: None,
            viewport_size: from.viewport_size,
            sizing: None,
            cut_armed: false,
        },
        clock: Clock { last_autosave: from.now, last_activity: from.now },
        books: Books {
            model_radius_body: Some(from.outline@.active),
            history_stats: from.history_stats,
            delete_prompt_bytes: DEFAULT_RECLAIM_BUDGET,
            merge_prompt_bytes: DEFAULT_RECLAIM_BUDGET,
        },
    }
}

impl BrokkrV {
    /// The rename that a message ends, committed, where it ends one.
    pub open spec fn end_rename(self, m: Message) -> Step {
        if self.prompts.renaming is Some && !message::stays_renaming(m) {
            self.commit_rename()
        } else {
            self.quiet()
        }
    }

    /// What a message does once a rename that it ends has been committed. The
    /// last thing it asks for is that what is drawn be settled.
    pub open spec fn update(self, m: Message) -> Step {
        let committed = self.end_rename(m);
        let done = committed.state.dispatch(m);
        Step {
            state: done.state,
            actions: committed.actions + done.actions + seq![Action::PublishVisibility],
        }
    }

    /// What a button of the puck does.
    pub open spec fn puck_pressed(self, action: ButtonAction) -> Step {
        match action {
            ButtonAction::Idle => self.quiet(),
            ButtonAction::Undo => self.asking(Action::Undo),
            ButtonAction::Redo => self.asking(Action::Redo),
            ButtonAction::FrameModel => self.asking(Action::FrameModel),
            ButtonAction::ResetView => self.asking(Action::ResetView),
            ButtonAction::ToggleSymmetry => self.toggle_mirror(MirrorAxis::X),
        }
    }
}

impl Brokkr {
    /// A new session.
    pub fn new(from: Startup) -> (r: Brokkr)
        requires
            from.outline@.wf(),
            from.strengths@.len() > 0,
        ensures
            r@ == started(from).publish(),
            r@.wf(),
            r@.agrees(),
    {
        let active: NodeId = from.outline.active;
        let mut app = Brokkr {
            outline: from.outline,
            looking: Looking {
                solo: None,
                shown: Vec::new(),
                hidden_bodies: Vec::new(),
                hover_body: None,
                cube_hover: None,
            },
            prompts: Prompts {
                renaming: None,
                pending_delete: None,
                pending_merge: None,
                confirm: None,
                orient_prompt: None,
                bug_report: None,
            },
            menus: Menus {
                menu: None,
                menu_edit: None,
                top_menu: None,
                cube_menu: None,
                adding: false,
            },
            panel: Panel {
                thumbnails: true,
                stats_open: false,
                expanded: from.expanded,
                working_size_field: String::from_str(""),
                detail_advice: String::from_str(""),
            },
            file: FileState {
                project_path: None,
                unsaved: false,
                autosave_file: from.autosave_file,
            },
            status: String::from_str(
                if from.has_autosave {
                    "an autosave from a previous session is in File > Recover"
                } else {
                    ""
                },
            ),
            trail: Trail { crumbed_status: String::from_str(""), facts_recorded: false },
            tool: Tool {
                brush: from.brush,
                strengths: from.strengths,
                smooth: from.smooth,
                symmetry: PerAxis { x: false, y: false, z: false },
                pen: PenSettings {
                    dynamic_radius: false,
                    pressure_enabled: true,
                    pressure_curve: from.pressure_curve,
                    tilt_enabled: true,
                },
            },
            hand: Hand {
                shift: false,
                control: false,
                alt: false,
                drag: None,
                cursor: None,
                viewport_size: from.viewport_size,
                sizing: None,
                cut_armed: false,
            },
            clock: Clock { last_autosave: from.now, last_activity: from.now },
            books: Books {
                model_radius_body: Some(active),
                history_stats: from.history_stats,
                delete_prompt_bytes: DEFAULT_RECLAIM_BUDGET,
                merge_prompt_bytes: DEFAULT_RECLAIM_BUDGET,
            },
        };
        assert(app@.looking.shown =~= seq![]);
        assert(app@.looking.hidden_bodies =~= seq![]);
        assert(app@ == started(from));
        app.publish_visibility();
        app
    }

    /// Takes in a message: commits a rename that it ends, carries it out, and
    /// asks last for what is drawn to be settled.
    pub fn update(&mut self, m: Message) -> (actions: Vec<Action>)
        requires
            old(self)@.wf(),
        ensures
            final(self)@ == old(self)@.update(m).state,
            actions@ == old(self)@.update(m).actions,
            final(self)@.wf(),
    {
        let mut actions: Vec<Action> = if self.prompts.renaming.is_some()
            && !message::keeps_the_rename_open(&m) {
            self.commit_rename()
        } else {
            Vec::new()
        };
        let mut more: Vec<Action> = self.dispatch(m);
        actions.append(&mut more);
        actions.push(Action::PublishVisibility);
        assert(actions@ =~= old(self)@.update(m).actions);
        actions
    }

    /// Takes in a button of the puck.
    pub fn puck_pressed(&mut self, action: ButtonAction) -> (actions: Vec<Action>)
        requires
            old(self)@.wf(),
        ensures
            final(self)@ == old(self)@.puck_pressed(action).state,
            actions@ == old(self)@.puck_pressed(action).actions,
            final(self)@.wf(),
    {
        match action {
            ButtonAction::Idle => Vec::new(),
            ButtonAction::Undo => vec![Action::Undo],
            ButtonAction::Redo => vec![Action::Redo],
            ButtonAction::FrameModel => vec![Action::FrameModel],
            ButtonAction::ResetView => vec![Action::ResetView],
            ButtonAction::ToggleSymmetry => self.toggle_mirror(MirrorAxis::X),
        }
    }
}

} // verus!
