//! The session: everything the interface remembers between two messages.
use vstd::prelude::*;

use crate::action::Action;
use crate::outline::{NodeId, Outline, OutlineV};
use crate::values::{
    Brush, BrushKind, BugReport, BugReportV, CubeMenu, CubePart, Drag, Facing, FilePath,
    FilePathV, HistoryStats, MenuEdit, MenuEditV, PendingAction, PendingDelete, PendingDeleteV,
    PendingMerge, PendingMergeV, PerAxis, Pixel, Renaming, RenamingV, Scalar, Sizing, TopMenu,
};

verus! {

/// The most bodies a document holds.
pub const MAX_BODIES: usize = 64;

/// The most rows a document holds.
pub const MAX_NODES: usize = 128;

/// How many levels of folders the panel shows.
pub const MAX_DEPTH: u64 = 8;

/// A delete or a merge of this many bytes asks first.
pub const DEFAULT_RECLAIM_BUDGET: usize = 536_870_912;

/// How long a click may take, in milliseconds.
pub const CLICK_MS: u64 = 250;

/// How long to wait between two autosaves, in milliseconds.
pub const AUTOSAVE_INTERVAL_MS: u64 = 120_000;

/// How long the pointer has to rest before an autosave, in milliseconds.
pub const AUTOSAVE_IDLE_GAP_MS: u64 = 3_000;

/// Where bugs are reported.
pub const ISSUE_URL: &'static str = "https://github.com/MakerViking/brokkrsculpt/issues/new";

/// The extension of a project file.
pub const PROJECT_EXTENSION: &'static str = "brokkr";

/// What is being looked at.
#[derive(Debug)]
pub struct Looking {
    /// The row that is shown alone. It is a way of looking, never written
    /// anywhere.
    pub solo: Option<NodeId>,
    /// Which rows are drawn.
    pub shown: Vec<bool>,
    /// The bodies that are not drawn, as the renderer was told.
    pub hidden_bodies: Vec<NodeId>,
    /// The body under the pointer.
    pub hover_body: Option<NodeId>,
    /// The part of the navigation cube under the pointer.
    pub cube_hover: Option<CubePart>,
}

#[verifier::ext_equal]
pub struct LookingV {
    pub solo: Option<NodeId>,
    pub shown: Seq<bool>,
    pub hidden_bodies: Seq<NodeId>,
    pub hover_body: Option<NodeId>,
    pub cube_hover: Option<CubePart>,
}

impl View for Looking {
    type V = LookingV;

    open spec fn view(&self) -> LookingV {
        LookingV {
            solo: self.solo,
            shown: self.shown@,
            hidden_bodies: self.hidden_bodies@,
            hover_body: self.hover_body,
            cube_hover: self.cube_hover,
        }
    }
}

/// What waits for an answer, or for the end of what is being typed.
#[derive(Debug)]
pub struct Prompts {
    pub renaming: Option<Renaming>,
    pub pending_delete: Option<PendingDelete>,
    pub pending_merge: Option<PendingMerge>,
    /// What waits for the unsaved-work prompt.
    pub confirm: Option<PendingAction>,
    /// The way up that an import is asked about.
    pub orient_prompt: Option<Facing>,
    pub bug_report: Option<BugReport>,
}

#[verifier::ext_equal]
pub struct PromptsV {
    pub renaming: Option<RenamingV>,
    pub pending_delete: Option<PendingDeleteV>,
    pub pending_merge: Option<PendingMergeV>,
    pub confirm: Option<PendingAction>,
    pub orient_prompt: Option<Facing>,
    pub bug_report: Option<BugReportV>,
}

impl View for Prompts {
    type V = PromptsV;

    open spec fn view(&self) -> PromptsV {
        PromptsV {
            renaming: match self.renaming {
                Some(v) => Some(v@),
                None => None,
            },
            pending_delete: match self.pending_delete {
                Some(v) => Some(v@),
                None => None,
            },
            pending_merge: match self.pending_merge {
                Some(v) => Some(v@),
                None => None,
            },
            confirm: self.confirm,
            orient_prompt: self.orient_prompt,
            bug_report: match self.bug_report {
                Some(v) => Some(v@),
                None => None,
            },
        }
    }
}

/// The menus that are open.
#[derive(Debug)]
pub struct Menus {
    /// Where the brush menu stands.
    pub menu: Option<Pixel>,
    pub menu_edit: Option<MenuEdit>,
    pub top_menu: Option<TopMenu>,
    pub cube_menu: Option<CubeMenu>,
    /// Whether the menu of shapes to add is open.
    pub adding: bool,
}

#[verifier::ext_equal]
pub struct MenusV {
    pub menu: Option<Pixel>,
    pub menu_edit: Option<MenuEditV>,
    pub top_menu: Option<TopMenu>,
    pub cube_menu: Option<CubeMenu>,
    pub adding: bool,
}

impl View for Menus {
    type V = MenusV;

    open spec fn view(&self) -> MenusV {
        MenusV {
            menu: self.menu,
            menu_edit: match self.menu_edit {
                Some(v) => Some(v@),
                None => None,
            },
            top_menu: self.top_menu,
            cube_menu: self.cube_menu,
            adding: self.adding,
        }
    }
}

/// The side panel.
#[derive(Debug)]
pub struct Panel {
    pub thumbnails: bool,
    pub stats_open: bool,
    /// Which sections are open.
    pub expanded: Vec<bool>,
    pub working_size_field: String,
    pub detail_advice: String,
}

#[verifier::ext_equal]
pub struct PanelV {
    pub thumbnails: bool,
    pub stats_open: bool,
    pub expanded: Seq<bool>,
    pub working_size_field: Seq<char>,
    pub detail_advice: Seq<char>,
}

impl View for Panel {
    type V = PanelV;

    open spec fn view(&self) -> PanelV {
        PanelV {
            thumbnails: self.thumbnails,
            stats_open: self.stats_open,
            expanded: self.expanded@,
            working_size_field: self.working_size_field@,
            detail_advice: self.detail_advice@,
        }
    }
}

/// The document's file.
#[derive(Debug)]
pub struct FileState {
    pub project_path: Option<FilePath>,
    /// Whether the document differs from its file.
    pub unsaved: bool,
    /// The crash net's file.
    pub autosave_file: Option<u64>,
}

#[verifier::ext_equal]
pub struct FileStateV {
    pub project_path: Option<FilePathV>,
    pub unsaved: bool,
    pub autosave_file: Option<u64>,
}

impl View for FileState {
    type V = FileStateV;

    open spec fn view(&self) -> FileStateV {
        FileStateV {
            project_path: match self.project_path {
                Some(v) => Some(v@),
                None => None,
            },
            unsaved: self.unsaved,
            autosave_file: self.autosave_file,
        }
    }
}

/// The trail that a bug report takes along.
#[derive(Debug)]
pub struct Trail {
    /// The status line that last went on it.
    pub crumbed_status: String,
    pub facts_recorded: bool,
}

#[verifier::ext_equal]
pub struct TrailV {
    pub crumbed_status: Seq<char>,
    pub facts_recorded: bool,
}

impl View for Trail {
    type V = TrailV;

    open spec fn view(&self) -> TrailV {
        TrailV { crumbed_status: self.crumbed_status@, facts_recorded: self.facts_recorded }
    }
}

/// How the pen and the model's size act on the brush.
#[derive(Clone, Copy, Debug, PartialEq, Eq, Structural)]
pub struct PenSettings {
    pub dynamic_radius: bool,
    pub pressure_enabled: bool,
    pub pressure_curve: Scalar,
    pub tilt_enabled: bool,
}

/// The tool in hand.
#[derive(Debug)]
pub struct Tool {
    pub brush: Brush,
    /// The strength each brush was left at, in the palette's order.
    pub strengths: Vec<Scalar>,
    /// The brush that shift gives.
    pub smooth: BrushKind,
    /// Which mirror planes are on.
    pub symmetry: PerAxis,
    pub pen: PenSettings,
}

#[verifier::ext_equal]
pub struct ToolV {
    pub brush: Brush,
    pub strengths: Seq<Scalar>,
    pub smooth: BrushKind,
    pub symmetry: PerAxis,
    pub pen: PenSettings,
}

impl View for Tool {
    type V = ToolV;

    open spec fn view(&self) -> ToolV {
        ToolV {
            brush: self.brush,
            strengths: self.strengths@,
            smooth: self.smooth,
            symmetry: self.symmetry,
            pen: self.pen,
        }
    }
}

/// What the hands are doing: the keys and buttons held, and the pointer.
#[derive(Clone, Copy, Debug, PartialEq, Eq, Structural)]
pub struct Hand {
    pub shift: bool,
    pub control: bool,
    pub alt: bool,
    pub drag: Option<Drag>,
    pub cursor: Option<Pixel>,
    pub viewport_size: Pixel,
    pub sizing: Option<Sizing>,
    /// Whether the next left press starts a cut.
    pub cut_armed: bool,
}

/// When things last happened, in milliseconds.
#[derive(Clone, Copy, Debug, PartialEq, Eq, Structural)]
pub struct Clock {
    pub last_autosave: u64,
    pub last_activity: u64,
}

/// What is counted and measured.
#[derive(Clone, Copy, Debug, PartialEq, Eq, Structural)]
pub struct Books {
    /// The body that the model's size was last measured on; none, while the brush
    /// already has the radius that goes with the size to be measured next.
    pub model_radius_body: Option<NodeId>,
    pub history_stats: HistoryStats,
    /// A delete of this many bytes asks first.
    pub delete_prompt_bytes: usize,
    /// A merge of this many bytes asks first.
    pub merge_prompt_bytes: usize,
}

/// The session.
#[derive(Debug)]
pub struct Brokkr {
    pub outline: Outline,
    pub looking: Looking,
    pub prompts: Prompts,
    pub menus: Menus,
    pub panel: Panel,
    pub file: FileState,
    pub status: String,
    pub trail: Trail,
    pub tool: Tool,
    pub hand: Hand,
    pub clock: Clock,
    pub books: Books,
}

/// The session as the contracts speak of it.
pub struct BrokkrV {
    pub outline: OutlineV,
    pub looking: LookingV,
    pub prompts: PromptsV,
    pub menus: MenusV,
    pub panel: PanelV,
    pub file: FileStateV,
    pub status: Seq<char>,
    pub trail: TrailV,
    pub tool: ToolV,
    pub hand: Hand,
    pub clock: Clock,
    pub books: Books,
}

impl View for Brokkr {
    type V = BrokkrV;

    open spec fn view(&self) -> BrokkrV {
        BrokkrV {
            outline: self.outline@,
            looking: self.looking@,
            prompts: self.prompts@,
            menus: self.menus@,
            panel: self.panel@,
            file: self.file@,
            status: self.status@,
            trail: self.trail@,
            tool: self.tool@,
            hand: self.hand,
            clock: self.clock,
            books: self.books,
        }
    }
}

/// A state, and what is asked of the program around the session on the way to
/// it.
pub struct Step {
    pub state: BrokkrV,
    pub actions: Seq<Action>,
}

impl BrokkrV {
    /// Whether the session is one that can be: its outline is sound, and some
    /// brush has a strength.
    pub open spec fn wf(self) -> bool {
        &&& self.outline.wf()
        &&& self.tool.strengths.len() > 0
    }

    /// The state, with nothing asked for.
    pub open spec fn quiet(self) -> Step {
        Step { state: self, actions: seq![] }
    }

    /// The state, with one request.
    pub open spec fn asking(self, action: Action) -> Step {
        Step { state: self, actions: seq![action] }
    }

    /// The state with another status line.
    pub open spec fn saying(self, status: Seq<char>) -> BrokkrV {
        BrokkrV { status: status, ..self }
    }

    /// The state with work that no file holds yet.
    pub open spec fn dirty(self) -> BrokkrV {
        BrokkrV { file: FileStateV { unsaved: true, ..self.file }, ..self }
    }

    /// The state with other rows.
    pub open spec fn with_outline(self, outline: OutlineV) -> BrokkrV {
        BrokkrV { outline: outline, ..self }
    }

    /// The state with another row soloed, or none.
    pub open spec fn soloing(self, solo: Option<NodeId>) -> BrokkrV {
        BrokkrV { looking: LookingV { solo: solo, ..self.looking }, ..self }
    }

    /// The state with other mirror planes on.
    pub open spec fn mirroring(self, symmetry: PerAxis) -> BrokkrV {
        BrokkrV { tool: ToolV { symmetry: symmetry, ..self.tool }, ..self }
    }
}

impl Brokkr {
    /// Puts up a status line.
    pub fn say(&mut self, status: String)
        ensures
            final(self)@ == old(self)@.saying(status@),
    {
        self.status = status;
    }
}

} // verus!
