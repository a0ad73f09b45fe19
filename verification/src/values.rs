//! The plain values that events, requests and the session are made of.
use vstd::prelude::*;

use crate::outline::NodeId;

verus! {

/// A single precision number, by its bit pattern. The session stores and hands
/// such numbers on; it computes with none of them.
#[derive(Clone, Copy, Debug, PartialEq, Eq, Structural)]
pub struct Scalar {
    pub bits: u32,
}

/// A position or an extent in the viewport, in pixels.
#[derive(Clone, Copy, Debug, PartialEq, Eq, Structural)]
pub struct Pixel {
    pub x: Scalar,
    pub y: Scalar,
}

#[derive(Clone, Copy, Debug, PartialEq, Eq, Structural)]
pub enum PointerButton {
    Left,
    Right,
    Middle,
}

/// Whether a stroke adds clay or takes it away.
#[derive(Clone, Copy, Debug, PartialEq, Eq, Structural)]
pub enum BrushDirection {
    Add,
    Subtract,
}

/// What a held button is doing.
#[derive(Clone, Copy, Debug, PartialEq, Eq, Structural)]
pub enum DragKind {
    Orbit,
    Pan,
    Sculpt(BrushDirection),
    /// The press that sets the brush's size.
    Sizing,
    /// The press that draws the line of a cut.
    Cutting,
    /// The press that selected another body. It carves nothing.
    Selecting,
    /// A press that was answered with a status line. It carves nothing.
    Refused,
}

/// A held button.
#[derive(Clone, Copy, Debug, PartialEq, Eq, Structural)]
pub struct Drag {
    pub button: PointerButton,
    pub kind: DragKind,
    /// Where the button went down.
    pub origin: Pixel,
    /// When the button went down, in milliseconds.
    pub pressed_at: u64,
    /// Whether the pointer ever went further than a click may. It stays set.
    pub moved: bool,
}

/// One of the three mirror planes, named by the axis across it.
#[derive(Clone, Copy, Debug, PartialEq, Eq, Structural)]
pub enum MirrorAxis {
    X,
    Y,
    Z,
}

/// Something said of each mirror plane: which are on, or which ones a body
/// stands across.
#[derive(Clone, Copy, Debug, PartialEq, Eq, Structural)]
pub struct PerAxis {
    pub x: bool,
    pub y: bool,
    pub z: bool,
}

/// One of the six ways to face.
#[derive(Clone, Copy, Debug, PartialEq, Eq, Structural)]
pub enum Facing {
    Up,
    Down,
    Front,
    Back,
    Left,
    Right,
}

/// A part of the navigation cube: a face, an edge or a corner.
#[derive(Clone, Copy, Debug, PartialEq, Eq, Structural)]
pub struct CubePart {
    /// Which part it is.
    pub code: u32,
    /// On how many axes the part is at an extreme: one for a face.
    pub extremes: u8,
    /// The way the part faces, where one is nearest.
    pub facing: Option<Facing>,
}

/// The open menu of a face of the navigation cube.
#[derive(Clone, Copy, Debug, PartialEq, Eq, Structural)]
pub struct CubeMenu {
    pub at: Pixel,
    pub facing: Facing,
}

/// A menu of the title bar.
#[derive(Clone, Copy, Debug, PartialEq, Eq, Structural)]
pub struct TopMenu {
    pub code: u8,
}

/// A section of the side panel, by its position.
#[derive(Clone, Copy, Debug, PartialEq, Eq, Structural)]
pub struct PanelSection {
    pub index: usize,
}

/// Which of the brush's two sizes a gesture or a field sets.
#[derive(Clone, Copy, Debug, PartialEq, Eq, Structural)]
pub enum SizingTarget {
    Radius,
    Strength,
}

/// The gesture that sizes the brush while its key is held.
#[derive(Clone, Copy, Debug, PartialEq, Eq, Structural)]
pub struct Sizing {
    pub what: SizingTarget,
    /// Where the pointer stood when the key went down.
    pub from_pixel: Pixel,
    /// The size that the gesture scales.
    pub original: Scalar,
}

/// The brushes that the session treats apart.
#[derive(Clone, Copy, Debug, PartialEq, Eq, Structural)]
pub enum BrushRole {
    Smooth,
    Move,
    Other,
}

/// A kind of brush.
#[derive(Clone, Copy, Debug, PartialEq, Eq, Structural)]
pub struct BrushKind {
    /// Its position in the palette.
    pub slot: usize,
    /// Whether it has an opposite.
    pub directional: bool,
    pub role: BrushRole,
}

/// The brush in hand.
#[derive(Clone, Copy, Debug, PartialEq, Eq, Structural)]
pub struct Brush {
    pub kind: BrushKind,
    pub radius: Scalar,
    pub strength: Scalar,
    pub falloff: u32,
    pub pattern: u32,
    pub pattern_scale: Scalar,
    pub pattern_depth: Scalar,
}

/// The modifiers held with a key.
#[derive(Clone, Copy, Debug, PartialEq, Eq, Structural)]
pub struct KeyModifiers {
    pub command: bool,
    pub shift: bool,
    pub alt: bool,
}

/// What the session reads of the pen.
#[derive(Clone, Copy, Debug, PartialEq, Eq, Structural)]
pub struct Pen {
    pub in_proximity: bool,
    pub eraser: bool,
}

#[derive(Clone, Copy, Debug, PartialEq, Eq, Structural)]
pub enum ExportFormat {
    Stl,
    Obj,
    ThreeMf,
}

#[derive(Clone, Copy, Debug, PartialEq, Eq, Structural)]
pub enum PrimitiveKind {
    Cube,
    Sphere,
    Cylinder,
}

/// The answer to the unsaved-work prompt.
#[derive(Clone, Copy, Debug, PartialEq, Eq, Structural)]
pub enum ConfirmChoice {
    Save,
    Discard,
    Cancel,
}

/// What the undo history holds.
#[derive(Clone, Copy, Debug, PartialEq, Eq, Structural)]
pub struct HistoryStats {
    pub undo_entries: usize,
    /// How many deleted bodies have been evicted, ever.
    pub dropped_bodies: usize,
    /// How many bytes it may hold.
    pub budget_bytes: usize,
}

/// What an entry did to the undo history.
#[derive(Clone, Copy, Debug, PartialEq, Eq, Structural)]
pub struct HistoryNote {
    pub dropped_before: usize,
    pub stats: HistoryStats,
}

/// Something that replaces the document or ends the session, and waits for the
/// unsaved-work prompt where there is work to lose.
#[derive(Clone, Copy, Debug, PartialEq, Eq, Structural)]
pub enum PendingAction {
    NewSculpt,
    Open,
    /// Opens a file of the recent list.
    OpenRecent(u64),
    RecoverAutosave,
    /// Imports a mesh in place of every body.
    Import,
    /// Closes a window.
    Quit(u64),
}

impl PerAxis {
    /// What stands under an axis.
    pub open spec fn on(self, axis: MirrorAxis) -> bool {
        match axis {
            MirrorAxis::X => self.x,
            MirrorAxis::Y => self.y,
            MirrorAxis::Z => self.z,
        }
    }

    pub open spec fn with(self, axis: MirrorAxis, on: bool) -> PerAxis {
        match axis {
            MirrorAxis::X => PerAxis { x: on, ..self },
            MirrorAxis::Y => PerAxis { y: on, ..self },
            MirrorAxis::Z => PerAxis { z: on, ..self },
        }
    }

    pub open spec fn none(self) -> bool {
        !self.x && !self.y && !self.z
    }

    /// What is said of one axis.
    pub fn axis(self, axis: MirrorAxis) -> (r: bool)
        ensures
            r == self.on(axis),
    {
        match axis {
            MirrorAxis::X => self.x,
            MirrorAxis::Y => self.y,
            MirrorAxis::Z => self.z,
        }
    }

    /// The same with one axis set.
    pub fn with_axis(self, axis: MirrorAxis, on: bool) -> (r: PerAxis)
        ensures
            r == self.with(axis, on),
    {
        match axis {
            MirrorAxis::X => PerAxis { x: on, y: self.y, z: self.z },
            MirrorAxis::Y => PerAxis { x: self.x, y: on, z: self.z },
            MirrorAxis::Z => PerAxis { x: self.x, y: self.y, z: on },
        }
    }

    /// Whether it holds of no axis.
    pub fn is_off(self) -> (r: bool)
        ensures
            r == self.none(),
    {
        !self.x && !self.y && !self.z
    }
}

impl MirrorAxis {
    pub open spec fn letter(self) -> Seq<char> {
        match self {
            MirrorAxis::X => "X"@,
            MirrorAxis::Y => "Y"@,
            MirrorAxis::Z => "Z"@,
        }
    }

    /// The axis as a status line names it.
    pub fn label(self) -> (r: &'static str)
        ensures
            r@ == self.letter(),
    {
        match self {
            MirrorAxis::X => "X",
            MirrorAxis::Y => "Y",
            MirrorAxis::Z => "Z",
        }
    }
}

impl PrimitiveKind {
    pub open spec fn word(self) -> Seq<char> {
        match self {
            PrimitiveKind::Cube => "cube"@,
            PrimitiveKind::Sphere => "sphere"@,
            PrimitiveKind::Cylinder => "cylinder"@,
        }
    }

    /// The shape as a status line names it.
    pub fn noun(self) -> (r: &'static str)
        ensures
            r@ == self.word(),
    {
        match self {
            PrimitiveKind::Cube => "cube",
            PrimitiveKind::Sphere => "sphere",
            PrimitiveKind::Cylinder => "cylinder",
        }
    }
}

impl PendingAction {
    pub open spec fn described(self) -> Seq<char> {
        match self {
            PendingAction::NewSculpt => "Starting a new sculpt"@,
            PendingAction::Open => "Opening another file"@,
            PendingAction::OpenRecent(_) => "Opening another file"@,
            PendingAction::RecoverAutosave => "Recovering the autosave"@,
            PendingAction::Import => "Importing a mesh in place of every body"@,
            PendingAction::Quit(_) => "Quitting"@,
        }
    }

    /// What the prompt says is waiting.
    pub fn describe(&self) -> (r: &'static str)
        ensures
            r@ == self.described(),
    {
        match self {
            PendingAction::NewSculpt => "Starting a new sculpt",
            PendingAction::Open | PendingAction::OpenRecent(_) => "Opening another file",
            PendingAction::RecoverAutosave => "Recovering the autosave",
            PendingAction::Import => "Importing a mesh in place of every body",
            PendingAction::Quit(_) => "Quitting",
        }
    }
}

/// A file, by the handle under which its path can be found again, with the path
/// as it is shown.
#[derive(Debug)]
pub struct FilePath {
    pub handle: u64,
    /// The whole path, for a status line.
    pub display: String,
    /// Its last part, where it has one.
    pub file_name: Option<String>,
}

/// A file as the contracts speak of it.
#[verifier::ext_equal]
pub struct FilePathV {
    pub handle: u64,
    pub display: Seq<char>,
    pub file_name: Option<Seq<char>>,
}

/// The characters of a text that may be missing.
pub open spec fn chars_of(s: Option<String>) -> Option<Seq<char>> {
    match s {
        Some(t) => Some(t@),
        None => None,
    }
}

impl View for FilePath {
    type V = FilePathV;

    open spec fn view(&self) -> FilePathV {
        FilePathV {
            handle: self.handle,
            display: self.display@,
            file_name: chars_of(self.file_name),
        }
    }
}

impl FilePathV {
    /// The file's name, or its whole path where it has none.
    pub open spec fn label(self) -> Seq<char> {
        match self.file_name {
            Some(name) => name,
            None => self.display,
        }
    }
}

impl FilePath {
    /// The file's name, or its whole path where it has none.
    pub fn label(&self) -> (r: String)
        ensures
            r@ == self@.label(),
    {
        match &self.file_name {
            Some(name) => name.clone(),
            None => self.display.clone(),
        }
    }
}

/// A rename under way: the row, and what its field holds.
#[derive(Debug)]
pub struct Renaming {
    pub id: NodeId,
    pub text: String,
}

#[verifier::ext_equal]
pub struct RenamingV {
    pub id: NodeId,
    pub text: Seq<char>,
}

impl View for Renaming {
    type V = RenamingV;

    open spec fn view(&self) -> RenamingV {
        RenamingV { id: self.id, text: self.text@ }
    }
}

/// A delete that waits for an answer, because undo may not be able to hold it.
#[derive(Debug)]
pub struct PendingDelete {
    pub id: NodeId,
    pub name: String,
    pub bytes: usize,
    pub bodies: usize,
}

#[verifier::ext_equal]
pub struct PendingDeleteV {
    pub id: NodeId,
    pub name: Seq<char>,
    pub bytes: usize,
    pub bodies: usize,
}

impl View for PendingDelete {
    type V = PendingDeleteV;

    open spec fn view(&self) -> PendingDeleteV {
        PendingDeleteV { id: self.id, name: self.name@, bytes: self.bytes, bodies: self.bodies }
    }
}

/// What the one undo entry of a merge would weigh.
#[derive(Clone, Copy, Debug, PartialEq, Eq, Structural)]
pub struct MergePlan {
    pub bytes: usize,
    pub stroke_bytes: usize,
    pub reclaim_bytes: usize,
}

/// A merge that waits for an answer, because undo may not be able to hold it.
#[derive(Debug)]
pub struct PendingMerge {
    pub source: NodeId,
    pub source_name: String,
    pub target_name: String,
    pub plan: MergePlan,
}

#[verifier::ext_equal]
pub struct PendingMergeV {
    pub source: NodeId,
    pub source_name: Seq<char>,
    pub target_name: Seq<char>,
    pub plan: MergePlan,
}

impl View for PendingMerge {
    type V = PendingMergeV;

    open spec fn view(&self) -> PendingMergeV {
        PendingMergeV {
            source: self.source,
            source_name: self.source_name@,
            target_name: self.target_name@,
            plan: self.plan,
        }
    }
}

/// The draft of a bug report.
#[derive(Debug)]
pub struct BugReport {
    pub description: String,
    /// Whether the diagnostics and the trail go with it.
    pub with_detail: bool,
    pub sending: bool,
}

#[verifier::ext_equal]
pub struct BugReportV {
    pub description: Seq<char>,
    pub with_detail: bool,
    pub sending: bool,
}

impl View for BugReport {
    type V = BugReportV;

    open spec fn view(&self) -> BugReportV {
        BugReportV {
            description: self.description@,
            with_detail: self.with_detail,
            sending: self.sending,
        }
    }
}

impl BugReport {
    /// An empty draft that takes the detail along.
    pub fn new() -> (r: BugReport)
        ensures
            r@ == (BugReportV { description: seq![], with_detail: true, sending: false }),
    {
        let r = BugReport { description: String::new(), with_detail: true, sending: false };
        assert(r@.description =~= seq![]);
        r
    }
}

/// A field of the brush menu that is being typed into.
#[derive(Debug)]
pub struct MenuEdit {
    pub which: SizingTarget,
    pub text: String,
}

#[verifier::ext_equal]
pub struct MenuEditV {
    pub which: SizingTarget,
    pub text: Seq<char>,
}

impl View for MenuEdit {
    type V = MenuEditV;

    open spec fn view(&self) -> MenuEditV {
        MenuEditV { which: self.which, text: self.text@ }
    }
}

} // verus!
