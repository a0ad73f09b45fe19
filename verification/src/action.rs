//! What the session asks of the program around it, and what it is told in
//! return.
//!
//! A call of the session returns its requests in the order in which they are to
//! be carried out. Where one has a reply, the reply is handed back, and what it
//! returns is carried out, before the next request.
use vstd::prelude::*;

use crate::outline::{NodeId, Outline};
use crate::puck::SpaceMouseSetting;
use crate::values::{
    BrushDirection, CubePart, ExportFormat, Facing, FilePath, HistoryNote, HistoryStats,
    KeyModifiers, MergePlan, MirrorAxis, PerAxis, Pixel, PrimitiveKind, Scalar,
};

verus! {

/// One request to the program around the session.
#[derive(Clone, Copy, Debug, PartialEq, Eq, Structural)]
pub enum Action {
    /// Settle what is drawn, and tell the renderer which bodies are hidden.
    PublishVisibility,
    PickProjectToOpen,
    PickProjectToSave { continuing: bool },
    PickExportTarget(ExportFormat),
    PickMeshToImport,
    CloseWindow(u64),
    DragWindow,
    ToggleMaximise,
    MinimiseWindow,
    ResizeWindow(u8),
    /// Ask the window to close, as its own button would.
    RequestClose,
    /// Focus the rename field and select what it holds.
    FocusRename,
    /// Decode the character key just handed in, under these modifiers, and hand
    /// in what it spells.
    LookUpShortcut(KeyModifiers),
    ClampRadius(Scalar),
    ScaleRadius(Scalar),
    ApplySizing(Pixel),
    /// Read the number in the brush menu's field, where it holds one.
    ReadMenuField,
    MeasureMirror(MirrorAxis),
    ResetPressurePeak,
    ConfigureSpaceMouse(SpaceMouseSetting),
    /// Make a body the one that edits land on, and measure it.
    SetActive(NodeId),
    /// Write the name that the session has for a row into the document, as one undo
    /// entry. Nothing else of the rows is written with it.
    WriteName(NodeId),
    /// Write the eyes that the session has for the rows into the document, as one
    /// undo entry. Nothing else of the rows is written with it.
    WriteEyes,
    /// Add a body of this shape. The active body stays the active one.
    AddPrimitive(PrimitiveKind),
    /// Copy a body into a new row, named as `copy_name` says. The active body stays
    /// the active one.
    Duplicate { source: NodeId, at: usize, depth: u8 },
    PlanMerge(NodeId),
    MergeDown(NodeId),
    /// Measure how many bytes each row holds.
    WeighRows(NodeId),
    RemoveRows(NodeId),
    /// Wrap a row in a folder, named as `next_group_name` says.
    Group(NodeId),
    Ungroup(NodeId),
    MoveToFolder { row: NodeId, into: Option<NodeId> },
    SetCollapsed { folder: NodeId, collapsed: bool },
    /// Take a step back, vetoed by what `saved_nodes` leaves out.
    Undo,
    Redo,
    ForgetBody(NodeId),
    MarkEverythingDirty,
    RefreshModelRadius,
    Remesh,
    /// Empty the mesh pool, remesh every body, and tell the renderer which
    /// bodies are hidden.
    RebuildEverything,
    RefreshAdvice,
    RefreshOverlay,
    FlyTo(CubePart),
    Sculpt { at: Pixel, direction: BrushDirection, start: bool },
    EndStroke,
    Cut { from: Pixel, to: Pixel },
    Orbit { from: Option<Pixel>, to: Pixel },
    Pan { from: Option<Pixel>, to: Pixel },
    Zoom(Scalar),
    PickCube(Pixel),
    RefreshCube,
    /// Find the drawn body under the pointer.
    HoverAny(Pixel),
    /// Find the active body's surface under the pointer.
    HoverActive(Pixel),
    Orient { from: Facing, to: Facing },
    /// Look at the model from where a new one is looked at, as the view is turned.
    FrameModel,
    /// Look at the model from where its measured size calls for.
    FrameMeasured,
    ResetView,
    NewDocument,
    OpenProject { path: u64, recover: bool },
    SaveProject { path: u64, continuing: bool },
    RemoveTemporary(u64),
    RecordRecent(u64),
    ForgetRecent(u64),
    ClearAutosave,
    /// Write the bodies that `saved_nodes` shows.
    Export { format: ExportFormat, path: u64, handoff: bool },
    FindSlicer,
    OpenSlicer,
    ReadMesh(u64),
    AdoptImport,
    MeasureResample(Scalar),
    /// Resample the model; `wanted` is the size asked for, where it does not fit.
    Resample { to: Scalar, wanted: Option<Scalar> },
    ReadWorkingSize,
    /// Scale the model; `length` is what its longest side is to be.
    Rescale { factor: Scalar, length: Scalar },
    ConsiderAutosave,
    WriteAutosave,
    GatherDiagnostics,
    CopyReport,
    SendReport,
    FindPrinter,
    AskPrinter,
    RecordSessionFacts,
    /// Put the status line on the trail.
    DropCrumb,
    AdvanceFlight,
    AdvanceTimeline,
    DriveSpaceMouse,
    ResizeTimeline(Scalar),
    HoverTimeline(Scalar),
    PressTimeline,
    ReleaseTimeline,
    LeaveTimeline,
    RemoveTimelineKey,
    ToggleTimelinePlay,
}

/// A request that differs from every one in a list is not among them.
pub proof fn lemma_not_among(actions: Seq<Action>, a: Action)
    requires
        forall|i: int| 0 <= i < actions.len() ==> actions[i] != a,
    ensures
        !actions.contains(a),
{
}

/// What lies below a body that is to be merged down.
#[derive(Clone, Copy, Debug, PartialEq, Eq, Structural)]
pub enum MergeTarget {
    Bottom,
    Folder(NodeId),
    Body { target: NodeId, plan: Option<MergePlan> },
}

/// What a merge did.
#[derive(Debug)]
pub struct MergeOutcome {
    pub target: NodeId,
    pub bricks: u64,
    pub outline: Outline,
    pub history: HistoryNote,
}

/// What a removal did.
#[derive(Debug)]
pub struct Removal {
    /// The bodies that went.
    pub bodies: Vec<NodeId>,
    pub outline: Outline,
    pub history: HistoryNote,
}

/// The rows after an edit of the tree.
#[derive(Debug)]
pub struct Regrouped {
    pub outline: Outline,
    pub history: HistoryNote,
}

/// How a step through the history ended.
#[derive(Debug)]
pub enum StepOutcome {
    Applied { outline: Outline, stats: HistoryStats },
    /// The step would have changed a body that its eye hides.
    Refused(NodeId),
    Nothing,
}

/// How a cut ended.
#[derive(Clone, Copy, Debug, PartialEq, Eq, Structural)]
pub enum CutOutcome {
    TooShort,
    NoDirection,
    Clipped { bricks: u64, bodies_cut: u64, bodies_crossed: u64, history: HistoryNote },
}

/// How far a save came.
#[derive(Debug)]
pub enum SaveOutcome {
    CreateFailed(String),
    WriteFailed(String),
    /// What was written did not read back as this document.
    VerifyFailed(String),
    ReplaceFailed(String),
    Saved,
}

/// A view that a file or a timeline key holds, as far as the session reads it:
/// the sizes already within their limits, and the planes that the active body
/// stands across, where it has a surface.
#[derive(Clone, Copy, Debug, PartialEq, Eq, Structural)]
pub struct RestoredView {
    pub radius: Scalar,
    pub strength: Scalar,
    pub mirrors: PerAxis,
    pub straddles: Option<PerAxis>,
}

/// How far opening a project came.
#[derive(Debug)]
pub enum OpenOutcome {
    CannotOpen(String),
    CannotRead(String),
    Opened { outline: Outline, view: RestoredView, stats: HistoryStats },
}

/// How an export ended.
#[derive(Debug)]
pub enum ExportOutcome {
    /// A body would not print.
    Refused(String),
    Written { parts: usize, summary: String, megabytes: String, millis: String },
    Failed(String),
}

/// What was found on the way to the slicer.
#[derive(Debug)]
pub enum SlicerSearch {
    NoSlicer,
    NoPlace,
    CannotMake { parent: String, error: String },
    /// The slicer is there, and so is the place for the file.
    Ready { staged: u64 },
}

/// What was found of the printer.
#[derive(Debug)]
pub enum PrinterSearch {
    NoConfigPlace,
    Unconfigured { config: String },
    Configured { host: String },
}

/// What was measured for a change of the voxel size.
#[derive(Debug)]
pub struct ResampleFacts {
    /// The wanted size is the one the document has.
    pub unchanged: bool,
    /// Why the wanted size is too fine, where it is.
    pub too_fine: Option<String>,
    /// Whether the finest size that fits is clearly finer than the present one.
    pub fallback_helps: bool,
    pub wanted: Scalar,
    pub fallback: Scalar,
}

/// What was measured for a change of the working size.
#[derive(Debug)]
pub struct WorkingSizeFacts {
    /// The field held a number.
    pub parsed: bool,
    /// The number is finite and above zero.
    pub is_length: bool,
    pub has_model: bool,
    pub has_size: bool,
    /// The voxel would stay within its limits.
    pub in_range: bool,
    pub longest: String,
    pub voxel: String,
    pub range: String,
    /// The number that was typed.
    pub length: Scalar,
    pub factor: Scalar,
}

/// How a press on the timeline ended.
#[derive(Clone, Copy, Debug, PartialEq, Eq, Structural)]
pub enum TimelinePress {
    Nothing,
    WentTo { index: usize, keys: usize, view: Option<RestoredView> },
    Added { index: usize, keys: usize },
}

/// What the program answers to a request.
#[derive(Debug)]
pub enum Reply {
    ActiveMeasured(Option<PerAxis>),
    /// A name or the eyes were written.
    OutlineWritten(HistoryNote),
    PrimitiveRefused { kind: PrimitiveKind, across: String, why: String, workable: String },
    PrimitiveBuilt {
        kind: PrimitiveKind,
        id: NodeId,
        across: String,
        outline: Outline,
        history: HistoryNote,
    },
    CopyRefused { why: String },
    Copied { id: NodeId, outline: Outline, history: HistoryNote },
    MergePlanned { source: NodeId, target: MergeTarget },
    Merged { source: NodeId, outcome: Option<MergeOutcome> },
    RowsWeighed { id: NodeId, weights: Vec<usize> },
    RowsRemoved { id: NodeId, outcome: Option<Removal> },
    Grouped(Option<Regrouped>),
    Ungrouped { folder: NodeId, outcome: Option<Regrouped> },
    MovedToFolder { into: Option<NodeId>, outcome: Option<Regrouped> },
    CollapseSet(Option<Regrouped>),
    HistoryStepped { redo: bool, outcome: StepOutcome },
    MirrorMeasured { axis: MirrorAxis, straddles: bool },
    RadiusClamped(Scalar),
    StrengthClamped(Scalar),
    /// What the last stroke changed, if anything.
    StrokeEnded(Option<HistoryNote>),
    CutDone(CutOutcome),
    CubePicked { part: Option<CubePart>, at: Pixel },
    HoverPicked(Option<NodeId>),
    HoverSurface(bool),
    /// What a turn of the model did; nothing, where it turns nothing.
    Oriented(Option<(Regrouped, String)>),
    DocumentReset { outline: Outline, stats: HistoryStats },
    ProjectOpened { path: FilePath, recover: bool, outcome: OpenOutcome },
    SaveFinished { path: FilePath, continuing: bool, outcome: SaveOutcome },
    Exported { format: ExportFormat, path: FilePath, outcome: ExportOutcome },
    /// The file for the slicer was exported; `is_file` says whether it is there.
    StagedExported { path: FilePath, outcome: ExportOutcome, is_file: bool },
    SlicerSought(SlicerSearch),
    SlicerOpened(Result<String, String>),
    ImportAdopted {
        source: FilePath,
        summary: String,
        millis: String,
        resting_up: Option<Facing>,
        outline: Outline,
        stats: HistoryStats,
    },
    ResampleMeasured(ResampleFacts),
    Resampled {
        outline: Outline,
        stats: HistoryStats,
        size: String,
        wanted: Option<String>,
        dense: u64,
        megabytes: String,
        millis: String,
    },
    WorkingSizeRead(WorkingSizeFacts),
    Rescaled { outline: Outline, radius: Scalar, longest: String, advice: String },
    AutosaveTick { now: u64, stroke_active: bool },
    AutosaveWritten { now: u64 },
    DiagnosticsCopied,
    ReportCopied,
    ReportSent,
    PrinterSought(PrinterSearch),
    TimelineHovered { dragging: bool },
    TimelinePressed(TimelinePress),
    /// How many keys are left after one was removed.
    TimelineRemoved(Option<usize>),
}

} // verus!
