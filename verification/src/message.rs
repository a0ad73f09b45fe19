//! What reaches the session: the user's gestures and commands.
use vstd::prelude::*;

use crate::outline::NodeId;
use crate::text::same_text;
use crate::values::{
    BrushKind, ConfirmChoice, CubePart, ExportFormat, Facing, FilePath, KeyModifiers, MirrorAxis,
    PanelSection, Pen, Pixel, PointerButton, PrimitiveKind, Scalar, SizingTarget, TopMenu,
};
use crate::puck::SpaceMouseSetting;

verus! {

/// What the pointer did over the viewport.
#[derive(Clone, Copy, Debug)]
pub enum PointerEvent {
    Modifiers { shift: bool, control: bool, alt: bool },
    Pressed {
        button: PointerButton,
        position: Pixel,
        size: Pixel,
        /// The part of the navigation cube under the pointer.
        cube: Option<CubePart>,
        /// The drawn body under the pointer.
        under: Option<NodeId>,
        pen: Pen,
    },
    Released { button: PointerButton },
    Moved {
        position: Pixel,
        size: Pixel,
        /// Whether the pointer is further from where the held button went down
        /// than a click may go.
        past_slop: bool,
    },
    Scrolled { amount: Scalar },
}

/// A key that went down.
#[derive(Debug)]
pub enum Key {
    Escape,
    Character(String),
    Other,
}

/// How an import ended that ran in the background.
#[derive(Debug)]
pub enum ImportNews {
    /// The mesh was read and is ready to take the document's place.
    Ready,
    Failed(String),
    /// The result was already taken.
    Taken,
}

/// One message to the session.
#[derive(Debug)]
pub enum Message {
    Pointer { event: PointerEvent, now: u64 },
    Frame,
    BrushKindChanged(BrushKind),
    FalloffChanged(u32),
    BrushRadiusChanged(Scalar),
    BrushStrengthChanged(Scalar),
    BrushRadiusScaled(Scalar),
    SymmetryAxisToggled(MirrorAxis),
    PatternChanged(u32),
    PatternScaleChanged(Scalar),
    PatternDepthChanged(Scalar),
    SizingStarted(SizingTarget),
    SizingEnded,
    TopMenuToggled(TopMenu),
    DiagnosticsCopied,
    IssueOpened,
    OpenInSlicer,
    PrinterChecked,
    PrinterAnswered(Result<String, String>),
    BugReportOpened,
    BugReportEdited(String),
    BugReportDetailToggled(bool),
    BugReportDismissed,
    BugReportCopied,
    BugReportSubmitted,
    BugReportFinished(Result<String, String>),
    KeyPressed { key: Key, modifiers: KeyModifiers },
    /// A left press that no widget wanted.
    PressedNothing,
    MenuClosed,
    MenuFieldEdited(SizingTarget, String),
    MenuFieldSubmitted,
    OrientFace(Facing),
    OrientPromptAnswered(bool),
    CutToggled,
    DynamicRadiusToggled(bool),
    BodySelected(NodeId),
    BodyVisibilityToggled(NodeId),
    ActiveBodyVisibilityToggled,
    EveryBodyShown,
    PrimitiveMenuToggled,
    PrimitiveAdded(PrimitiveKind),
    BodyDeleted,
    BodyDuplicated,
    BodyGrouped,
    BodyUngrouped,
    BodyMovedToFolder(Option<NodeId>),
    FolderCollapseToggled(NodeId),
    FolderDeleted(NodeId),
    BodyDeleteConfirmed,
    BodyDeleteCancelled,
    BodyMergedDown,
    BodyMergeConfirmed,
    BodyMergeCancelled,
    ThumbnailsToggled,
    SoloEntered(NodeId),
    SoloExited,
    BodyRenameBegan(NodeId),
    BodyRenameEdited(String),
    BodyRenameSubmitted,
    TimelineResized(Scalar),
    TimelineHover(Scalar),
    TimelinePressed,
    TimelineReleased,
    TimelineLeft,
    TimelineRemoveKey,
    TimelinePlayToggled,
    PressureToggled(bool),
    PressureCurveChanged(Scalar),
    TiltToggled(bool),
    ResetPressurePeak,
    Undo,
    Redo,
    Export(ExportFormat),
    ExportRequested(ExportFormat),
    ExportChosen(ExportFormat, Option<FilePath>),
    Resample(Scalar),
    WorkingSizeTyped(String),
    WorkingSizeCommitted,
    SpaceMouse(SpaceMouseSetting),
    SectionToggled(PanelSection),
    StatsToggled,
    ResetSphere,
    NewSculpt,
    TitleBarDragged,
    TitleBarDoubleClicked,
    WindowMinimise,
    ResizeStarted(u8),
    WindowClose,
    CloseRequested(u64),
    ConfirmAnswered(ConfirmChoice),
    SavedThenContinue(Option<FilePath>),
    OpenRequested,
    OpenRecent(u64),
    RecoverAutosave,
    ImportRequested,
    ImportChosen(Option<FilePath>),
    ImportLoaded(ImportNews),
    OpenChosen(Option<FilePath>),
    SaveRequested,
    SaveAsRequested,
    SaveChosen(Option<FilePath>),
}

/// Whether a message leaves the rename field open: what is typed into it, keys,
/// Escape, the frame tick, and a pointer that does anything but press. Every
/// other message means the user has left the field.
pub open spec fn stays_renaming(message: Message) -> bool {
    match message {
        Message::BodyRenameEdited(_) => true,
        Message::KeyPressed { .. } => true,
        Message::MenuClosed => true,
        Message::Frame => true,
        Message::Pointer { event, .. } => !(event is Pressed),
        _ => false,
    }
}

/// Whether a message leaves the rename field open.
pub fn keeps_the_rename_open(message: &Message) -> (r: bool)
    ensures
        r == stays_renaming(*message),
{
    match message {
        Message::BodyRenameEdited(_) => true,
        Message::KeyPressed { .. } | Message::MenuClosed => true,
        Message::Frame => true,
        Message::Pointer { event, .. } => match event {
            PointerEvent::Pressed { .. } => false,
            _ => true,
        },
        _ => false,
    }
}

/// An event of the window, as far as the session listens to it.
#[derive(Debug)]
pub enum WindowEvent {
    KeyPressed { key: Key, modifiers: KeyModifiers },
    KeyReleased(Key),
    ButtonPressed(PointerButton),
    Other,
}

/// Whether a key's text is that of one of the two keys held to size the brush.
pub open spec fn is_sizing_key(text: Seq<char>) -> bool {
    text == "s"@ || text == "S"@ || text == "u"@ || text == "U"@
}

/// What an event of the window says to the session. One that a widget has
/// consumed says nothing.
pub fn key_event(event: WindowEvent, captured: bool) -> (r: Option<Message>)
    ensures
        captured ==> r is None,
        !captured ==> match event {
            WindowEvent::KeyPressed { key, modifiers } => r == Some(
                Message::KeyPressed { key, modifiers },
            ),
            WindowEvent::ButtonPressed(button) => r == if button == PointerButton::Left {
                Some(Message::PressedNothing)
            } else {
                None
            },
            WindowEvent::KeyReleased(key) => r == match key {
                Key::Character(text) => if is_sizing_key(text@) {
                    Some(Message::SizingEnded)
                } else {
                    None
                },
                _ => None,
            },
            WindowEvent::Other => r is None,
        },
{
    if captured {
        return None;
    }
    match event {
        WindowEvent::KeyPressed { key, modifiers } => Some(Message::KeyPressed { key, modifiers }),
        WindowEvent::ButtonPressed(button) => match button {
            PointerButton::Left => Some(Message::PressedNothing),
            _ => None,
        },
        WindowEvent::KeyReleased(key) => match key {
            Key::Character(text) => {
                let t: &str = text.as_str();
                if same_text(t, "s") || same_text(t, "S") || same_text(t, "u")
                    || same_text(t, "U") {
                    Some(Message::SizingEnded)
                } else {
                    None
                }
            },
            _ => None,
        },
        WindowEvent::Other => None,
    }
}

/// The commit a build was made from, where the build was told.
pub fn build_commit(supplied: Option<&'static str>) -> (r: &'static str)
    ensures
        r@ == match supplied {
            Some(commit) => commit@,
            None => "unknown"@,
        },
{
    match supplied {
        Some(commit) => commit,
        None => "unknown",
    }
}

} // verus!
