//! What each command of the user comes to: the change it makes, the requests it
//! leads to, and nothing else. Here the rename field, the brush, and what is handed on.
use vstd::prelude::*;

use crate::action::Action;
use crate::dispatch;
use crate::dispatch::MessageKind;
use crate::message;
use crate::message::Message;
use crate::outline;
use crate::outline::NodeId;
use crate::puck::SpaceMouseSetting;
use crate::state::{BrokkrV, FileStateV, Hand, PenSettings, PromptsV, ToolV};
use crate::text;
use crate::values::{Brush, BrushKind, MirrorAxis, RenamingV, Scalar, Sizing, SizingTarget};

verus! {

/// Whether all that a message does is to lead to the session `after` and to ask for
/// `asked`, and then for what is drawn to be settled.
#[verifier::opaque]
pub open spec fn comes_to(s: BrokkrV, m: Message, after: BrokkrV, asked: Seq<Action>) -> bool {
    s.update(m).state == after && s.update(m).actions == asked.push(Action::PublishVisibility)
}

/// A message does what its kind of message does.
proof fn lemma_kind(s: BrokkrV, m: Message)
    ensures
        s.dispatch(m) == match dispatch::kind_of(m) {
            MessageKind::Ambient => s.dispatch_ambient(m),
            MessageKind::Leaving => s.quiet(),
            MessageKind::BrushSetting => s.dispatch_brush_setting(m),
            MessageKind::Brush => s.dispatch_brush(m),
            MessageKind::Gesture => s.dispatch_gesture(m),
            MessageKind::Onwards => s.dispatch_onwards(m),
            MessageKind::Eyes => s.dispatch_eyes(m),
            MessageKind::Making => s.dispatch_making(m),
            MessageKind::Removing => s.dispatch_removing(m),
            MessageKind::Folders => s.dispatch_folders(m),
            MessageKind::Renaming => s.dispatch_renaming(m),
            MessageKind::Menus => s.dispatch_menus(m),
            MessageKind::Panel => s.dispatch_panel(m),
            MessageKind::Cards => s.dispatch_cards(m),
            MessageKind::BugReport => s.dispatch_bug_report(m),
            MessageKind::Devices => s.dispatch_devices(m),
            MessageKind::Guarded => s.dispatch_guarded(m),
            MessageKind::Saving => s.dispatch_saving(m),
            MessageKind::Exchange => s.dispatch_exchange(m),
        },
{
    reveal(BrokkrV::dispatch);
}

/// Without a rename to end, a message does what its kind of message does, and no more.
pub proof fn lemma_acts(s: BrokkrV, m: Message)
    requires
        s.prompts.renaming is None || message::stays_renaming(m),
    ensures
        comes_to(s, m, s.dispatch(m).state, s.dispatch(m).actions),
        s.dispatch(m) == match dispatch::kind_of(m) {
            MessageKind::Ambient => s.dispatch_ambient(m),
            MessageKind::Leaving => s.quiet(),
            MessageKind::BrushSetting => s.dispatch_brush_setting(m),
            MessageKind::Brush => s.dispatch_brush(m),
            MessageKind::Gesture => s.dispatch_gesture(m),
            MessageKind::Onwards => s.dispatch_onwards(m),
            MessageKind::Eyes => s.dispatch_eyes(m),
            MessageKind::Making => s.dispatch_making(m),
            MessageKind::Removing => s.dispatch_removing(m),
            MessageKind::Folders => s.dispatch_folders(m),
            MessageKind::Renaming => s.dispatch_renaming(m),
            MessageKind::Menus => s.dispatch_menus(m),
            MessageKind::Panel => s.dispatch_panel(m),
            MessageKind::Cards => s.dispatch_cards(m),
            MessageKind::BugReport => s.dispatch_bug_report(m),
            MessageKind::Devices => s.dispatch_devices(m),
            MessageKind::Guarded => s.dispatch_guarded(m),
            MessageKind::Saving => s.dispatch_saving(m),
            MessageKind::Exchange => s.dispatch_exchange(m),
        },
{
    reveal(comes_to);
    lemma_kind(s, m);
    assert(s.update(m).actions =~= s.dispatch(m).actions.push(Action::PublishVisibility));
}

// --- the rename field -------------------------------------------------------------

/// The rename field stays open for what is typed into it, for keys, for Escape, for
/// the frame tick, and for a pointer that does not press. Any other message is taken
/// in as if the field had been left first: what the rename asks for comes first, and
/// what the message then does is what it does to the session with the name in place.
pub proof fn a_message_acts_after_the_rename_that_it_ends(s: BrokkrV, m: Message)
    requires
        s.prompts.renaming is Some,
        !(m is BodyRenameEdited || m is KeyPressed || m is MenuClosed || m is Frame || (
        m matches Message::Pointer { event, .. } && !(event is Pressed))),
    ensures
        s.update(m).state == s.commit_rename().state.update(m).state,
        s.update(m).actions == s.commit_rename().actions + s.commit_rename().state.update(
            m,
        ).actions,
        s.commit_rename().state.prompts.renaming is None,
{
    let c = s.commit_rename().state;
    lemma_acts(c, m);
    assert(s.update(m).actions =~= s.commit_rename().actions + c.update(m).actions);
}

/// The field opens with the row's own name in it; what is typed is kept as far as a
/// file holds it; and opening it on a row that is not there opens nothing.
pub proof fn the_rename_field_holds_what_is_typed(s: BrokkrV, id: NodeId, typed: String)
    requires
        s.prompts.renaming is None,
    ensures
        s.outline.has(id) ==> comes_to(
            s,
            Message::BodyRenameBegan(id),
            BrokkrV {
                prompts: PromptsV {
                    renaming: Some(RenamingV { id: id, text: s.outline.name_of(id) }),
                    ..s.prompts
                },
                ..s
            },
            seq![Action::FocusRename],
        ),
        !s.outline.has(id) ==> comes_to(s, Message::BodyRenameBegan(id), s, seq![]),
        comes_to(s, Message::BodyRenameEdited(typed), s, seq![]),
        comes_to(s, Message::BodyRenameSubmitted, s, seq![]),
        comes_to(s, Message::PressedNothing, s, seq![]),
{
    lemma_acts(s, Message::BodyRenameBegan(id));
    lemma_acts(s, Message::BodyRenameEdited(typed));
    lemma_acts(s, Message::BodyRenameSubmitted);
    lemma_acts(s, Message::PressedNothing);
    reveal(BrokkrV::dispatch_renaming);
}

/// Typing into the open field replaces its text and nothing else.
pub proof fn typing_replaces_the_fields_text(s: BrokkrV, r: RenamingV, typed: String)
    requires
        s.prompts.renaming == Some(r),
    ensures
        comes_to(
            s,
            Message::BodyRenameEdited(typed),
            BrokkrV {
                prompts: PromptsV {
                    renaming: Some(RenamingV { id: r.id, text: text::fitting(typed@) }),
                    ..s.prompts
                },
                ..s
            },
            seq![],
        ),
{
    lemma_acts(s, Message::BodyRenameEdited(typed));
    reveal(BrokkrV::dispatch_renaming);
}

/// Leaving the field gives its row, and no other, the name that was typed, as one
/// undo entry that is work to save; a name of white space alone, the name that is
/// there already, or a row that is gone changes no row and asks for nothing.
pub proof fn leaving_the_field_names_its_row(s: BrokkrV, r: RenamingV, i: int)
    requires
        s.wf(),
        s.prompts.renaming == Some(r),
        s.outline.is_at(r.id, i),
    ensures
        ({
            let t = s.commit_rename();
            let name = text::trimmed_end(text::fitting(text::trimmed(r.text)));
            let was = s.outline.rows[i].name;
            let closed = BrokkrV {
                prompts: PromptsV { renaming: None, ..s.prompts },
                ..s
            };
            if name.len() == 0 {
                &&& t.state == (BrokkrV { status: "a body needs a name — kept "@ + was, ..closed })
                &&& t.actions.len() == 0
            } else if name == was {
                t.state == closed && t.actions.len() == 0
            } else {
                &&& t.actions == seq![Action::WriteName(r.id)]
                &&& t.state.outline.rows[i].name == name
                &&& t.state == (BrokkrV {
                    outline: t.state.outline,
                    file: FileStateV { unsaved: true, ..s.file },
                    status: "renamed "@ + was + " to "@ + name,
                    ..closed
                })
                &&& t.state.outline.active == s.outline.active
                &&& forall|k: int|
                    0 <= k < s.outline.rows.len() && k != i ==> #[trigger] t.state.outline.rows[k]
                        == s.outline.rows[k]
            }
        }),
{
    outline::lemma_at(s.outline, r.id, i);
}

/// Where the row is gone, leaving the field closes it and that is all.
pub proof fn a_rename_without_its_row_only_closes(s: BrokkrV, r: RenamingV)
    requires
        s.prompts.renaming == Some(r),
        !s.outline.has(r.id),
    ensures
        s.commit_rename().state == (BrokkrV {
            prompts: PromptsV { renaming: None, ..s.prompts },
            ..s
        }),
        s.commit_rename().actions.len() == 0,
{
}

// --- the brush ----------------------------------------------------------------------

/// A setting of the brush sets that one value to what was chosen, leaves the rest of
/// the session as it is, and redraws the overlay, which shows it.
pub proof fn a_brush_setting_sets_just_that(s: BrokkrV, number: u32, value: Scalar)
    requires
        s.prompts.renaming is None,
    ensures
        comes_to(
            s,
            Message::FalloffChanged(number),
            BrokkrV {
                tool: ToolV { brush: Brush { falloff: number, ..s.tool.brush }, ..s.tool },
                ..s
            },
            seq![Action::RefreshOverlay],
        ),
        comes_to(
            s,
            Message::PatternChanged(number),
            BrokkrV {
                tool: ToolV { brush: Brush { pattern: number, ..s.tool.brush }, ..s.tool },
                ..s
            },
            seq![Action::RefreshOverlay],
        ),
        comes_to(
            s,
            Message::PatternScaleChanged(value),
            BrokkrV {
                tool: ToolV { brush: Brush { pattern_scale: value, ..s.tool.brush }, ..s.tool },
                ..s
            },
            seq![Action::RefreshOverlay],
        ),
        comes_to(
            s,
            Message::PatternDepthChanged(value),
            BrokkrV {
                tool: ToolV { brush: Brush { pattern_depth: value, ..s.tool.brush }, ..s.tool },
                ..s
            },
            seq![Action::RefreshOverlay],
        ),
{
    lemma_acts(s, Message::FalloffChanged(number));
    lemma_acts(s, Message::PatternChanged(number));
    lemma_acts(s, Message::PatternScaleChanged(value));
    lemma_acts(s, Message::PatternDepthChanged(value));
    reveal(BrokkrV::dispatch_brush_setting);
}

/// A setting of the pen sets that one value to what was chosen, and nothing else.
pub proof fn a_pen_setting_sets_just_that(s: BrokkrV, value: Scalar, on: bool)
    requires
        s.prompts.renaming is None,
    ensures
        comes_to(
            s,
            Message::DynamicRadiusToggled(on),
            BrokkrV {
                tool: ToolV { pen: PenSettings { dynamic_radius: on, ..s.tool.pen }, ..s.tool },
                ..s
            },
            seq![],
        ),
        comes_to(
            s,
            Message::PressureToggled(on),
            BrokkrV {
                tool: ToolV { pen: PenSettings { pressure_enabled: on, ..s.tool.pen }, ..s.tool },
                ..s
            },
            seq![],
        ),
        comes_to(
            s,
            Message::PressureCurveChanged(value),
            BrokkrV {
                tool: ToolV { pen: PenSettings { pressure_curve: value, ..s.tool.pen }, ..s.tool },
                ..s
            },
            seq![],
        ),
        comes_to(
            s,
            Message::TiltToggled(on),
            BrokkrV {
                tool: ToolV { pen: PenSettings { tilt_enabled: on, ..s.tool.pen }, ..s.tool },
                ..s
            },
            seq![],
        ),
{
    lemma_acts(s, Message::DynamicRadiusToggled(on));
    lemma_acts(s, Message::PressureToggled(on));
    lemma_acts(s, Message::PressureCurveChanged(value));
    lemma_acts(s, Message::TiltToggled(on));
    reveal(BrokkrV::dispatch_brush_setting);
}

/// Where a palette of `n` brushes keeps what it remembers of one.
pub open spec fn place_of(kind: BrushKind, n: nat) -> int {
    if kind.slot < n {
        kind.slot as int
    } else {
        0
    }
}

/// Another kind of brush leaves the old one's strength where it is remembered and
/// takes up the strength that the new one was left at. Nothing else of the brush
/// changes, and no other brush's strength.
pub proof fn a_kind_of_brush_brings_its_own_strength(s: BrokkrV, kind: BrushKind, i: int)
    requires
        s.wf(),
        s.prompts.renaming is None,
        0 <= i < s.tool.strengths.len(),
    ensures
        ({
            let t = s.update(Message::BrushKindChanged(kind)).state;
            let old = place_of(s.tool.brush.kind, s.tool.strengths.len());
            let new = place_of(kind, s.tool.strengths.len());
            &&& comes_to(
                s,
                Message::BrushKindChanged(kind),
                BrokkrV { tool: t.tool, ..s },
                seq![Action::RefreshOverlay],
            )
            &&& t.tool == (ToolV { brush: t.tool.brush, strengths: t.tool.strengths, ..s.tool })
            &&& t.tool.brush == (Brush {
                kind: kind,
                strength: if new == old {
                    s.tool.brush.strength
                } else {
                    s.tool.strengths[new]
                },
                ..s.tool.brush
            })
            &&& t.tool.strengths.len() == s.tool.strengths.len()
            &&& t.tool.strengths[i] == if i == old {
                s.tool.brush.strength
            } else {
                s.tool.strengths[i]
            }
        }),
{
    lemma_acts(s, Message::BrushKindChanged(kind));
    reveal(BrokkrV::dispatch_brush);
}

/// Another strength is the brush's at once, and what is remembered for this kind of
/// brush and no other.
pub proof fn a_strength_is_remembered_for_its_brush(s: BrokkrV, strength: Scalar, i: int)
    requires
        s.wf(),
        s.prompts.renaming is None,
        0 <= i < s.tool.strengths.len(),
    ensures
        ({
            let t = s.update(Message::BrushStrengthChanged(strength)).state;
            &&& comes_to(
                s,
                Message::BrushStrengthChanged(strength),
                BrokkrV { tool: t.tool, ..s },
                seq![Action::RefreshOverlay],
            )
            &&& t.tool == (ToolV {
                brush: Brush { strength: strength, ..s.tool.brush },
                strengths: t.tool.strengths,
                ..s.tool
            })
            &&& t.tool.strengths.len() == s.tool.strengths.len()
            &&& t.tool.strengths[i] == if i == place_of(
                s.tool.brush.kind,
                s.tool.strengths.len(),
            ) {
                strength
            } else {
                s.tool.strengths[i]
            }
        }),
{
    lemma_acts(s, Message::BrushStrengthChanged(strength));
    reveal(BrokkrV::dispatch_brush);
}

/// A radius, or a factor for one, goes out to be kept within its limits, as it came;
/// a plane that is on goes off, and one that is off is asked about, that plane and no
/// other.
pub proof fn a_radius_and_a_plane_are_asked_about(
    s: BrokkrV,
    value: Scalar,
    axis: MirrorAxis,
    other: MirrorAxis,
)
    requires
        s.prompts.renaming is None,
    ensures
        comes_to(
            s,
            Message::BrushRadiusChanged(value),
            s,
            seq![Action::ClampRadius(value), Action::RefreshOverlay],
        ),
        comes_to(
            s,
            Message::BrushRadiusScaled(value),
            s,
            seq![Action::ScaleRadius(value), Action::RefreshOverlay],
        ),
        !s.tool.symmetry.on(axis) ==> comes_to(
            s,
            Message::SymmetryAxisToggled(axis),
            s,
            seq![Action::MeasureMirror(axis), Action::RefreshOverlay],
        ),
        s.tool.symmetry.on(axis) ==> {
            let t = s.update(Message::SymmetryAxisToggled(axis)).state;
            &&& comes_to(
                s,
                Message::SymmetryAxisToggled(axis),
                BrokkrV { tool: ToolV { symmetry: t.tool.symmetry, ..s.tool }, ..s },
                seq![Action::RefreshOverlay],
            )
            &&& t.tool.symmetry.on(other) == (s.tool.symmetry.on(other) && other != axis)
        },
{
    lemma_acts(s, Message::BrushRadiusChanged(value));
    lemma_acts(s, Message::BrushRadiusScaled(value));
    lemma_acts(s, Message::SymmetryAxisToggled(axis));
    reveal(BrokkrV::dispatch_brush);
}

/// The sizing key starts the gesture on the size that it names, from where the
/// pointer stands and from what that size is; a key that repeats, or a pointer that
/// was never seen, starts nothing; and the key coming up ends it.
pub proof fn the_sizing_key_holds_the_size_it_names(s: BrokkrV, what: SizingTarget)
    requires
        s.prompts.renaming is None,
    ensures
        s.hand.sizing is None && s.hand.cursor is Some ==> comes_to(
            s,
            Message::SizingStarted(what),
            BrokkrV {
                hand: Hand {
                    sizing: Some(
                        Sizing {
                            what: what,
                            from_pixel: s.hand.cursor->0,
                            original: if what == SizingTarget::Radius {
                                s.tool.brush.radius
                            } else {
                                s.tool.brush.strength
                            },
                        },
                    ),
                    ..s.hand
                },
                ..s
            },
            seq![],
        ),
        s.hand.sizing is Some || s.hand.cursor is None ==> comes_to(
            s,
            Message::SizingStarted(what),
            s,
            seq![],
        ),
        comes_to(
            s,
            Message::SizingEnded,
            BrokkrV { hand: Hand { sizing: None, ..s.hand }, ..s },
            seq![],
        ),
        comes_to(
            s,
            Message::CutToggled,
            BrokkrV {
                hand: Hand { cut_armed: !s.hand.cut_armed, ..s.hand },
                status: if s.hand.cut_armed {
                    ""@
                } else {
                    "cut armed: drag a line across the model, the left of the arrow goes"@
                },
                ..s
            },
            seq![],
        ),
{
    lemma_acts(s, Message::SizingStarted(what));
    lemma_acts(s, Message::SizingEnded);
    lemma_acts(s, Message::CutToggled);
    reveal(BrokkrV::dispatch_gesture);
}

// --- what is handed on ----------------------------------------------------------------

/// A command that the session only hands on changes nothing and asks for its own
/// request, with the value that came with it: a step back is a step back.
pub proof fn what_is_handed_on_is_the_command_itself(s: BrokkrV, value: Scalar, setting: SpaceMouseSetting)
    requires
        s.prompts.renaming is None,
    ensures
        comes_to(s, Message::Undo, s, seq![Action::Undo]),
        comes_to(s, Message::Redo, s, seq![Action::Redo]),
        comes_to(s, Message::Resample(value), s, seq![Action::MeasureResample(value)]),
        comes_to(s, Message::ResetPressurePeak, s, seq![Action::ResetPressurePeak]),
        comes_to(s, Message::SpaceMouse(setting), s, seq![Action::ConfigureSpaceMouse(setting)]),
{
    lemma_acts(s, Message::Undo);
    lemma_acts(s, Message::Redo);
    lemma_acts(s, Message::Resample(value));
    lemma_acts(s, Message::ResetPressurePeak);
    lemma_acts(s, Message::SpaceMouse(setting));
    reveal(BrokkrV::dispatch_onwards);
}

/// The window's commands do to the window what they say.
pub proof fn the_windows_commands_are_the_windows(s: BrokkrV, direction: u8)
    requires
        s.prompts.renaming is None,
    ensures
        comes_to(s, Message::TitleBarDragged, s, seq![Action::DragWindow]),
        comes_to(s, Message::TitleBarDoubleClicked, s, seq![Action::ToggleMaximise]),
        comes_to(s, Message::WindowMinimise, s, seq![Action::MinimiseWindow]),
        comes_to(s, Message::ResizeStarted(direction), s, seq![Action::ResizeWindow(direction)]),
        comes_to(s, Message::WindowClose, s, seq![Action::RequestClose]),
{
    lemma_acts(s, Message::TitleBarDragged);
    lemma_acts(s, Message::TitleBarDoubleClicked);
    lemma_acts(s, Message::WindowMinimise);
    lemma_acts(s, Message::ResizeStarted(direction));
    lemma_acts(s, Message::WindowClose);
    reveal(BrokkrV::dispatch_onwards);
}

/// What the pointer does over the timeline changes nothing by itself: the strip is asked
/// for its part, at the place that was named.
pub proof fn the_pointer_over_the_timeline_is_the_strips(s: BrokkrV, value: Scalar)
    requires
        s.prompts.renaming is None,
    ensures
        comes_to(s, Message::TimelineHover(value), s, seq![Action::HoverTimeline(value)]),
        comes_to(s, Message::TimelinePressed, s, seq![Action::PressTimeline]),
        comes_to(s, Message::TimelineReleased, s, seq![Action::ReleaseTimeline]),
        comes_to(s, Message::TimelineLeft, s, seq![Action::LeaveTimeline]),
{
    lemma_acts(s, Message::TimelineHover(value));
    lemma_acts(s, Message::TimelinePressed);
    lemma_acts(s, Message::TimelineReleased);
    lemma_acts(s, Message::TimelineLeft);
    reveal(BrokkrV::dispatch_onwards);
}

/// The timeline's own commands are the strip's too.
pub proof fn the_timelines_commands_are_the_strips(s: BrokkrV, value: Scalar)
    requires
        s.prompts.renaming is None,
    ensures
        comes_to(s, Message::TimelineResized(value), s, seq![Action::ResizeTimeline(value)]),
        comes_to(s, Message::TimelineRemoveKey, s, seq![Action::RemoveTimelineKey]),
        comes_to(s, Message::TimelinePlayToggled, s, seq![Action::ToggleTimelinePlay]),
{
    lemma_acts(s, Message::TimelineResized(value));
    lemma_acts(s, Message::TimelineRemoveKey);
    lemma_acts(s, Message::TimelinePlayToggled);
    reveal(BrokkrV::dispatch_onwards);
}

} // verus!
