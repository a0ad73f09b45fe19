//! How a session starts, what its devices do to it, and what it says of itself.
use vstd::prelude::*;

use crate::action::{Action, SaveOutcome};
use crate::detail;
use crate::files;
use crate::outline::OutlineV;
use crate::puck::{AxisBinding, ButtonAction, PuckConfigV, PuckStep, SpaceMouseSetting};
use crate::report;
use crate::report::DiagnosticFacts;
use crate::saving::{SaveProgress, SaveStage};
use crate::session;
use crate::session::Startup;
use crate::state::{BrokkrV, LookingV, ToolV};
use crate::text;
use crate::tool::SculptPlan;
use crate::values::{Brush, BrushRole, MirrorAxis, PendingAction, PerAxis, Scalar};

verus! {

/// A session starts on the rows it was given, with the brush it was given, with nothing
/// open, held, armed, soloed or mirrored, no file and nothing to save; pressure and tilt
/// are on, and the brush does not follow the model. It says so where an earlier session
/// left a crash net.
pub proof fn a_session_starts_with_nothing_to_save(from: Startup)
    ensures
        ({
            let s = session::started(from);
            &&& s.outline == from.outline@
            &&& !s.file.unsaved && s.file.project_path is None
            &&& s.file.autosave_file == from.autosave_file
            &&& s.prompts.renaming is None && s.prompts.pending_delete is None
            &&& s.prompts.pending_merge is None && s.prompts.confirm is None
            &&& s.prompts.orient_prompt is None && s.prompts.bug_report is None
            &&& s.menus.menu is None && s.menus.menu_edit is None && s.menus.top_menu is None
            &&& s.menus.cube_menu is None && !s.menus.adding
            &&& s.looking.solo is None && s.looking.hover_body is None
            &&& s.looking.cube_hover is None
            &&& s.hand.drag is None && s.hand.cursor is None && s.hand.sizing is None
            &&& !s.hand.cut_armed && !s.hand.shift && !s.hand.control && !s.hand.alt
            &&& s.hand.viewport_size == from.viewport_size
            &&& s.tool.brush == from.brush && s.tool.strengths == from.strengths@
            &&& s.tool.smooth == from.smooth
            &&& s.tool.symmetry == (PerAxis { x: false, y: false, z: false })
            &&& !s.tool.pen.dynamic_radius && s.tool.pen.pressure_enabled
            &&& s.tool.pen.tilt_enabled && s.tool.pen.pressure_curve == from.pressure_curve
            &&& s.panel.thumbnails && !s.panel.stats_open && s.panel.expanded == from.expanded@
            &&& s.panel.working_size_field == ""@
            &&& s.clock.last_autosave == from.now && s.clock.last_activity == from.now
            &&& s.books.history_stats == from.history_stats
            &&& s.books.model_radius_body == Some(from.outline@.active)
            &&& s.books.delete_prompt_bytes == 512 * 1024 * 1024
            &&& s.books.merge_prompt_bytes == 512 * 1024 * 1024
            &&& !s.trail.facts_recorded && s.trail.crumbed_status == ""@
            &&& s.status == if from.has_autosave {
                "an autosave from a previous session is in File > Recover"@
            } else {
                ""@
            }
        }),
{
}

/// Settling what is drawn draws what the eyes and solo show, tells which bodies that
/// leaves out, and changes nothing else but a solo that names no row or shows no body:
/// that one ends, and the second says so.
pub proof fn settling_draws_what_eyes_and_solo_show(s: BrokkrV)
    ensures
        ({
            let t = s.publish();
            let o = s.outline;
            let gone = s.looking.solo matches Some(id) && !o.has(id);
            let empty = s.looking.solo matches Some(id) && o.has(id) && !o.draws_a_body(
                o.drawn(Some(id)),
            );
            let solo = if gone || empty {
                None
            } else {
                s.looking.solo
            };
            t == (BrokkrV {
                looking: LookingV {
                    solo: solo,
                    shown: o.drawn(solo),
                    hidden_bodies: o.hidden(o.drawn(solo)),
                    ..s.looking
                },
                status: if empty {
                    "left solo — "@ + o.name_of(s.looking.solo->0)
                        + " is hidden, so it was showing nothing"@
                } else {
                    s.status
                },
                ..s
            })
        }),
{
}

/// Each button of the puck does what its name says, and an idle one nothing; the one
/// for symmetry is the X plane's switch.
pub proof fn a_puck_button_does_what_its_name_says(s: BrokkrV)
    ensures
        s.puck_pressed(ButtonAction::Idle) == s.quiet(),
        s.puck_pressed(ButtonAction::Undo) == s.asking(Action::Undo),
        s.puck_pressed(ButtonAction::Redo) == s.asking(Action::Redo),
        s.puck_pressed(ButtonAction::FrameModel) == s.asking(Action::FrameModel),
        s.puck_pressed(ButtonAction::ResetView) == s.asking(Action::ResetView),
        s.puck_pressed(ButtonAction::ToggleSymmetry).state == (BrokkrV {
            tool: ToolV { symmetry: PerAxis { x: false, ..s.tool.symmetry }, ..s.tool },
            ..s
        }),
        s.puck_pressed(ButtonAction::ToggleSymmetry).actions == if s.tool.symmetry.x {
            seq![Action::RefreshOverlay]
        } else {
            seq![Action::MeasureMirror(MirrorAxis::X), Action::RefreshOverlay]
        },
        s.quiet().state == s && s.quiet().actions.len() == 0,
        forall|a: Action|
            (#[trigger] s.asking(a)).state == s && s.asking(a).actions == seq![a],
{
}

/// A setting of the puck sets what it names and nothing else. What a slider drags is
/// kept for the time being; everything else is written out at once.
pub proof fn a_puck_setting_sets_what_it_names(
    c: PuckConfigV,
    mode: u8,
    value: Scalar,
)
    ensures
        c.configured(SpaceMouseSetting::Mode(mode)) == (PuckConfigV { mode: mode, ..c }),
        c.configured(SpaceMouseSetting::Deadzone(value)) == (PuckConfigV { deadzone: value, ..c }),
        c.configured(SpaceMouseSetting::PanSens(value)) == (PuckConfigV { pan_sens: value, ..c }),
        c.configured(SpaceMouseSetting::ZoomSens(value)) == (PuckConfigV { zoom_sens: value, ..c }),
        c.configured(SpaceMouseSetting::OrbitSens(value)) == (PuckConfigV {
            orbit_sens: value,
            ..c
        }),
        c.configured(SpaceMouseSetting::InvertAll) == c,
        c.configured(SpaceMouseSetting::Reset) == c,
        c.configured(SpaceMouseSetting::Save) == c,
        SpaceMouseSetting::Deadzone(value).step() == PuckStep::Keep,
        SpaceMouseSetting::PanSens(value).step() == PuckStep::Keep,
        SpaceMouseSetting::ZoomSens(value).step() == PuckStep::Keep,
        SpaceMouseSetting::OrbitSens(value).step() == PuckStep::Keep,
        SpaceMouseSetting::Mode(mode).step() == PuckStep::Persist,
        SpaceMouseSetting::Save.step() == PuckStep::Persist,
        SpaceMouseSetting::InvertAll.step() == PuckStep::InvertAllAndPersist,
        SpaceMouseSetting::Reset.step() == PuckStep::ResetAndPersist,
{
}

/// A binding changes one action's axis and keeps which way round it is; turning one
/// round keeps the axis; a button changes one button; and each is written out at once.
pub proof fn a_puck_binding_is_of_one_action(
    c: PuckConfigV,
    action: usize,
    source: u8,
    invert: bool,
    does: ButtonAction,
    k: int,
)
    requires
        action < c.bindings.len(),
        action < c.buttons.len(),
    ensures
        ({
            let bound = SpaceMouseSetting::Binding { action: action, source: source };
            let turned = SpaceMouseSetting::Invert { action: action, invert: invert };
            let button = SpaceMouseSetting::Button { index: action, action: does };
            let b = c.configured(bound);
            let t = c.configured(turned);
            let u = c.configured(button);
            &&& b == (PuckConfigV { bindings: b.bindings, ..c })
            &&& t == (PuckConfigV { bindings: t.bindings, ..c })
            &&& u == (PuckConfigV { buttons: u.buttons, ..c })
            &&& b.bindings.len() == c.bindings.len() && t.bindings.len() == c.bindings.len()
            &&& u.buttons.len() == c.buttons.len()
            &&& b.bindings[action as int] == (AxisBinding {
                source: source,
                ..c.bindings[action as int]
            })
            &&& t.bindings[action as int] == (AxisBinding {
                invert: invert,
                ..c.bindings[action as int]
            })
            &&& u.buttons[action as int] == does
            &&& 0 <= k < c.bindings.len() && k != action ==> b.bindings[k] == c.bindings[k]
                && t.bindings[k] == c.bindings[k]
            &&& 0 <= k < c.buttons.len() && k != action ==> u.buttons[k] == c.buttons[k]
            &&& bound.step() == PuckStep::Persist && turned.step() == PuckStep::Persist
                && button.step() == PuckStep::Persist
        }),
{
}

/// Shift gives the smooth brush in the size, strength and pattern of the one in hand;
/// without it the brush in hand is used. The move brush drags whether or not it hits;
/// any other stamps where it hits and does nothing where it misses.
pub proof fn shift_smooths_with_the_brush_in_hand(s: BrokkrV, hit: bool)
    ensures
        s.hand.shift ==> s.effective_brush() == (Brush { kind: s.tool.smooth, ..s.tool.brush }),
        !s.hand.shift ==> s.effective_brush() == s.tool.brush,
        s.sculpt_plan(hit) == if s.hand.shift && s.tool.smooth.role == BrushRole::Move {
            SculptPlan::MoveBrush
        } else if !s.hand.shift && s.tool.brush.kind.role == BrushRole::Move {
            SculptPlan::MoveBrush
        } else if hit {
            SculptPlan::Stamp
        } else {
            SculptPlan::Miss
        },
{
}

/// The brush follows the model's size where the user wants that and the size was last
/// measured on the body that is active.
pub proof fn the_brush_follows_the_body_it_was_measured_on(s: BrokkrV)
    ensures
        s.brush_follows() <==> s.tool.pen.dynamic_radius && s.books.model_radius_body == Some(
            s.outline.active,
        ),
{
}

/// The title is the file's name, or its whole path where it has no name, or that there
/// is no file yet; a star follows where there is something to save.
pub proof fn the_title_names_the_file(s: BrokkrV)
    ensures
        ({
            let name = match s.file.project_path {
                Some(path) => match path.file_name {
                    Some(file) => file,
                    None => path.display,
                },
                None => "untitled"@,
            };
            &&& s.document_name() == name
            &&& s.file.unsaved ==> s.title() == name + "*"@ + " — BrokkrSculpt"@
            &&& !s.file.unsaved ==> s.title() == name + ""@ + " — BrokkrSculpt"@
        }),
{
}

/// A file that was read back is this document where it has as many rows, as many bodies
/// and the same voxel; where it is not, the line gives both sides of what differs.
pub proof fn a_file_read_back_is_the_document_or_says_what_differs(
    o: OutlineV,
    rows: nat,
    bodies: nat,
    same_voxel: bool,
    theirs: Seq<char>,
    ours: Seq<char>,
)
    ensures
        ({
            let problem = files::written_problem(o, rows, bodies, same_voxel, theirs, ours);
            let alike = rows == o.rows.len() && bodies == o.body_count();
            &&& problem is None <==> alike && same_voxel
            &&& !alike ==> problem == Some(
                "the file came back with "@ + text::decimal(rows) + " rows and "@ + text::decimal(
                    bodies,
                ) + " bodies, and the document has "@ + text::decimal(o.rows.len()) + " and "@
                    + text::decimal(o.body_count()),
            )
            &&& alike && !same_voxel ==> problem == Some(
                "the file came back at a "@ + theirs + " mm voxel, and the document is at "@ + ours
                    + " mm"@,
            )
        }),
{
}

/// A save goes through four stages: it makes another file, writes it, reads it back,
/// and puts it in the document's place. The first that fails ends it, under its own
/// name and with its own reason.
pub proof fn a_save_goes_through_its_stages_in_order(error: String)
    ensures
        SaveStage::Create.after(None) == SaveProgress::Next(SaveStage::Write),
        SaveStage::Write.after(None) == SaveProgress::Next(SaveStage::Verify),
        SaveStage::Verify.after(None) == SaveProgress::Next(SaveStage::Replace),
        SaveStage::Replace.after(None) == SaveProgress::Over(SaveOutcome::Saved),
        SaveStage::Create.after(Some(error)) == SaveProgress::Over(
            SaveOutcome::CreateFailed(error),
        ),
        SaveStage::Write.after(Some(error)) == SaveProgress::Over(SaveOutcome::WriteFailed(error)),
        SaveStage::Verify.after(Some(error)) == SaveProgress::Over(
            SaveOutcome::VerifyFailed(error),
        ),
        SaveStage::Replace.after(Some(error)) == SaveProgress::Over(
            SaveOutcome::ReplaceFailed(error),
        ),
{
}

/// The prompt names what is waiting.
pub proof fn the_prompt_names_what_is_waiting(handle: u64)
    ensures
        PendingAction::NewSculpt.described() == "Starting a new sculpt"@,
        PendingAction::Open.described() == "Opening another file"@,
        PendingAction::OpenRecent(handle).described() == "Opening another file"@,
        PendingAction::RecoverAutosave.described() == "Recovering the autosave"@,
        PendingAction::Import.described() == "Importing a mesh in place of every body"@,
        PendingAction::Quit(handle).described() == "Quitting"@,
{
}

/// Planes are set one by one: setting one changes what is said of that one and of no
/// other.
pub proof fn a_plane_is_set_by_itself(p: PerAxis, axis: MirrorAxis, other: MirrorAxis, on: bool)
    ensures
        p.with(axis, on).on(other) == if other == axis {
            on
        } else {
            p.on(other)
        },
        p.on(MirrorAxis::X) == p.x && p.on(MirrorAxis::Y) == p.y && p.on(MirrorAxis::Z) == p.z,
        p.none() <==> !p.on(MirrorAxis::X) && !p.on(MirrorAxis::Y) && !p.on(MirrorAxis::Z),
{
}

/// Every crumb of the trail is a line of the diagnostics, in order, indented.
pub proof fn every_crumb_is_a_line(trail: Seq<String>, n: int)
    requires
        0 <= n < trail.len(),
    ensures
        report::crumb_lines(trail, 0) == ""@,
        report::crumb_lines(trail, n + 1) == report::crumb_lines(trail, n) + "  "@ + trail[n]@
            + "\n"@,
{
}

/// The diagnostics name the program, the machine, the model, what is drawn and the
/// devices; the last status line follows where there is one, and then the trail where
/// there is one.
pub proof fn the_diagnostics_hold_every_fact(s: BrokkrV, f: DiagnosticFacts)
    ensures
        ({
            let machine = "BrokkrSculpt "@ + f.version@ + " ("@ + f.commit@ + ")\nsession: "@
                + f.session_type@ + " on "@ + f.desktop@ + "\nwgpu: "@ + f.adapter@;
            let model = "\nmodel: voxel "@ + f.voxel@ + " mm, "@ + text::decimal(
                f.dense_bricks as nat,
            ) + " dense + "@ + text::decimal(f.uniform_bricks as nat) + " uniform bricks, "@
                + f.megabytes@ + " MB"@;
            let view = "\nview: "@ + text::decimal(f.triangles as nat) + " triangles, "@
                + text::decimal(f.drawn as nat) + " drawn / "@ + text::decimal(f.culled as nat)
                + " culled / "@ + text::decimal(f.hidden as nat) + " hidden, "@ + f.fps@
                + " fps\ntablet: "@ + f.tablet@ + "\nspacemouse: "@ + f.spacemouse@ + "\n"@;
            s.diagnostics(f) == machine + model + view + (if s.status.len() > 0 {
                "last message: "@ + s.status + "\n"@
            } else {
                ""@
            }) + (if f.has_trail {
                "\ntrail:\n"@ + report::crumb_lines(f.trail@, f.trail@.len() as int)
            } else {
                ""@
            })
        }),
{
}

/// What a voxel is good for goes by the finest printer that resolves it.
pub proof fn a_voxel_is_judged_by_the_finest_printer(at_filament: bool)
    ensures
        detail::verdict(true, at_filament) == "at or below what a resin printer resolves"@,
        detail::verdict(false, true) == "finer than a filament nozzle, coarser than resin"@,
        detail::verdict(false, false)
            == "coarse: a filament nozzle would not see the difference"@,
{
}

} // verus!
