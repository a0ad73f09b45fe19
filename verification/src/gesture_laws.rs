//! What a press, a drag and a release of the pointer come to, one by one and taken
//! together.
use vstd::prelude::*;

use crate::action::Action;
use crate::message::{Message, PointerEvent};
use crate::outline;
use crate::outline::{NodeId, OutlineV};
use crate::state::{Books, BrokkrV, Clock, Hand, LookingV, MenusV};
use crate::values::{
    BrushDirection, CubeMenu, CubePart, Drag, DragKind, Pen, Pixel, PointerButton, Scalar,
};

verus! {

/// Whether no card is up: none of the five prompts.
pub open spec fn no_card(s: BrokkrV) -> bool {
    &&& s.prompts.confirm is None
    &&& s.prompts.orient_prompt is None
    &&& s.prompts.bug_report is None
    &&& s.prompts.pending_delete is None
    &&& s.prompts.pending_merge is None
}

/// Whether no menu is open that would close at a press.
pub open spec fn no_menu(s: BrokkrV) -> bool {
    s.menus.menu is None && s.menus.top_menu is None && s.menus.cube_menu is None
}

/// The pointer reaches the session as it is: what its message does is what the pointer
/// does, and then what is drawn is settled. A press first ends a rename; nothing else
/// of the pointer does.
pub proof fn the_pointer_is_taken_as_it_comes(s: BrokkrV, event: PointerEvent, now: u64)
    requires
        s.prompts.renaming is None || !(event is Pressed),
    ensures
        ({
            let t = s.update(Message::Pointer { event: event, now: now });
            &&& t.state == s.on_pointer(event, now).state
            &&& t.actions == s.on_pointer(event, now).actions.push(Action::PublishVisibility)
        }),
{
    let m = Message::Pointer { event: event, now: now };
    reveal(BrokkrV::dispatch);
    reveal(BrokkrV::dispatch_ambient);
    assert(s.update(m).actions =~= s.dispatch(m).actions.push(Action::PublishVisibility));
}

/// While any of the five prompts is up the pointer does nothing at all; with none of
/// them it is noted when it was last used.
pub proof fn the_pointer_waits_for_the_cards(s: BrokkrV, event: PointerEvent, now: u64)
    ensures
        !no_card(s) ==> s.on_pointer(event, now).state == s && s.on_pointer(
            event,
            now,
        ).actions.len() == 0,
        no_card(s) ==> s.on_pointer(event, now).state.clock == (Clock {
            last_activity: now,
            ..s.clock
        }),
{
}

/// A move takes the pointer where it went, and what is held goes along: every stamp of
/// a stroke has the direction that its press settled, a camera drag goes from where
/// the pointer was to where it is, a cut or a choice waits for the release. A size
/// that is being set takes the move for itself. Once past what a click may, a drag
/// stays one. Nothing else changes.
pub proof fn a_move_goes_on_with_what_is_held(
    s: BrokkrV,
    to: Pixel,
    size: Pixel,
    past_slop: bool,
    now: u64,
)
    requires
        no_card(s),
    ensures
        ({
            let t = s.on_pointer(
                PointerEvent::Moved { position: to, size: size, past_slop: past_slop },
                now,
            );
            &&& t.state == (BrokkrV {
                hand: Hand {
                    cursor: Some(to),
                    viewport_size: size,
                    drag: match s.hand.drag {
                        Some(held) => Some(Drag { moved: held.moved || past_slop, ..held }),
                        None => None,
                    },
                    ..s.hand
                },
                clock: Clock { last_activity: now, ..s.clock },
                ..s
            })
            &&& s.hand.sizing is Some ==> t.actions == seq![
                Action::ApplySizing(to),
                Action::RefreshOverlay,
            ]
            &&& s.hand.sizing is None ==> match s.hand.drag {
                Some(held) => match held.kind {
                    DragKind::Sculpt(direction) => t.actions == seq![
                        Action::Sculpt { at: to, direction: direction, start: false },
                        Action::PickCube(to),
                    ],
                    DragKind::Orbit => t.actions == seq![
                        Action::Orbit { from: s.hand.cursor, to: to },
                        Action::PickCube(to),
                    ],
                    DragKind::Pan => t.actions == seq![
                        Action::Pan { from: s.hand.cursor, to: to },
                        Action::PickCube(to),
                    ],
                    _ => t.actions == seq![Action::PickCube(to)],
                },
                None => t.actions == seq![Action::PickCube(to)],
            }
        }),
{
}

/// Letting go of the button that is held ends the drag: a cut is asked for from where
/// it was pressed to where the pointer is, a stroke ends, and a right button that was
/// neither moved nor held for a quarter of a second opens the menu where it was
/// pressed. Any other button leaves what is held.
pub proof fn a_release_ends_what_its_button_held(s: BrokkrV, button: PointerButton, now: u64)
    requires
        no_card(s),
    ensures
        ({
            let t = s.on_pointer(PointerEvent::Released { button: button }, now);
            let here = BrokkrV { clock: Clock { last_activity: now, ..s.clock }, ..s };
            match s.hand.drag {
                Some(held) => if held.button == button {
                    &&& t.state == (BrokkrV {
                        hand: Hand { drag: None, ..s.hand },
                        menus: if button == PointerButton::Right && !held.moved && now
                            < held.pressed_at + 250 {
                            MenusV { menu: Some(held.origin), ..s.menus }
                        } else {
                            s.menus
                        },
                        ..here
                    })
                    &&& match held.kind {
                        DragKind::Cutting => s.hand.cursor matches Some(to) ==> t.actions == seq![
                            Action::Cut { from: held.origin, to: to },
                            Action::RefreshOverlay,
                        ],
                        DragKind::Sculpt(_) => t.actions == seq![
                            Action::EndStroke,
                            Action::RefreshOverlay,
                        ],
                        _ => t.actions == seq![Action::RefreshOverlay],
                    }
                } else {
                    t.state == here && t.actions == seq![Action::RefreshOverlay]
                },
                None => t.state == here && t.actions == seq![Action::RefreshOverlay],
            }
        }),
{
}

/// Held modifiers are remembered as they are, and the wheel zooms by what it turned.
pub proof fn modifiers_and_the_wheel_mean_what_they_say(
    s: BrokkrV,
    shift: bool,
    control: bool,
    alt: bool,
    amount: Scalar,
    now: u64,
)
    requires
        no_card(s),
    ensures
        ({
            let here = BrokkrV { clock: Clock { last_activity: now, ..s.clock }, ..s };
            let t = s.on_pointer(
                PointerEvent::Modifiers { shift: shift, control: control, alt: alt },
                now,
            );
            let z = s.on_pointer(PointerEvent::Scrolled { amount: amount }, now);
            &&& t.state == (BrokkrV {
                hand: Hand { shift: shift, control: control, alt: alt, ..s.hand },
                ..here
            })
            &&& t.actions == seq![Action::RefreshOverlay]
            &&& z.state == here
            &&& z.actions == seq![Action::Zoom(amount)]
        }),
{
}

/// The session with the pointer pressed somewhere.
pub open spec fn pressed_at(s: BrokkrV, at: Pixel, size: Pixel, now: u64) -> BrokkrV {
    BrokkrV {
        hand: Hand { cursor: Some(at), viewport_size: size, ..s.hand },
        clock: Clock { last_activity: now, ..s.clock },
        ..s
    }
}

/// The same with the button held.
pub open spec fn holding(
    s: BrokkrV,
    button: PointerButton,
    kind: DragKind,
    at: Pixel,
    size: Pixel,
    now: u64,
) -> BrokkrV {
    BrokkrV {
        hand: Hand {
            cursor: Some(at),
            viewport_size: size,
            drag: Some(
                Drag { button: button, kind: kind, origin: at, pressed_at: now, moved: false },
            ),
            ..s.hand
        },
        clock: Clock { last_activity: now, ..s.clock },
        ..s
    }
}

/// A press outside an open menu closes the menu, one of them, and does nothing else:
/// the brush menu before the one of the top bar, and that before the cube's.
pub proof fn an_open_menu_takes_the_press(
    s: BrokkrV,
    button: PointerButton,
    at: Pixel,
    size: Pixel,
    cube: Option<CubePart>,
    under: Option<NodeId>,
    pen: Pen,
    now: u64,
)
    requires
        no_card(s),
        !no_menu(s),
    ensures
        ({
            let t = s.on_pointer(
                PointerEvent::Pressed {
                    button: button,
                    position: at,
                    size: size,
                    cube: cube,
                    under: under,
                    pen: pen,
                },
                now,
            );
            &&& t.actions.len() == 0
            &&& t.state == (BrokkrV {
                menus: if s.menus.menu is Some {
                    MenusV { menu: None, ..s.menus }
                } else if s.menus.top_menu is Some {
                    MenusV { top_menu: None, ..s.menus }
                } else {
                    MenusV { cube_menu: None, ..s.menus }
                },
                ..pressed_at(s, at, size, now)
            })
        }),
{
}

/// A press on the cube starts no drag. The left button flies to the part that was
/// pressed; the right one opens the menu of the face that was pressed, there, and on
/// an edge or a corner nothing; the middle one does nothing.
pub proof fn a_press_on_the_cube_is_the_cubes(
    s: BrokkrV,
    button: PointerButton,
    at: Pixel,
    size: Pixel,
    part: CubePart,
    under: Option<NodeId>,
    pen: Pen,
    now: u64,
)
    requires
        no_card(s),
        no_menu(s),
    ensures
        ({
            let t = s.on_pointer(
                PointerEvent::Pressed {
                    button: button,
                    position: at,
                    size: size,
                    cube: Some(part),
                    under: under,
                    pen: pen,
                },
                now,
            );
            let here = pressed_at(s, at, size, now);
            &&& button == PointerButton::Left ==> t.state == here && t.actions == seq![
                Action::FlyTo(part),
            ]
            &&& button != PointerButton::Left ==> t.actions.len() == 0
            &&& button == PointerButton::Middle ==> t.state == here
            &&& button == PointerButton::Right ==> t.state == (if part.extremes == 1
                && part.facing is Some {
                BrokkrV {
                    menus: MenusV {
                        cube_menu: Some(CubeMenu { at: at, facing: part.facing->0 }),
                        ..s.menus
                    },
                    ..here
                }
            } else {
                here
            })
        }),
{
}

/// The right and the middle button turn the camera, and with shift held they shift
/// it, whatever is under the pointer, armed or being sized.
pub proof fn the_other_buttons_move_the_camera(
    s: BrokkrV,
    button: PointerButton,
    at: Pixel,
    size: Pixel,
    under: Option<NodeId>,
    pen: Pen,
    now: u64,
)
    requires
        no_card(s),
        no_menu(s),
        button != PointerButton::Left,
    ensures
        ({
            let t = s.on_pointer(
                PointerEvent::Pressed {
                    button: button,
                    position: at,
                    size: size,
                    cube: None,
                    under: under,
                    pen: pen,
                },
                now,
            );
            let kind = if s.hand.shift {
                DragKind::Pan
            } else {
                DragKind::Orbit
            };
            &&& t.state == holding(s, button, kind, at, size, now)
            &&& t.actions == seq![Action::HoverAny(at), Action::RefreshOverlay]
        }),
{
}

/// With the cut armed the left button draws its line, and while a size is being set it
/// holds that; neither touches the model or the selection.
pub proof fn an_armed_cut_takes_the_left_button(
    s: BrokkrV,
    at: Pixel,
    size: Pixel,
    under: Option<NodeId>,
    pen: Pen,
    now: u64,
)
    requires
        no_card(s),
        no_menu(s),
        s.hand.cut_armed || s.hand.sizing is Some,
    ensures
        ({
            let t = s.on_pointer(
                PointerEvent::Pressed {
                    button: PointerButton::Left,
                    position: at,
                    size: size,
                    cube: None,
                    under: under,
                    pen: pen,
                },
                now,
            );
            let kind = if s.hand.cut_armed {
                DragKind::Cutting
            } else {
                DragKind::Sizing
            };
            &&& t.state == holding(s, PointerButton::Left, kind, at, size, now)
            &&& t.actions == seq![Action::HoverAny(at), Action::RefreshOverlay]
        }),
{
}

/// Whether a press sculpts: on the active body, or beside every body while the active
/// one is drawn.
pub open spec fn sculpts(s: BrokkrV, under: Option<NodeId>) -> bool {
    match under {
        Some(body) => body == s.outline.active,
        None => s.outline.at(s.outline.active) < s.looking.shown.len()
            && s.looking.shown[s.outline.at(s.outline.active)],
    }
}

/// Which way a stroke goes: a brush that has an opposite takes away where a modifier
/// is held or the pen is turned over, and adds where both are or neither is; a brush
/// without one adds.
pub open spec fn settled_direction(s: BrokkrV, pen: Pen) -> BrushDirection {
    if s.tool.brush.kind.directional && ((s.hand.control || s.hand.alt) != (pen.in_proximity
        && pen.eraser)) {
        BrushDirection::Subtract
    } else {
        BrushDirection::Add
    }
}

/// A left press on the active body starts a stroke right there, in the direction that
/// the modifiers and the pen settle, and the ring follows the active body alone.
pub proof fn a_press_on_the_active_body_starts_a_stroke(
    s: BrokkrV,
    at: Pixel,
    size: Pixel,
    under: Option<NodeId>,
    pen: Pen,
    now: u64,
)
    requires
        s.wf(),
        no_card(s),
        no_menu(s),
        !s.hand.cut_armed,
        s.hand.sizing is None,
        sculpts(s, under),
    ensures
        ({
            let t = s.on_pointer(
                PointerEvent::Pressed {
                    button: PointerButton::Left,
                    position: at,
                    size: size,
                    cube: None,
                    under: under,
                    pen: pen,
                },
                now,
            );
            let direction = settled_direction(s, pen);
            &&& t.state == holding(
                s,
                PointerButton::Left,
                DragKind::Sculpt(direction),
                at,
                size,
                now,
            )
            &&& t.actions == seq![
                Action::Sculpt { at: at, direction: direction, start: true },
                Action::HoverActive(at),
                Action::RefreshOverlay,
            ]
        }),
{
}

/// A left press on another body chooses that body and does not sculpt, nor does the
/// drag that follows.
pub proof fn a_press_on_another_body_chooses_it(
    s: BrokkrV,
    at: Pixel,
    size: Pixel,
    body: NodeId,
    i: int,
    pen: Pen,
    now: u64,
)
    requires
        s.wf(),
        no_card(s),
        no_menu(s),
        !s.hand.cut_armed,
        s.hand.sizing is None,
        s.outline.is_at(body, i),
        s.outline.rows[i].is_body,
        body != s.outline.active,
    ensures
        ({
            let t = s.on_pointer(
                PointerEvent::Pressed {
                    button: PointerButton::Left,
                    position: at,
                    size: size,
                    cube: None,
                    under: Some(body),
                    pen: pen,
                },
                now,
            );
            &&& t.state == (BrokkrV {
                outline: OutlineV { active: body, ..s.outline },
                books: Books { model_radius_body: Some(body), ..s.books },
                status: "selected "@ + s.outline.rows[i].name,
                ..holding(s, PointerButton::Left, DragKind::Selecting, at, size, now)
            })
            &&& t.actions == seq![
                Action::SetActive(body),
                Action::HoverAny(at),
                Action::RefreshOverlay,
            ]
        }),
{
    let o = s.outline;
    outline::lemma_at(o, body, i);
    outline::lemma_run_end(o.rows, i, i + 1);
    assert(o.first_body_in(body) == Some(body)) by {
        reveal_with_fuel(outline::first_body, 2);
    }
}

/// A left press beside every body, while the active one is not drawn, is refused and
/// sculpts nothing; the line says whether the body is hidden or outside the solo.
pub proof fn a_press_is_refused_while_the_active_body_is_not_drawn(
    s: BrokkrV,
    at: Pixel,
    size: Pixel,
    pen: Pen,
    now: u64,
)
    requires
        s.wf(),
        no_card(s),
        no_menu(s),
        !s.hand.cut_armed,
        s.hand.sizing is None,
        !sculpts(s, None),
    ensures
        ({
            let t = s.on_pointer(
                PointerEvent::Pressed {
                    button: PointerButton::Left,
                    position: at,
                    size: size,
                    cube: None,
                    under: None,
                    pen: pen,
                },
                now,
            );
            let inside = match s.looking.solo {
                Some(solo) => s.outline.has(solo) ==> outline::within(
                    s.outline.rows,
                    s.outline.at(solo),
                    s.outline.at(s.outline.active),
                ),
                None => true,
            };
            &&& t.state == (BrokkrV {
                status: s.outline.name_of(s.outline.active) + (if inside {
                    " is hidden — show it before sculpting it"@
                } else {
                    " is outside the solo scope — escape leaves solo"@
                }),
                ..holding(s, PointerButton::Left, DragKind::Refused, at, size, now)
            })
            &&& t.actions == seq![Action::HoverAny(at), Action::RefreshOverlay]
        }),
{
    outline::lemma_active(s.outline);
}

/// A stroke is of one direction from its first stamp to its last: what the press
/// settled is what a move stamps, and the release ends it without another stamp. So a
/// modifier held at the press makes every stamp of a directional brush take away.
pub proof fn a_stroke_is_of_one_direction(
    s: BrokkrV,
    at: Pixel,
    size: Pixel,
    under: Option<NodeId>,
    pen: Pen,
    to: Pixel,
    past_slop: bool,
    now: u64,
    later: u64,
    last: u64,
)
    requires
        s.wf(),
        no_card(s),
        no_menu(s),
        !s.hand.cut_armed,
        s.hand.sizing is None,
        sculpts(s, under),
    ensures
        ({
            let pressed = s.on_pointer(
                PointerEvent::Pressed {
                    button: PointerButton::Left,
                    position: at,
                    size: size,
                    cube: None,
                    under: under,
                    pen: pen,
                },
                now,
            );
            let moved = pressed.state.on_pointer(
                PointerEvent::Moved { position: to, size: size, past_slop: past_slop },
                later,
            );
            let over = moved.state.on_pointer(
                PointerEvent::Released { button: PointerButton::Left },
                last,
            );
            let direction = settled_direction(s, pen);
            &&& pressed.actions[0] == (Action::Sculpt {
                at: at,
                direction: direction,
                start: true,
            })
            &&& moved.actions == seq![
                Action::Sculpt { at: to, direction: direction, start: false },
                Action::PickCube(to),
            ]
            &&& over.actions == seq![Action::EndStroke, Action::RefreshOverlay]
            &&& over.state.hand.drag is None
            &&& s.tool.brush.kind.directional && (s.hand.control || s.hand.alt) && !(
            pen.in_proximity && pen.eraser) ==> direction == BrushDirection::Subtract
            &&& !s.hand.control && !s.hand.alt && !(pen.in_proximity && pen.eraser) ==> direction
                == BrushDirection::Add
        }),
{
    a_press_on_the_active_body_starts_a_stroke(s, at, size, under, pen, now);
    let pressed = s.on_pointer(
        PointerEvent::Pressed {
            button: PointerButton::Left,
            position: at,
            size: size,
            cube: None,
            under: under,
            pen: pen,
        },
        now,
    ).state;
    a_move_goes_on_with_what_is_held(pressed, to, size, past_slop, later);
    let moved = pressed.on_pointer(
        PointerEvent::Moved { position: to, size: size, past_slop: past_slop },
        later,
    ).state;
    a_release_ends_what_its_button_held(moved, PointerButton::Left, last);
}

/// A modifier that comes or goes while a stroke is on does not turn it: the next stamp
/// has the direction that the press settled, and so has every later one.
pub proof fn a_modifier_does_not_turn_a_stroke(
    s: BrokkrV,
    held: Drag,
    direction: BrushDirection,
    shift: bool,
    control: bool,
    alt: bool,
    to: Pixel,
    size: Pixel,
    past_slop: bool,
    now: u64,
)
    requires
        no_card(s),
        s.hand.sizing is None,
        s.hand.drag == Some(held),
        held.kind == DragKind::Sculpt(direction),
    ensures
        ({
            let after = s.on_pointer(
                PointerEvent::Modifiers { shift: shift, control: control, alt: alt },
                now,
            ).state;
            let moved = after.on_pointer(
                PointerEvent::Moved { position: to, size: size, past_slop: past_slop },
                now,
            );
            &&& moved.actions == seq![
                Action::Sculpt { at: to, direction: direction, start: false },
                Action::PickCube(to),
            ]
            &&& moved.state.hand.drag matches Some(still) && still.kind == DragKind::Sculpt(
                direction,
            )
        }),
{
}

/// Whether a request is for a cut.
pub open spec fn is_cut(a: Action) -> bool {
    a is Cut
}

/// With the cut armed, pressing at one place, moving to another and letting go asks
/// for one cut in all, at the release: from the place that was pressed to the place
/// that was reached.
pub proof fn a_cut_goes_from_the_press_to_the_release(
    s: BrokkrV,
    from: Pixel,
    to: Pixel,
    size: Pixel,
    under: Option<NodeId>,
    pen: Pen,
    past_slop: bool,
    now: u64,
    later: u64,
    last: u64,
    i: int,
)
    requires
        no_card(s),
        no_menu(s),
        s.hand.cut_armed,
    ensures
        ({
            let pressed = s.on_pointer(
                PointerEvent::Pressed {
                    button: PointerButton::Left,
                    position: from,
                    size: size,
                    cube: None,
                    under: under,
                    pen: pen,
                },
                now,
            );
            let moved = pressed.state.on_pointer(
                PointerEvent::Moved { position: to, size: size, past_slop: past_slop },
                later,
            );
            let over = moved.state.on_pointer(
                PointerEvent::Released { button: PointerButton::Left },
                last,
            );
            &&& over.actions == seq![Action::Cut { from: from, to: to }, Action::RefreshOverlay]
            &&& 0 <= i < pressed.actions.len() ==> !is_cut(pressed.actions[i])
            &&& 0 <= i < moved.actions.len() ==> !is_cut(moved.actions[i])
        }),
{
    an_armed_cut_takes_the_left_button(s, from, size, under, pen, now);
    let pressed = s.on_pointer(
        PointerEvent::Pressed {
            button: PointerButton::Left,
            position: from,
            size: size,
            cube: None,
            under: under,
            pen: pen,
        },
        now,
    ).state;
    a_move_goes_on_with_what_is_held(pressed, to, size, past_slop, later);
    let moved = pressed.on_pointer(
        PointerEvent::Moved { position: to, size: size, past_slop: past_slop },
        later,
    ).state;
    a_release_ends_what_its_button_held(moved, PointerButton::Left, last);
}

/// A right button pressed and let go in place within a quarter of a second opens the
/// menu where it was pressed; held longer, or moved past what a click may, it does
/// not.
pub proof fn only_a_click_opens_the_menu(
    s: BrokkrV,
    at: Pixel,
    to: Pixel,
    size: Pixel,
    under: Option<NodeId>,
    pen: Pen,
    past_slop: bool,
    now: u64,
    last: u64,
)
    requires
        no_card(s),
        no_menu(s),
    ensures
        ({
            let pressed = s.on_pointer(
                PointerEvent::Pressed {
                    button: PointerButton::Right,
                    position: at,
                    size: size,
                    cube: None,
                    under: under,
                    pen: pen,
                },
                now,
            );
            let moved = pressed.state.on_pointer(
                PointerEvent::Moved { position: to, size: size, past_slop: past_slop },
                now,
            );
            let over = moved.state.on_pointer(
                PointerEvent::Released { button: PointerButton::Right },
                last,
            );
            over.state.menus.menu == if !past_slop && last < now + 250 {
                Some(at)
            } else {
                None
            }
        }),
{
    the_other_buttons_move_the_camera(s, PointerButton::Right, at, size, under, pen, now);
    let pressed = s.on_pointer(
        PointerEvent::Pressed {
            button: PointerButton::Right,
            position: at,
            size: size,
            cube: None,
            under: under,
            pen: pen,
        },
        now,
    ).state;
    a_move_goes_on_with_what_is_held(pressed, to, size, past_slop, now);
    let moved = pressed.on_pointer(
        PointerEvent::Moved { position: to, size: size, past_slop: past_slop },
        now,
    ).state;
    a_release_ends_what_its_button_held(moved, PointerButton::Right, last);
}

/// What of the cube is under the pointer is lit, and the cube is redrawn where that
/// changed. Over the cube the ring goes; beside it the ring is looked for at the
/// pointer, on the active body alone while a stroke is on.
pub proof fn the_cube_lights_what_is_under_the_pointer(
    s: BrokkrV,
    part: Option<CubePart>,
    at: Pixel,
)
    ensures
        ({
            let t = s.cube_picked(part, at);
            let stroking = s.hand.drag matches Some(held) && held.kind is Sculpt;
            &&& t.state == (BrokkrV {
                looking: LookingV {
                    cube_hover: part,
                    hover_body: if part is Some {
                        None
                    } else {
                        s.looking.hover_body
                    },
                    ..s.looking
                },
                ..s
            })
            &&& t.actions == (if part == s.looking.cube_hover {
                seq![]
            } else {
                seq![Action::RefreshCube]
            }) + (if part is Some {
                seq![Action::RefreshOverlay]
            } else if stroking {
                seq![Action::HoverActive(at), Action::RefreshOverlay]
            } else {
                seq![Action::HoverAny(at), Action::RefreshOverlay]
            })
        }),
{
}

} // verus!
