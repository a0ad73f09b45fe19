//! The pointer over the viewport: presses, drags, the cut, and hovering.
use vstd::prelude::*;

use crate::action::{Action, CutOutcome};
use crate::message::PointerEvent;
use crate::outline;
use crate::outline::NodeId;
use crate::state::{Brokkr, BrokkrV, Clock, Hand, LookingV, MenusV, Step, CLICK_MS};
use crate::text;
use crate::values::{
    CubeMenu, CubePart, Drag, DragKind, HistoryNote, Pen, Pixel, PointerButton,
};

verus! {

/// What a press turned out to be, and what it asked for on the way.
pub struct PressV {
    pub state: BrokkrV,
    pub kind: DragKind,
    pub actions: Seq<Action>,
}

/// The request that finds what is under the pointer. During a stroke that is the
/// active body's surface alone.
pub open spec fn hover_request(drag: Option<Drag>, at: Pixel) -> Action {
    match drag {
        Some(drag) => if drag.kind is Sculpt {
            Action::HoverActive(at)
        } else {
            Action::HoverAny(at)
        },
        None => Action::HoverAny(at),
    }
}

impl BrokkrV {
    /// Whether a card is up that takes the pointer and the keyboard.
    pub open spec fn modal_open(self) -> bool {
        ||| self.prompts.confirm is Some
        ||| self.prompts.orient_prompt is Some
        ||| self.prompts.bug_report is Some
        ||| self.prompts.pending_delete is Some
        ||| self.prompts.pending_merge is Some
    }

    /// The session with other menus open.
    pub open spec fn with_menus(self, menus: MenusV) -> BrokkrV {
        BrokkrV { menus: menus, ..self }
    }

    /// The session with something else under the pointer.
    pub open spec fn hovering(self, body: Option<NodeId>) -> BrokkrV {
        BrokkrV { looking: LookingV { hover_body: body, ..self.looking }, ..self }
    }

    /// The session at the time of a pointer event.
    pub open spec fn touched_at(self, now: u64) -> BrokkrV {
        BrokkrV { clock: Clock { last_activity: now, ..self.clock }, ..self }
    }

    /// The session with the pointer somewhere.
    pub open spec fn pointing_at(self, position: Pixel, size: Pixel) -> BrokkrV {
        self.handling(Hand { cursor: Some(position), viewport_size: size, ..self.hand })
    }

    /// What an open menu makes of a press: the first one that is open closes.
    pub open spec fn menu_swallows(self) -> Option<MenusV> {
        if self.menus.menu is Some {
            Some(MenusV { menu: None, ..self.menus })
        } else if self.menus.top_menu is Some {
            Some(MenusV { top_menu: None, ..self.menus })
        } else if self.menus.cube_menu is Some {
            Some(MenusV { cube_menu: None, ..self.menus })
        } else {
            None
        }
    }

    /// A press on the navigation cube: the left button flies there, the right
    /// one opens a face's menu, and none of them starts a drag.
    pub open spec fn press_cube(self, button: PointerButton, at: Pixel, part: CubePart) -> Step {
        match button {
            PointerButton::Left => self.asking(Action::FlyTo(part)),
            PointerButton::Right => match part.facing {
                Some(facing) => if part.extremes == 1 {
                    self.with_menus(
                        MenusV {
                            cube_menu: Some(CubeMenu { at: at, facing: facing }),
                            ..self.menus
                        },
                    ).quiet()
                } else {
                    self.quiet()
                },
                None => self.quiet(),
            },
            PointerButton::Middle => self.quiet(),
        }
    }

    /// Why the active body cannot be sculpted while it is not drawn.
    pub open spec fn not_drawn_line(self) -> Seq<char> {
        let name = self.outline.name_or(self.outline.active, "the active body"@);
        if self.in_solo_scope(self.outline.active) {
            name + " is hidden — show it before sculpting it"@
        } else {
            name + " is outside the solo scope — escape leaves solo"@
        }
    }

    /// What a press in the viewport is.
    pub open spec fn press_kind(
        self,
        button: PointerButton,
        under: Option<NodeId>,
        pen: Pen,
    ) -> PressV {
        match button {
            PointerButton::Left => if self.hand.cut_armed {
                PressV { state: self, kind: DragKind::Cutting, actions: seq![] }
            } else if self.hand.sizing is Some {
                PressV { state: self, kind: DragKind::Sizing, actions: seq![] }
            } else {
                match under {
                    Some(body) => if body != self.outline.active {
                        let selected = self.select_body(body);
                        PressV {
                            state: selected.state,
                            kind: DragKind::Selecting,
                            actions: selected.actions,
                        }
                    } else {
                        PressV {
                            state: self,
                            kind: DragKind::Sculpt(self.stroke_direction(pen)),
                            actions: seq![],
                        }
                    },
                    None => if self.active_is_drawn() {
                        PressV {
                            state: self,
                            kind: DragKind::Sculpt(self.stroke_direction(pen)),
                            actions: seq![],
                        }
                    } else {
                        PressV {
                            state: self.saying(self.not_drawn_line()),
                            kind: DragKind::Refused,
                            actions: seq![],
                        }
                    },
                }
            },
            _ => PressV {
                state: self,
                kind: if self.hand.shift {
                    DragKind::Pan
                } else {
                    DragKind::Orbit
                },
                actions: seq![],
            },
        }
    }

    /// A press that starts a drag.
    pub open spec fn press_viewport(
        self,
        button: PointerButton,
        position: Pixel,
        under: Option<NodeId>,
        pen: Pen,
        now: u64,
    ) -> Step {
        let press = self.press_kind(button, under, pen);
        let drag = Some(
            Drag {
                button: button,
                kind: press.kind,
                origin: position,
                pressed_at: now,
                moved: false,
            },
        );
        Step {
            state: press.state.handling(Hand { drag: drag, ..press.state.hand }),
            actions: press.actions + (match press.kind {
                DragKind::Sculpt(direction) => seq![
                    Action::Sculpt { at: position, direction: direction, start: true },
                ],
                _ => seq![],
            }) + seq![hover_request(drag, position), Action::RefreshOverlay],
        }
    }

    /// A press: an open menu swallows it, then the cube has it, then the
    /// viewport.
    pub open spec fn press(
        self,
        button: PointerButton,
        position: Pixel,
        size: Pixel,
        cube: Option<CubePart>,
        under: Option<NodeId>,
        pen: Pen,
        now: u64,
    ) -> Step {
        let here = self.pointing_at(position, size);
        match here.menu_swallows() {
            Some(menus) => here.with_menus(menus).quiet(),
            None => match cube {
                Some(part) => here.press_cube(button, position, part),
                None => here.press_viewport(button, position, under, pen, now),
            },
        }
    }

    /// Whether a held button, let go now, was a click.
    pub open spec fn was_click(drag: Drag, now: u64) -> bool {
        !drag.moved && now - drag.pressed_at < CLICK_MS
    }

    /// A button let go. One that started no drag changes nothing.
    pub open spec fn release(self, button: PointerButton, now: u64) -> Step {
        match self.hand.drag {
            Some(drag) => if drag.button == button {
                let dropped = self.handling(Hand { drag: None, ..self.hand });
                Step {
                    state: if button == PointerButton::Right && Self::was_click(drag, now) {
                        dropped.with_menus(MenusV { menu: Some(drag.origin), ..self.menus })
                    } else {
                        dropped
                    },
                    actions: (match drag.kind {
                        DragKind::Cutting => match self.hand.cursor {
                            Some(to) => seq![Action::Cut { from: drag.origin, to: to }],
                            None => seq![],
                        },
                        DragKind::Sculpt(_) => seq![Action::EndStroke],
                        _ => seq![],
                    }) + seq![Action::RefreshOverlay],
                }
            } else {
                self.asking(Action::RefreshOverlay)
            },
            None => self.asking(Action::RefreshOverlay),
        }
    }

    /// The held button, once the pointer has gone past what a click may. It
    /// never goes back.
    pub open spec fn drag_after_move(self, past_slop: bool) -> Option<Drag> {
        match self.hand.drag {
            Some(drag) => Some(Drag { moved: drag.moved || past_slop, ..drag }),
            None => None,
        }
    }

    /// The pointer moved. While the brush is being sized that is all it does.
    pub open spec fn moved(self, position: Pixel, size: Pixel, past_slop: bool) -> Step {
        let from = self.hand.cursor;
        let drag = self.drag_after_move(past_slop);
        let here = self.handling(
            Hand { cursor: Some(position), viewport_size: size, drag: drag, ..self.hand },
        );
        Step {
            state: here,
            actions: if self.hand.sizing is Some {
                seq![Action::ApplySizing(position), Action::RefreshOverlay]
            } else {
                (match drag {
                    Some(drag) => match drag.kind {
                        DragKind::Sculpt(direction) => seq![
                            Action::Sculpt { at: position, direction: direction, start: false },
                        ],
                        DragKind::Orbit => seq![Action::Orbit { from: from, to: position }],
                        DragKind::Pan => seq![Action::Pan { from: from, to: position }],
                        _ => seq![],
                    },
                    None => seq![],
                }) + seq![Action::PickCube(position)]
            },
        }
    }

    /// What of the navigation cube is under the pointer. Where something is, the
    /// brush ring goes.
    pub open spec fn cube_picked(self, part: Option<CubePart>, at: Pixel) -> Step {
        let lit = BrokkrV {
            looking: LookingV { cube_hover: part, ..self.looking },
            ..self
        };
        Step {
            state: if part is Some {
                lit.hovering(None)
            } else {
                lit
            },
            actions: (if part != self.looking.cube_hover {
                seq![Action::RefreshCube]
            } else {
                seq![]
            }) + (if part is Some {
                seq![Action::RefreshOverlay]
            } else {
                seq![hover_request(self.hand.drag, at), Action::RefreshOverlay]
            }),
        }
    }

    /// Everything the pointer does. Under a card it does nothing.
    pub open spec fn on_pointer(self, event: PointerEvent, now: u64) -> Step {
        if self.modal_open() {
            self.quiet()
        } else {
            let here = self.touched_at(now);
            match event {
                PointerEvent::Modifiers { shift, control, alt } => here.handling(
                    Hand { shift: shift, control: control, alt: alt, ..here.hand },
                ).asking(Action::RefreshOverlay),
                PointerEvent::Pressed { button, position, size, cube, under, pen } => here.press(
                    button,
                    position,
                    size,
                    cube,
                    under,
                    pen,
                    now,
                ),
                PointerEvent::Released { button } => here.release(button, now),
                PointerEvent::Moved { position, size, past_slop } => here.moved(
                    position,
                    size,
                    past_slop,
                ),
                PointerEvent::Scrolled { amount } => here.asking(Action::Zoom(amount)),
            }
        }
    }

    /// The session with the cut put away.
    pub open spec fn disarmed(self) -> BrokkrV {
        self.handling(Hand { cut_armed: false, ..self.hand })
    }

    /// A cut that was drawn. One that was no line leaves the cut armed.
    pub open spec fn cut_done(self, outcome: CutOutcome) -> Step {
        match outcome {
            CutOutcome::TooShort => self.saying(
                "cut cancelled: drag a line across the model"@,
            ).quiet(),
            CutOutcome::NoDirection => self.saying(
                "cut cancelled: that line has no direction"@,
            ).quiet(),
            CutOutcome::Clipped { bricks, bodies_cut, bodies_crossed, history } => if bricks > 0 {
                let line = "cut "@ + text::decimal(bricks as nat) + " bricks"@;
                Step {
                    state: self.dirty().saying(
                        if bodies_cut > 1 {
                            line + " across "@ + text::decimal(bodies_cut as nat) + " bodies"@
                        } else {
                            line
                        },
                    ).record_history(history).disarmed(),
                    actions: seq![Action::Remesh, Action::RefreshOverlay],
                }
            } else {
                self.saying(
                    if bodies_crossed > 0 {
                        "the cut crossed "@ + text::decimal(bodies_crossed as nat)
                            + " bodies and found nothing to remove"@
                    } else {
                        "the cut missed the model"@
                    },
                ).disarmed().quiet()
            },
        }
    }

    /// A stroke that ended: where it changed something, there is work to save.
    pub open spec fn stroke_ended(self, edit: Option<HistoryNote>) -> BrokkrV {
        match edit {
            Some(note) => self.record_history(note).dirty(),
            None => self,
        }
    }

    /// The cut armed or put away.
    pub open spec fn cut_toggled(self) -> BrokkrV {
        self.handling(Hand { cut_armed: !self.hand.cut_armed, ..self.hand }).saying(
            if self.hand.cut_armed {
                ""@
            } else {
                "cut armed: drag a line across the model, the left of the arrow goes"@
            },
        )
    }
}

fn hover_action(drag: Option<Drag>, at: Pixel) -> (r: Action)
    ensures
        r == hover_request(drag, at),
{
    match drag {
        Some(drag) => match drag.kind {
            DragKind::Sculpt(_) => Action::HoverActive(at),
            _ => Action::HoverAny(at),
        },
        None => Action::HoverAny(at),
    }
}

impl Brokkr {
    /// Whether a card is up that takes the pointer and the keyboard.
    pub fn modal_open(&self) -> (r: bool)
        ensures
            r == self@.modal_open(),
    {
        self.prompts.confirm.is_some() || self.prompts.orient_prompt.is_some()
            || self.prompts.bug_report.is_some() || self.prompts.pending_delete.is_some()
            || self.prompts.pending_merge.is_some()
    }

    fn menu_swallows(&mut self) -> (r: bool)
        requires
            old(self)@.wf(),
        ensures
            r == old(self)@.menu_swallows() is Some,
            final(self)@ == match old(self)@.menu_swallows() {
                Some(menus) => old(self)@.with_menus(menus),
                None => old(self)@,
            },
            final(self)@.wf(),
    {
        if self.menus.menu.is_some() {
            self.menus.menu = None;
            true
        } else if self.menus.top_menu.is_some() {
            self.menus.top_menu = None;
            true
        } else if self.menus.cube_menu.is_some() {
            self.menus.cube_menu = None;
            true
        } else {
            false
        }
    }

    fn press_cube(&mut self, button: PointerButton, at: Pixel, part: CubePart) -> (actions: Vec<
        Action,
    >)
        requires
            old(self)@.wf(),
        ensures
            final(self)@ == old(self)@.press_cube(button, at, part).state,
            actions@ == old(self)@.press_cube(button, at, part).actions,
            final(self)@.wf(),
    {
        match button {
            PointerButton::Left => vec![Action::FlyTo(part)],
            PointerButton::Right => {
                match part.facing {
                    Some(facing) => {
                        if part.extremes == 1 {
                            self.menus.cube_menu = Some(CubeMenu { at, facing });
                        }
                    },
                    None => {},
                }
                Vec::new()
            },
            PointerButton::Middle => Vec::new(),
        }
    }

    fn not_drawn_line(&self) -> (r: String)
        requires
            self@.wf(),
        ensures
            r@ == self@.not_drawn_line(),
    {
        let active: NodeId = self.outline.active;
        let name: String = self.outline.name_or(active, "the active body");
        if self.in_solo_scope(active) {
            name.concat(" is hidden — show it before sculpting it")
        } else {
            name.concat(" is outside the solo scope — escape leaves solo")
        }
    }

    fn press_kind(&mut self, button: PointerButton, under: Option<NodeId>, pen: Pen) -> (r: (
        DragKind,
        Vec<Action>,
    ))
        requires
            old(self)@.wf(),
        ensures
            final(self)@ == old(self)@.press_kind(button, under, pen).state,
            r.0 == old(self)@.press_kind(button, under, pen).kind,
            r.1@ == old(self)@.press_kind(button, under, pen).actions,
            final(self)@.wf(),
    {
        match button {
            PointerButton::Left => {
                if self.hand.cut_armed {
                    (DragKind::Cutting, Vec::new())
                } else if self.hand.sizing.is_some() {
                    (DragKind::Sizing, Vec::new())
                } else {
                    match under {
                        Some(body) => {
                            if body != self.outline.active {
                                let actions: Vec<Action> = self.select_body(body);
                                (DragKind::Selecting, actions)
                            } else {
                                (DragKind::Sculpt(self.stroke_direction(pen)), Vec::new())
                            }
                        },
                        None => {
                            if self.active_is_drawn() {
                                (DragKind::Sculpt(self.stroke_direction(pen)), Vec::new())
                            } else {
                                let line: String = self.not_drawn_line();
                                self.status = line;
                                (DragKind::Refused, Vec::new())
                            }
                        },
                    }
                }
            },
            _ => {
                if self.hand.shift {
                    (DragKind::Pan, Vec::new())
                } else {
                    (DragKind::Orbit, Vec::new())
                }
            },
        }
    }

    fn press_viewport(
        &mut self,
        button: PointerButton,
        position: Pixel,
        under: Option<NodeId>,
        pen: Pen,
        now: u64,
    ) -> (actions: Vec<Action>)
        requires
            old(self)@.wf(),
        ensures
            final(self)@ == old(self)@.press_viewport(button, position, under, pen, now).state,
            actions@ == old(self)@.press_viewport(button, position, under, pen, now).actions,
            final(self)@.wf(),
    {
        let (kind, first) = self.press_kind(button, under, pen);
        let drag: Option<Drag> = Some(
            Drag { button, kind, origin: position, pressed_at: now, moved: false },
        );
        self.hand.drag = drag;
        let mut actions: Vec<Action> = first;
        match kind {
            DragKind::Sculpt(direction) => {
                actions.push(Action::Sculpt { at: position, direction, start: true });
            },
            _ => {},
        }
        actions.push(hover_action(drag, position));
        actions.push(Action::RefreshOverlay);
        assert(actions@ =~= old(self)@.press_viewport(button, position, under, pen, now).actions);
        actions
    }

    fn press(
        &mut self,
        button: PointerButton,
        position: Pixel,
        size: Pixel,
        cube: Option<CubePart>,
        under: Option<NodeId>,
        pen: Pen,
        now: u64,
    ) -> (actions: Vec<Action>)
        requires
            old(self)@.wf(),
        ensures
            final(self)@ == old(self)@.press(button, position, size, cube, under, pen, now).state,
            actions@ == old(self)@.press(button, position, size, cube, under, pen, now).actions,
            final(self)@.wf(),
    {
        self.hand.viewport_size = size;
        self.hand.cursor = Some(position);
        assert(self@ == old(self)@.pointing_at(position, size));
        if self.menu_swallows() {
            return Vec::new();
        }
        match cube {
            Some(part) => self.press_cube(button, position, part),
            None => self.press_viewport(button, position, under, pen, now),
        }
    }

    fn release(&mut self, button: PointerButton, now: u64) -> (actions: Vec<Action>)
        requires
            old(self)@.wf(),
        ensures
            final(self)@ == old(self)@.release(button, now).state,
            actions@ == old(self)@.release(button, now).actions,
            final(self)@.wf(),
    {
        let mut actions: Vec<Action> = Vec::new();
        match self.hand.drag {
            Some(drag) => {
                if drag.button == button {
                    match drag.kind {
                        DragKind::Cutting => match self.hand.cursor {
                            Some(to) => {
                                actions.push(Action::Cut { from: drag.origin, to });
                            },
                            None => {},
                        },
                        DragKind::Sculpt(_) => {
                            actions.push(Action::EndStroke);
                        },
                        _ => {},
                    }
                    let quick: bool = now < drag.pressed_at || now - drag.pressed_at < CLICK_MS;
                    if button == PointerButton::Right && !drag.moved && quick {
                        self.menus.menu = Some(drag.origin);
                    }
                    self.hand.drag = None;
                }
            },
            None => {},
        }
        actions.push(Action::RefreshOverlay);
        assert(actions@ =~= old(self)@.release(button, now).actions);
        actions
    }

    fn moved(&mut self, position: Pixel, size: Pixel, past_slop: bool) -> (actions: Vec<Action>)
        requires
            old(self)@.wf(),
        ensures
            final(self)@ == old(self)@.moved(position, size, past_slop).state,
            actions@ == old(self)@.moved(position, size, past_slop).actions,
            final(self)@.wf(),
    {
        let from: Option<Pixel> = self.hand.cursor;
        self.hand.viewport_size = size;
        self.hand.cursor = Some(position);
        let drag: Option<Drag> = match self.hand.drag {
            Some(mut drag) => {
                drag.moved = drag.moved || past_slop;
                Some(drag)
            },
            None => None,
        };
        self.hand.drag = drag;
        let mut actions: Vec<Action> = Vec::new();
        if self.hand.sizing.is_some() {
            actions.push(Action::ApplySizing(position));
            actions.push(Action::RefreshOverlay);
        } else {
            match drag {
                Some(drag) => match drag.kind {
                    DragKind::Sculpt(direction) => {
                        actions.push(Action::Sculpt { at: position, direction, start: false });
                    },
                    DragKind::Orbit => {
                        actions.push(Action::Orbit { from, to: position });
                    },
                    DragKind::Pan => {
                        actions.push(Action::Pan { from, to: position });
                    },
                    _ => {},
                },
                None => {},
            }
            actions.push(Action::PickCube(position));
        }
        assert(actions@ =~= old(self)@.moved(position, size, past_slop).actions);
        actions
    }

    /// Takes in what of the navigation cube is under the pointer.
    pub fn cube_picked(&mut self, part: Option<CubePart>, at: Pixel) -> (actions: Vec<Action>)
        requires
            old(self)@.wf(),
        ensures
            final(self)@ == old(self)@.cube_picked(part, at).state,
            actions@ == old(self)@.cube_picked(part, at).actions,
            final(self)@.wf(),
    {
        let mut actions: Vec<Action> = Vec::new();
        let same: bool = match (part, self.looking.cube_hover) {
            (Some(a), Some(b)) => a == b,
            (None, None) => true,
            _ => false,
        };
        self.looking.cube_hover = part;
        if !same {
            actions.push(Action::RefreshCube);
        }
        if part.is_some() {
            self.looking.hover_body = None;
        } else {
            actions.push(hover_action(self.hand.drag, at));
        }
        actions.push(Action::RefreshOverlay);
        assert(actions@ =~= old(self)@.cube_picked(part, at).actions);
        actions
    }

    /// Takes in what the pointer did.
    pub fn on_pointer(&mut self, event: PointerEvent, now: u64) -> (actions: Vec<Action>)
        requires
            old(self)@.wf(),
        ensures
            final(self)@ == old(self)@.on_pointer(event, now).state,
            actions@ == old(self)@.on_pointer(event, now).actions,
            final(self)@.wf(),
    {
        if self.modal_open() {
            return Vec::new();
        }
        self.clock.last_activity = now;
        match event {
            PointerEvent::Modifiers { shift, control, alt } => {
                self.hand.shift = shift;
                self.hand.control = control;
                self.hand.alt = alt;
                vec![Action::RefreshOverlay]
            },
            PointerEvent::Pressed { button, position, size, cube, under, pen } => self.press(
                button,
                position,
                size,
                cube,
                under,
                pen,
                now,
            ),
            PointerEvent::Released { button } => self.release(button, now),
            PointerEvent::Moved { position, size, past_slop } => self.moved(
                position,
                size,
                past_slop,
            ),
            PointerEvent::Scrolled { amount } => vec![Action::Zoom(amount)],
        }
    }

    /// Takes in the drawn body under the pointer.
    pub fn hover_picked(&mut self, body: Option<NodeId>)
        ensures
            final(self)@ == old(self)@.hovering(body),
    {
        self.looking.hover_body = body;
    }

    /// Takes in whether the active body's surface is under the pointer.
    pub fn hover_surface(&mut self, hit: bool)
        ensures
            final(self)@ == old(self)@.hovering(
                if hit {
                    Some(old(self)@.outline.active)
                } else {
                    None
                },
            ),
    {
        self.looking.hover_body = if hit {
            Some(self.outline.active)
        } else {
            None
        };
    }

    /// Whether a press here would select another body.
    pub fn selecting(&self) -> (r: bool)
        ensures
            r == match self@.looking.hover_body {
                Some(body) => body != self@.outline.active,
                None => false,
            },
    {
        match self.looking.hover_body {
            Some(body) => body != self.outline.active,
            None => false,
        }
    }

    /// Takes in how a cut ended.
    pub fn cut_done(&mut self, outcome: CutOutcome) -> (actions: Vec<Action>)
        requires
            old(self)@.wf(),
        ensures
            final(self)@ == old(self)@.cut_done(outcome).state,
            actions@ == old(self)@.cut_done(outcome).actions,
            final(self)@.wf(),
    {
        match outcome {
            CutOutcome::TooShort => {
                self.status = String::from_str("cut cancelled: drag a line across the model");
                Vec::new()
            },
            CutOutcome::NoDirection => {
                self.status = String::from_str("cut cancelled: that line has no direction");
                Vec::new()
            },
            CutOutcome::Clipped { bricks, bodies_cut, bodies_crossed, history } => {
                if bricks > 0 {
                    self.file.unsaved = true;
                    let number: String = text::write_decimal(bricks);
                    let line: String = String::from_str("cut ").concat(number.as_str()).concat(
                        " bricks",
                    );
                    self.status = if bodies_cut > 1 {
                        let bodies: String = text::write_decimal(bodies_cut);
                        line.concat(" across ").concat(bodies.as_str()).concat(" bodies")
                    } else {
                        line
                    };
                    self.record_history(history);
                    self.hand.cut_armed = false;
                    vec![Action::Remesh, Action::RefreshOverlay]
                } else {
                    self.status = if bodies_crossed > 0 {
                        let bodies: String = text::write_decimal(bodies_crossed);
                        String::from_str("the cut crossed ").concat(bodies.as_str()).concat(
                            " bodies and found nothing to remove",
                        )
                    } else {
                        String::from_str("the cut missed the model")
                    };
                    self.hand.cut_armed = false;
                    Vec::new()
                }
            },
        }
    }

    /// Takes in what a stroke changed.
    pub fn stroke_ended(&mut self, edit: Option<HistoryNote>)
        ensures
            final(self)@ == old(self)@.stroke_ended(edit),
    {
        match edit {
            Some(note) => {
                self.record_history(note);
                self.file.unsaved = true;
            },
            None => {},
        }
    }

    /// Arms the cut, or puts it away.
    pub fn cut_toggled(&mut self)
        ensures
            final(self)@ == old(self)@.cut_toggled(),
    {
        self.hand.cut_armed = !self.hand.cut_armed;
        self.status = String::from_str(
            if self.hand.cut_armed {
                "cut armed: drag a line across the model, the left of the arrow goes"
            } else {
                ""
            },
        );
    }
}

/// Under a card the pointer does nothing at all, whatever it does.
pub proof fn a_card_takes_the_pointer(s: BrokkrV, event: PointerEvent, now: u64)
    requires
        s.modal_open(),
    ensures
        s.on_pointer(event, now) == s.quiet(),
{
}

/// A press that selects another body, is refused, draws a cut or sizes the brush
/// asks for no stroke; only a press that reads as sculpting does.
pub proof fn only_a_sculpting_press_sculpts(
    s: BrokkrV,
    button: PointerButton,
    position: Pixel,
    under: Option<NodeId>,
    pen: Pen,
    now: u64,
    i: int,
)
    requires
        0 <= i < s.press_viewport(button, position, under, pen, now).actions.len(),
        s.press_viewport(button, position, under, pen, now).actions[i] is Sculpt,
    ensures
        s.press_kind(button, under, pen).kind is Sculpt,
        button == PointerButton::Left,
        !s.hand.cut_armed,
        s.hand.sizing is None,
        under matches Some(body) ==> body == s.outline.active,
        under is None ==> s.active_is_drawn(),
{
    let press = s.press_kind(button, under, pen);
    if press.actions.len() > 0 {
        assert(press.kind is Selecting);
        assert(press.actions.len() == 1 && press.actions[0] is SetActive);
    }
}

/// A button let go that did not start the drag leaves the session as it is.
pub proof fn another_button_does_not_end_a_drag(s: BrokkrV, button: PointerButton, now: u64)
    requires
        s.hand.drag matches Some(drag) && drag.button != button,
    ensures
        s.release(button, now).state == s,
        s.release(button, now).actions == seq![Action::RefreshOverlay],
{
}

/// Once a drag has gone past what a click may, no later move makes it a click.
pub proof fn a_drag_stays_a_drag(
    s: BrokkrV,
    position: Pixel,
    size: Pixel,
    past_slop: bool,
    now: u64,
)
    requires
        s.hand.drag matches Some(drag) && drag.moved,
    ensures
        s.moved(position, size, past_slop).state.hand.drag matches Some(drag) && drag.moved,
        s.moved(position, size, past_slop).state.release(
            s.hand.drag->0.button,
            now,
        ).state.menus == s.menus,
{
}

/// A cut that was no line changes the status line alone, and stays armed; any
/// other ends the cut.
pub proof fn a_cut_that_was_no_line_stays_armed(s: BrokkrV, outcome: CutOutcome)
    ensures
        outcome is TooShort || outcome is NoDirection ==> s.cut_done(outcome).state == s.saying(
            s.cut_done(outcome).state.status,
        ),
        outcome is Clipped ==> !s.cut_done(outcome).state.hand.cut_armed,
        s.cut_done(outcome).state.file.unsaved == (s.file.unsaved || (outcome matches
            CutOutcome::Clipped { bricks, .. } && bricks > 0)),
{
}

} // verus!
