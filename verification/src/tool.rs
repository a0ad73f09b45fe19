//! The brush in hand: its kind, its sizes, and which way it pushes.
use vstd::prelude::*;

use crate::action::RestoredView;
use crate::state::{Brokkr, BrokkrV, Hand, ToolV};
use crate::values::{
    Brush, BrushDirection, BrushKind, BrushRole, Pen, Scalar, Sizing, SizingTarget,
};

verus! {

/// What a stroke does at a point.
#[derive(Clone, Copy, Debug, PartialEq, Eq, Structural)]
pub enum SculptPlan {
    /// The move brush drags what it holds.
    MoveBrush,
    /// Nothing is under the pointer, so nothing is touched or recorded.
    Miss,
    Stamp,
}

/// What the move brush does at a point.
#[derive(Clone, Copy, Debug, PartialEq, Eq, Structural)]
pub enum MovePlan {
    Nothing,
    /// It takes hold of the surface, then drags it.
    Grab,
    /// It drags what it holds.
    Drag,
}

/// Whether the pen's eraser end is the one in use.
pub open spec fn erasing(pen: Pen) -> bool {
    pen.in_proximity && pen.eraser
}

/// Which way a brush pushes: a modifier and the eraser each turn it round, and a
/// brush without an opposite takes no notice.
pub open spec fn direction_of(
    control: bool,
    alt: bool,
    erasing: bool,
    directional: bool,
) -> BrushDirection {
    if ((control || alt) != erasing) && directional {
        BrushDirection::Subtract
    } else {
        BrushDirection::Add
    }
}

/// What the move brush does, from whether the stroke starts or it holds nothing,
/// whether the surface is under the pointer, and whether it has a point to drag.
pub fn move_plan(start: bool, holding: bool, hit: bool, grabbed: bool) -> (r: MovePlan)
    ensures
        r == if start || !holding {
            if hit {
                MovePlan::Grab
            } else {
                MovePlan::Nothing
            }
        } else if grabbed {
            MovePlan::Drag
        } else {
            MovePlan::Nothing
        },
{
    if start || !holding {
        if hit {
            MovePlan::Grab
        } else {
            MovePlan::Nothing
        }
    } else if grabbed {
        MovePlan::Drag
    } else {
        MovePlan::Nothing
    }
}

/// Whether the pen's eraser end is the one in use.
pub fn eraser_in_use(pen: Pen) -> (r: bool)
    ensures
        r == erasing(pen),
{
    pen.in_proximity && pen.eraser
}

impl BrokkrV {
    /// The session with another brush in hand.
    pub open spec fn wielding(self, brush: Brush) -> BrokkrV {
        BrokkrV { tool: ToolV { brush: brush, ..self.tool }, ..self }
    }

    /// The session with other things in the hands.
    pub open spec fn handling(self, hand: Hand) -> BrokkrV {
        BrokkrV { hand: hand, ..self }
    }

    /// Where a brush's strength is remembered.
    pub open spec fn strength_slot(self, kind: BrushKind) -> int {
        if kind.slot < self.tool.strengths.len() {
            kind.slot as int
        } else {
            0
        }
    }

    /// Another kind of brush: the old one's strength is remembered, and the new
    /// one has the strength it was left at.
    pub open spec fn brush_kind_changed(self, kind: BrushKind) -> BrokkrV {
        let remembered = self.tool.strengths.update(
            self.strength_slot(self.tool.brush.kind),
            self.tool.brush.strength,
        );
        BrokkrV {
            tool: ToolV {
                strengths: remembered,
                brush: Brush {
                    kind: kind,
                    strength: remembered[self.strength_slot(kind)],
                    ..self.tool.brush
                },
                ..self.tool
            },
            ..self
        }
    }

    /// Another strength, remembered for this kind of brush.
    pub open spec fn brush_strength_changed(self, strength: Scalar) -> BrokkrV {
        BrokkrV {
            tool: ToolV {
                strengths: self.tool.strengths.update(
                    self.strength_slot(self.tool.brush.kind),
                    strength,
                ),
                brush: Brush { strength: strength, ..self.tool.brush },
                ..self.tool
            },
            ..self
        }
    }

    /// The brush that a stroke uses: shift gives the smooth one.
    pub open spec fn effective_brush(self) -> Brush {
        if self.hand.shift {
            Brush { kind: self.tool.smooth, ..self.tool.brush }
        } else {
            self.tool.brush
        }
    }

    /// Which way a stroke pushes.
    pub open spec fn stroke_direction(self, pen: Pen) -> BrushDirection {
        direction_of(
            self.hand.control,
            self.hand.alt,
            erasing(pen),
            self.tool.brush.kind.directional,
        )
    }

    /// What a stroke does at a point.
    pub open spec fn sculpt_plan(self, hit: bool) -> SculptPlan {
        if self.effective_brush().kind.role == BrushRole::Move {
            SculptPlan::MoveBrush
        } else if hit {
            SculptPlan::Stamp
        } else {
            SculptPlan::Miss
        }
    }

    /// The sizing key went down: the gesture starts, unless one runs already or
    /// the pointer has not been seen.
    pub open spec fn sizing_started(self, what: SizingTarget) -> BrokkrV {
        match self.hand.cursor {
            Some(from_pixel) => if self.hand.sizing is None {
                self.handling(
                    Hand {
                        sizing: Some(
                            Sizing {
                                what: what,
                                from_pixel: from_pixel,
                                original: match what {
                                    SizingTarget::Radius => self.tool.brush.radius,
                                    SizingTarget::Strength => self.tool.brush.strength,
                                },
                            },
                        ),
                        ..self.hand
                    },
                )
            } else {
                self
            },
            None => self,
        }
    }

    /// The sizing key came up.
    pub open spec fn sizing_ended(self) -> BrokkrV {
        self.handling(Hand { sizing: None, ..self.hand })
    }

    /// A stored view put back: the brush's sizes, and the mirror planes that the
    /// active body stands across.
    pub open spec fn apply_view(self, view: RestoredView) -> BrokkrV {
        self.wielding(
            Brush { radius: view.radius, strength: view.strength, ..self.tool.brush },
        ).mirroring(view.mirrors).refuse_mirrors(view.straddles, "turned off"@)
    }
}

impl Brokkr {
    /// Where a brush's strength is remembered.
    pub fn strength_slot(&self, kind: BrushKind) -> (r: usize)
        requires
            self@.wf(),
        ensures
            r == self@.strength_slot(kind),
            r < self@.tool.strengths.len(),
    {
        if kind.slot < self.tool.strengths.len() {
            kind.slot
        } else {
            0
        }
    }

    /// Takes another kind of brush.
    pub fn brush_kind_changed(&mut self, kind: BrushKind)
        requires
            old(self)@.wf(),
        ensures
            final(self)@ == old(self)@.brush_kind_changed(kind),
            final(self)@.wf(),
    {
        let from: usize = self.strength_slot(self.tool.brush.kind);
        let to: usize = self.strength_slot(kind);
        self.tool.strengths.set(from, self.tool.brush.strength);
        self.tool.brush.kind = kind;
        self.tool.brush.strength = self.tool.strengths[to];
    }

    /// Sets the strength of this kind of brush.
    pub fn brush_strength_changed(&mut self, strength: Scalar)
        requires
            old(self)@.wf(),
        ensures
            final(self)@ == old(self)@.brush_strength_changed(strength),
            final(self)@.wf(),
    {
        let slot: usize = self.strength_slot(self.tool.brush.kind);
        self.tool.brush.strength = strength;
        self.tool.strengths.set(slot, strength);
    }

    /// The brush that a stroke uses.
    pub fn effective_brush(&self) -> (r: Brush)
        ensures
            r == self@.effective_brush(),
    {
        let mut brush: Brush = self.tool.brush;
        if self.hand.shift {
            brush.kind = self.tool.smooth;
        }
        brush
    }

    /// Which way a stroke pushes.
    pub fn stroke_direction(&self, pen: Pen) -> (r: BrushDirection)
        ensures
            r == self@.stroke_direction(pen),
    {
        let modifier: bool = self.hand.control || self.hand.alt;
        let inverted: bool = modifier != eraser_in_use(pen);
        if inverted && self.tool.brush.kind.directional {
            BrushDirection::Subtract
        } else {
            BrushDirection::Add
        }
    }

    /// What a stroke does at a point.
    pub fn sculpt_plan(&self, hit: bool) -> (r: SculptPlan)
        ensures
            r == self@.sculpt_plan(hit),
    {
        if self.effective_brush().kind.role == BrushRole::Move {
            SculptPlan::MoveBrush
        } else if hit {
            SculptPlan::Stamp
        } else {
            SculptPlan::Miss
        }
    }

    /// Starts the sizing gesture.
    pub fn sizing_started(&mut self, what: SizingTarget)
        ensures
            final(self)@ == old(self)@.sizing_started(what),
    {
        match self.hand.cursor {
            Some(from_pixel) => {
                if self.hand.sizing.is_none() {
                    let original: Scalar = match what {
                        SizingTarget::Radius => self.tool.brush.radius,
                        SizingTarget::Strength => self.tool.brush.strength,
                    };
                    self.hand.sizing = Some(Sizing { what, from_pixel, original });
                }
            },
            None => {},
        }
    }

    /// Puts a stored view back.
    pub fn apply_view(&mut self, view: RestoredView)
        requires
            old(self)@.wf(),
        ensures
            final(self)@ == old(self)@.apply_view(view),
            final(self)@.wf(),
    {
        self.tool.brush.radius = view.radius;
        self.tool.brush.strength = view.strength;
        self.tool.symmetry = view.mirrors;
        self.refuse_mirrors_the_body_does_not_straddle(view.straddles, "turned off");
    }
}

/// Each brush remembers its own strength: switch away and back, whatever is set
/// on the other brush in between, and the strength is what it was.
pub proof fn a_brush_keeps_its_strength(s: BrokkrV, other: BrushKind, strength: Scalar)
    requires
        s.wf(),
        s.strength_slot(other) != s.strength_slot(s.tool.brush.kind),
    ensures
        s.brush_kind_changed(other).brush_strength_changed(strength).brush_kind_changed(
            s.tool.brush.kind,
        ).tool.brush == s.tool.brush,
{
}

/// Either modifier turns the brush round, and both together are one turn.
pub proof fn both_modifiers_are_one(control: bool, alt: bool, erasing: bool, directional: bool)
    ensures
        control || alt ==> direction_of(control, alt, erasing, directional) == direction_of(
            true,
            false,
            erasing,
            directional,
        ),
        direction_of(true, false, erasing, directional) == direction_of(
            false,
            true,
            erasing,
            directional,
        ),
{
}

/// A modifier over the eraser gives the additive brush back: the two combine.
pub proof fn a_modifier_over_the_eraser_adds(control: bool, alt: bool, directional: bool)
    requires
        control || alt,
    ensures
        direction_of(control, alt, true, directional) == BrushDirection::Add,
        direction_of(false, false, false, directional) == BrushDirection::Add,
        directional ==> direction_of(false, false, true, directional) == BrushDirection::Subtract,
        directional ==> direction_of(control, alt, false, directional) == BrushDirection::Subtract,
{
}

/// A brush without an opposite adds, whatever is held, and a pen that is away
/// erases nothing.
pub proof fn no_opposite_no_inversion(control: bool, alt: bool, pen: Pen)
    ensures
        direction_of(control, alt, erasing(pen), false) == BrushDirection::Add,
        !pen.in_proximity ==> !erasing(pen),
{
}

} // verus!
