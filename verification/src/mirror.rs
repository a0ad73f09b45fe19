//! Mirror planes. One is only ever on for a body that stands across it:
//! anywhere else every mirrored stroke would land in empty space.
use vstd::prelude::*;

use crate::action::Action;
use crate::outline;
use crate::state::{Brokkr, BrokkrV, Step};
use crate::values::{MirrorAxis, PerAxis};

verus! {

impl BrokkrV {
    /// Why a mirror plane is off.
    pub open spec fn mirror_refusal(self, axis: MirrorAxis, verb: Seq<char>) -> Seq<char> {
        axis.letter() + " mirroring "@ + verb + ": "@ + self.outline.name_or(
            self.outline.active,
            "the body"@,
        ) + " sits entirely to one side of the "@ + axis.letter()
            + " plane, so every mirrored stroke would land in empty space"@
    }

    /// The session with one plane off that is on and that the body does not
    /// stand across, and a status line that says so.
    pub open spec fn refused_axis(
        self,
        axis: MirrorAxis,
        straddles: PerAxis,
        verb: Seq<char>,
    ) -> BrokkrV {
        if self.tool.symmetry.on(axis) && !straddles.on(axis) {
            self.mirroring(self.tool.symmetry.with(axis, false)).saying(
                self.mirror_refusal(axis, verb),
            )
        } else {
            self
        }
    }

    /// The session with every plane off that the body does not stand across. A
    /// body without a surface stands in no plane's way.
    pub open spec fn refuse_mirrors(self, straddles: Option<PerAxis>, verb: Seq<char>) -> BrokkrV {
        match straddles {
            Some(s) => self.refused_axis(MirrorAxis::X, s, verb).refused_axis(
                MirrorAxis::Y,
                s,
                verb,
            ).refused_axis(MirrorAxis::Z, s, verb),
            None => self,
        }
    }

    /// A plane turned off, or asked about before it is turned on. The overlay shows
    /// the planes, so it is redrawn either way.
    pub open spec fn toggle_mirror(self, axis: MirrorAxis) -> Step {
        if self.tool.symmetry.on(axis) {
            self.mirroring(self.tool.symmetry.with(axis, false)).asking(Action::RefreshOverlay)
        } else {
            Step {
                state: self,
                actions: seq![Action::MeasureMirror(axis), Action::RefreshOverlay],
            }
        }
    }

    /// A plane turned on, unless the body does not stand across it.
    pub open spec fn mirror_measured(self, axis: MirrorAxis, straddles: bool) -> BrokkrV {
        if straddles {
            self.mirroring(self.tool.symmetry.with(axis, true))
        } else {
            self.saying(self.mirror_refusal(axis, "refused"@))
        }
    }
}

impl Brokkr {
    /// Why a mirror plane is off.
    pub fn mirror_refusal(&self, axis: MirrorAxis, verb: &str) -> (r: String)
        requires
            self@.wf(),
        ensures
            r@ == self@.mirror_refusal(axis, verb@),
    {
        let name: String = self.outline.name_or(self.outline.active, "the body");
        String::from_str(axis.label()).concat(" mirroring ").concat(verb).concat(": ").concat(
            name.as_str(),
        ).concat(" sits entirely to one side of the ").concat(axis.label()).concat(
            " plane, so every mirrored stroke would land in empty space",
        )
    }

    fn refuse_axis(&mut self, axis: MirrorAxis, straddles: PerAxis, verb: &str)
        requires
            old(self)@.wf(),
        ensures
            final(self)@ == old(self)@.refused_axis(axis, straddles, verb@),
            final(self)@.wf(),
    {
        if self.tool.symmetry.axis(axis) && !straddles.axis(axis) {
            let why: String = self.mirror_refusal(axis, verb);
            self.tool.symmetry = self.tool.symmetry.with_axis(axis, false);
            self.status = why;
        }
    }

    /// Turns off every plane that the body does not stand across.
    pub fn refuse_mirrors_the_body_does_not_straddle(
        &mut self,
        straddles: Option<PerAxis>,
        verb: &str,
    )
        requires
            old(self)@.wf(),
        ensures
            final(self)@ == old(self)@.refuse_mirrors(straddles, verb@),
            final(self)@.wf(),
    {
        match straddles {
            Some(s) => {
                self.refuse_axis(MirrorAxis::X, s, verb);
                self.refuse_axis(MirrorAxis::Y, s, verb);
                self.refuse_axis(MirrorAxis::Z, s, verb);
            },
            None => {},
        }
    }

    /// Turns a plane off, or asks about the body before turning it on.
    pub fn toggle_mirror(&mut self, axis: MirrorAxis) -> (actions: Vec<Action>)
        requires
            old(self)@.wf(),
        ensures
            final(self)@ == old(self)@.toggle_mirror(axis).state,
            actions@ == old(self)@.toggle_mirror(axis).actions,
            final(self)@.wf(),
    {
        if self.tool.symmetry.axis(axis) {
            self.tool.symmetry = self.tool.symmetry.with_axis(axis, false);
            vec![Action::RefreshOverlay]
        } else {
            vec![Action::MeasureMirror(axis), Action::RefreshOverlay]
        }
    }

    /// Turns a plane on, unless the body does not stand across it.
    pub fn mirror_measured(&mut self, axis: MirrorAxis, straddles: bool)
        requires
            old(self)@.wf(),
        ensures
            final(self)@ == old(self)@.mirror_measured(axis, straddles),
            final(self)@.wf(),
    {
        if straddles {
            self.tool.symmetry = self.tool.symmetry.with_axis(axis, true);
        } else {
            let why: String = self.mirror_refusal(axis, "refused");
            self.status = why;
        }
    }
}

/// After the sweep no plane is on that the body does not stand across, and none
/// came on; nothing but the planes and the status line changed.
pub proof fn the_sweep_leaves_only_planes_the_body_stands_across(
    s: BrokkrV,
    straddles: PerAxis,
    verb: Seq<char>,
    axis: MirrorAxis,
)
    ensures
        s.refuse_mirrors(Some(straddles), verb).tool.symmetry.on(axis) == (s.tool.symmetry.on(axis)
            && straddles.on(axis)),
        s.refuse_mirrors(Some(straddles), verb) == s.mirroring(
            s.refuse_mirrors(Some(straddles), verb).tool.symmetry,
        ).saying(s.refuse_mirrors(Some(straddles), verb).status),
{
}

/// Sweeping twice turns off no more than sweeping once.
pub proof fn sweeping_twice_is_sweeping_once(
    s: BrokkrV,
    straddles: Option<PerAxis>,
    verb: Seq<char>,
)
    ensures
        s.refuse_mirrors(straddles, verb).refuse_mirrors(straddles, verb) == s.refuse_mirrors(
            straddles,
            verb,
        ),
{
}

/// Turning a plane off is never refused, and a plane that the body stands across
/// comes back on where it was: two toggles change nothing.
pub proof fn a_plane_off_and_on_again_changes_nothing(s: BrokkrV, axis: MirrorAxis)
    requires
        s.tool.symmetry.on(axis),
    ensures
        s.toggle_mirror(axis).actions == seq![Action::RefreshOverlay],
        !s.toggle_mirror(axis).state.tool.symmetry.on(axis),
        s.toggle_mirror(axis).state.toggle_mirror(axis).actions == seq![
            Action::MeasureMirror(axis),
            Action::RefreshOverlay,
        ],
        s.toggle_mirror(axis).state.mirror_measured(axis, true) == s,
{
}

/// A plane that is off comes on exactly where the body stands across it, and a
/// refusal changes the status line alone.
pub proof fn a_plane_comes_on_only_across_the_body(s: BrokkrV, axis: MirrorAxis, straddles: bool)
    requires
        !s.tool.symmetry.on(axis),
    ensures
        s.mirror_measured(axis, straddles).tool.symmetry.on(axis) == straddles,
        !straddles ==> s.mirror_measured(axis, straddles) == s.saying(
            s.mirror_refusal(axis, "refused"@),
        ),
{
}

} // verus!
