//! The timeline of stored views.
use vstd::prelude::*;

use crate::action::{Action, TimelinePress};
use crate::state::{Brokkr, BrokkrV, Step};
use crate::text;

verus! {

impl BrokkrV {
    /// A press on the strip: going to a key puts back what it holds, and a press
    /// on empty track stores a key.
    pub open spec fn timeline_pressed(self, press: TimelinePress) -> Step {
        match press {
            TimelinePress::Nothing => self.quiet(),
            TimelinePress::WentTo { index, keys, view } => {
                let there = self.saying(
                    "key "@ + text::decimal((index + 1) as nat) + " of "@ + text::decimal(
                        keys as nat,
                    ),
                );
                match view {
                    Some(view) => there.apply_view(view).asking(Action::RefreshOverlay),
                    None => there.quiet(),
                }
            },
            TimelinePress::Added { index, keys } => self.dirty().saying(
                "stored key "@ + text::decimal((index + 1) as nat) + " of "@ + text::decimal(
                    keys as nat,
                ),
            ).quiet(),
        }
    }

    /// The pointer over the strip: a key that is being dragged is work to save.
    pub open spec fn timeline_hovered(self, dragging: bool) -> BrokkrV {
        if dragging {
            self.dirty()
        } else {
            self
        }
    }

    /// A key removed, with so many left, or none under the pointer.
    pub open spec fn timeline_removed(self, left: Option<usize>) -> BrokkrV {
        match left {
            Some(left) => self.dirty().saying(
                if left == 0 {
                    "removed the last key"@
                } else {
                    "removed a key, "@ + text::decimal(left as nat) + " left"@
                },
            ),
            None => self,
        }
    }
}

impl Brokkr {
    /// Takes in a press on the strip.
    pub fn timeline_pressed(&mut self, press: TimelinePress) -> (actions: Vec<Action>)
        requires
            old(self)@.wf(),
            match press {
                TimelinePress::WentTo { index, keys, .. } => index < keys,
                TimelinePress::Added { index, keys } => index < keys,
                TimelinePress::Nothing => true,
            },
        ensures
            final(self)@ == old(self)@.timeline_pressed(press).state,
            actions@ == old(self)@.timeline_pressed(press).actions,
            final(self)@.wf(),
    {
        match press {
            TimelinePress::Nothing => Vec::new(),
            TimelinePress::WentTo { index, keys, view } => {
                let a: String = text::write_decimal(index as u64 + 1);
                let b: String = text::write_decimal(keys as u64);
                self.status = String::from_str("key ").concat(a.as_str()).concat(" of ").concat(
                    b.as_str(),
                );
                match view {
                    Some(view) => {
                        self.apply_view(view);
                        vec![Action::RefreshOverlay]
                    },
                    None => Vec::new(),
                }
            },
            TimelinePress::Added { index, keys } => {
                self.file.unsaved = true;
                let a: String = text::write_decimal(index as u64 + 1);
                let b: String = text::write_decimal(keys as u64);
                self.status = String::from_str("stored key ").concat(a.as_str()).concat(
                    " of ",
                ).concat(b.as_str());
                Vec::new()
            },
        }
    }

    /// Takes in whether a key is being dragged.
    pub fn timeline_hovered(&mut self, dragging: bool)
        ensures
            final(self)@ == old(self)@.timeline_hovered(dragging),
    {
        if dragging {
            self.file.unsaved = true;
        }
    }

    /// Takes in whether a key was removed.
    pub fn timeline_removed(&mut self, left: Option<usize>)
        ensures
            final(self)@ == old(self)@.timeline_removed(left),
    {
        match left {
            Some(left) => {
                self.file.unsaved = true;
                self.status = if left == 0 {
                    String::from_str("removed the last key")
                } else {
                    let number: String = text::write_decimal(left as u64);
                    String::from_str("removed a key, ").concat(number.as_str()).concat(" left")
                };
            },
            None => {},
        }
    }
}

} // verus!
