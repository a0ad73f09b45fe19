//! What is drawn: the rows' eyes, solo, and the body that edits land on.
//!
//! A row is drawn where its own eye and the eye of every folder over it are on,
//! and, while solo is on, where it is the soloed row or lies inside it. Solo
//! narrows what is drawn; it writes nothing.
use vstd::prelude::*;

use crate::action::Action;
use crate::outline;
use crate::outline::{NodeId, OutlineV};
use crate::state::{Books, Brokkr, BrokkrV, FileStateV, LookingV, Step};
use crate::text;

verus! {

impl BrokkrV {
    /// The session with another body active and a status line, where it was not
    /// the active one already.
    pub open spec fn select_body_saying(self, body: NodeId, note: Seq<char>) -> Step {
        if body == self.outline.active {
            self.quiet()
        } else {
            BrokkrV {
                outline: self.outline.with_active(body),
                books: Books { model_radius_body: Some(body), ..self.books },
                status: note,
                ..self
            }.asking(Action::SetActive(body))
        }
    }

    /// The session with the first body of a row active.
    pub open spec fn select_body(self, row: NodeId) -> Step {
        match self.outline.first_body_in(row) {
            Some(body) => self.select_body_saying(
                body,
                "selected "@ + self.outline.name_or(body, "another body"@),
            ),
            None => self.quiet(),
        }
    }

    /// Whether a row is one that solo is showing, or solo is off.
    pub open spec fn in_solo_scope(self, id: NodeId) -> bool {
        match self.looking.solo {
            Some(solo) => self.outline.has(solo) && self.outline.has(id) ==> outline::within(
                self.outline.rows,
                self.outline.at(solo),
                self.outline.at(id),
            ),
            None => true,
        }
    }

    /// Whether the eyes show the active body.
    pub open spec fn active_is_saved(self) -> bool {
        outline::saved_at(self.outline.rows, self.outline.at(self.outline.active))
    }

    /// Whether the eyes show any body.
    pub open spec fn saves_a_body(self) -> bool {
        outline::first_saved_body(self.outline.rows, 0) is Some
    }

    /// The session after a row's eye changed. Where the eyes showed the active body
    /// before and no longer do, the first body that they show becomes active.
    pub open spec fn keep_a_visible_body(
        self,
        was_saved: bool,
        name: Seq<char>,
        visible: bool,
    ) -> Step {
        let rows = self.outline.rows;
        let plain = self.saying(
            (if visible {
                "showing"@
            } else {
                "hiding"@
            }) + " "@ + name,
        ).asking(Action::WriteEyes);
        if !was_saved || self.active_is_saved() {
            plain
        } else {
            match outline::first_saved_body(rows, 0) {
                Some(k) => {
                    let moved = self.select_body_saying(
                        rows[k].id,
                        "hiding "@ + name + " — "@ + rows[k].name + " is now selected"@,
                    );
                    Step {
                        state: moved.state,
                        actions: seq![Action::WriteEyes] + moved.actions,
                    }
                },
                None => plain,
            }
        }
    }

    /// A row's eye clicked. Where the click takes the active body out of sight,
    /// another visible one becomes active; otherwise the selection stays. A click
    /// that would hide the last visible body is refused, and so is one on a row
    /// that solo is not showing.
    pub open spec fn toggle_visibility(self, id: NodeId) -> Step {
        if !self.outline.has(id) {
            self.quiet()
        } else if !self.in_solo_scope(id) {
            self.saying(
                "solo is on — leave it before changing "@ + self.outline.name_of(id) + "'s eye"@,
            ).quiet()
        } else {
            let at = self.outline.at(id);
            let visible = !self.outline.rows[at].visible;
            let flipped = self.with_outline(self.outline.with_eye(at, visible)).dirty();
            if self.saves_a_body() && !flipped.saves_a_body() {
                self.saying(
                    "cannot hide the last visible body — there would be nothing to sculpt"@,
                ).quiet()
            } else {
                flipped.keep_a_visible_body(
                    self.active_is_saved(),
                    self.outline.name_of(id),
                    visible,
                )
            }
        }
    }

    /// Every eye on, and solo off.
    pub open spec fn show_everything(self) -> Step {
        let hidden = outline::closed_eyes(self.outline.rows, self.outline.rows.len() as int);
        let left = self.soloing(None);
        if hidden == 0 {
            left.saying(
                if self.looking.solo is Some {
                    "left solo — everything is showing"@
                } else {
                    "everything is already showing"@
                },
            ).quiet()
        } else {
            left.with_outline(self.outline.with_every_eye()).dirty().saying(
                (if self.looking.solo is Some {
                    "left solo, showing "@
                } else {
                    "showing "@
                }) + text::decimal(hidden) + " hidden "@ + (if hidden == 1 {
                    "row"@
                } else {
                    "rows"@
                }),
            ).asking(Action::WriteEyes)
        }
    }

    /// A row soloed. Its eye and the eyes of the folders it lies in come on, for
    /// solo itself shows nothing that an eye hides.
    pub open spec fn enter_solo(self, id: NodeId) -> Step {
        if !self.outline.has(id) {
            self.quiet()
        } else {
            let at = self.outline.at(id);
            let soloed = self.soloing(Some(id));
            let line = "solo: "@ + self.outline.name_of(id);
            if outline::saved_at(self.outline.rows, at) {
                soloed.saying(line + " — escape leaves it"@).quiet()
            } else {
                soloed.with_outline(self.outline.with_eyes_over(at)).dirty().saying(
                    line + " — its eye was off and is now on"@,
                ).asking(Action::WriteEyes)
            }
        }
    }

    /// Solo off. Nothing else changes, because nothing else was written.
    pub open spec fn exit_solo(self) -> BrokkrV {
        if self.looking.solo is Some {
            self.soloing(None).saying("left solo"@)
        } else {
            self
        }
    }

    /// The session without a solo that names no row.
    pub open spec fn forget_a_vanished_solo(self) -> BrokkrV {
        match self.looking.solo {
            Some(id) => if self.outline.has(id) {
                self
            } else {
                self.soloing(None)
            },
            None => self,
        }
    }

    /// The session without a solo that shows no body, and a status line that
    /// says so.
    pub open spec fn leave_a_solo_that_shows_nothing(self) -> BrokkrV {
        match self.looking.solo {
            Some(id) => if self.outline.draws_a_body(self.outline.drawn(self.looking.solo)) {
                self
            } else {
                self.soloing(None).saying(
                    "left solo — "@ + self.outline.name_or(id, "that row"@)
                        + " is hidden, so it was showing nothing"@,
                )
            },
            None => self,
        }
    }

    /// The session with what is drawn settled.
    pub open spec fn publish(self) -> BrokkrV {
        let settled = self.forget_a_vanished_solo().leave_a_solo_that_shows_nothing();
        let shown = settled.outline.drawn(settled.looking.solo);
        BrokkrV {
            looking: LookingV {
                shown: shown,
                hidden_bodies: settled.outline.hidden(shown),
                ..settled.looking
            },
            ..settled
        }
    }

    /// Whether the renderer and the outline agree on what is drawn, and solo, if
    /// it is on, names a row and shows a body.
    pub open spec fn agrees(self) -> bool {
        &&& self.looking.shown == self.outline.drawn(self.looking.solo)
        &&& self.looking.hidden_bodies == self.outline.hidden(self.looking.shown)
        &&& self.looking.solo matches Some(id) ==> self.outline.has(id)
            && self.outline.draws_a_body(self.looking.shown)
    }

    /// Whether the active body is drawn, as of the last time that was settled.
    pub open spec fn active_is_drawn(self) -> bool {
        let at = self.outline.at(self.outline.active);
        at < self.looking.shown.len() && self.looking.shown[at]
    }

    /// The session after every body was meshed afresh: solo is off, for what it
    /// named may be gone, and what is drawn is settled.
    pub open spec fn rebuilt(self) -> BrokkrV {
        self.soloing(None).publish()
    }
}

/// An eye turned over and back is as it was.
proof fn lemma_eye_back(o: OutlineV, i: int)
    requires
        0 <= i < o.rows.len(),
    ensures
        o.with_eye(i, !o.rows[i].visible).with_eye(i, o.rows[i].visible) == o,
{
    assert(o.with_eye(i, !o.rows[i].visible).with_eye(i, o.rows[i].visible).rows =~= o.rows);
}

impl Brokkr {
    /// Makes a body the active one, where it is not, and says so.
    pub fn select_body_saying(&mut self, body: NodeId, note: String) -> (actions: Vec<Action>)
        requires
            old(self)@.wf(),
            old(self)@.outline.has_body(body),
        ensures
            final(self)@ == old(self)@.select_body_saying(body, note@).state,
            actions@ == old(self)@.select_body_saying(body, note@).actions,
            final(self)@.wf(),
    {
        if body == self.outline.active {
            return Vec::new();
        }
        self.outline.set_active(body);
        self.books.model_radius_body = Some(body);
        self.status = note;
        proof {
            outline::lemma_same_shape(old(self)@.outline, self@.outline);
        }
        vec![Action::SetActive(body)]
    }

    /// Makes the first body of a row the active one.
    pub fn select_body(&mut self, row: NodeId) -> (actions: Vec<Action>)
        requires
            old(self)@.wf(),
        ensures
            final(self)@ == old(self)@.select_body(row).state,
            actions@ == old(self)@.select_body(row).actions,
            final(self)@.wf(),
    {
        match self.outline.first_body_in(row) {
            Some(body) => {
                proof {
                    outline::lemma_first_body(self@.outline, row);
                }
                let name: String = self.outline.name_or(body, "another body");
                let note: String = String::from_str("selected ").concat(name.as_str());
                self.select_body_saying(body, note)
            },
            None => Vec::new(),
        }
    }

    /// Whether a row is one that solo is showing, or solo is off.
    pub fn in_solo_scope(&self, id: NodeId) -> (r: bool)
        requires
            self@.wf(),
        ensures
            r == self@.in_solo_scope(id),
    {
        match self.looking.solo {
            Some(solo) => match self.outline.index_of(solo) {
                Some(i) => match self.outline.index_of(id) {
                    Some(k) => {
                        let e: usize = self.outline.end_of(i);
                        proof {
                            if i <= k {
                                outline::lemma_within_run(self@.outline.rows, i as int, k as int);
                            }
                        }
                        i <= k && k < e
                    },
                    None => true,
                },
                None => true,
            },
            None => true,
        }
    }

    /// Whether the eyes show the active body.
    pub fn active_is_saved(&self) -> (r: bool)
        requires
            self@.wf(),
        ensures
            r == self@.active_is_saved(),
    {
        proof {
            outline::lemma_active(self@.outline);
        }
        match self.outline.index_of(self.outline.active) {
            Some(i) => self.outline.eye_reaches(i),
            None => true,
        }
    }

    /// Moves the selection to a body that the eyes show, where they showed the
    /// active one before and no longer do.
    fn keep_a_visible_body(&mut self, was_saved: bool, name: &str, visible: bool) -> (actions: Vec<
        Action,
    >)
        requires
            old(self)@.wf(),
        ensures
            final(self)@.wf(),
            final(self)@ == old(self)@.keep_a_visible_body(was_saved, name@, visible).state,
            actions@ == old(self)@.keep_a_visible_body(was_saved, name@, visible).actions,
    {
        let next: Option<usize> = if !was_saved || self.active_is_saved() {
            None
        } else {
            self.outline.first_saved_body()
        };
        match next {
            Some(k) => {
                let next: NodeId = self.outline.rows[k].id;
                let next_name: String = self.outline.rows[k].name.clone();
                proof {
                    assert(self@.outline.rows[k as int] == self.outline.rows@[k as int]@);
                    assert(self@.outline.is_at(next, k as int)
                        && self@.outline.rows[k as int].is_body);
                }
                let note: String = String::from_str("hiding ").concat(name).concat(" — ").concat(
                    next_name.as_str(),
                ).concat(" is now selected");
                let mut actions: Vec<Action> = vec![Action::WriteEyes];
                let mut more: Vec<Action> = self.select_body_saying(next, note);
                actions.append(&mut more);
                actions
            },
            None => {
                let verb: &str = if visible {
                    "showing"
                } else {
                    "hiding"
                };
                self.status = String::from_str(verb).concat(" ").concat(name);
                vec![Action::WriteEyes]
            },
        }
    }

    /// Sets a row's eye, which is work to save.
    fn write_eye(&mut self, at: usize, visible: bool)
        requires
            old(self)@.wf(),
            at < old(self)@.outline.rows.len(),
        ensures
            final(self)@ == old(self)@.with_outline(
                old(self)@.outline.with_eye(at as int, visible),
            ).dirty(),
            final(self)@.wf(),
    {
        self.outline.set_eye(at, visible);
        self.file.unsaved = true;
        proof {
            outline::lemma_same_shape(old(self)@.outline, self@.outline);
        }
    }

    /// Sets a row's eye back, where the click on it is refused.
    fn put_eye_back(&mut self, at: usize, visible: bool, unsaved: bool)
        requires
            at < old(self)@.outline.rows.len(),
        ensures
            final(self)@ == (BrokkrV {
                outline: old(self)@.outline.with_eye(at as int, visible),
                file: FileStateV { unsaved: unsaved, ..old(self)@.file },
                status:
                    "cannot hide the last visible body — there would be nothing to sculpt"@,
                ..old(self)@
            }),
    {
        self.outline.set_eye(at, visible);
        self.file.unsaved = unsaved;
        self.status = String::from_str(
            "cannot hide the last visible body — there would be nothing to sculpt",
        );
    }

    /// Clicks a row's eye.
    pub fn toggle_visibility(&mut self, id: NodeId) -> (actions: Vec<Action>)
        requires
            old(self)@.wf(),
        ensures
            final(self)@ == old(self)@.toggle_visibility(id).state,
            actions@ == old(self)@.toggle_visibility(id).actions,
            final(self)@.wf(),
    {
        let at: usize = match self.outline.index_of(id) {
            Some(at) => at,
            None => {
                return Vec::new();
            },
        };
        let name: String = self.outline.rows[at].name.clone();
        assert(name@ == self@.outline.name_of(id));
        if !self.in_solo_scope(id) {
            self.status = String::from_str("solo is on — leave it before changing ").concat(
                name.as_str(),
            ).concat("'s eye");
            return Vec::new();
        }
        let visible: bool = !self.outline.rows[at].visible;
        assert(visible == !self@.outline.rows[at as int].visible);
        let unsaved: bool = self.file.unsaved;
        let was_saved: bool = self.active_is_saved();
        let saved_one: bool = self.outline.first_saved_body().is_some();
        self.write_eye(at, visible);
        if saved_one && self.outline.first_saved_body().is_none() {
            proof {
                lemma_eye_back(old(self)@.outline, at as int);
            }
            self.put_eye_back(at, !visible, unsaved);
            return Vec::new();
        }
        self.keep_a_visible_body(was_saved, name.as_str(), visible)
    }

    /// Turns every eye on, and leaves solo.
    pub fn show_everything(&mut self) -> (actions: Vec<Action>)
        requires
            old(self)@.wf(),
        ensures
            final(self)@ == old(self)@.show_everything().state,
            actions@ == old(self)@.show_everything().actions,
            final(self)@.wf(),
    {
        let left_solo: bool = self.looking.solo.is_some();
        self.looking.solo = None;
        let hidden: usize = self.outline.count_closed_eyes();
        if hidden == 0 {
            self.status = String::from_str(
                if left_solo {
                    "left solo — everything is showing"
                } else {
                    "everything is already showing"
                },
            );
            return Vec::new();
        }
        self.outline.open_every_eye();
        proof {
            assert(outline::same_shape(old(self)@.outline.rows, self@.outline.rows));
            outline::lemma_same_shape(old(self)@.outline, self@.outline);
        }
        self.file.unsaved = true;
        let number: String = text::write_decimal(hidden as u64);
        self.status = String::from_str(
            if left_solo {
                "left solo, showing "
            } else {
                "showing "
            },
        ).concat(number.as_str()).concat(" hidden ").concat(
            if hidden == 1 {
                "row"
            } else {
                "rows"
            },
        );
        vec![Action::WriteEyes]
    }

    /// Solos a row.
    pub fn enter_solo(&mut self, id: NodeId) -> (actions: Vec<Action>)
        requires
            old(self)@.wf(),
        ensures
            final(self)@ == old(self)@.enter_solo(id).state,
            actions@ == old(self)@.enter_solo(id).actions,
            final(self)@.wf(),
    {
        let at: usize = match self.outline.index_of(id) {
            Some(at) => at,
            None => {
                return Vec::new();
            },
        };
        let name: String = self.outline.rows[at].name.clone();
        assert(name@ == self@.outline.name_of(id));
        let line: String = String::from_str("solo: ").concat(name.as_str());
        self.looking.solo = Some(id);
        if self.outline.eye_reaches(at) {
            self.status = line.concat(" — escape leaves it");
            return Vec::new();
        }
        self.outline.open_eyes_over(at);
        proof {
            assert(outline::same_shape(old(self)@.outline.rows, self@.outline.rows));
            outline::lemma_same_shape(old(self)@.outline, self@.outline);
        }
        self.file.unsaved = true;
        self.status = line.concat(" — its eye was off and is now on");
        vec![Action::WriteEyes]
    }

    /// Leaves solo.
    pub fn exit_solo(&mut self)
        ensures
            final(self)@ == old(self)@.exit_solo(),
    {
        if self.looking.solo.is_some() {
            self.looking.solo = None;
            self.status = String::from_str("left solo");
        }
    }

    /// Settles what is drawn.
    pub fn publish_visibility(&mut self)
        requires
            old(self)@.wf(),
        ensures
            final(self)@ == old(self)@.publish(),
            final(self)@.wf(),
            final(self)@.agrees(),
    {
        match self.looking.solo {
            Some(id) => {
                if self.outline.index_of(id).is_none() {
                    self.looking.solo = None;
                }
            },
            None => {},
        }
        let mut shown: Vec<bool> = self.outline.display_visibility(self.looking.solo);
        match self.looking.solo {
            Some(id) => {
                if !self.outline.draws_a_body(&shown) {
                    let name: String = self.outline.name_or(id, "that row");
                    self.looking.solo = None;
                    self.status = String::from_str("left solo — ").concat(name.as_str()).concat(
                        " is hidden, so it was showing nothing",
                    );
                    shown = self.outline.display_visibility(None);
                }
            },
            None => {},
        }
        self.looking.hidden_bodies = self.outline.hidden(&shown);
        self.looking.shown = shown;
    }

    /// Which rows the eyes show. Solo has no say in it.
    pub fn saved_nodes(&self) -> (shown: Vec<bool>)
        ensures
            shown@ == self@.outline.saved(),
    {
        self.outline.saved_visibility()
    }

    /// Which rows are drawn.
    pub fn drawn_nodes(&self) -> (shown: Vec<bool>)
        requires
            self@.wf(),
        ensures
            shown@ == self@.outline.drawn(self@.looking.solo),
    {
        self.outline.display_visibility(self.looking.solo)
    }

    /// Whether the active body is drawn, as of the last time that was settled.
    pub fn active_is_drawn(&self) -> (r: bool)
        requires
            self@.wf(),
        ensures
            r == self@.active_is_drawn(),
    {
        proof {
            outline::lemma_active(self@.outline);
        }
        match self.outline.index_of(self.outline.active) {
            Some(i) => i < self.looking.shown.len() && self.looking.shown[i],
            None => false,
        }
    }

    /// Drops solo and settles what is drawn, after every body was meshed afresh.
    pub fn rebuilt(&mut self)
        requires
            old(self)@.wf(),
        ensures
            final(self)@ == old(self)@.rebuilt(),
            final(self)@.wf(),
            final(self)@.agrees(),
    {
        self.looking.solo = None;
        self.publish_visibility();
    }
}

} // verus!
