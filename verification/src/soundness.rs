//! What the session asks of rows and replies that come from outside, as tests
//! that can be run before they are handed in.
use vstd::prelude::*;

use crate::action::{OpenOutcome, Reply, StepOutcome, TimelinePress};
use crate::outline;
use crate::outline::{NodeId, Outline};
use crate::state::{Brokkr, MAX_NODES};

verus! {

impl Outline {
    /// Whether a body has this identity, in rows of any kind.
    fn names_a_body(&self, id: NodeId) -> (r: bool)
        ensures
            r == self@.has_body(id),
    {
        let mut i: usize = 0;
        while i < self.rows.len()
            invariant
                i <= self.rows@.len(),
                forall|k: int|
                    0 <= k < i ==> !(#[trigger] self@.is_at(id, k) && self@.rows[k].is_body),
            decreases self.rows@.len() - i,
        {
            assert(self@.rows[i as int] == self.rows@[i as int]@);
            if self.rows[i].id == id && self.rows[i].is_body {
                assert(self@.is_at(id, i as int) && self@.rows[i as int].is_body);
                return true;
            }
            i = i + 1;
        }
        false
    }

    /// Whether row `i` shares its identity with no row below it.
    fn is_unlike_those_below(&self, i: usize) -> (r: bool)
        requires
            i < self@.rows.len(),
        ensures
            r == forall|j: int|
                i < j < self@.rows.len() ==> (#[trigger] self@.rows[j]).id != self@.rows[
                    i as int
                ].id,
    {
        assert(self@.rows[i as int] == self.rows@[i as int]@);
        let count: usize = self.rows.len();
        let mut j: usize = i + 1;
        while j < count
            invariant
                i < j <= count,
                count == self.rows@.len(),
                self@.rows[i as int] == self.rows@[i as int]@,
                forall|k: int|
                    i < k < j ==> (#[trigger] self@.rows[k]).id != self@.rows[i as int].id,
            decreases count - j,
        {
            assert(self@.rows[j as int] == self.rows@[j as int]@);
            if self.rows[j].id == self.rows[i].id {
                return false;
            }
            j = j + 1;
        }
        true
    }

    /// Whether the row below row `i` lies where a preorder list can have it.
    fn steps_down_right(&self, i: usize) -> (r: bool)
        requires
            i < self@.rows.len(),
        ensures
            r == self@.steps_down_right(i as int),
    {
        assert(self@.rows[i as int] == self.rows@[i as int]@);
        let depth: u8 = self.rows[i].depth;
        let is_last: bool = self.rows.len() - i == 1;
        if is_last {
            return self.rows[i].is_body;
        }
        assert(self@.rows[i + 1] == self.rows@[i + 1]@);
        let below: u8 = self.rows[i + 1].depth;
        if self.rows[i].is_body {
            below <= depth
        } else {
            below > depth && below - depth == 1
        }
    }

    /// Whether the rows are a preorder list of bodies and non-empty folders with
    /// identities of their own, and the active row is a body.
    pub fn is_sound(&self) -> (r: bool)
        ensures
            r == self@.wf(),
    {
        if self.rows.len() == 0 {
            return false;
        }
        assert(self@.rows[0] == self.rows@[0]@);
        if self.rows[0].depth != 0 || !self.names_a_body(self.active) {
            return false;
        }
        let mut i: usize = 0;
        while i < self.rows.len()
            invariant
                i <= self.rows@.len(),
                forall|k: int| 0 <= k < i ==> #[trigger] self@.steps_down_right(k),
                forall|k: int, j: int|
                    0 <= k < i && k < j < self@.rows.len() ==> (#[trigger] self@.rows[k]).id != (
                    #[trigger] self@.rows[j]).id,
            decreases self.rows@.len() - i,
        {
            if !self.steps_down_right(i) {
                return false;
            }
            if !self.is_unlike_those_below(i) {
                return false;
            }
            i = i + 1;
        }
        assert forall|k: int| #[trigger] self@.steps_down_right(k) by {}
        true
    }
}

impl Brokkr {
    /// Whether the session is one that can be.
    pub fn is_sound(&self) -> (r: bool)
        ensures
            r == self@.wf(),
    {
        self.outline.is_sound() && self.tool.strengths.len() > 0
    }
}

/// Whether what the rows weigh together is a number of bytes that can be.
pub fn weights_add_up(weights: &Vec<usize>) -> (r: bool)
    ensures
        r == (outline::weight_in(weights@, 0, weights@.len() as int) <= usize::MAX),
{
    let mut sum: usize = 0;
    let mut i: usize = 0;
    while i < weights.len()
        invariant
            i <= weights@.len(),
            sum == outline::weight_in(weights@, 0, i as int),
        decreases weights@.len() - i,
    {
        if weights[i] > usize::MAX - sum {
            proof {
                outline::lemma_weight_part(weights@, 0, i + 1, weights@.len() as int);
            }
            return false;
        }
        sum = sum + weights[i];
        i = i + 1;
    }
    true
}

impl Reply {
    /// Whether a reply is one that the session can take.
    pub fn is_fit_for(&self, app: &Brokkr) -> (r: bool)
        ensures
            r == self.fits(app@),
    {
        match self {
            Reply::PrimitiveBuilt { id, outline, .. } => outline.is_sound()
                && outline.names_a_body(*id),
            Reply::Copied { id, outline, .. } => outline.is_sound() && outline.names_a_body(*id),
            Reply::Merged { outcome, .. } => match outcome {
                Some(o) => o.outline.is_sound(),
                None => true,
            },
            Reply::RowsWeighed { weights, .. } => weights.len() == app.outline.rows.len()
                && weights_add_up(weights),
            Reply::RowsRemoved { outcome, .. } => match outcome {
                Some(o) => o.outline.is_sound(),
                None => true,
            },
            Reply::Grouped(outcome) => app.outline.rows.len() <= MAX_NODES && match outcome {
                Some(o) => o.outline.is_sound(),
                None => true,
            },
            Reply::CollapseSet(outcome) => match outcome {
                Some(o) => o.outline.is_sound(),
                None => true,
            },
            Reply::Ungrouped { outcome, .. } => match outcome {
                Some(o) => o.outline.is_sound(),
                None => true,
            },
            Reply::MovedToFolder { outcome, .. } => match outcome {
                Some(o) => o.outline.is_sound(),
                None => true,
            },
            Reply::HistoryStepped { outcome, .. } => match outcome {
                StepOutcome::Applied { outline, .. } => outline.is_sound(),
                _ => true,
            },
            Reply::Oriented(outcome) => match outcome {
                Some(o) => o.0.outline.is_sound(),
                None => true,
            },
            Reply::DocumentReset { outline, .. } => outline.is_sound(),
            Reply::ProjectOpened { outcome, .. } => match outcome {
                OpenOutcome::Opened { outline, .. } => outline.is_sound(),
                _ => true,
            },
            Reply::ImportAdopted { outline, .. } => outline.is_sound(),
            Reply::Resampled { outline, .. } => outline.is_sound(),
            Reply::Rescaled { outline, .. } => outline.is_sound(),
            Reply::TimelinePressed(press) => match press {
                TimelinePress::WentTo { index, keys, .. } => *index < *keys,
                TimelinePress::Added { index, keys } => *index < *keys,
                TimelinePress::Nothing => true,
            },
            _ => true,
        }
    }
}

} // verus!
