//! The outline: the rows of the body panel, bodies and folders, as a list in
//! preorder.
//!
//! A row's depth says how many folders it lies in. What a folder holds is the
//! run of deeper rows right below it, so no row names its parent.
use vstd::prelude::*;

use crate::text::same_text;

verus! {

/// The identity of a row. Names may repeat; identities do not.
#[derive(Clone, Copy, Debug, PartialEq, Eq, Structural)]
pub struct NodeId(pub u64);

/// One row of the panel: a body, which holds a field, or a folder.
#[derive(Debug)]
pub struct Row {
    pub id: NodeId,
    pub name: String,
    pub depth: u8,
    pub visible: bool,
    pub collapsed: bool,
    pub is_body: bool,
}

/// A row as the contracts speak of it.
#[verifier::ext_equal]
pub struct RowV {
    pub id: NodeId,
    pub name: Seq<char>,
    pub depth: u8,
    pub visible: bool,
    pub collapsed: bool,
    pub is_body: bool,
}

impl View for Row {
    type V = RowV;

    open spec fn view(&self) -> RowV {
        RowV {
            id: self.id,
            name: self.name@,
            depth: self.depth,
            visible: self.visible,
            collapsed: self.collapsed,
            is_body: self.is_body,
        }
    }
}

impl Row {
    /// A copy of the row.
    pub fn copied(&self) -> (r: Row)
        ensures
            r@ == self@,
    {
        Row {
            id: self.id,
            name: self.name.clone(),
            depth: self.depth,
            visible: self.visible,
            collapsed: self.collapsed,
            is_body: self.is_body,
        }
    }
}

/// The rows in order, and the row that edits land on.
#[derive(Debug)]
pub struct Outline {
    pub rows: Vec<Row>,
    pub active: NodeId,
}

/// An outline as the contracts speak of it.
#[verifier::ext_equal]
pub struct OutlineV {
    pub rows: Seq<RowV>,
    pub active: NodeId,
}

impl View for Outline {
    type V = OutlineV;

    open spec fn view(&self) -> OutlineV {
        OutlineV { rows: self.rows@.map_values(|r: Row| r@), active: self.active }
    }
}

/// Whether row `k` is row `j` or lies inside it.
pub open spec fn within(rows: Seq<RowV>, j: int, k: int) -> bool {
    j <= k && forall|m: int| j < m <= k ==> (#[trigger] rows[m]).depth > rows[j].depth
}

/// The end of the run of rows inside row `i`, looked for from `k` on.
pub open spec fn run_end(rows: Seq<RowV>, i: int, k: int) -> int
    decreases rows.len() - k,
{
    if k < rows.len() && rows[k].depth > rows[i].depth {
        run_end(rows, i, k + 1)
    } else {
        k
    }
}

/// How many of the rows from `lo` up to `hi` are bodies.
pub open spec fn bodies_in(rows: Seq<RowV>, lo: int, hi: int) -> nat
    decreases hi - lo,
{
    if hi <= lo {
        0
    } else {
        bodies_in(rows, lo, hi - 1) + if rows[hi - 1].is_body {
            1nat
        } else {
            0nat
        }
    }
}

/// What the rows from `lo` up to `hi` weigh together.
pub open spec fn weight_in(weights: Seq<usize>, lo: int, hi: int) -> nat
    decreases hi - lo,
{
    if hi <= lo {
        0
    } else {
        weight_in(weights, lo, hi - 1) + weights[hi - 1] as nat
    }
}

/// Whether row `k` and every folder it lies in have their eye on.
pub open spec fn saved_at(rows: Seq<RowV>, k: int) -> bool {
    forall|j: int| 0 <= j <= k && #[trigger] within(rows, j, k) ==> rows[j].visible
}

/// The first row from `k` on that is a body with every eye over it on.
pub open spec fn first_saved_body(rows: Seq<RowV>, k: int) -> Option<int>
    decreases rows.len() - k,
{
    if k >= rows.len() {
        None
    } else if rows[k].is_body && saved_at(rows, k) {
        Some(k)
    } else {
        first_saved_body(rows, k + 1)
    }
}

/// The first body among the rows from `k` up to `end`.
pub open spec fn first_body(rows: Seq<RowV>, k: int, end: int) -> Option<int>
    decreases end - k,
{
    if k >= end {
        None
    } else if rows[k].is_body {
        Some(k)
    } else {
        first_body(rows, k + 1, end)
    }
}

/// The folder that row `k` lies in directly, looked for from `j` backwards.
pub open spec fn parent_before(rows: Seq<RowV>, j: int, k: int) -> Option<int>
    decreases j,
{
    if j <= 0 {
        None
    } else if rows[j - 1].depth < rows[k].depth {
        Some(j - 1)
    } else {
        parent_before(rows, j - 1, k)
    }
}

/// The bodies among the first `n` rows that `shown` leaves out, in order.
pub open spec fn left_out(rows: Seq<RowV>, shown: Seq<bool>, n: int) -> Seq<NodeId>
    decreases n,
{
    if n <= 0 {
        seq![]
    } else {
        let before = left_out(rows, shown, n - 1);
        if rows[n - 1].is_body && !shown[n - 1] {
            before.push(rows[n - 1].id)
        } else {
            before
        }
    }
}

/// How many of the first `n` rows have their eye off.
pub open spec fn closed_eyes(rows: Seq<RowV>, n: int) -> nat
    decreases n,
{
    if n <= 0 {
        0
    } else {
        closed_eyes(rows, n - 1) + if rows[n - 1].visible {
            0nat
        } else {
            1nat
        }
    }
}

/// Whether no folder among the first `n` rows has this name.
pub open spec fn folder_name_free(rows: Seq<RowV>, n: int, name: Seq<char>) -> bool {
    forall|i: int| 0 <= i < n && !(#[trigger] rows[i]).is_body ==> rows[i].name != name
}

impl OutlineV {
    /// Whether the rows are a preorder list of bodies and non-empty folders with
    /// identities of their own, and the active row is a body.
    pub open spec fn wf(self) -> bool {
        &&& self.rows.len() > 0
        &&& self.rows[0].depth == 0
        &&& forall|i: int, j: int|
            0 <= i < j < self.rows.len() ==> (#[trigger] self.rows[i]).id != (
            #[trigger] self.rows[j]).id
        &&& forall|i: int| #[trigger] self.steps_down_right(i)
        &&& self.has_body(self.active)
    }

    /// Whether the row below row `i` lies where a preorder list can have it: one
    /// deeper than a folder, no deeper than a body.
    pub open spec fn steps_down_right(self, i: int) -> bool {
        0 <= i < self.rows.len() ==> {
            if self.rows[i].is_body {
                i + 1 < self.rows.len() ==> self.rows[i + 1].depth <= self.rows[i].depth
            } else {
                i + 1 < self.rows.len() && self.rows[i + 1].depth == self.rows[i].depth + 1
            }
        }
    }

    /// Whether row `i` has this identity.
    pub open spec fn is_at(self, id: NodeId, i: int) -> bool {
        0 <= i < self.rows.len() && self.rows[i].id == id
    }

    /// Whether a row has this identity.
    pub open spec fn has(self, id: NodeId) -> bool {
        exists|i: int| self.is_at(id, i)
    }

    /// Whether a body has this identity.
    pub open spec fn has_body(self, id: NodeId) -> bool {
        exists|i: int| self.is_at(id, i) && self.rows[i].is_body
    }

    /// The position of the row with this identity.
    pub open spec fn at(self, id: NodeId) -> int {
        choose|i: int| self.is_at(id, i)
    }

    /// The name of the row with this identity.
    pub open spec fn name_of(self, id: NodeId) -> Seq<char> {
        self.rows[self.at(id)].name
    }

    /// The name of the row with this identity, or `other` where there is none.
    pub open spec fn name_or(self, id: NodeId, other: Seq<char>) -> Seq<char> {
        if self.has(id) {
            self.name_of(id)
        } else {
            other
        }
    }

    /// The end of the run of rows inside row `i`.
    pub open spec fn end_of(self, i: int) -> int {
        run_end(self.rows, i, i + 1)
    }

    /// How many bodies there are.
    pub open spec fn body_count(self) -> nat {
        bodies_in(self.rows, 0, self.rows.len() as int)
    }

    /// How many bodies the row with this identity is or holds.
    pub open spec fn subtree_body_count(self, id: NodeId) -> nat {
        if self.has(id) {
            bodies_in(self.rows, self.at(id), self.end_of(self.at(id)))
        } else {
            0
        }
    }

    /// The folder a row lies in directly.
    pub open spec fn parent_of(self, id: NodeId) -> Option<NodeId> {
        if self.has(id) {
            match parent_before(self.rows, self.at(id), self.at(id)) {
                Some(j) => Some(self.rows[j].id),
                None => None,
            }
        } else {
            None
        }
    }

    /// The first body that a row is or holds.
    pub open spec fn first_body_in(self, id: NodeId) -> Option<NodeId> {
        if self.has(id) {
            match first_body(self.rows, self.at(id), self.end_of(self.at(id))) {
                Some(k) => Some(self.rows[k].id),
                None => None,
            }
        } else {
            None
        }
    }

    /// Whether row `k` is the soloed row or lies inside it.
    pub open spec fn solo_reaches(self, solo: Option<NodeId>, k: int) -> bool {
        match solo {
            Some(id) => self.has(id) && within(self.rows, self.at(id), k),
            None => true,
        }
    }

    /// Which rows the eyes show: a row whose own eye and whose folders' eyes are
    /// all on.
    pub open spec fn saved(self) -> Seq<bool> {
        Seq::new(self.rows.len(), |k: int| saved_at(self.rows, k))
    }

    /// Which rows are drawn: those the eyes show, narrowed to the soloed row.
    pub open spec fn drawn(self, solo: Option<NodeId>) -> Seq<bool> {
        Seq::new(self.rows.len(), |k: int| saved_at(self.rows, k) && self.solo_reaches(solo, k))
    }

    /// Whether some body is drawn.
    pub open spec fn draws_a_body(self, shown: Seq<bool>) -> bool {
        exists|k: int|
            #![trigger shown[k]]
            0 <= k < self.rows.len() && shown[k] && self.rows[k].is_body
    }

    /// The bodies that are not drawn, in order.
    pub open spec fn hidden(self, shown: Seq<bool>) -> Seq<NodeId> {
        left_out(self.rows, shown, self.rows.len() as int)
    }

    /// The outline with the eye of row `i` set.
    pub open spec fn with_eye(self, i: int, visible: bool) -> OutlineV {
        OutlineV {
            rows: self.rows.update(i, RowV { visible: visible, ..self.rows[i] }),
            ..self
        }
    }

    /// The outline with the name of row `i` set.
    pub open spec fn with_name(self, i: int, name: Seq<char>) -> OutlineV {
        OutlineV { rows: self.rows.update(i, RowV { name: name, ..self.rows[i] }), ..self }
    }

    /// The outline with every eye on.
    pub open spec fn with_every_eye(self) -> OutlineV {
        OutlineV {
            rows: self.rows.map_values(|r: RowV| RowV { visible: true, ..r }),
            ..self
        }
    }

    /// The outline with the eyes of row `k` and of every folder it lies in on.
    pub open spec fn with_eyes_over(self, k: int) -> OutlineV {
        OutlineV {
            rows: Seq::new(
                self.rows.len(),
                |j: int|
                    if within(self.rows, j, k) {
                        RowV { visible: true, ..self.rows[j] }
                    } else {
                        self.rows[j]
                    },
            ),
            ..self
        }
    }

    /// The outline with another active row.
    pub open spec fn with_active(self, id: NodeId) -> OutlineV {
        OutlineV { active: id, ..self }
    }
}


/// Identities are unique, so the position of one is the only one.
pub proof fn lemma_at(o: OutlineV, id: NodeId, i: int)
    requires
        o.wf(),
        o.is_at(id, i),
    ensures
        o.has(id),
        o.at(id) == i,
{
    let j = o.at(id);
    assert(o.is_at(id, j));
    if j < i {
        assert(o.rows[j].id != o.rows[i].id);
    } else if i < j {
        assert(o.rows[i].id != o.rows[j].id);
    }
}

/// The run of rows inside row `i` ends at the first row that is not deeper.
pub proof fn lemma_run_end(rows: Seq<RowV>, i: int, k: int)
    requires
        0 <= i < k <= rows.len(),
        forall|m: int| i < m < k ==> (#[trigger] rows[m]).depth > rows[i].depth,
    ensures
        k <= run_end(rows, i, k) <= rows.len(),
        run_end(rows, i, i + 1) == run_end(rows, i, k),
        forall|m: int|
            i < m < run_end(rows, i, k) ==> (#[trigger] rows[m]).depth > rows[i].depth,
        run_end(rows, i, k) < rows.len() ==> rows[run_end(rows, i, k)].depth <= rows[i].depth,
    decreases rows.len() - k,
{
    lemma_run_start(rows, i, k);
    if k < rows.len() && rows[k].depth > rows[i].depth {
        lemma_run_end(rows, i, k + 1);
    }
}

proof fn lemma_run_start(rows: Seq<RowV>, i: int, k: int)
    requires
        0 <= i < k <= rows.len(),
        forall|m: int| i < m < k ==> (#[trigger] rows[m]).depth > rows[i].depth,
    ensures
        run_end(rows, i, i + 1) == run_end(rows, i, k),
    decreases k,
{
    if k > i + 1 {
        lemma_run_start(rows, i, k - 1);
        assert(rows[k - 1].depth > rows[i].depth);
    }
}

/// A row lies in row `i` exactly where it stands before the end of its run.
pub proof fn lemma_within_run(rows: Seq<RowV>, i: int, k: int)
    requires
        0 <= i <= k < rows.len(),
    ensures
        within(rows, i, k) <==> k < run_end(rows, i, i + 1),
{
    lemma_run_end(rows, i, i + 1);
    let e = run_end(rows, i, i + 1);
    if k < e {
        assert(within(rows, i, k));
    } else {
        assert(rows[e].depth <= rows[i].depth);
    }
}

impl Outline {
    /// How many rows there are.
    pub fn node_count(&self) -> (n: usize)
        ensures
            n == self@.rows.len(),
    {
        self.rows.len()
    }

    /// The position of the row with this identity.
    pub fn index_of(&self, id: NodeId) -> (r: Option<usize>)
        requires
            self@.wf(),
        ensures
            r is Some <==> self@.has(id),
            r matches Some(i) ==> self@.is_at(id, i as int) && self@.at(id) == i,
    {
        let mut i: usize = 0;
        while i < self.rows.len()
            invariant
                i <= self.rows@.len(),
                self@.wf(),
                forall|j: int| 0 <= j < i ==> !(#[trigger] self@.is_at(id, j)),
            decreases self.rows@.len() - i,
        {
            assert(self@.rows[i as int] == self.rows@[i as int]@);
            if self.rows[i].id == id {
                proof {
                    lemma_at(self@, id, i as int);
                }
                return Some(i);
            }
            i = i + 1;
        }
        assert(!self@.has(id));
        None
    }

    /// Whether a body has this identity.
    pub fn holds_body(&self, id: NodeId) -> (r: bool)
        requires
            self@.wf(),
        ensures
            r == self@.has_body(id),
    {
        match self.index_of(id) {
            Some(i) => {
                let r: bool = self.rows[i].is_body;
                proof {
                    assert(self@.rows[i as int] == self.rows@[i as int]@);
                    if r {
                        assert(self@.is_at(id, i as int));
                    } else {
                        assert forall|j: int| self@.is_at(id, j) implies !self@.rows[j].is_body by {
                            lemma_at(self@, id, j);
                        }
                    }
                }
                r
            },
            None => false,
        }
    }

    /// The end of the run of rows inside row `i`.
    pub fn end_of(&self, i: usize) -> (e: usize)
        requires
            i < self@.rows.len(),
        ensures
            e == self@.end_of(i as int),
            i < e <= self@.rows.len(),
    {
        let count: usize = self.rows.len();
        let mut k: usize = i + 1;
        while k < count && self.rows[k].depth > self.rows[i].depth
            invariant
                i < k <= self.rows@.len(),
                count == self.rows@.len(),
                self@.rows.len() == self.rows@.len(),
                forall|m: int|
                    i < m < k ==> (#[trigger] self@.rows[m]).depth > self@.rows[i as int].depth,
            ensures
                k < self.rows@.len() ==> self@.rows[k as int].depth <= self@.rows[i as int].depth,
            decreases self.rows@.len() - k,
        {
            k = k + 1;
        }
        proof {
            lemma_run_end(self@.rows, i as int, k as int);
        }
        k
    }

    /// How many of the rows from `lo` up to `hi` are bodies.
    pub fn count_bodies(&self, lo: usize, hi: usize) -> (n: usize)
        requires
            lo <= hi <= self@.rows.len(),
        ensures
            n == bodies_in(self@.rows, lo as int, hi as int),
            n <= hi - lo,
    {
        let mut n: usize = 0;
        let mut k: usize = lo;
        while k < hi
            invariant
                lo <= k <= hi <= self.rows@.len(),
                n == bodies_in(self@.rows, lo as int, k as int),
                n <= k - lo,
            decreases hi - k,
        {
            if self.rows[k].is_body {
                n = n + 1;
            }
            k = k + 1;
        }
        n
    }

    /// How many bodies there are.
    pub fn body_count(&self) -> (n: usize)
        ensures
            n == self@.body_count(),
            n <= self@.rows.len(),
    {
        self.count_bodies(0, self.rows.len())
    }

    /// How many bodies the row with this identity is or holds.
    pub fn subtree_body_count(&self, id: NodeId) -> (n: usize)
        requires
            self@.wf(),
        ensures
            n == self@.subtree_body_count(id),
    {
        match self.index_of(id) {
            Some(i) => {
                let e: usize = self.end_of(i);
                self.count_bodies(i, e)
            },
            None => 0,
        }
    }

    /// The position of the folder that row `k` lies in directly.
    pub fn parent_index(&self, k: usize) -> (r: Option<usize>)
        requires
            k < self@.rows.len(),
        ensures
            match r {
                Some(p) => parent_before(self@.rows, k as int, k as int) == Some(p as int) && p < k,
                None => parent_before(self@.rows, k as int, k as int) is None,
            },
    {
        let mut j: usize = k;
        while j > 0
            invariant
                j <= k < self.rows@.len(),
                parent_before(self@.rows, k as int, k as int) == parent_before(
                    self@.rows,
                    j as int,
                    k as int,
                ),
            decreases j,
        {
            if self.rows[j - 1].depth < self.rows[k].depth {
                return Some(j - 1);
            }
            j = j - 1;
        }
        None
    }

    /// The folder a row lies in directly.
    pub fn parent_of(&self, id: NodeId) -> (r: Option<NodeId>)
        requires
            self@.wf(),
        ensures
            r == self@.parent_of(id),
    {
        match self.index_of(id) {
            Some(k) => match self.parent_index(k) {
                Some(p) => Some(self.rows[p].id),
                None => None,
            },
            None => None,
        }
    }

    /// The first body that a row is or holds.
    pub fn first_body_in(&self, id: NodeId) -> (r: Option<NodeId>)
        requires
            self@.wf(),
        ensures
            r == self@.first_body_in(id),
    {
        match self.index_of(id) {
            Some(i) => {
                let e: usize = self.end_of(i);
                let mut k: usize = i;
                while k < e
                    invariant
                        i <= k <= e <= self.rows@.len(),
                        first_body(self@.rows, i as int, e as int) == first_body(
                            self@.rows,
                            k as int,
                            e as int,
                        ),
                        self@.has(id),
                        self@.at(id) == i,
                        self@.end_of(i as int) == e,
                    decreases e - k,
                {
                    if self.rows[k].is_body {
                        return Some(self.rows[k].id);
                    }
                    k = k + 1;
                }
                None
            },
            None => None,
        }
    }

    /// Whether row `k` and every folder it lies in have their eye on.
    pub fn eye_reaches(&self, k: usize) -> (r: bool)
        requires
            k < self@.rows.len(),
        ensures
            r == saved_at(self@.rows, k as int),
    {
        let mut j: usize = k;
        let mut bound: u8 = self.rows[k].depth;
        if !self.rows[k].visible {
            assert(within(self@.rows, k as int, k as int));
            return false;
        }
        assert(self@.rows[k as int].depth == bound);
        while j > 0
            invariant
                j <= k < self.rows@.len(),
                self@.rows.len() == self.rows@.len(),
                forall|m: int| j <= m <= k ==> (#[trigger] self@.rows[m]).depth >= bound,
                exists|m: int| j <= m <= k && (#[trigger] self@.rows[m]).depth == bound,
                forall|m: int|
                    j <= m <= k && #[trigger] within(self@.rows, m, k as int)
                        ==> self@.rows[m].visible,
            decreases j,
        {
            let i: usize = j - 1;
            proof {
                let rows = self@.rows;
                if rows[i as int].depth < bound {
                    assert(within(rows, i as int, k as int));
                } else {
                    let m = choose|m: int| j <= m <= k && (#[trigger] rows[m]).depth == bound;
                    assert(!within(rows, i as int, k as int));
                }
            }
            if self.rows[i].depth < bound {
                bound = self.rows[i].depth;
                if !self.rows[i].visible {
                    return false;
                }
            }
            j = i;
        }
        true
    }

    /// Which rows the eyes show.
    pub fn saved_visibility(&self) -> (shown: Vec<bool>)
        ensures
            shown@ == self@.saved(),
    {
        let mut shown: Vec<bool> = Vec::new();
        let mut k: usize = 0;
        while k < self.rows.len()
            invariant
                k <= self.rows@.len(),
                self@.rows.len() == self.rows@.len(),
                shown@.len() == k,
                forall|m: int| 0 <= m < k ==> #[trigger] shown@[m] == saved_at(self@.rows, m),
            decreases self.rows@.len() - k,
        {
            let seen: bool = self.eye_reaches(k);
            shown.push(seen);
            k = k + 1;
        }
        assert(shown@ =~= self@.saved());
        shown
    }

    /// Which rows are drawn while `solo` is on.
    pub fn display_visibility(&self, solo: Option<NodeId>) -> (shown: Vec<bool>)
        requires
            self@.wf(),
        ensures
            shown@ == self@.drawn(solo),
    {
        let mut lo: usize = 0;
        let mut hi: usize = self.rows.len();
        match solo {
            Some(id) => match self.index_of(id) {
                Some(i) => {
                    lo = i;
                    hi = self.end_of(i);
                },
                None => {
                    hi = 0;
                },
            },
            None => {},
        }
        let mut shown: Vec<bool> = Vec::new();
        let mut k: usize = 0;
        while k < self.rows.len()
            invariant
                k <= self.rows@.len(),
                self@.rows.len() == self.rows@.len(),
                shown@.len() == k,
                solo is None ==> lo == 0 && hi == self.rows@.len(),
                solo matches Some(id) ==> if self@.has(id) {
                    lo == self@.at(id) && lo < self.rows@.len() && hi == self@.end_of(lo as int)
                } else {
                    lo == 0 && hi == 0
                },
                forall|m: int|
                    0 <= m < k ==> #[trigger] shown@[m] == (saved_at(self@.rows, m)
                        && self@.solo_reaches(solo, m)),
            decreases self.rows@.len() - k,
        {
            proof {
                if lo <= k && solo is Some {
                    lemma_within_run(self@.rows, lo as int, k as int);
                }
            }
            let seen: bool = lo <= k && k < hi && self.eye_reaches(k);
            shown.push(seen);
            k = k + 1;
        }
        assert(shown@ =~= self@.drawn(solo));
        shown
    }

    /// Whether some body is drawn.
    pub fn draws_a_body(&self, shown: &Vec<bool>) -> (r: bool)
        requires
            shown@.len() == self@.rows.len(),
        ensures
            r == self@.draws_a_body(shown@),
    {
        let mut k: usize = 0;
        while k < self.rows.len()
            invariant
                k <= self.rows@.len(),
                self.rows@.len() == shown@.len(),
                forall|m: int| 0 <= m < k ==> !(#[trigger] shown@[m] && self@.rows[m].is_body),
            decreases self.rows@.len() - k,
        {
            if shown[k] && self.rows[k].is_body {
                assert(shown@[k as int] && self@.rows[k as int].is_body);
                return true;
            }
            k = k + 1;
        }
        false
    }

    /// The bodies that are not drawn, in order.
    pub fn hidden(&self, shown: &Vec<bool>) -> (r: Vec<NodeId>)
        requires
            shown@.len() == self@.rows.len(),
        ensures
            r@ == self@.hidden(shown@),
    {
        let mut r: Vec<NodeId> = Vec::new();
        let mut k: usize = 0;
        while k < self.rows.len()
            invariant
                k <= self.rows@.len(),
                self.rows@.len() == shown@.len(),
                r@ == left_out(self@.rows, shown@, k as int),
            decreases self.rows@.len() - k,
        {
            if self.rows[k].is_body && !shown[k] {
                r.push(self.rows[k].id);
            }
            k = k + 1;
        }
        r
    }

    /// The first body that the eyes show.
    pub fn first_saved_body(&self) -> (r: Option<usize>)
        ensures
            match r {
                Some(k) => first_saved_body(self@.rows, 0) == Some(k as int) && k < self@.rows.len()
                    && self@.rows[k as int].is_body && saved_at(self@.rows, k as int),
                None => first_saved_body(self@.rows, 0) is None,
            },
    {
        let mut k: usize = 0;
        while k < self.rows.len()
            invariant
                k <= self.rows@.len(),
                self@.rows.len() == self.rows@.len(),
                first_saved_body(self@.rows, 0) == first_saved_body(self@.rows, k as int),
            decreases self.rows@.len() - k,
        {
            if self.rows[k].is_body && self.eye_reaches(k) {
                return Some(k);
            }
            k = k + 1;
        }
        None
    }

    /// Sets the eye of one row.
    pub fn set_eye(&mut self, i: usize, visible: bool)
        requires
            i < old(self)@.rows.len(),
        ensures
            final(self)@ == old(self)@.with_eye(i as int, visible),
    {
        let mut row: Row = self.rows[i].copied();
        row.visible = visible;
        self.rows.set(i, row);
        assert(self@.rows =~= old(self)@.with_eye(i as int, visible).rows);
    }

    /// Sets the name of one row.
    pub fn set_name(&mut self, i: usize, name: String)
        requires
            i < old(self)@.rows.len(),
        ensures
            final(self)@ == old(self)@.with_name(i as int, name@),
    {
        let mut row: Row = self.rows[i].copied();
        row.name = name;
        self.rows.set(i, row);
        assert(self@.rows =~= old(self)@.with_name(i as int, name@).rows);
    }

    /// Turns every eye on.
    pub fn open_every_eye(&mut self)
        ensures
            final(self)@ == old(self)@.with_every_eye(),
    {
        let ghost before = self@;
        let mut k: usize = 0;
        while k < self.rows.len()
            invariant
                k <= self.rows@.len(),
                before == old(self)@,
                self.active == before.active,
                self@.rows.len() == before.rows.len(),
                self@.rows.len() == self.rows@.len(),
                forall|m: int|
                    0 <= m < k ==> #[trigger] self@.rows[m] == (RowV {
                        visible: true,
                        ..before.rows[m]
                    }),
                forall|m: int|
                    k <= m < self.rows@.len() ==> #[trigger] self@.rows[m] == before.rows[m],
            decreases self.rows@.len() - k,
        {
            self.set_eye(k, true);
            assert(self@.rows.len() == self.rows@.len());
            k = k + 1;
        }
        assert(self@.rows =~= before.with_every_eye().rows);
    }

    /// Turns on the eyes of row `k` and of every folder it lies in.
    pub fn open_eyes_over(&mut self, k: usize)
        requires
            k < old(self)@.rows.len(),
        ensures
            final(self)@ == old(self)@.with_eyes_over(k as int),
    {
        let ghost before = self@;
        let count: usize = self.rows.len();
        assert(k < count);
        let mut j: usize = k + 1;
        let mut bound: u8 = self.rows[k].depth;
        assert(within(before.rows, k as int, k as int));
        let mut first: bool = true;
        while j > 0
            invariant
                j <= k + 1,
                k < self.rows@.len(),
                before == old(self)@,
                self.active == before.active,
                self@.rows.len() == before.rows.len(),
                self@.rows.len() == self.rows@.len(),
                first == (j == k + 1),
                first ==> bound == before.rows[k as int].depth,
                !first ==> {
                    &&& forall|m: int| j <= m <= k ==> (#[trigger] before.rows[m]).depth >= bound
                    &&& exists|m: int| j <= m <= k && (#[trigger] before.rows[m]).depth == bound
                },
                forall|m: int| 0 <= m < j ==> #[trigger] self@.rows[m] == before.rows[m],
                forall|m: int|
                    k < m < self@.rows.len() ==> #[trigger] self@.rows[m] == before.rows[m],
                forall|m: int|
                    j <= m <= k ==> #[trigger] self@.rows[m] == (if within(
                        before.rows,
                        m,
                        k as int,
                    ) {
                        RowV { visible: true, ..before.rows[m] }
                    } else {
                        before.rows[m]
                    }),
            decreases j,
        {
            let i: usize = j - 1;
            assert(self@.rows[i as int] == before.rows[i as int]);
            assert(self@.rows[i as int] == self.rows@[i as int]@);
            proof {
                let rows = before.rows;
                if !first {
                    if rows[i as int].depth < bound {
                        assert(within(rows, i as int, k as int));
                    } else {
                        let m = choose|m: int| j <= m <= k && (#[trigger] rows[m]).depth == bound;
                        assert(!within(rows, i as int, k as int));
                    }
                }
            }
            if first || self.rows[i].depth < bound {
                bound = self.rows[i].depth;
                self.set_eye(i, true);
                assert(self@.rows.len() == self.rows@.len());
                assert(before.rows[i as int].depth == bound);
            }
            first = false;
            j = i;
        }
        assert(self@.rows =~= before.with_eyes_over(k as int).rows) by {
            assert forall|m: int| 0 <= m < self@.rows.len() implies self@.rows[m]
                == before.with_eyes_over(k as int).rows[m] by {
                if m > k {
                    assert(!within(before.rows, m, k as int));
                }
            }
        }
    }

    /// How many rows have their eye off.
    pub fn count_closed_eyes(&self) -> (n: usize)
        ensures
            n == closed_eyes(self@.rows, self@.rows.len() as int),
    {
        let mut n: usize = 0;
        let mut k: usize = 0;
        while k < self.rows.len()
            invariant
                k <= self.rows@.len(),
                n <= k,
                n == closed_eyes(self@.rows, k as int),
            decreases self.rows@.len() - k,
        {
            if !self.rows[k].visible {
                n = n + 1;
            }
            k = k + 1;
        }
        n
    }

    /// Whether no folder has this name.
    pub fn folder_name_is_free(&self, name: &str) -> (r: bool)
        ensures
            r == folder_name_free(self@.rows, self@.rows.len() as int, name@),
    {
        let mut k: usize = 0;
        while k < self.rows.len()
            invariant
                k <= self.rows@.len(),
                self@.rows.len() == self.rows@.len(),
                folder_name_free(self@.rows, k as int, name@),
            decreases self.rows@.len() - k,
        {
            if !self.rows[k].is_body && same_text(self.rows[k].name.as_str(), name) {
                assert(!self@.rows[k as int].is_body && self@.rows[k as int].name == name@);
                return false;
            }
            k = k + 1;
        }
        true
    }

    /// What a row weighs with everything in it, from what each row weighs.
    pub fn subtree_weight(&self, id: NodeId, weights: &Vec<usize>) -> (n: usize)
        requires
            self@.wf(),
            weights@.len() == self@.rows.len(),
            weight_in(weights@, 0, weights@.len() as int) <= usize::MAX,
        ensures
            n == if self@.has(id) {
                weight_in(weights@, self@.at(id), self@.end_of(self@.at(id)))
            } else {
                0
            },
    {
        match self.index_of(id) {
            Some(i) => {
                let e: usize = self.end_of(i);
                let mut n: usize = 0;
                let mut k: usize = i;
                while k < e
                    invariant
                        i <= k <= e <= self.rows@.len(),
                        weights@.len() == self@.rows.len(),
                        self@.rows.len() == self.rows@.len(),
                        weight_in(weights@, 0, weights@.len() as int) <= usize::MAX,
                        n == weight_in(weights@, i as int, k as int),
                    decreases e - k,
                {
                    proof {
                        lemma_weight_part(weights@, i as int, k + 1, weights@.len() as int);
                    }
                    n = n + weights[k];
                    k = k + 1;
                }
                n
            },
            None => 0,
        }
    }
}

/// Part of the rows weighs no more than all of them.
pub proof fn lemma_weight_part(weights: Seq<usize>, lo: int, hi: int, n: int)
    requires
        0 <= lo <= hi <= n <= weights.len(),
    ensures
        weight_in(weights, lo, hi) <= weight_in(weights, 0, n),
    decreases n,
{
    if hi < n {
        lemma_weight_part(weights, lo, hi, n - 1);
    } else if lo < hi {
        lemma_weight_part(weights, lo, hi - 1, n - 1);
    }
}

/// Whether two lists of rows differ in names, eyes and folds alone.
pub open spec fn same_shape(a: Seq<RowV>, b: Seq<RowV>) -> bool {
    &&& a.len() == b.len()
    &&& forall|i: int|
        0 <= i < a.len() ==> (#[trigger] a[i]).id == b[i].id && a[i].depth == b[i].depth
            && a[i].is_body == b[i].is_body
}

/// Where the shape is the same, so are the positions, and the outline is sound
/// if its active row is a body.
pub proof fn lemma_same_shape(a: OutlineV, b: OutlineV)
    requires
        a.wf(),
        same_shape(a.rows, b.rows),
        a.has_body(b.active),
    ensures
        b.wf(),
        forall|id: NodeId| #[trigger] b.has(id) == a.has(id),
        forall|id: NodeId| a.has(id) ==> #[trigger] b.at(id) == a.at(id),
        forall|id: NodeId| #[trigger] b.has_body(id) == a.has_body(id),
{
    assert forall|i: int, j: int| 0 <= i < j < b.rows.len() implies (#[trigger] b.rows[i]).id != (
    #[trigger] b.rows[j]).id by {
        assert(a.rows[i].id != a.rows[j].id);
    }
    assert forall|i: int| #[trigger] b.steps_down_right(i) by {
        assert(a.steps_down_right(i));
        if 0 <= i < a.rows.len() {
            assert(a.rows[i].is_body == b.rows[i].is_body);
            if i + 1 < a.rows.len() {
                assert(a.rows[i + 1].depth == b.rows[i + 1].depth);
            }
        }
    }
    assert(a.rows[0].depth == b.rows[0].depth);
    assert forall|id: NodeId, i: int| #[trigger] b.is_at(id, i) == a.is_at(id, i) by {
        if 0 <= i < a.rows.len() {
            assert(a.rows[i].id == b.rows[i].id);
        }
    }
    assert forall|id: NodeId| #[trigger] b.has(id) == a.has(id) by {
        if a.has(id) {
            assert(b.is_at(id, a.at(id)));
        }
        if b.has(id) {
            assert(a.is_at(id, b.at(id)));
        }
    }
    assert forall|id: NodeId| #[trigger] b.has_body(id) == a.has_body(id) by {
        if a.has_body(id) {
            let i = choose|i: int| a.is_at(id, i) && a.rows[i].is_body;
            assert(b.is_at(id, i) && b.rows[i].is_body);
        }
        if b.has_body(id) {
            let i = choose|i: int| b.is_at(id, i) && b.rows[i].is_body;
            assert(a.is_at(id, i) && a.rows[i].is_body);
        }
    }
    assert(b.has_body(b.active));
    assert forall|id: NodeId| a.has(id) implies #[trigger] b.at(id) == a.at(id) by {
        assert(b.is_at(id, a.at(id)));
        lemma_at(b, id, a.at(id));
    }
}

/// The first body found in a row is one.
pub proof fn lemma_first_body(o: OutlineV, id: NodeId)
    requires
        o.wf(),
        o.first_body_in(id) is Some,
    ensures
        o.has_body(o.first_body_in(id)->0),
{
    let i = o.at(id);
    assert(o.is_at(id, i));
    lemma_run_end(o.rows, i, i + 1);
    lemma_first_body_from(o.rows, i, o.end_of(i));
    let k = first_body(o.rows, i, o.end_of(i))->0;
    assert(o.is_at(o.rows[k].id, k) && o.rows[k].is_body);
}

proof fn lemma_first_body_from(rows: Seq<RowV>, k: int, end: int)
    requires
        0 <= k,
        end <= rows.len(),
    ensures
        first_body(rows, k, end) matches Some(i) ==> k <= i < end && rows[i].is_body,
    decreases end - k,
{
    if k < end && !rows[k].is_body {
        lemma_first_body_from(rows, k + 1, end);
    }
}

/// The active row has a position, and its name is the one found there.
pub proof fn lemma_active(o: OutlineV)
    requires
        o.wf(),
    ensures
        o.has(o.active),
        o.is_at(o.active, o.at(o.active)),
        o.rows[o.at(o.active)].is_body,
{
    let i = choose|i: int| o.is_at(o.active, i) && o.rows[i].is_body;
    lemma_at(o, o.active, i);
}

impl Outline {
    /// The name of a row, or `other` where there is no such row.
    pub fn name_or(&self, id: NodeId, other: &str) -> (r: String)
        requires
            self@.wf(),
        ensures
            r@ == self@.name_or(id, other@),
    {
        match self.index_of(id) {
            Some(i) => self.rows[i].name.clone(),
            None => String::from_str(other),
        }
    }

    /// Makes another body the active one.
    pub fn set_active(&mut self, id: NodeId)
        ensures
            final(self)@ == old(self)@.with_active(id),
    {
        self.active = id;
    }
}

} // verus!
