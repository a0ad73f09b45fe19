//! What the questions that are asked of the outline come to: which rows lie in which,
//! which body comes first, how many there are, and what they weigh.
use vstd::prelude::*;

use crate::outline;
use crate::outline::{NodeId, OutlineV, RowV};

verus! {

/// The rows inside a row are those right below it that are deeper, up to the first that
/// is not.
pub proof fn the_rows_inside_a_row_are_those_right_below(o: OutlineV, i: int, k: int)
    requires
        0 <= i < o.rows.len(),
    ensures
        i < o.end_of(i) <= o.rows.len(),
        i < k < o.end_of(i) ==> o.rows[k].depth > o.rows[i].depth,
        o.end_of(i) < o.rows.len() ==> o.rows[o.end_of(i)].depth <= o.rows[i].depth,
        i <= k < o.rows.len() ==> (outline::within(o.rows, i, k) <==> k < o.end_of(i)),
{
    outline::lemma_run_end(o.rows, i, i + 1);
    if i <= k < o.rows.len() {
        outline::lemma_within_run(o.rows, i, k);
    }
}

/// As many bodies are counted among some rows as there are.
pub proof fn every_body_is_counted_once(rows: Seq<RowV>, lo: int, hi: int)
    requires
        0 <= lo <= hi <= rows.len(),
    ensures
        outline::bodies_in(rows, lo, hi) == rows.subrange(lo, hi).filter(
            |r: RowV| r.is_body,
        ).len(),
    decreases hi - lo,
{
    reveal(Seq::filter);
    let part = rows.subrange(lo, hi);
    if lo < hi {
        every_body_is_counted_once(rows, lo, hi - 1);
        assert(part.drop_last() =~= rows.subrange(lo, hi - 1));
        assert(part.last() == rows[hi - 1]);
    }
}

/// What some rows weigh together is the sum of what each of them weighs.
pub proof fn every_weight_is_added_once(weights: Seq<usize>, lo: int, hi: int)
    requires
        0 <= lo <= hi <= weights.len(),
    ensures
        outline::weight_in(weights, lo, hi) == weights.subrange(lo, hi).fold_left(
            0nat,
            |sum: nat, w: usize| sum + w as nat,
        ),
    decreases hi - lo,
{
    let part = weights.subrange(lo, hi);
    if lo < hi {
        every_weight_is_added_once(weights, lo, hi - 1);
        assert(part.drop_last() =~= weights.subrange(lo, hi - 1));
        assert(part.last() == weights[hi - 1]);
    }
}

/// As many eyes are counted as off as are.
pub proof fn every_closed_eye_is_counted_once(rows: Seq<RowV>, n: int)
    requires
        0 <= n <= rows.len(),
    ensures
        outline::closed_eyes(rows, n) == rows.take(n).filter(|r: RowV| !r.visible).len(),
    decreases n,
{
    reveal(Seq::filter);
    let part = rows.take(n);
    if n > 0 {
        every_closed_eye_is_counted_once(rows, n - 1);
        assert(part.drop_last() =~= rows.take(n - 1));
        assert(part.last() == rows[n - 1]);
    }
}

/// The first visible body from a row on is a visible body, and none between is; where
/// there is none, no row from there on is one.
pub proof fn the_first_visible_body_has_none_before_it(rows: Seq<RowV>, k: int, j: int)
    requires
        0 <= k,
    ensures
        match outline::first_saved_body(rows, k) {
            Some(i) => {
                &&& k <= i < rows.len()
                &&& rows[i].is_body && outline::saved_at(rows, i)
                &&& k <= j < i ==> !(rows[j].is_body && outline::saved_at(rows, j))
            },
            None => k <= j < rows.len() ==> !(rows[j].is_body && outline::saved_at(rows, j)),
        },
    decreases rows.len() - k,
{
    if k < rows.len() && !(rows[k].is_body && outline::saved_at(rows, k)) {
        the_first_visible_body_has_none_before_it(rows, k + 1, j);
    }
}

proof fn lemma_first_body_between(rows: Seq<RowV>, k: int, end: int, j: int)
    requires
        0 <= k,
        end <= rows.len(),
    ensures
        match outline::first_body(rows, k, end) {
            Some(i) => k <= i < end && rows[i].is_body && (k <= j < i ==> !rows[j].is_body),
            None => k <= j < end ==> !rows[j].is_body,
        },
    decreases end - k,
{
    if k < end && !rows[k].is_body {
        lemma_first_body_between(rows, k + 1, end, j);
    }
}

/// The body that a row leads to is a body, is that row or lies inside it, and no body
/// of the row stands above it; a body leads to itself.
pub proof fn a_row_leads_to_the_first_body_inside_it(o: OutlineV, row: NodeId, i: int, j: int)
    requires
        o.wf(),
        o.is_at(row, i),
    ensures
        o.first_body_in(row) matches Some(body) ==> {
            let p = o.at(body);
            &&& o.is_at(body, p)
            &&& o.rows[p].is_body
            &&& i <= p < o.end_of(i)
            &&& i <= j < p ==> !o.rows[j].is_body
        },
        o.rows[i].is_body ==> o.first_body_in(row) == Some(row),
        o.first_body_in(row) is None ==> (i <= j < o.end_of(i) ==> !o.rows[j].is_body),
{
    outline::lemma_at(o, row, i);
    outline::lemma_run_end(o.rows, i, i + 1);
    lemma_first_body_between(o.rows, i, o.end_of(i), j);
    if let Some(p) = outline::first_body(o.rows, i, o.end_of(i)) {
        assert(o.is_at(o.rows[p].id, p));
        outline::lemma_at(o, o.rows[p].id, p);
    }
}

proof fn lemma_parent_before(rows: Seq<RowV>, j: int, k: int)
    requires
        0 <= j <= k < rows.len(),
    ensures
        match outline::parent_before(rows, j, k) {
            Some(p) => {
                &&& 0 <= p < j
                &&& rows[p].depth < rows[k].depth
                &&& forall|m: int| p < m < j ==> (#[trigger] rows[m]).depth >= rows[k].depth
            },
            None => forall|m: int| 0 <= m < j ==> (#[trigger] rows[m]).depth >= rows[k].depth,
        },
    decreases j,
{
    if j > 0 && !(rows[j - 1].depth < rows[k].depth) {
        lemma_parent_before(rows, j - 1, k);
    }
}

/// The folder a row lies in is a folder above it that holds it, one less deep; a row
/// that lies in none is at the top level.
pub proof fn a_rows_folder_holds_it_directly(o: OutlineV, id: NodeId, k: int)
    requires
        o.wf(),
        o.is_at(id, k),
    ensures
        match o.parent_of(id) {
            Some(folder) => {
                let p = o.at(folder);
                &&& o.is_at(folder, p)
                &&& 0 <= p < k
                &&& !o.rows[p].is_body
                &&& o.rows[p].depth + 1 == o.rows[k].depth
                &&& outline::within(o.rows, p, k)
            },
            None => o.rows[k].depth == 0,
        },
{
    outline::lemma_at(o, id, k);
    lemma_parent_before(o.rows, k, k);
    match outline::parent_before(o.rows, k, k) {
        Some(p) => {
            assert(o.is_at(o.rows[p].id, p));
            outline::lemma_at(o, o.rows[p].id, p);
            assert(o.steps_down_right(p));
            assert(p + 1 == k || o.rows[p + 1].depth >= o.rows[k].depth);
            assert(o.rows[p + 1].depth > o.rows[p].depth);
            assert forall|m: int| p < m <= k implies (#[trigger] o.rows[m]).depth
                > o.rows[p].depth by {
                assert(m == k || o.rows[m].depth >= o.rows[k].depth);
            }
        },
        None => {
            if k > 0 {
                assert(o.rows[0].depth >= o.rows[k].depth);
            }
        },
    }
}

/// The eyes show a row where its own is on and, if it lies in a folder, the eyes show
/// that folder.
pub proof fn the_eyes_show_what_its_folder_shows(o: OutlineV, id: NodeId, k: int)
    requires
        o.wf(),
        o.is_at(id, k),
    ensures
        outline::saved_at(o.rows, k) <==> o.rows[k].visible && (match o.parent_of(id) {
            Some(folder) => outline::saved_at(o.rows, o.at(folder)),
            None => true,
        }),
{
    let rows = o.rows;
    a_rows_folder_holds_it_directly(o, id, k);
    outline::lemma_at(o, id, k);
    lemma_parent_before(rows, k, k);
    assert(outline::within(rows, k, k));
    match o.parent_of(id) {
        Some(folder) => {
            let p = o.at(folder);
            let q = outline::parent_before(rows, k, k)->0;
            assert(o.is_at(rows[q].id, q));
            outline::lemma_at(o, rows[q].id, q);
            assert(p == q);
            assert forall|j: int| 0 <= j <= p && #[trigger] outline::within(
                rows,
                j,
                p,
            ) implies outline::within(rows, j, k) by {
                assert forall|m: int| j < m <= k implies (#[trigger] rows[m]).depth
                    > rows[j].depth by {
                    if m > p {
                        assert(rows[m].depth > rows[p].depth);
                        assert(j == p || rows[p].depth > rows[j].depth);
                    }
                }
            }
            assert forall|j: int| 0 <= j < k && #[trigger] outline::within(
                rows,
                j,
                k,
            ) implies j <= p && outline::within(rows, j, p) by {
                assert(rows[k].depth > rows[j].depth);
                assert(j <= p);
                assert forall|m: int| j < m <= p implies (#[trigger] rows[m]).depth
                    > rows[j].depth by {}
            }
        },
        None => {
            assert forall|j: int| 0 <= j < k implies !#[trigger] outline::within(rows, j, k) by {
                if outline::within(rows, j, k) {
                    assert(rows[k].depth > rows[j].depth);
                }
            }
        },
    }
}

/// A row is drawn where the eyes show it and solo, if it is on, is on it or on
/// something that it lies in.
pub proof fn a_row_is_drawn_where_eyes_and_solo_show_it(
    o: OutlineV,
    solo: Option<NodeId>,
    k: int,
)
    requires
        0 <= k < o.rows.len(),
    ensures
        o.drawn(solo).len() == o.rows.len(),
        o.drawn(solo)[k] <==> outline::saved_at(o.rows, k) && (match solo {
            Some(row) => o.has(row) && outline::within(o.rows, o.at(row), k),
            None => true,
        }),
        o.saved() == o.drawn(None),
{
}

/// Whether a row is a body that is not among those shown.
pub open spec fn kept_back(o: OutlineV, shown: Seq<bool>, k: int) -> bool {
    0 <= k < o.rows.len() && o.rows[k].is_body && !shown[k]
}

/// The bodies that the renderer is told to hide come in the order of their rows, each
/// once.
pub proof fn the_hidden_bodies_come_in_order(o: OutlineV, shown: Seq<bool>, n: int)
    requires
        0 <= n <= o.rows.len(),
        shown.len() == o.rows.len(),
    ensures
        outline::left_out(o.rows, shown, n) == Seq::new(n as nat, |k: int| k).filter(
            |k: int| kept_back(o, shown, k),
        ).map_values(|k: int| o.rows[k].id),
    decreases n,
{
    reveal(Seq::filter);
    let all = Seq::new(n as nat, |k: int| k);
    if n > 0 {
        the_hidden_bodies_come_in_order(o, shown, n - 1);
        assert(all.drop_last() =~= Seq::new((n - 1) as nat, |k: int| k));
        assert(all.last() == n - 1);
        let f = |k: int| o.rows[k].id;
        let kept = all.drop_last().filter(|k: int| kept_back(o, shown, k));
        assert(kept.push(n - 1).map_values(f) =~= kept.map_values(f).push(f(n - 1)));
    }
}

} // verus!
