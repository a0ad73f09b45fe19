//! What holds of the session as a whole.
use vstd::prelude::*;

use crate::action::{
    lemma_not_among, Action, ExportOutcome, OpenOutcome, RestoredView, SaveOutcome,
};
use crate::bodies;
use crate::outline;
use crate::outline::{NodeId, OutlineV, RowV};
use crate::state::{BrokkrV, MenusV, MAX_NODES};
use crate::text;
use crate::values::{
    Brush, ConfirmChoice, ExportFormat, FilePathV, HistoryNote, HistoryStats, PendingAction, Scalar,
};

verus! {

// --- rows ---------------------------------------------------------------------

/// The last row inside any row is a body: folders are never empty.
proof fn lemma_run_ends_in_a_body(o: OutlineV, i: int)
    requires
        o.wf(),
        0 <= i < o.rows.len(),
    ensures
        i < o.end_of(i) <= o.rows.len(),
        o.rows[o.end_of(i) - 1].is_body,
{
    outline::lemma_run_end(o.rows, i, i + 1);
    let e = o.end_of(i);
    let last = e - 1;
    assert(o.steps_down_right(last));
    assert(o.rows[last].depth >= o.rows[i].depth);
    if !o.rows[last].is_body {
        assert(o.rows[e].depth == o.rows[last].depth + 1);
    }
}

proof fn lemma_first_body_found(rows: Seq<RowV>, k: int, end: int)
    requires
        0 <= k < end <= rows.len(),
        rows[end - 1].is_body,
    ensures
        first_body_at(rows, k, end),
    decreases end - k,
{
    if !rows[k].is_body {
        lemma_first_body_found(rows, k + 1, end);
    }
}

/// Whether there is a first body among these rows, and it is one of them.
spec fn first_body_at(rows: Seq<RowV>, k: int, end: int) -> bool {
    outline::first_body(rows, k, end) matches Some(i) && k <= i < end && rows[i].is_body
}

/// Every row is or holds a body, so pressing any row selects one: a folder never
/// becomes the active row, and what is selected lies in the row that was pressed.
pub proof fn every_row_leads_to_a_body(s: BrokkrV, row: NodeId)
    requires
        s.wf(),
        s.outline.has(row),
    ensures
        s.outline.first_body_in(row) is Some,
        s.select_body(row).state.outline.active == s.outline.first_body_in(row)->0,
        s.outline.has_body(s.outline.first_body_in(row)->0),
        outline::within(
            s.outline.rows,
            s.outline.at(row),
            s.outline.at(s.outline.first_body_in(row)->0),
        ),
{
    let o = s.outline;
    let i = o.at(row);
    assert(o.is_at(row, i));
    lemma_run_ends_in_a_body(o, i);
    lemma_first_body_found(o.rows, i, o.end_of(i));
    let k = outline::first_body(o.rows, i, o.end_of(i))->0;
    outline::lemma_first_body(o, row);
    assert(o.is_at(o.rows[k].id, k));
    outline::lemma_at(o, o.rows[k].id, k);
    outline::lemma_within_run(o.rows, i, k);
}

/// A body holds no row but itself.
proof fn lemma_a_body_holds_itself(o: OutlineV, i: int)
    requires
        o.wf(),
        0 <= i < o.rows.len(),
        o.rows[i].is_body,
    ensures
        o.end_of(i) == i + 1,
        outline::bodies_in(o.rows, i, o.end_of(i)) == 1,
        forall|k: int|
            0 <= k < o.rows.len() && #[trigger] outline::within(o.rows, i, k) ==> k == i,
{
    assert(o.steps_down_right(i));
    outline::lemma_run_end(o.rows, i, i + 1);
    assert(o.end_of(i) == i + 1);
    assert(outline::bodies_in(o.rows, i, i) == 0);
    assert forall|k: int|
        0 <= k < o.rows.len() && #[trigger] outline::within(o.rows, i, k) implies k == i by {
        outline::lemma_within_run(o.rows, i, k);
    }
}

/// Selecting a row saves nothing, hides nothing and changes no row: it moves the
/// selection and the status line.
pub proof fn selecting_changes_no_document(s: BrokkrV, row: NodeId)
    ensures
        s.select_body(row).state.outline.rows == s.outline.rows,
        s.select_body(row).state.file == s.file,
        s.select_body(row).state.looking == s.looking,
        s.select_body(row).state.tool == s.tool,
{
}

// --- what is drawn ------------------------------------------------------------

/// Solo narrows what the eyes show and never widens it; with solo off, what is
/// drawn is what the eyes show.
pub proof fn solo_only_narrows(o: OutlineV, solo: Option<NodeId>, k: int)
    requires
        0 <= k < o.rows.len(),
    ensures
        o.drawn(solo)[k] ==> o.saved()[k],
        o.drawn(None) == o.saved(),
{
    assert(o.drawn(None) =~= o.saved());
}

/// Settling what is drawn twice settles it once, and afterwards the renderer and
/// the rows agree.
pub proof fn settling_twice_is_settling_once(s: BrokkrV)
    ensures
        s.publish().agrees(),
        s.publish().publish() == s.publish(),
{
    let once = s.publish();
    assert(once.forget_a_vanished_solo() == once);
    assert(once.leave_a_solo_that_shows_nothing() == once);
}

/// Solo is never left showing nothing: once what is drawn is settled, solo is off
/// or some body is drawn.
pub proof fn solo_never_leaves_the_viewport_empty(s: BrokkrV)
    ensures
        s.publish().looking.solo is None || s.outline.draws_a_body(s.publish().looking.shown),
        s.publish().looking.solo matches Some(id) ==> s.outline.has(id),
        s.publish().outline == s.outline,
        s.publish().file == s.file,
{
}

/// A solo whose row is gone goes with it, however the row went.
pub proof fn a_vanished_row_ends_its_solo(s: BrokkrV, id: NodeId)
    requires
        s.looking.solo == Some(id),
        !s.outline.has(id),
    ensures
        s.publish().looking.solo is None,
        s.publish().status == s.status,
{
}

/// The bodies the renderer is told to hide are those that are not drawn.
pub proof fn the_hidden_bodies_are_those_not_drawn(
    o: OutlineV,
    shown: Seq<bool>,
    n: int,
    id: NodeId,
)
    requires
        0 <= n <= o.rows.len(),
        shown.len() == o.rows.len(),
    ensures
        outline::left_out(o.rows, shown, n).contains(id) <==> exists|k: int|
            #![trigger o.rows[k]]
            0 <= k < n && o.rows[k].id == id && o.rows[k].is_body && !shown[k],
    decreases n,
{
    if n > 0 {
        the_hidden_bodies_are_those_not_drawn(o, shown, n - 1, id);
        let before = outline::left_out(o.rows, shown, n - 1);
        let all = outline::left_out(o.rows, shown, n);
        if o.rows[n - 1].is_body && !shown[n - 1] {
            assert(all == before.push(o.rows[n - 1].id));
            assert(all[before.len() as int] == o.rows[n - 1].id);
            if before.contains(id) {
                let j = choose|j: int| 0 <= j < before.len() && before[j] == id;
                assert(all[j] == id);
            }
            if all.contains(id) {
                let j = choose|j: int| 0 <= j < all.len() && all[j] == id;
                if j < before.len() {
                    assert(before[j] == id);
                }
            }
        }
    }
}

proof fn lemma_eyes_over_open(o: OutlineV, k: int)
    requires
        0 <= k < o.rows.len(),
    ensures
        outline::saved_at(o.with_eyes_over(k).rows, k),
{
    let rows = o.with_eyes_over(k).rows;
    assert forall|j: int|
        0 <= j <= k && #[trigger] outline::within(rows, j, k) implies rows[j].visible by {
        assert forall|m: int| j < m <= k implies (#[trigger] o.rows[m]).depth > o.rows[j].depth by {
            assert(rows[m].depth > rows[j].depth);
        }
        assert(outline::within(o.rows, j, k));
    }
}

/// Soloing a body shows that body and nothing else, whatever its eye and its
/// folders' eyes were, and solo stays on.
pub proof fn soloing_a_body_shows_it_alone(s: BrokkrV, id: NodeId, k: int)
    requires
        s.wf(),
        s.outline.has_body(id),
        0 <= k < s.outline.rows.len(),
    ensures
        ({
            let soloed = s.enter_solo(id).state.publish();
            &&& soloed.looking.solo == Some(id)
            &&& soloed.looking.shown[k] == (s.outline.rows[k].id == id)
        }),
{
    let o = s.outline;
    let i = o.at(id);
    let j = choose|j: int| o.is_at(id, j) && o.rows[j].is_body;
    outline::lemma_at(o, id, j);
    let t = s.enter_solo(id).state;
    let p = t.outline;
    if outline::saved_at(o.rows, i) {
        assert(p == o);
    } else {
        assert(p == o.with_eyes_over(i));
        lemma_eyes_over_open(o, i);
        assert(outline::same_shape(o.rows, p.rows));
    }
    outline::lemma_same_shape(o, p);
    assert(p.at(id) == i);
    assert(outline::saved_at(p.rows, i));
    assert(p.rows[i].is_body);
    lemma_a_body_holds_itself(p, i);
    assert(outline::within(p.rows, i, i));
    assert(p.drawn(Some(id))[i]);
    assert(p.draws_a_body(p.drawn(Some(id))));
    assert(p.rows[k].id == o.rows[k].id);
    if o.rows[k].id == id {
        outline::lemma_at(o, id, k);
    } else {
        assert(!outline::within(p.rows, i, k)) by {
            if outline::within(p.rows, i, k) {
                assert(k == i);
            }
        }
    }
}

/// Solo writes nothing: entered on a row that its eyes show and left again, every
/// row, the file and the history are as they were, and no undo entry was asked
/// for.
pub proof fn leaving_solo_restores_everything(s: BrokkrV, id: NodeId)
    requires
        s.outline.has(id),
        outline::saved_at(s.outline.rows, s.outline.at(id)),
        s.looking.solo is None,
    ensures
        s.enter_solo(id).actions.len() == 0,
        s.enter_solo(id).state.exit_solo() == s.saying("left solo"@),
{
}

/// Soloing a row changes no eye but its own and those of the folders it lies in,
/// and those only from off to on.
pub proof fn soloing_opens_no_other_eye(s: BrokkrV, id: NodeId, k: int)
    requires
        s.wf(),
        s.outline.has(id),
        0 <= k < s.outline.rows.len(),
    ensures
        ({
            let rows = s.enter_solo(id).state.outline.rows;
            &&& rows.len() == s.outline.rows.len()
            &&& rows[k] == s.outline.rows[k] || rows[k] == (RowV {
                visible: true,
                ..s.outline.rows[k]
            })
            &&& !outline::within(s.outline.rows, k, s.outline.at(id)) ==> rows[k]
                == s.outline.rows[k]
        }),
{
    assert(s.outline.is_at(id, s.outline.at(id)));
}

/// Showing everything turns every eye on, leaves solo, and draws every row.
pub proof fn showing_everything_draws_every_row(s: BrokkrV, k: int)
    requires
        s.wf(),
        0 <= k < s.outline.rows.len(),
    ensures
        s.show_everything().state.looking.solo is None,
        s.show_everything().state.outline.rows[k].visible,
        s.show_everything().state.publish().looking.shown[k],
{
    let t = s.show_everything().state;
    let n = s.outline.rows.len() as int;
    if outline::closed_eyes(s.outline.rows, n) == 0 {
        assert forall|j: int| 0 <= j < n implies (#[trigger] s.outline.rows[j]).visible by {
            lemma_no_closed_eye(s.outline.rows, n, j);
        }
    }
    assert forall|j: int| 0 <= j < n implies (#[trigger] t.outline.rows[j]).visible by {}
}

proof fn lemma_no_closed_eye(rows: Seq<RowV>, n: int, j: int)
    requires
        outline::closed_eyes(rows, n) == 0,
        0 <= j < n <= rows.len(),
    ensures
        rows[j].visible,
    decreases n,
{
    if j < n - 1 {
        lemma_no_closed_eye(rows, n - 1, j);
    }
}

// --- eyes ---------------------------------------------------------------------

proof fn lemma_first_saved_body(rows: Seq<RowV>, k: int)
    requires
        0 <= k,
    ensures
        outline::first_saved_body(rows, k) matches Some(i) ==> k <= i < rows.len()
            && rows[i].is_body && outline::saved_at(rows, i),
        outline::first_saved_body(rows, k) is None ==> forall|i: int|
            k <= i < rows.len() ==> !((#[trigger] rows[i]).is_body && outline::saved_at(rows, i)),
    decreases rows.len() - k,
{
    if k < rows.len() && !(rows[k].is_body && outline::saved_at(rows, k)) {
        lemma_first_saved_body(rows, k + 1);
    }
}

/// Where the eyes show the active body, they show a body.
proof fn lemma_the_active_body_is_a_body(s: BrokkrV)
    requires
        s.wf(),
        s.active_is_saved(),
    ensures
        s.saves_a_body(),
{
    outline::lemma_active(s.outline);
    lemma_first_saved_body(s.outline.rows, 0);
    assert(s.outline.rows[s.outline.at(s.outline.active)].is_body);
}

/// A click on an eye that goes through asks for one undo entry, is work to save,
/// and leaves the active body one that its eyes show, where they did before.
pub proof fn a_click_on_an_eye_leaves_the_active_body_visible(s: BrokkrV, id: NodeId)
    requires
        s.wf(),
        s.toggle_visibility(id).actions.len() > 0,
    ensures
        s.toggle_visibility(id).actions[0] == Action::WriteEyes,
        s.toggle_visibility(id).state.file.unsaved,
        s.active_is_saved() ==> s.toggle_visibility(id).state.active_is_saved(),
{
    let o = s.outline;
    let i = o.at(id);
    assert(o.is_at(id, i));
    let flipped = o.with_eye(i, !o.rows[i].visible);
    assert(outline::same_shape(o.rows, flipped.rows));
    outline::lemma_same_shape(o, flipped);
    outline::lemma_active(o);
    lemma_first_saved_body(flipped.rows, 0);
    let t = s.toggle_visibility(id).state.outline;
    assert(t.rows == flipped.rows);
    if s.active_is_saved() {
        lemma_the_active_body_is_a_body(s);
        if !outline::saved_at(flipped.rows, o.at(o.active)) {
            let k = outline::first_saved_body(flipped.rows, 0)->0;
            let next = flipped.rows[k].id;
            assert(flipped.is_at(next, k));
            if next == flipped.active {
                outline::lemma_at(flipped, next, k);
                assert(flipped.at(flipped.active) == o.at(o.active));
            }
            assert(t == flipped.with_active(next));
            assert(outline::same_shape(flipped.rows, t.rows));
            assert(flipped.rows[k].is_body && flipped.is_at(next, k));
            outline::lemma_same_shape(flipped, t);
            outline::lemma_at(flipped, next, k);
        } else {
            assert(t == flipped);
        }
    }
}

/// Only hiding the active body moves the selection: a click that moves it turned
/// off the eye of the active body or of a folder that the body lies in, and took
/// the body out of sight by that. Any other click that goes through says what it
/// shows or hides.
pub proof fn only_hiding_the_active_body_moves_the_selection(s: BrokkrV, id: NodeId)
    requires
        s.wf(),
    ensures
        ({
            let t = s.toggle_visibility(id);
            let active = s.outline.at(s.outline.active);
            &&& t.state.outline.active != s.outline.active ==> {
                &&& s.outline.rows[s.outline.at(id)].visible
                &&& outline::within(s.outline.rows, s.outline.at(id), active)
                &&& s.active_is_saved()
                &&& !outline::saved_at(t.state.outline.rows, active)
            }
            &&& t.state.outline.active == s.outline.active && t.actions.len() > 0
                ==> t.state.status == (if s.outline.rows[s.outline.at(id)].visible {
                "hiding"@
            } else {
                "showing"@
            }) + " "@ + s.outline.name_of(id)
        }),
{
    let o = s.outline;
    if o.has(id) {
        let i = o.at(id);
        assert(o.is_at(id, i));
        let flipped = o.with_eye(i, !o.rows[i].visible);
        assert(outline::same_shape(o.rows, flipped.rows));
        outline::lemma_same_shape(o, flipped);
        outline::lemma_active(o);
        lemma_first_saved_body(flipped.rows, 0);
        let active = o.at(o.active);
        if s.active_is_saved() && !outline::saved_at(flipped.rows, active) {
            lemma_the_active_body_is_a_body(s);
            let j = choose|j: int|
                0 <= j <= active && #[trigger] outline::within(flipped.rows, j, active)
                    && !flipped.rows[j].visible;
            lemma_within_alike(o.rows, flipped.rows, j, active);
            assert(o.rows[j].visible);
            assert(j == i);
            if outline::first_saved_body(flipped.rows, 0) is Some {
                let k = outline::first_saved_body(flipped.rows, 0)->0;
                assert(flipped.is_at(flipped.rows[k].id, k));
                if flipped.rows[k].id == o.active {
                    outline::lemma_at(flipped, o.active, k);
                }
            }
        }
    }
}

/// Which rows lie in which does not hang on their eyes.
proof fn lemma_within_alike(a: Seq<RowV>, b: Seq<RowV>, i: int, k: int)
    requires
        outline::same_shape(a, b),
        0 <= i <= k < a.len(),
        outline::within(b, i, k),
    ensures
        outline::within(a, i, k),
{
    assert forall|m: int| i < m <= k implies (#[trigger] a[m]).depth > a[i].depth by {
        assert(b[m].depth > b[i].depth);
    }
}

/// A click on an eye that does not go through changes nothing but the status
/// line.
pub proof fn a_refused_click_changes_nothing(s: BrokkrV, id: NodeId)
    requires
        s.toggle_visibility(id).actions.len() == 0,
    ensures
        s.toggle_visibility(id).state == s.saying(s.toggle_visibility(id).state.status),
{
}

/// The last visible body cannot be hidden: a click after which no body would be
/// visible, where one is, is refused.
pub proof fn the_last_visible_body_stays(s: BrokkrV, id: NodeId, flipped: OutlineV)
    requires
        s.wf(),
        s.outline.has(id),
        exists|k: int|
            0 <= k < s.outline.rows.len() && (#[trigger] s.outline.rows[k]).is_body
                && outline::saved_at(s.outline.rows, k),
        flipped == s.outline.with_eye(
            s.outline.at(id),
            !s.outline.rows[s.outline.at(id)].visible,
        ),
        forall|k: int|
            0 <= k < flipped.rows.len() ==> !((#[trigger] flipped.rows[k]).is_body
                && outline::saved_at(flipped.rows, k)),
    ensures
        s.toggle_visibility(id).actions.len() == 0,
        s.toggle_visibility(id).state.outline == s.outline,
{
    lemma_first_saved_body(s.outline.rows, 0);
    lemma_first_saved_body(flipped.rows, 0);
}

/// A click on an eye writes that eye and no other: hiding a folder leaves the
/// eyes inside it as they were set.
pub proof fn a_click_writes_one_eye(s: BrokkrV, id: NodeId, k: int)
    requires
        s.wf(),
        0 <= k < s.outline.rows.len(),
        s.outline.rows[k].id != id,
    ensures
        s.toggle_visibility(id).state.outline.rows[k] == s.outline.rows[k],
        s.toggle_visibility(id).state.outline.rows.len() == s.outline.rows.len(),
{
    if s.outline.has(id) {
        assert(s.outline.is_at(id, s.outline.at(id)));
    }
}

/// An eye clicked twice leaves the rows and the selection as they were, where both
/// clicks go through and neither hides the active body: the first one goes through
/// and keeps the selection, a body was visible before it or none is after it, and
/// it does not bring the active body into sight.
pub proof fn an_eye_clicked_twice_is_as_it_was(s: BrokkrV, id: NodeId)
    requires
        s.wf(),
        s.toggle_visibility(id).actions.len() > 0,
        s.toggle_visibility(id).state.outline.active == s.outline.active,
        s.saves_a_body() || !s.toggle_visibility(id).state.saves_a_body(),
        s.active_is_saved() || !s.toggle_visibility(id).state.active_is_saved(),
    ensures
        s.toggle_visibility(id).state.toggle_visibility(id).state.outline == s.outline,
{
    let o = s.outline;
    let i = o.at(id);
    assert(o.is_at(id, i));
    outline::lemma_active(o);
    let flipped = o.with_eye(i, !o.rows[i].visible);
    assert(outline::same_shape(o.rows, flipped.rows));
    outline::lemma_same_shape(o, flipped);
    only_hiding_the_active_body_moves_the_selection(s, id);
    let t = s.toggle_visibility(id).state;
    assert(t.outline.rows == flipped.rows);
    assert(t.outline == flipped);
    assert(flipped.is_at(id, i));
    outline::lemma_at(flipped, id, i);
    assert(flipped.with_eye(i, o.rows[i].visible).rows =~= o.rows);
    assert(flipped.with_eye(i, o.rows[i].visible) == o);
    match s.looking.solo {
        Some(solo) => {
            if flipped.has(solo) {
                assert(flipped.is_at(solo, flipped.at(solo)));
                assert(o.is_at(solo, flipped.at(solo)));
                outline::lemma_at(o, solo, flipped.at(solo));
                if o.at(solo) <= i && outline::within(o.rows, o.at(solo), i) {
                    lemma_within_alike(flipped.rows, o.rows, o.at(solo), i);
                }
            }
            assert(t.in_solo_scope(id));
        },
        None => {},
    }
}

/// A row that solo is not showing keeps its eye: the click is refused with a line
/// that says so.
pub proof fn a_click_outside_solo_is_refused(s: BrokkrV, id: NodeId)
    requires
        s.outline.has(id),
        !s.in_solo_scope(id),
    ensures
        s.toggle_visibility(id) == s.saying(
            "solo is on — leave it before changing "@ + s.outline.name_of(id) + "'s eye"@,
        ).quiet(),
{
}

// --- deleting and merging -------------------------------------------------------

/// The last body is never asked to be deleted, and saying so is all that happens.
pub proof fn the_last_body_is_kept(s: BrokkrV, id: NodeId)
    requires
        s.outline.subtree_body_count(id) >= s.outline.body_count(),
    ensures
        s.delete_row(id).actions.len() == 0,
        s.delete_row(id).state == s.saying(s.delete_row(id).state.status),
{
}

/// With one body left, deleting the active row is refused.
pub proof fn a_single_body_cannot_be_deleted(s: BrokkrV)
    requires
        s.wf(),
        s.outline.body_count() == 1,
    ensures
        s.delete_row(s.outline.active).actions.len() == 0,
{
    outline::lemma_active(s.outline);
    lemma_a_body_holds_itself(s.outline, s.outline.at(s.outline.active));
}

/// The folder's delete never takes a body row.
pub proof fn the_folder_delete_leaves_bodies_alone(s: BrokkrV, id: NodeId)
    requires
        s.wf(),
        s.outline.has_body(id),
    ensures
        s.delete_folder(id) == s.quiet(),
{
    let i = choose|i: int| s.outline.is_at(id, i) && s.outline.rows[i].is_body;
    outline::lemma_at(s.outline, id, i);
}

/// Deleting the active row asks about that row: never about a folder, collapsed
/// or not.
pub proof fn deleting_the_active_row_never_takes_a_folder(s: BrokkrV)
    requires
        s.wf(),
        s.delete_row(s.outline.active).actions.len() > 0,
    ensures
        s.delete_row(s.outline.active).actions == seq![Action::WeighRows(s.outline.active)],
        s.outline.has_body(s.outline.active),
{
}

/// A delete or a merge that waits for an answer has changed nothing: cancelled,
/// the session is as it was.
pub proof fn a_prompt_cancelled_changes_nothing(
    s: BrokkrV,
    id: NodeId,
    weights: Seq<usize>,
    target: crate::action::MergeTarget,
)
    requires
        s.prompts.pending_delete is None,
        s.prompts.pending_merge is None,
    ensures
        s.rows_weighed(id, weights).state.deleting_later(None) == s,
        s.merge_planned(id, target).actions.len() == 0 && s.merge_planned(
            id,
            target,
        ).state.prompts.pending_merge is Some ==> s.merge_planned(
            id,
            target,
        ).state.merging_later(None) == s,
        s.rows_weighed(id, weights).state.prompts.pending_delete is Some ==> s.rows_weighed(
            id,
            weights,
        ).state.modal_open(),
{
}

/// Weighing asks for the delete exactly where the row's weight is under the
/// threshold, and raises the prompt, with the whole weight, exactly where it is
/// not.
pub proof fn a_heavy_delete_asks_first(s: BrokkrV, id: NodeId, weights: Seq<usize>)
    requires
        s.outline.has(id),
        s.subtree_bytes(id, weights) <= usize::MAX,
    ensures
        s.subtree_bytes(id, weights) < s.books.delete_prompt_bytes ==> s.rows_weighed(id, weights)
            == s.asking(Action::RemoveRows(id)),
        s.subtree_bytes(id, weights) >= s.books.delete_prompt_bytes ==> {
            &&& s.rows_weighed(id, weights).actions.len() == 0
            &&& s.rows_weighed(id, weights).state.prompts.pending_delete matches Some(pending)
                && pending.id == id && pending.bytes == s.subtree_bytes(id, weights)
        },
{
}

/// A removal tells the renderer to forget every body that went and to be offered
/// everything that is left.
pub proof fn a_removal_tells_the_renderer(
    s: BrokkrV,
    id: NodeId,
    gone: Seq<NodeId>,
    outline: OutlineV,
    history: HistoryNote,
    i: int,
)
    requires
        0 <= i < gone.len(),
    ensures
        s.rows_removed(id, gone, outline, history).actions[i] == Action::ForgetBody(gone[i]),
        s.rows_removed(id, gone, outline, history).actions[gone.len() as int]
            == Action::MarkEverythingDirty,
        s.rows_removed(id, gone, outline, history).state.looking == s.looking,
{
}

/// A merge keeps solo as it is; only what is drawn afterwards may end it.
pub proof fn a_merge_leaves_solo_alone(
    s: BrokkrV,
    source: NodeId,
    target: NodeId,
    bricks: nat,
    outline: OutlineV,
    history: HistoryNote,
)
    ensures
        s.merged(source, target, bricks, outline, history).state.looking == s.looking,
        s.merged(source, target, bricks, outline, history).actions[0] == Action::ForgetBody(
            source,
        ),
{
}

/// A step through the history that an eye vetoes changes the status line alone;
/// which rows have a veto is the same whatever is soloed.
pub proof fn a_vetoed_step_changes_nothing(
    s: BrokkrV,
    redo: bool,
    node: NodeId,
    solo: Option<NodeId>,
)
    ensures
        s.history_refused(redo, node).state == s.saying(s.history_refused(redo, node).state.status),
        s.history_refused(redo, node).actions == seq![Action::RefreshOverlay],
        s.soloing(solo).outline.saved() == s.outline.saved(),
{
}

/// A step that the document takes through its history is taken in as it comes:
/// the rows and the active body are those that the document hands over, the step is
/// work to save, and nothing is framed, soloed or said.
pub proof fn a_step_through_the_history_is_taken_as_it_comes(
    s: BrokkrV,
    rows: OutlineV,
    stats: HistoryStats,
)
    ensures
        ({
            let t = s.history_applied(rows, stats);
            &&& t.state.outline == rows
            &&& t.state.books.history_stats == stats
            &&& t.state.file.unsaved
            &&& t.state.looking == s.looking
            &&& t.state.tool == s.tool
            &&& t.state.status == s.status
            &&& t.actions == seq![Action::Remesh, Action::RefreshOverlay]
        }),
{
}

/// A copy that is undone leaves the session's rows and its active body as they were
/// before the copy, where the document's undo gives its own rows back.
pub proof fn a_copy_undone_leaves_the_rows_as_they_were(
    s: BrokkrV,
    id: NodeId,
    copied: OutlineV,
    history: HistoryNote,
    stats: HistoryStats,
)
    ensures
        ({
            let undone = s.copied(id, copied, history).state.history_applied(s.outline, stats);
            &&& undone.state.outline == s.outline
            &&& undone.state.file.unsaved
            &&& undone.state.tool == s.tool
            &&& undone.state.looking == s.looking
        }),
{
}

/// A delete that is undone leaves the session's rows and its active body as they
/// were before the delete, where the document's undo gives its own rows back.
pub proof fn a_delete_undone_leaves_the_rows_as_they_were(
    s: BrokkrV,
    id: NodeId,
    gone: Seq<NodeId>,
    left: OutlineV,
    history: HistoryNote,
    stats: HistoryStats,
)
    ensures
        ({
            let undone = s.rows_removed(id, gone, left, history).state.history_applied(
                s.outline,
                stats,
            );
            &&& undone.state.outline == s.outline
            &&& undone.state.file.unsaved
            &&& undone.state.tool == s.tool
            &&& undone.state.looking == s.looking
        }),
{
}

// --- the brush and the model's size -----------------------------------------------

/// A new working size scales the brush once: it has the radius that goes with the
/// new size, and the measurement that follows does not scale it again. After that
/// one, the brush follows the model as before.
pub proof fn a_new_size_scales_the_brush_once(
    s: BrokkrV,
    rows: OutlineV,
    radius: Scalar,
    longest: Seq<char>,
    advice: Seq<char>,
)
    ensures
        ({
            let t = s.rescaled(rows, radius, longest, advice).state;
            &&& t.tool.brush == (Brush { radius: radius, ..s.tool.brush })
            &&& !t.brush_follows()
            &&& t.measured().brush_follows() == s.tool.pen.dynamic_radius
        }),
{
}

/// A project that is opened brings the brush back as its view records it: the
/// measurement of the model that follows does not scale it.
pub proof fn an_opened_project_brings_its_brush_back(
    s: BrokkrV,
    path: FilePathV,
    outline: crate::outline::Outline,
    view: RestoredView,
    stats: HistoryStats,
)
    ensures
        ({
            let outcome = OpenOutcome::Opened { outline: outline, view: view, stats: stats };
            let t = s.opened(path, outcome).state;
            let r = s.recovered(path, outcome).state;
            &&& t.tool.brush.radius == view.radius
            &&& t.tool.brush.strength == view.strength
            &&& !t.brush_follows()
            &&& r.tool == t.tool
            &&& !r.brush_follows()
        }),
{
}

/// Choosing another body never scales the brush: the brush is as it was, and the
/// size that the next measurement is compared with is the chosen body's own.
pub proof fn choosing_a_body_leaves_the_brush_alone(s: BrokkrV, body: NodeId, note: Seq<char>)
    ensures
        s.select_body_saying(body, note).state.tool == s.tool,
        body != s.outline.active ==> s.select_body_saying(
            body,
            note,
        ).state.books.model_radius_body == Some(body),
{
}

// --- turning ----------------------------------------------------------------------

/// A turn and its reverse leave the session's rows, its active body and its tool as
/// they were, where the document gives its own rows back; the history is the
/// document's, there is work to save, and neither turn moves the camera.
pub proof fn a_turn_and_its_reverse_leave_the_rows_as_they_were(
    s: BrokkrV,
    turned: OutlineV,
    first: HistoryStats,
    second: HistoryStats,
    millis: Seq<char>,
)
    ensures
        ({
            let there = s.oriented(turned, first, millis);
            let back = there.state.oriented(s.outline, second, millis);
            let asked = seq![
                Action::RebuildEverything,
                Action::RefreshAdvice,
                Action::RefreshOverlay,
            ];
            &&& back.state.outline == s.outline
            &&& back.state.tool == s.tool
            &&& back.state.books.history_stats == second
            &&& back.state.file.unsaved
            &&& there.actions == asked
            &&& back.actions == asked
        }),
{
}

// --- folders --------------------------------------------------------------------

/// A group that is dissolved again leaves the session's rows and its active body as
/// they were, where the document gives its own rows back.
pub proof fn a_group_dissolved_leaves_the_rows_as_they_were(
    s: BrokkrV,
    grouped: OutlineV,
    first: HistoryNote,
    second: HistoryNote,
    line: Seq<char>,
    next_line: Seq<char>,
)
    ensures
        ({
            let back = s.regrouped(grouped, first, line).regrouped(s.outline, second, next_line);
            &&& back.outline == s.outline
            &&& back.file.unsaved
            &&& back.looking == s.looking
            &&& back.tool == s.tool
        }),
{
}

proof fn lemma_decimal_last(n: nat)
    ensures
        text::decimal(n).len() > 0,
        text::decimal(n).last() == text::digit(n % 10),
        n >= 10 ==> text::decimal(n).drop_last() =~= text::decimal(n / 10),
        n < 10 ==> text::decimal(n).len() == 1,
        n >= 10 ==> text::decimal(n).len() > 1,
    decreases n,
{
    if n >= 10 {
        lemma_decimal_last(n / 10);
    }
}

/// Two numbers written alike are the same number.
pub proof fn numbers_written_alike_are_equal(a: nat, b: nat)
    requires
        text::decimal(a) == text::decimal(b),
    ensures
        a == b,
    decreases a,
{
    lemma_decimal_last(a);
    lemma_decimal_last(b);
    assert(a % 10 == b % 10);
    if a >= 10 {
        numbers_written_alike_are_equal(a / 10, b / 10);
    }
}

proof fn lemma_group_names_differ(a: nat, b: nat)
    requires
        bodies::group_name(a) == bodies::group_name(b),
    ensures
        a == b,
{
    let p = "Group "@;
    let x = bodies::group_name(a);
    let y = bodies::group_name(b);
    assert(x.skip(p.len() as int) =~= text::decimal(a));
    assert(y.skip(p.len() as int) =~= text::decimal(b));
    numbers_written_alike_are_equal(a, b);
}

proof fn lemma_free_group(rows: Seq<RowV>, n: nat)
    requires
        1 <= n <= MAX_NODES + 1,
    ensures
        n <= bodies::free_group_from(rows, n) <= MAX_NODES + 1,
        forall|m: nat|
            n <= m < bodies::free_group_from(rows, n) ==> !outline::folder_name_free(
                rows,
                rows.len() as int,
                #[trigger] bodies::group_name(m),
            ),
        bodies::free_group_from(rows, n) <= MAX_NODES ==> outline::folder_name_free(
            rows,
            rows.len() as int,
            bodies::group_name(bodies::free_group_from(rows, n)),
        ),
    decreases MAX_NODES + 1 - n,
{
    if n <= MAX_NODES && !outline::folder_name_free(
        rows,
        rows.len() as int,
        bodies::group_name(n),
    ) {
        lemma_free_group(rows, n + 1);
        assert forall|m: nat|
            n <= m < bodies::free_group_from(rows, n) implies !outline::folder_name_free(
            rows,
            rows.len() as int,
            #[trigger] bodies::group_name(m),
        ) by {
            if m != n {
                assert(n + 1 <= m);
            }
        }
    }
}

/// The row that has a group's name, where a folder has it.
spec fn holder(rows: Seq<RowV>, n: nat) -> int {
    choose|i: int|
        0 <= i < rows.len() && !(#[trigger] rows[i]).is_body && rows[i].name
            == bodies::group_name(n)
}

/// The rows that hold the first `n` group names.
spec fn holders(rows: Seq<RowV>, n: nat) -> Set<int>
    decreases n,
{
    if n == 0 {
        Set::empty()
    } else {
        holders(rows, (n - 1) as nat).insert(holder(rows, n))
    }
}

/// Where each of the first `n` group names is taken, `n` rows hold them.
proof fn lemma_holders(rows: Seq<RowV>, n: nat)
    requires
        forall|m: nat|
            1 <= m <= n ==> !outline::folder_name_free(
                rows,
                rows.len() as int,
                #[trigger] bodies::group_name(m),
            ),
    ensures
        holders(rows, n).finite(),
        holders(rows, n).len() == n,
        forall|i: int|
            #[trigger] holders(rows, n).contains(i) ==> 0 <= i < rows.len() && exists|m: nat|
                1 <= m <= n && rows[i].name == #[trigger] bodies::group_name(m),
    decreases n,
{
    if n > 0 {
        let before = holders(rows, (n - 1) as nat);
        lemma_holders(rows, (n - 1) as nat);
        let h = holder(rows, n);
        assert(!outline::folder_name_free(rows, rows.len() as int, bodies::group_name(n)));
        let i = choose|i: int|
            0 <= i < rows.len() && !(#[trigger] rows[i]).is_body && rows[i].name
                == bodies::group_name(n);
        assert(0 <= h < rows.len() && rows[h].name == bodies::group_name(n));
        if before.contains(h) {
            let m = choose|m: nat|
                1 <= m <= n - 1 && rows[h].name == #[trigger] bodies::group_name(m);
            lemma_group_names_differ(m, n);
        }
        assert forall|i: int| #[trigger] holders(rows, n).contains(i) implies 0 <= i < rows.len()
            && exists|m: nat|
            1 <= m <= n && rows[i].name == #[trigger] bodies::group_name(m) by {
            if i == h {
                assert(rows[i].name == bodies::group_name(n));
            } else {
                assert(before.contains(i));
                let m = choose|m: nat|
                    1 <= m <= n - 1 && rows[i].name == #[trigger] bodies::group_name(m);
                assert(1 <= m <= n && rows[i].name == bodies::group_name(m));
            }
        }
    }
}

/// A new group's name is one that no folder has, and the first such name in
/// order, in any list that is within its limit.
pub proof fn a_new_group_has_a_free_name(s: BrokkrV)
    requires
        s.outline.rows.len() <= MAX_NODES,
    ensures
        outline::folder_name_free(
            s.outline.rows,
            s.outline.rows.len() as int,
            s.next_group_name(),
        ),
        exists|n: nat| #![trigger bodies::group_name(n)]
            1 <= n && s.next_group_name() == bodies::group_name(n) && forall|m: nat|
                1 <= m < n ==> !outline::folder_name_free(
                    s.outline.rows,
                    s.outline.rows.len() as int,
                    #[trigger] bodies::group_name(m),
                ),
{
    let rows = s.outline.rows;
    let n = bodies::free_group_from(rows, 1);
    lemma_free_group(rows, 1);
    if n == MAX_NODES + 1 {
        if !outline::folder_name_free(rows, rows.len() as int, bodies::group_name(n)) {
            assert forall|m: nat| 1 <= m <= n implies !outline::folder_name_free(
                rows,
                rows.len() as int,
                #[trigger] bodies::group_name(m),
            ) by {}
            lemma_holders(rows, n);
            let all = holders(rows, n);
            let range = vstd::set_lib::set_int_range(0, rows.len() as int);
            vstd::set_lib::lemma_int_range(0, rows.len() as int);
            assert(all.subset_of(range));
            vstd::set_lib::lemma_len_subset(all, range);
        }
    }
    assert(s.next_group_name() == bodies::group_name(n));
}

// --- files ----------------------------------------------------------------------

/// Nothing that would lose work runs before the user has answered: the prompt
/// comes up, and nothing is asked for.
pub proof fn work_is_never_lost_unasked(s: BrokkrV, action: PendingAction)
    requires
        s.would_lose_work(action),
    ensures
        s.guard(action).actions.len() == 0,
        s.guard(action).state.prompts.confirm == Some(action),
        s.guard(action).state.modal_open(),
        s.guard(action).state.outline == s.outline,
        s.guard(action).state.file == s.file,
{
}

/// A document without unsaved work is not asked about, unless an import would
/// take the place of several bodies.
pub proof fn a_clean_document_is_not_asked_about(s: BrokkrV, action: PendingAction)
    requires
        !s.file.unsaved,
        !(action is Import) || s.outline.body_count() <= 1,
    ensures
        s.guard(action) == s.run_pending(action),
        s.guard(action).state == s,
{
}

/// The prompt cancelled leaves everything as it was but the menus that it closed;
/// discarding runs what waited.
pub proof fn the_prompt_cancels_or_discards(s: BrokkrV, action: PendingAction)
    requires
        s.would_lose_work(action),
        s.prompts.confirm is None,
    ensures
        s.guard(action).state.answer_confirm(ConfirmChoice::Cancel).state == s.with_menus(
            (MenusV { top_menu: None, menu: None, ..s.menus }),
        ),
        s.guard(action).state.answer_confirm(ConfirmChoice::Cancel).actions.len() == 0,
        s.guard(action).state.answer_confirm(ConfirmChoice::Discard).actions == s.run_pending(
            action,
        ).actions,
        s.guard(action).state.answer_confirm(ConfirmChoice::Discard).state.prompts.confirm is None,
{
}

/// A save that fails anywhere leaves the file, the unsaved mark, the crash net
/// and the prompt alone, and what waited goes on waiting.
pub proof fn a_failed_save_loses_nothing(
    s: BrokkrV,
    path: FilePathV,
    continuing: bool,
    outcome: SaveOutcome,
)
    requires
        !(outcome is Saved),
    ensures
        s.save_finished(path, continuing, outcome).state == s.saying(
            s.save_finished(path, continuing, outcome).state.status,
        ),
        !s.save_finished(path, continuing, outcome).actions.contains(Action::ClearAutosave),
        !s.save_finished(path, continuing, outcome).actions.contains(
            Action::RecordRecent(path.handle),
        ),
{
    let t = s.save_finished(path, continuing, outcome);
    lemma_not_among(t.actions, Action::ClearAutosave);
    lemma_not_among(t.actions, Action::RecordRecent(path.handle));
}

/// A save that worked clears the unsaved mark, takes the file's name, throws the
/// crash net away, and then does what waited for it.
pub proof fn a_save_that_worked_goes_on(
    s: BrokkrV,
    path: FilePathV,
    action: PendingAction,
    outcome: SaveOutcome,
)
    requires
        outcome is Saved,
        s.prompts.confirm == Some(action),
    ensures
        ({
            let t = s.save_finished(path, true, outcome);
            &&& !t.state.file.unsaved
            &&& t.state.file.project_path == Some(path)
            &&& t.state.prompts.confirm is None
            &&& t.actions == seq![
                Action::RecordRecent(path.handle),
                Action::ClearAutosave,
            ] + s.run_pending(action).actions
        }),
{
}

/// A file that could not be opened or read changes nothing but the status line.
pub proof fn a_bad_file_changes_nothing(s: BrokkrV, path: FilePathV, outcome: OpenOutcome)
    requires
        !(outcome is Opened),
    ensures
        s.opened(path, outcome).state == s.saying(s.opened(path, outcome).state.status),
{
}

/// Every document that takes another's place ends solo, counts its history
/// afresh, and has every body meshed again.
pub proof fn another_document_starts_afresh(
    s: BrokkrV,
    path: FilePathV,
    outcome: OpenOutcome,
)
    requires
        outcome is Opened,
    ensures
        s.opened(path, outcome).state.looking.solo is None,
        s.opened(path, outcome).state.agrees(),
        !s.opened(path, outcome).state.file.unsaved,
        s.opened(path, outcome).state.file.project_path == Some(path),
        s.opened(path, outcome).actions.contains(Action::RebuildEverything),
{
    let t = s.opened(path, outcome);
    assert(t.actions[1] == Action::RebuildEverything);
}

/// A recovered autosave belongs to no file and is not saved, so that the next
/// save asks where.
pub proof fn a_recovered_autosave_is_unsaved(s: BrokkrV, path: FilePathV, outcome: OpenOutcome)
    requires
        outcome is Opened,
    ensures
        s.recovered(path, outcome).state.file.unsaved,
        s.recovered(path, outcome).state.file.project_path is None,
        s.recovered(path, outcome).actions.last() == Action::ForgetRecent(path.handle),
{
}

/// The crash net is written only with work to lose, with nothing under way, and
/// not before its time.
pub proof fn the_crash_net_waits(s: BrokkrV, now: u64, stroke_active: bool)
    ensures
        s.autosave_due(now, stroke_active) ==> s.file.unsaved && !stroke_active
            && s.hand.drag is None,
        s.autosave_due(now, stroke_active) ==> now >= s.clock.last_autosave
            + crate::state::AUTOSAVE_INTERVAL_MS && now >= s.clock.last_activity
            + crate::state::AUTOSAVE_IDLE_GAP_MS,
{
}

/// What an export says adds up: the bodies written and the bodies left out are
/// all the bodies, and an export changes the status line alone.
pub proof fn an_export_counts_every_body(
    s: BrokkrV,
    parts: nat,
    format: ExportFormat,
    path: FilePathV,
    outcome: ExportOutcome,
)
    requires
        parts <= s.outline.body_count(),
    ensures
        parts + s.omitted(parts) == s.outline.body_count(),
        s.exported(format, path, outcome) == s.saying(s.exported(format, path, outcome).status),
{
}

/// A title carries the star exactly while there is unsaved work.
pub proof fn the_title_stars_unsaved_work(s: BrokkrV)
    ensures
        s.title() == s.document_name() + (if s.file.unsaved {
            "* — BrokkrSculpt"@
        } else {
            " — BrokkrSculpt"@
        }),
{
    reveal_strlit("*");
    reveal_strlit("");
    reveal_strlit(" — BrokkrSculpt");
    reveal_strlit("* — BrokkrSculpt");
    assert("*"@ + " — BrokkrSculpt"@ =~= "* — BrokkrSculpt"@);
    if s.file.unsaved {
        assert(s.title() =~= s.document_name() + "* — BrokkrSculpt"@);
    } else {
        assert(s.title() =~= s.document_name() + " — BrokkrSculpt"@);
    }
}

} // verus!
