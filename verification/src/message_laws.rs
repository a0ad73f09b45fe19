//! What no message does behind the document's back.
use vstd::prelude::*;

use crate::action::{lemma_not_among, Action};
use crate::message::{Message, PointerEvent};
use crate::outline;
use crate::outline::{NodeId, RowV};
use crate::state::{BrokkrV, Step};
use crate::values::{Pen, Pixel, PointerButton};

verus! {

/// Whether a request writes something of the session's rows into the document.
pub open spec fn writes_rows(a: Action) -> bool {
    a is WriteName || a is WriteEyes
}

/// Whether one of the requests does.
pub open spec fn asks_to_write(actions: Seq<Action>) -> bool {
    exists|i: int| 0 <= i < actions.len() && writes_rows(#[trigger] actions[i])
}

/// The document's rows once a request has written into them what it writes of the
/// session's rows, `own`.
pub open spec fn written(a: Action, own: Seq<RowV>, rows: Seq<RowV>) -> Seq<RowV> {
    match a {
        Action::WriteName(id) => Seq::new(
            rows.len(),
            |i: int|
                if rows[i].id == id {
                    RowV { name: own[i].name, ..rows[i] }
                } else {
                    rows[i]
                },
        ),
        Action::WriteEyes => Seq::new(
            rows.len(),
            |i: int| RowV { visible: own[i].visible, ..rows[i] },
        ),
        _ => rows,
    }
}

/// The document's rows once requests have written into them, one after another,
/// what they write of the session's rows, `own`.
pub open spec fn all_written(actions: Seq<Action>, own: Seq<RowV>, rows: Seq<RowV>) -> Seq<RowV>
    decreases actions.len(),
{
    if actions.len() == 0 {
        rows
    } else {
        all_written(actions.drop_first(), own, written(actions[0], own, rows))
    }
}

/// Whether a step asks for no row write and leaves the rows as they are, or asks
/// for one, first of all, and it is of the eyes that the step changed.
pub open spec fn writes_its_eyes(s: BrokkrV, t: Step) -> bool {
    let rows = s.outline.rows;
    let own = t.state.outline.rows;
    ||| own == rows && !asks_to_write(t.actions)
    ||| {
        &&& own != rows
        &&& t.actions.len() > 0
        &&& t.actions[0] == Action::WriteEyes
        &&& !asks_to_write(t.actions.drop_first())
        &&& own.len() == rows.len()
        &&& forall|i: int|
            0 <= i < rows.len() ==> #[trigger] own[i] == (RowV {
                visible: own[i].visible,
                ..rows[i]
            })
    }
}

/// Whether a step leaves the document alone but for what it asks of it: the rows
/// keep their shape, the document its file, and the crash net its place; where a
/// row's name or eye changed, the rows are to be written as an undo entry, and are
/// work to save; where another body became active, the document is to be told.
pub open spec fn asks_for_what_it_changes(s: BrokkrV, t: Step) -> bool {
    &&& outline::same_shape(s.outline.rows, t.state.outline.rows)
    &&& t.state.file.project_path == s.file.project_path
    &&& t.state.file.autosave_file == s.file.autosave_file
    &&& !t.actions.contains(Action::ClearAutosave)
    &&& s.file.unsaved ==> t.state.file.unsaved
    &&& t.state.outline.rows != s.outline.rows ==> t.state.file.unsaved && asks_to_write(t.actions)
    &&& t.state.file.unsaved && !s.file.unsaved ==> asks_to_write(t.actions)
    &&& t.state.outline.active != s.outline.active ==> t.actions.contains(
        Action::SetActive(t.state.outline.active),
    )
}

/// A step that leaves the rows and the file as they are, and asks for no work of
/// this kind, is such a step.
proof fn lemma_untouched(s: BrokkrV, t: Step)
    requires
        t.state.outline == s.outline,
        t.state.file == s.file,
        forall|i: int|
            0 <= i < t.actions.len() ==> #[trigger] t.actions[i] != Action::ClearAutosave
                && !writes_rows(t.actions[i]),
    ensures
        asks_for_what_it_changes(s, t),
        writes_its_eyes(s, t),
{
    lemma_not_among(t.actions, Action::ClearAutosave);
}

/// Two such steps, one after the other, are one.
proof fn lemma_then(s: BrokkrV, first: Step, second: Step, both: Step)
    requires
        asks_for_what_it_changes(s, first),
        asks_for_what_it_changes(first.state, second),
        both.state == second.state,
        both.actions == first.actions + second.actions + seq![Action::PublishVisibility],
    ensures
        asks_for_what_it_changes(s, both),
{
    assert forall|a: Action| first.actions.contains(a) implies #[trigger] both.actions.contains(
        a,
    ) by {
        let i = choose|i: int| 0 <= i < first.actions.len() && first.actions[i] == a;
        assert(both.actions[i] == a);
    }
    assert forall|a: Action| second.actions.contains(a) implies #[trigger] both.actions.contains(
        a,
    ) by {
        let i = choose|i: int| 0 <= i < second.actions.len() && second.actions[i] == a;
        assert(both.actions[first.actions.len() + i] == a);
    }
    if asks_to_write(first.actions) {
        let i = choose|i: int|
            0 <= i < first.actions.len() && writes_rows(#[trigger] first.actions[i]);
        assert(writes_rows(both.actions[i]));
    }
    if asks_to_write(second.actions) {
        let i = choose|i: int|
            0 <= i < second.actions.len() && writes_rows(#[trigger] second.actions[i]);
        assert(writes_rows(both.actions[first.actions.len() + i]));
    }
    if both.actions.contains(Action::ClearAutosave) {
        let i = choose|i: int|
            0 <= i < both.actions.len() && both.actions[i] == Action::ClearAutosave;
        if i < first.actions.len() {
            assert(first.actions[i] == Action::ClearAutosave);
        } else if i < first.actions.len() + second.actions.len() {
            assert(second.actions[i - first.actions.len()] == Action::ClearAutosave);
        }
    }
    let (r, m, t) = (s.outline.rows, first.state.outline.rows, second.state.outline.rows);
    assert forall|i: int| 0 <= i < r.len() implies (#[trigger] r[i]).id == t[i].id && r[i].depth
        == t[i].depth && r[i].is_body == t[i].is_body by {
        assert(r[i].id == m[i].id);
    }
}

proof fn lemma_select(s: BrokkrV, row: NodeId)
    ensures
        asks_for_what_it_changes(s, s.select_body(row)),
        writes_its_eyes(s, s.select_body(row)),
{
    let t = s.select_body(row);
    lemma_not_among(t.actions, Action::ClearAutosave);
    match s.outline.first_body_in(row) {
        Some(body) => {
            if body != s.outline.active {
                assert(t.actions[0] == Action::SetActive(body));
            }
        },
        None => {},
    }
}

proof fn lemma_eye(s: BrokkrV, id: NodeId)
    requires
        s.wf(),
    ensures
        asks_for_what_it_changes(s, s.toggle_visibility(id)),
        writes_its_eyes(s, s.toggle_visibility(id)),
{
    let t = s.toggle_visibility(id);
    lemma_not_among(t.actions, Action::ClearAutosave);
    if s.outline.has(id) {
        assert(s.outline.is_at(id, s.outline.at(id)));
    }
    if t.actions.len() > 0 {
        let at = s.outline.at(id);
        assert(t.actions[0] == Action::WriteEyes);
        assert(t.state.outline.rows[at].visible != s.outline.rows[at].visible);
    }
    if t.state.outline.active != s.outline.active {
        assert(t.actions[1] == Action::SetActive(t.state.outline.active));
    }
}

/// Where an eye is closed, one can be named.
proof fn lemma_a_closed_eye(rows: Seq<RowV>, n: int)
    requires
        0 <= n <= rows.len(),
        outline::closed_eyes(rows, n) > 0,
    ensures
        exists|i: int| 0 <= i < n && !(#[trigger] rows[i]).visible,
    decreases n,
{
    if rows[n - 1].visible {
        lemma_a_closed_eye(rows, n - 1);
    }
}

/// Showing everything and soloing ask for a row write only where an eye comes on.
proof fn lemma_an_eye_opened(s: BrokkrV, m: Message)
    requires
        s.wf(),
        m is EveryBodyShown || m is SoloEntered,
        s.dispatch_eyes(m).actions.len() > 0,
    ensures
        s.dispatch_eyes(m).state.outline.rows != s.outline.rows,
{
    reveal(BrokkrV::dispatch_eyes);
    let rows = s.outline.rows;
    let own = s.dispatch_eyes(m).state.outline.rows;
    match m {
        Message::SoloEntered(id) => {
            let at = s.outline.at(id);
            assert(s.outline.is_at(id, at));
            let i = choose|i: int|
                0 <= i <= at && #[trigger] outline::within(rows, i, at) && !rows[i].visible;
            assert(own[i].visible);
        },
        _ => {
            lemma_a_closed_eye(rows, rows.len() as int);
            let i = choose|i: int| 0 <= i < rows.len() && !(#[trigger] rows[i]).visible;
            assert(own[i].visible);
        },
    }
}

proof fn lemma_eyes(s: BrokkrV, m: Message)
    requires
        s.wf(),
    ensures
        asks_for_what_it_changes(s, s.dispatch_eyes(m)),
        writes_its_eyes(s, s.dispatch_eyes(m)),
{
    reveal(BrokkrV::dispatch_eyes);
    let t = s.dispatch_eyes(m);
    match m {
        Message::BodySelected(id) => {
            lemma_select(s, id);
        },
        Message::BodyVisibilityToggled(id) => {
            lemma_eye(s, id);
        },
        Message::ActiveBodyVisibilityToggled => {
            lemma_eye(s, s.outline.active);
        },
        _ => {
            lemma_not_among(t.actions, Action::ClearAutosave);
            if t.actions.len() > 0 {
                assert(t.actions[0] == Action::WriteEyes);
                lemma_an_eye_opened(s, m);
            }
        },
    }
}

/// A step that leaves the rows and the file as they are, asks for no work of this
/// kind, and says first of all which body is active, where that is another one, is
/// such a step too.
proof fn lemma_selecting_at_most(s: BrokkrV, t: Step)
    requires
        t.state.outline.rows == s.outline.rows,
        t.state.file == s.file,
        t.state.outline.active != s.outline.active ==> t.actions.len() > 0 && t.actions[0]
            == Action::SetActive(t.state.outline.active),
        forall|i: int|
            0 <= i < t.actions.len() ==> #[trigger] t.actions[i] != Action::ClearAutosave
                && !writes_rows(t.actions[i]),
    ensures
        asks_for_what_it_changes(s, t),
        writes_its_eyes(s, t),
{
    lemma_not_among(t.actions, Action::ClearAutosave);
}

proof fn lemma_press(
    s: BrokkrV,
    button: PointerButton,
    position: Pixel,
    under: Option<NodeId>,
    pen: Pen,
    now: u64,
)
    ensures
        asks_for_what_it_changes(s, s.press_viewport(button, position, under, pen, now)),
        writes_its_eyes(s, s.press_viewport(button, position, under, pen, now)),
{
    lemma_selecting_at_most(s, s.press_viewport(button, position, under, pen, now));
}

proof fn lemma_pointer(s: BrokkrV, event: PointerEvent, now: u64)
    ensures
        asks_for_what_it_changes(s, s.on_pointer(event, now)),
        writes_its_eyes(s, s.on_pointer(event, now)),
{
    let t = s.on_pointer(event, now);
    match event {
        PointerEvent::Pressed { button, position, size, cube, under, pen } => {
            let here = s.touched_at(now).pointing_at(position, size);
            lemma_press(here, button, position, under, pen, now);
            if s.modal_open() || here.menu_swallows() is Some || cube is Some {
                lemma_untouched(s, t);
            }
        },
        _ => {
            lemma_untouched(s, t);
        },
    }
}

proof fn lemma_ambient(s: BrokkrV, m: Message)
    ensures
        asks_for_what_it_changes(s, s.dispatch_ambient(m)),
        writes_its_eyes(s, s.dispatch_ambient(m)),
{
    reveal(BrokkrV::dispatch_ambient);
    let t = s.dispatch_ambient(m);
    match m {
        Message::Pointer { event, now } => {
            lemma_pointer(s, event, now);
        },
        _ => {
            lemma_untouched(s, t);
        },
    }
}

proof fn lemma_brush_setting(s: BrokkrV, m: Message)
    ensures
        asks_for_what_it_changes(s, s.dispatch_brush_setting(m)),
        writes_its_eyes(s, s.dispatch_brush_setting(m)),
{
    reveal(BrokkrV::dispatch_brush_setting);
    let t = s.dispatch_brush_setting(m);
    lemma_untouched(s, t);
}

proof fn lemma_brush(s: BrokkrV, m: Message)
    ensures
        asks_for_what_it_changes(s, s.dispatch_brush(m)),
        writes_its_eyes(s, s.dispatch_brush(m)),
{
    reveal(BrokkrV::dispatch_brush);
    let t = s.dispatch_brush(m);
    lemma_untouched(s, t);
}

proof fn lemma_gesture(s: BrokkrV, m: Message)
    ensures
        asks_for_what_it_changes(s, s.dispatch_gesture(m)),
        writes_its_eyes(s, s.dispatch_gesture(m)),
{
    reveal(BrokkrV::dispatch_gesture);
    let t = s.dispatch_gesture(m);
    lemma_untouched(s, t);
}

proof fn lemma_onwards(s: BrokkrV, m: Message)
    ensures
        asks_for_what_it_changes(s, s.dispatch_onwards(m)),
        writes_its_eyes(s, s.dispatch_onwards(m)),
{
    reveal(BrokkrV::dispatch_onwards);
    let t = s.dispatch_onwards(m);
    lemma_untouched(s, t);
}

proof fn lemma_making(s: BrokkrV, m: Message)
    ensures
        asks_for_what_it_changes(s, s.dispatch_making(m)),
        writes_its_eyes(s, s.dispatch_making(m)),
{
    reveal(BrokkrV::dispatch_making);
    let t = s.dispatch_making(m);
    lemma_untouched(s, t);
}

proof fn lemma_removing(s: BrokkrV, m: Message)
    ensures
        asks_for_what_it_changes(s, s.dispatch_removing(m)),
        writes_its_eyes(s, s.dispatch_removing(m)),
{
    reveal(BrokkrV::dispatch_removing);
    let t = s.dispatch_removing(m);
    lemma_untouched(s, t);
}

proof fn lemma_folders(s: BrokkrV, m: Message)
    ensures
        asks_for_what_it_changes(s, s.dispatch_folders(m)),
        writes_its_eyes(s, s.dispatch_folders(m)),
{
    reveal(BrokkrV::dispatch_folders);
    let t = s.dispatch_folders(m);
    lemma_untouched(s, t);
}

proof fn lemma_renaming(s: BrokkrV, m: Message)
    ensures
        asks_for_what_it_changes(s, s.dispatch_renaming(m)),
        writes_its_eyes(s, s.dispatch_renaming(m)),
{
    reveal(BrokkrV::dispatch_renaming);
    let t = s.dispatch_renaming(m);
    lemma_untouched(s, t);
}

proof fn lemma_menus(s: BrokkrV, m: Message)
    ensures
        asks_for_what_it_changes(s, s.dispatch_menus(m)),
        writes_its_eyes(s, s.dispatch_menus(m)),
{
    reveal(BrokkrV::dispatch_menus);
    let t = s.dispatch_menus(m);
    lemma_untouched(s, t);
}

proof fn lemma_panel(s: BrokkrV, m: Message)
    ensures
        asks_for_what_it_changes(s, s.dispatch_panel(m)),
        writes_its_eyes(s, s.dispatch_panel(m)),
{
    reveal(BrokkrV::dispatch_panel);
    let t = s.dispatch_panel(m);
    lemma_untouched(s, t);
}

proof fn lemma_cards(s: BrokkrV, m: Message)
    ensures
        asks_for_what_it_changes(s, s.dispatch_cards(m)),
        writes_its_eyes(s, s.dispatch_cards(m)),
{
    reveal(BrokkrV::dispatch_cards);
    let t = s.dispatch_cards(m);
    lemma_untouched(s, t);
}

proof fn lemma_bug_report(s: BrokkrV, m: Message)
    ensures
        asks_for_what_it_changes(s, s.dispatch_bug_report(m)),
        writes_its_eyes(s, s.dispatch_bug_report(m)),
{
    reveal(BrokkrV::dispatch_bug_report);
    let t = s.dispatch_bug_report(m);
    lemma_untouched(s, t);
}

proof fn lemma_devices(s: BrokkrV, m: Message)
    ensures
        asks_for_what_it_changes(s, s.dispatch_devices(m)),
        writes_its_eyes(s, s.dispatch_devices(m)),
{
    reveal(BrokkrV::dispatch_devices);
    let t = s.dispatch_devices(m);
    lemma_untouched(s, t);
}

proof fn lemma_guarded(s: BrokkrV, m: Message)
    ensures
        asks_for_what_it_changes(s, s.dispatch_guarded(m)),
        writes_its_eyes(s, s.dispatch_guarded(m)),
{
    reveal(BrokkrV::dispatch_guarded);
    let t = s.dispatch_guarded(m);
    lemma_untouched(s, t);
}

proof fn lemma_saving(s: BrokkrV, m: Message)
    ensures
        asks_for_what_it_changes(s, s.dispatch_saving(m)),
        writes_its_eyes(s, s.dispatch_saving(m)),
{
    reveal(BrokkrV::dispatch_saving);
    let t = s.dispatch_saving(m);
    lemma_untouched(s, t);
}

proof fn lemma_exchange(s: BrokkrV, m: Message)
    ensures
        asks_for_what_it_changes(s, s.dispatch_exchange(m)),
        writes_its_eyes(s, s.dispatch_exchange(m)),
{
    reveal(BrokkrV::dispatch_exchange);
    let t = s.dispatch_exchange(m);
    lemma_untouched(s, t);
}

proof fn lemma_commit(s: BrokkrV)
    requires
        s.wf(),
    ensures
        asks_for_what_it_changes(s, s.commit_rename()),
        s.commit_rename().state.wf(),
{
    let t = s.commit_rename();
    lemma_not_among(t.actions, Action::ClearAutosave);
    match s.prompts.renaming {
        Some(r) => {
            if s.outline.has(r.id) {
                assert(s.outline.is_at(r.id, s.outline.at(r.id)));
            }
            if t.actions.len() > 0 {
                assert(writes_rows(t.actions[0]));
            }
            assert(outline::same_shape(s.outline.rows, t.state.outline.rows));
            outline::lemma_same_shape(s.outline, t.state.outline);
        },
        None => {},
    }
}

/// What a message does once no rename is left for it to end.
proof fn lemma_dispatch(c: BrokkrV, m: Message)
    requires
        c.wf(),
    ensures
        asks_for_what_it_changes(c, c.dispatch(m)),
        writes_its_eyes(c, c.dispatch(m)),
{
    reveal(BrokkrV::dispatch);
    lemma_ambient(c, m);
    lemma_eyes(c, m);
    lemma_brush_setting(c, m);
    lemma_brush(c, m);
    lemma_gesture(c, m);
    lemma_onwards(c, m);
    lemma_making(c, m);
    lemma_removing(c, m);
    lemma_folders(c, m);
    lemma_renaming(c, m);
    lemma_menus(c, m);
    lemma_panel(c, m);
    lemma_cards(c, m);
    lemma_bug_report(c, m);
    lemma_devices(c, m);
    lemma_guarded(c, m);
    lemma_saving(c, m);
    lemma_exchange(c, m);
    lemma_untouched(c, c.quiet());
}

/// No message changes the document behind its back. A message never adds, removes
/// or moves a row, gives the document another file, calls its work saved or throws
/// the crash net away; and where it changes a name, an eye or the active body, it
/// asks for just that.
pub proof fn a_message_asks_for_what_it_changes(s: BrokkrV, m: Message)
    requires
        s.wf(),
    ensures
        asks_for_what_it_changes(s, s.update(m)),
{
    let committed = s.end_rename(m);
    lemma_commit(s);
    lemma_untouched(s, s.quiet());
    lemma_dispatch(committed.state, m);
    lemma_then(s, committed, committed.state.dispatch(m), s.update(m));
}

/// Requests that write nothing of the rows leave them as they are.
proof fn lemma_nothing_written(actions: Seq<Action>, own: Seq<RowV>, rows: Seq<RowV>)
    requires
        !asks_to_write(actions),
    ensures
        all_written(actions, own, rows) == rows,
    decreases actions.len(),
{
    if actions.len() > 0 {
        let rest = actions.drop_first();
        assert(!writes_rows(actions[0]));
        assert forall|i: int| 0 <= i < rest.len() implies !writes_rows(#[trigger] rest[i]) by {
            assert(!writes_rows(actions[i + 1]));
        }
        lemma_nothing_written(rest, own, rows);
    }
}

/// Requests in two lots write what the one lot writes and then the other.
proof fn lemma_written_in_turn(
    first: Seq<Action>,
    second: Seq<Action>,
    own: Seq<RowV>,
    rows: Seq<RowV>,
)
    ensures
        all_written(first + second, own, rows) == all_written(
            second,
            own,
            all_written(first, own, rows),
        ),
    decreases first.len(),
{
    if first.len() == 0 {
        assert(first + second =~= second);
    } else {
        assert((first + second).drop_first() =~= first.drop_first() + second);
        lemma_written_in_turn(first.drop_first(), second, own, written(first[0], own, rows));
    }
}

/// What a rename's request writes is the name alone, whatever eyes the message that
/// ended it has changed since.
proof fn lemma_a_name_written(s: BrokkrV, own: Seq<RowV>)
    requires
        s.wf(),
        own.len() == s.outline.rows.len(),
        forall|i: int|
            0 <= i < own.len() ==> (#[trigger] own[i]).name
                == s.commit_rename().state.outline.rows[i].name,
    ensures
        all_written(s.commit_rename().actions, own, s.outline.rows)
            == s.commit_rename().state.outline.rows,
{
    let o = s.outline;
    let t = s.commit_rename();
    if t.actions.len() > 0 {
        let r = s.prompts.renaming->0;
        let at = o.at(r.id);
        assert(o.is_at(r.id, at));
        assert forall|i: int| 0 <= i < o.rows.len() && (#[trigger] o.rows[i]).id == r.id implies i
            == at by {
            assert(o.is_at(r.id, i));
            outline::lemma_at(o, r.id, i);
        }
        assert(own[at].name == t.state.outline.rows[at].name);
        assert(written(Action::WriteName(r.id), own, o.rows) =~= t.state.outline.rows);
        assert(t.actions.drop_first() =~= seq![]);
        assert(all_written(t.actions.drop_first(), own, t.state.outline.rows)
            == t.state.outline.rows);
    }
}

/// A rename is an undo entry of its own, whatever message ends it. The requests of
/// a message are carried out once it has acted, on the rows that the session has
/// then; even so the rename's request, which is the first, writes the rows as the
/// rename left them, and what the message asks for writes the change from those
/// rows to the session's. Each of the two asks for one entry at most, and only
/// where it changed a row.
pub proof fn a_rename_is_an_entry_of_its_own(s: BrokkrV, m: Message)
    requires
        s.wf(),
    ensures
        ({
            let renamed = s.end_rename(m);
            let acted = renamed.state.dispatch(m);
            let own = s.update(m).state.outline.rows;
            &&& s.update(m).actions == renamed.actions + acted.actions + seq![
                Action::PublishVisibility,
            ]
            &&& all_written(renamed.actions, own, s.outline.rows) == renamed.state.outline.rows
            &&& all_written(acted.actions, own, renamed.state.outline.rows) == own
            &&& all_written(s.update(m).actions, own, s.outline.rows) == own
            &&& if renamed.state.outline.rows == s.outline.rows {
                renamed.actions.len() == 0
            } else {
                renamed.actions == seq![Action::WriteName(s.prompts.renaming->0.id)]
            }
            &&& writes_its_eyes(renamed.state, acted)
        }),
{
    let renamed = s.end_rename(m);
    let acted = renamed.state.dispatch(m);
    let rows = renamed.state.outline.rows;
    let own = acted.state.outline.rows;
    lemma_commit(s);
    lemma_dispatch(renamed.state, m);
    assert(own.len() == rows.len());
    assert forall|i: int| 0 <= i < own.len() implies (#[trigger] own[i]).name == rows[i].name by {
        if own != rows {
            assert(own[i] == (RowV { visible: own[i].visible, ..rows[i] }));
        }
    }
    if renamed.actions.len() > 0 {
        lemma_a_name_written(s, own);
        let at = s.outline.at(s.prompts.renaming->0.id);
        assert(s.outline.is_at(s.prompts.renaming->0.id, at));
        assert(rows[at].name != s.outline.rows[at].name);
    }
    if own == rows {
        lemma_nothing_written(acted.actions, own, rows);
    } else {
        assert(written(Action::WriteEyes, own, rows) =~= own);
        lemma_nothing_written(acted.actions.drop_first(), own, own);
    }
    let last = seq![Action::PublishVisibility];
    lemma_nothing_written(last, own, own);
    lemma_written_in_turn(renamed.actions, acted.actions, own, s.outline.rows);
    lemma_written_in_turn(renamed.actions + acted.actions, last, own, s.outline.rows);
}

/// The last thing that every message asks for is that what is drawn be settled.
pub proof fn a_message_ends_by_settling_what_is_drawn(s: BrokkrV, m: Message)
    ensures
        s.update(m).actions.len() > 0,
        s.update(m).actions.last() == Action::PublishVisibility,
{
}

/// While nothing is being renamed, a message that only looks leaves the document
/// saved: selecting, leaving solo, and soloing what its eyes show.
pub proof fn looking_is_not_work(s: BrokkrV, id: NodeId, m: Message)
    requires
        s.prompts.renaming is None,
        m == Message::BodySelected(id) || m == Message::SoloExited || (m == Message::SoloEntered(id)
            && outline::saved_at(s.outline.rows, s.outline.at(id))),
    ensures
        s.update(m).state.file == s.file,
        s.update(m).state.outline.rows == s.outline.rows,
{
    reveal(BrokkrV::dispatch);
    reveal(BrokkrV::dispatch_eyes);
}

} // verus!
