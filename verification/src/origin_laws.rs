//! Which commands a request can come from. What changes or replaces the document is
//! asked for by the commands that are for it, and by no other.
use vstd::prelude::*;

use crate::action::{Action, Reply};
use crate::dispatch;
use crate::dispatch::MessageKind;
use crate::message::{Message, PointerEvent};
use crate::outline::NodeId;
use crate::replies;
use crate::replies::ReplyKind;
use crate::state::BrokkrV;
use crate::values::{ConfirmChoice, PendingAction, Pen, Pixel, PointerButton};

verus! {

/// Whether a message goes ahead with what the prompt about unsaved work holds.
pub open spec fn goes_ahead(m: Message) -> bool {
    m == Message::ConfirmAnswered(ConfirmChoice::Discard)
}

/// Whether a message is one that a request can come from.
pub open spec fn can_come_from(s: BrokkrV, a: Action, m: Message) -> bool {
    match a {
        Action::OpenProject { recover, .. } => if recover {
            m is RecoverAutosave || (goes_ahead(m) && s.prompts.confirm == Some(
                PendingAction::RecoverAutosave,
            ))
        } else {
            m is OpenChosen || m is OpenRecent || goes_ahead(m)
        },
        Action::SaveProject { continuing, .. } => if continuing {
            m is SavedThenContinue || m == Message::ConfirmAnswered(ConfirmChoice::Save)
        } else {
            m is SaveRequested || m is SaveChosen
        },
        Action::NewDocument => m is NewSculpt || m is ResetSphere || goes_ahead(m),
        Action::CloseWindow(_) => m is CloseRequested || goes_ahead(m),
        Action::PickMeshToImport => m is ImportRequested || goes_ahead(m),
        Action::AdoptImport => m is ImportLoaded,
        Action::Export { .. } => m is ExportChosen,
        Action::RemoveRows(_) => m is BodyDeleteConfirmed,
        Action::MergeDown(_) => m is BodyMergeConfirmed,
        Action::Duplicate { .. } => m is BodyDuplicated,
        Action::AddPrimitive(_) => m is PrimitiveAdded,
        Action::Group(_) => m is BodyGrouped,
        Action::Ungroup(_) => m is BodyUngrouped,
        Action::MoveToFolder { .. } => m is BodyMovedToFolder,
        Action::Orient { .. } => m is OrientFace || m is OrientPromptAnswered,
        Action::Undo => m is Undo,
        Action::Redo => m is Redo,
        Action::Cut { .. } => m is Pointer,
        Action::Sculpt { .. } => m is Pointer,
        Action::EndStroke => m is Pointer,
        Action::SetActive(_) => m is Pointer || m is BodySelected || m is BodyVisibilityToggled
            || m is ActiveBodyVisibilityToggled,
        Action::WriteEyes => m is BodyVisibilityToggled || m is ActiveBodyVisibilityToggled
            || m is EveryBodyShown || m is SoloEntered,
        Action::SendReport => m is BugReportSubmitted,
        Action::Resample { .. } => false,
        Action::Rescale { .. } => false,
        Action::WriteAutosave => false,
        Action::ClearAutosave => false,
        _ => true,
    }
}

/// Whether a request is one that the pointer makes.
spec fn pointers(a: Action) -> bool {
    a is Sculpt || a is Cut || a is EndStroke || a is SetActive || a is HoverAny || a is HoverActive
        || a is RefreshOverlay || a is FlyTo || a is Orbit || a is Pan || a is PickCube
        || a is ApplySizing || a is Zoom
}

proof fn lemma_pressed(
    s: BrokkrV,
    button: PointerButton,
    position: Pixel,
    under: Option<NodeId>,
    pen: Pen,
    now: u64,
)
    ensures
        forall|i: int|
            0 <= i < s.press_viewport(button, position, under, pen, now).actions.len()
                ==> pointers(
                #[trigger] s.press_viewport(button, position, under, pen, now).actions[i],
            ),
{
    let press = s.press_kind(button, under, pen);
    assert(press.actions.len() <= 1);
    assert(press.actions.len() == 1 ==> press.actions[0] is SetActive);
}

proof fn lemma_pointer(s: BrokkrV, event: PointerEvent, now: u64)
    ensures
        forall|i: int|
            0 <= i < s.on_pointer(event, now).actions.len() ==> pointers(
                #[trigger] s.on_pointer(event, now).actions[i],
            ),
{
    if let PointerEvent::Pressed { button, position, size, under, pen, .. } = event {
        lemma_pressed(
            s.touched_at(now).pointing_at(position, size),
            button,
            position,
            under,
            pen,
            now,
        );
    }
}

proof fn lemma_ambient(s: BrokkrV, m: Message)
    requires
        dispatch::kind_of(m) == MessageKind::Ambient,
    ensures
        forall|i: int|
            0 <= i < s.dispatch_ambient(m).actions.len() ==> can_come_from(
                s,
                #[trigger] s.dispatch_ambient(m).actions[i],
                m,
            ),
{
    reveal(BrokkrV::dispatch_ambient);
    match m {
        Message::Pointer { event, now } => {
            lemma_pointer(s, event, now);
            assert(s.dispatch_ambient(m) == s.on_pointer(event, now));
        },
        Message::KeyPressed { key, modifiers } => {
            assert(s.dispatch_ambient(m) == s.on_key(key, modifiers));
        },
        _ => {
            assert(s.dispatch_ambient(m) == s.frame());
        },
    }
}

proof fn lemma_brush_setting(s: BrokkrV, m: Message)
    requires
        dispatch::kind_of(m) == MessageKind::BrushSetting,
    ensures
        forall|i: int|
            0 <= i < s.dispatch_brush_setting(m).actions.len() ==> can_come_from(
                s,
                #[trigger] s.dispatch_brush_setting(m).actions[i],
                m,
            ),
{
    reveal(BrokkrV::dispatch_brush_setting);
}

proof fn lemma_brush(s: BrokkrV, m: Message)
    requires
        dispatch::kind_of(m) == MessageKind::Brush,
    ensures
        forall|i: int|
            0 <= i < s.dispatch_brush(m).actions.len() ==> can_come_from(
                s,
                #[trigger] s.dispatch_brush(m).actions[i],
                m,
            ),
{
    reveal(BrokkrV::dispatch_brush);
}

proof fn lemma_gesture(s: BrokkrV, m: Message)
    requires
        dispatch::kind_of(m) == MessageKind::Gesture,
    ensures
        forall|i: int|
            0 <= i < s.dispatch_gesture(m).actions.len() ==> can_come_from(
                s,
                #[trigger] s.dispatch_gesture(m).actions[i],
                m,
            ),
{
    reveal(BrokkrV::dispatch_gesture);
}

proof fn lemma_onwards(s: BrokkrV, m: Message)
    requires
        dispatch::kind_of(m) == MessageKind::Onwards,
    ensures
        forall|i: int|
            0 <= i < s.dispatch_onwards(m).actions.len() ==> can_come_from(
                s,
                #[trigger] s.dispatch_onwards(m).actions[i],
                m,
            ),
{
    reveal(BrokkrV::dispatch_onwards);
}

proof fn lemma_eyes(s: BrokkrV, m: Message)
    requires
        dispatch::kind_of(m) == MessageKind::Eyes,
    ensures
        forall|i: int|
            0 <= i < s.dispatch_eyes(m).actions.len() ==> can_come_from(
                s,
                #[trigger] s.dispatch_eyes(m).actions[i],
                m,
            ),
{
    reveal(BrokkrV::dispatch_eyes);
}

proof fn lemma_making(s: BrokkrV, m: Message)
    requires
        dispatch::kind_of(m) == MessageKind::Making,
    ensures
        forall|i: int|
            0 <= i < s.dispatch_making(m).actions.len() ==> can_come_from(
                s,
                #[trigger] s.dispatch_making(m).actions[i],
                m,
            ),
{
    reveal(BrokkrV::dispatch_making);
}

proof fn lemma_removing(s: BrokkrV, m: Message)
    requires
        dispatch::kind_of(m) == MessageKind::Removing,
    ensures
        forall|i: int|
            0 <= i < s.dispatch_removing(m).actions.len() ==> can_come_from(
                s,
                #[trigger] s.dispatch_removing(m).actions[i],
                m,
            ),
{
    reveal(BrokkrV::dispatch_removing);
}

proof fn lemma_folders(s: BrokkrV, m: Message)
    requires
        dispatch::kind_of(m) == MessageKind::Folders,
    ensures
        forall|i: int|
            0 <= i < s.dispatch_folders(m).actions.len() ==> can_come_from(
                s,
                #[trigger] s.dispatch_folders(m).actions[i],
                m,
            ),
{
    reveal(BrokkrV::dispatch_folders);
}

proof fn lemma_renaming(s: BrokkrV, m: Message)
    requires
        dispatch::kind_of(m) == MessageKind::Renaming,
    ensures
        forall|i: int|
            0 <= i < s.dispatch_renaming(m).actions.len() ==> can_come_from(
                s,
                #[trigger] s.dispatch_renaming(m).actions[i],
                m,
            ),
{
    reveal(BrokkrV::dispatch_renaming);
}

proof fn lemma_menus(s: BrokkrV, m: Message)
    requires
        dispatch::kind_of(m) == MessageKind::Menus,
    ensures
        forall|i: int|
            0 <= i < s.dispatch_menus(m).actions.len() ==> can_come_from(
                s,
                #[trigger] s.dispatch_menus(m).actions[i],
                m,
            ),
{
    reveal(BrokkrV::dispatch_menus);
}

proof fn lemma_panel(s: BrokkrV, m: Message)
    requires
        dispatch::kind_of(m) == MessageKind::Panel,
    ensures
        forall|i: int|
            0 <= i < s.dispatch_panel(m).actions.len() ==> can_come_from(
                s,
                #[trigger] s.dispatch_panel(m).actions[i],
                m,
            ),
{
    reveal(BrokkrV::dispatch_panel);
}

proof fn lemma_cards(s: BrokkrV, m: Message)
    requires
        dispatch::kind_of(m) == MessageKind::Cards,
    ensures
        forall|i: int|
            0 <= i < s.dispatch_cards(m).actions.len() ==> can_come_from(
                s,
                #[trigger] s.dispatch_cards(m).actions[i],
                m,
            ),
{
    reveal(BrokkrV::dispatch_cards);
}

proof fn lemma_bug_report(s: BrokkrV, m: Message)
    requires
        dispatch::kind_of(m) == MessageKind::BugReport,
    ensures
        forall|i: int|
            0 <= i < s.dispatch_bug_report(m).actions.len() ==> can_come_from(
                s,
                #[trigger] s.dispatch_bug_report(m).actions[i],
                m,
            ),
{
    reveal(BrokkrV::dispatch_bug_report);
}

proof fn lemma_devices(s: BrokkrV, m: Message)
    requires
        dispatch::kind_of(m) == MessageKind::Devices,
    ensures
        forall|i: int|
            0 <= i < s.dispatch_devices(m).actions.len() ==> can_come_from(
                s,
                #[trigger] s.dispatch_devices(m).actions[i],
                m,
            ),
{
    reveal(BrokkrV::dispatch_devices);
}

proof fn lemma_guarded(s: BrokkrV, m: Message)
    requires
        dispatch::kind_of(m) == MessageKind::Guarded,
    ensures
        forall|i: int|
            0 <= i < s.dispatch_guarded(m).actions.len() ==> can_come_from(
                s,
                #[trigger] s.dispatch_guarded(m).actions[i],
                m,
            ),
{
    reveal(BrokkrV::dispatch_guarded);
}

proof fn lemma_saving(s: BrokkrV, m: Message)
    requires
        dispatch::kind_of(m) == MessageKind::Saving,
    ensures
        forall|i: int|
            0 <= i < s.dispatch_saving(m).actions.len() ==> can_come_from(
                s,
                #[trigger] s.dispatch_saving(m).actions[i],
                m,
            ),
{
    reveal(BrokkrV::dispatch_saving);
}

proof fn lemma_exchange(s: BrokkrV, m: Message)
    requires
        dispatch::kind_of(m) == MessageKind::Exchange,
    ensures
        forall|i: int|
            0 <= i < s.dispatch_exchange(m).actions.len() ==> can_come_from(
                s,
                #[trigger] s.dispatch_exchange(m).actions[i],
                m,
            ),
{
    reveal(BrokkrV::dispatch_exchange);
}

proof fn lemma_dispatched(s: BrokkrV, m: Message)
    ensures
        forall|i: int|
            0 <= i < s.dispatch(m).actions.len() ==> can_come_from(
                s,
                #[trigger] s.dispatch(m).actions[i],
                m,
            ),
{
    reveal(BrokkrV::dispatch);
    match dispatch::kind_of(m) {
        MessageKind::Leaving => {},
        MessageKind::Ambient => lemma_ambient(s, m),
        MessageKind::BrushSetting => lemma_brush_setting(s, m),
        MessageKind::Brush => lemma_brush(s, m),
        MessageKind::Gesture => lemma_gesture(s, m),
        MessageKind::Onwards => lemma_onwards(s, m),
        MessageKind::Eyes => lemma_eyes(s, m),
        MessageKind::Making => lemma_making(s, m),
        MessageKind::Removing => lemma_removing(s, m),
        MessageKind::Folders => lemma_folders(s, m),
        MessageKind::Renaming => lemma_renaming(s, m),
        MessageKind::Menus => lemma_menus(s, m),
        MessageKind::Panel => lemma_panel(s, m),
        MessageKind::Cards => lemma_cards(s, m),
        MessageKind::BugReport => lemma_bug_report(s, m),
        MessageKind::Devices => lemma_devices(s, m),
        MessageKind::Guarded => lemma_guarded(s, m),
        MessageKind::Saving => lemma_saving(s, m),
        MessageKind::Exchange => lemma_exchange(s, m),
    }
}

/// Every request of every message is one that such a message is for. A crash net is
/// opened as one only by the command to recover it, or where the user goes ahead with
/// that command after the prompt; a row is removed only once that was confirmed; a cut
/// or a stamp is the pointer's alone.
pub proof fn a_request_comes_from_a_command_that_is_for_it(s: BrokkrV, m: Message, i: int)
    requires
        0 <= i < s.update(m).actions.len(),
    ensures
        can_come_from(s, s.update(m).actions[i], m),
{
    let c = s.end_rename(m);
    lemma_dispatched(c.state, m);
    let done = c.state.dispatch(m).actions;
    assert(c.state.prompts.confirm == s.prompts.confirm);
    let n = c.actions.len() as int;
    if i < n {
        assert(s.update(m).actions[i] == c.actions[i]);
        assert(c.actions[i] is WriteName);
    } else if i < n + done.len() {
        assert(s.update(m).actions[i] == done[i - n]);
        assert(can_come_from(c.state, done[i - n], m));
    } else {
        assert(s.update(m).actions[i] is PublishVisibility);
    }
}

proof fn lemma_after_making(s: BrokkrV, r: Reply)
    ensures
        forall|i: int|
            0 <= i < s.reply_making(r).actions.len() ==> !((
            #[trigger] s.reply_making(r).actions[i]) is OpenProject),
{
    reveal(BrokkrV::reply_making);
}

proof fn lemma_after_folders(s: BrokkrV, r: Reply)
    ensures
        forall|i: int|
            0 <= i < s.reply_folders(r).actions.len() ==> !((
            #[trigger] s.reply_folders(r).actions[i]) is OpenProject),
{
    reveal(BrokkrV::reply_folders);
}

proof fn lemma_after_tool(s: BrokkrV, r: Reply)
    ensures
        forall|i: int|
            0 <= i < s.reply_tool(r).actions.len() ==> !((
            #[trigger] s.reply_tool(r).actions[i]) is OpenProject),
{
    reveal(BrokkrV::reply_tool);
}

proof fn lemma_after_pointing(s: BrokkrV, r: Reply)
    ensures
        forall|i: int|
            0 <= i < s.reply_pointing(r).actions.len() ==> !((
            #[trigger] s.reply_pointing(r).actions[i]) is OpenProject),
{
    reveal(BrokkrV::reply_pointing);
}

proof fn lemma_after_sizing(s: BrokkrV, r: Reply)
    ensures
        forall|i: int|
            0 <= i < s.reply_sizing(r).actions.len() ==> !((
            #[trigger] s.reply_sizing(r).actions[i]) is OpenProject),
{
    reveal(BrokkrV::reply_sizing);
}

proof fn lemma_after_timeline(s: BrokkrV, r: Reply)
    ensures
        forall|i: int|
            0 <= i < s.reply_timeline(r).actions.len() ==> !((
            #[trigger] s.reply_timeline(r).actions[i]) is OpenProject),
{
    reveal(BrokkrV::reply_timeline);
}

proof fn lemma_after_documents(s: BrokkrV, r: Reply)
    ensures
        forall|i: int|
            0 <= i < s.reply_documents(r).actions.len() ==> !((
            #[trigger] s.reply_documents(r).actions[i]) is OpenProject),
{
    reveal(BrokkrV::reply_documents);
}

proof fn lemma_after_exporting(s: BrokkrV, r: Reply)
    ensures
        forall|i: int|
            0 <= i < s.reply_exporting(r).actions.len() ==> !((
            #[trigger] s.reply_exporting(r).actions[i]) is OpenProject),
{
    reveal(BrokkrV::reply_exporting);
}

proof fn lemma_after_reporting(s: BrokkrV, r: Reply)
    ensures
        forall|i: int|
            0 <= i < s.reply_reporting(r).actions.len() ==> !((
            #[trigger] s.reply_reporting(r).actions[i]) is OpenProject),
{
    reveal(BrokkrV::reply_reporting);
}

proof fn lemma_after_saving(s: BrokkrV, r: Reply)
    ensures
        forall|i: int|
            0 <= i < s.reply_saving(r).actions.len() ==> ((
            #[trigger] s.reply_saving(r).actions[i]) matches Action::OpenProject { recover, .. }
                ==> recover ==> r is SaveFinished && s.prompts.confirm == Some(
                PendingAction::RecoverAutosave,
            )),
{
    reveal(BrokkrV::reply_saving);
}

proof fn lemma_after_joining(s: BrokkrV, r: Reply)
    ensures
        forall|i: int|
            0 <= i < s.reply_joining(r).actions.len() ==> !((
            #[trigger] s.reply_joining(r).actions[i]) is OpenProject),
{
    reveal(BrokkrV::reply_joining);
    if let Reply::RowsRemoved { outcome, .. } = r {
        if let Some(o) = outcome {
            let n = o.bodies@.len() as int;
            assert forall|i: int| 0 <= i < s.reply_joining(r).actions.len() implies !((
            #[trigger] s.reply_joining(r).actions[i]) is OpenProject) by {
                if i < n {
                    assert(s.reply_joining(r).actions[i] == Action::ForgetBody(o.bodies@[i]));
                }
            }
        }
    }
}

/// An outcome opens a crash net as one only where a save that was waited for went well
/// and the command that waited is the one to recover it.
pub proof fn only_a_finished_save_goes_on_to_the_net(s: BrokkrV, r: Reply, i: int, path: u64)
    requires
        0 <= i < s.reply(r).actions.len(),
        s.reply(r).actions[i] == (Action::OpenProject { path: path, recover: true }),
    ensures
        r is SaveFinished,
        s.prompts.confirm == Some(PendingAction::RecoverAutosave),
{
    reveal(BrokkrV::reply);
    match replies::about(r) {
        ReplyKind::Joining => lemma_after_joining(s, r),
        ReplyKind::Saving => lemma_after_saving(s, r),
        ReplyKind::Making => lemma_after_making(s, r),
        ReplyKind::Folders => lemma_after_folders(s, r),
        ReplyKind::Tool => lemma_after_tool(s, r),
        ReplyKind::Pointing => lemma_after_pointing(s, r),
        ReplyKind::Sizing => lemma_after_sizing(s, r),
        ReplyKind::Timeline => lemma_after_timeline(s, r),
        ReplyKind::Documents => lemma_after_documents(s, r),
        ReplyKind::Exporting => lemma_after_exporting(s, r),
        ReplyKind::Reporting => lemma_after_reporting(s, r),
    }
}

} // verus!
