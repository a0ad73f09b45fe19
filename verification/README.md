# brokkr-app

The session of a voxel sculpting program: the outline of bodies and folders, eyes
and solo, the brush in hand, the pointer and the keyboard, undo, prompts before
work is lost, saving, opening, exporting, and the reports a user can copy. It is
written in Verus, and every function of it is proved against its contract.

## How it works

`Brokkr` (in `src/state.rs`) holds the session as plain values. A `Message` goes
into `Brokkr::update`; what comes back is a list of `Action`s, the requests to the
program around it, in the order in which they are to be carried out. Where a
request has an answer, the program hands a `Reply` to `Brokkr::reply` and carries
out what that returns before it goes on.

Each transition has a mathematical twin of the same name on `BrokkrV`, the view of
the session, and the contract of the one says that it does what the other says.
`BrokkrV::wf` is the invariant: it holds of a new session and every call keeps it.

## Where things stand

- `src/outline.rs`, `src/visibility.rs`, `src/bodies.rs`, `src/rename.rs`: the rows
  of the document, what is drawn of them, and what can be done to them.
- `src/pointer.rs`, `src/tool.rs`, `src/mirror.rs`, `src/menus.rs`, `src/puck.rs`,
  `src/timeline.rs`: what the hands do.
- `src/files.rs`, `src/saving.rs`, `src/detail.rs`, `src/report.rs`: files, sizes
  and reports.
- `src/session.rs`, `src/dispatch.rs`, `src/replies.rs`: a new session, and what
  each message and each reply does.
- `src/laws.rs`, `src/message_laws.rs`, `src/reply_laws.rs`: what holds of the
  session as a whole. Laws about one part stand at the end of its module.
- `src/soundness.rs`: tests for the preconditions, for callers that are not
  verified.
- `app/`: the program around the session: windows, dialogs, files, and the
  floating-point work on sizes and angles. The voxel engine is behind the trait
  in `app/engine.rs`.
