//! The session driven as the program drives it, over a document small enough to
//! see through: a list of balls, each with a count of the edits made to it.
use std::collections::{HashMap, HashSet};

use brokkr_app::action::{
    Action, CutOutcome, ExportOutcome, MergeOutcome, MergeTarget, OpenOutcome, PrinterSearch,
    Regrouped, Removal, Reply, ResampleFacts, RestoredView, SlicerSearch, StepOutcome,
    TimelinePress, WorkingSizeFacts,
};
use brokkr_app::bodies::vertex_headroom;
use brokkr_app::detail::{out_of_memory_line, out_of_pool_line, pool_verdict, PoolVerdict};
use brokkr_app::message::{
    build_commit, keeps_the_rename_open, key_event, ImportNews, Key, Message, PointerEvent,
    WindowEvent,
};
use brokkr_app::outline::{NodeId, Outline, Row};
use brokkr_app::puck::ButtonAction;
use brokkr_app::saving::{save_step, SaveProgress, SaveStage};
use brokkr_app::session::Startup;
use brokkr_app::state::{Brokkr, DEFAULT_RECLAIM_BUDGET, MAX_BODIES, MAX_NODES};
use brokkr_app::values::{
    Brush, BrushDirection, BrushKind, BrushRole, ConfirmChoice, CubeMenu, CubePart, DragKind,
    ExportFormat, Facing, FilePath, HistoryNote, HistoryStats, KeyModifiers, MergePlan, MirrorAxis,
    PanelSection, Pen, PendingAction, PerAxis, Pixel, PointerButton, PrimitiveKind, Scalar,
    SizingTarget,
};

const WIDTH: f32 = 800.0;
const HEIGHT: f32 = 600.0;
const FIRST_BODY_NAME: &str = "Body 1";
const AUTOSAVE: u64 = 999;
const MODEL_RADIUS_MM: f32 = 30.0;
const VOXEL_SIZE_MM: f32 = 0.25;
const FINEST_VOXEL_MM: f32 = 0.03;
const COARSEST_VOXEL_MM: f32 = 2.0;
const MEMORY_CEILING: f64 = 8.0 * GIGABYTE;
const GIGABYTE: f64 = 1024.0 * 1024.0 * 1024.0;
const PRIMITIVE_VERTICES: f64 = 400_000.0;
const HISTORY_BUDGET: usize = 512 * 1024 * 1024;
const MIN_RADIUS_MM: f32 = 0.25;
const MAX_RADIUS_MM: f32 = 20.0;
const MIN_STRENGTH: f32 = 0.02;
const MAX_STRENGTH: f32 = 0.80;
const RADIUS_PER_PIXEL: f32 = 0.006;
const STRENGTH_PER_PIXEL: f32 = 0.002;
const CLICK_SLOP_PX: f32 = 4.0;

const DRAW: BrushKind = BrushKind { slot: 0, directional: true, role: BrushRole::Other };
const CLAY: BrushKind = BrushKind { slot: 1, directional: true, role: BrushRole::Other };
const SMOOTH: BrushKind = BrushKind { slot: 2, directional: false, role: BrushRole::Smooth };
const MOVE: BrushKind = BrushKind { slot: 3, directional: false, role: BrushRole::Move };

fn scalar(value: f32) -> Scalar {
    Scalar { bits: value.to_bits() }
}

fn float(value: Scalar) -> f32 {
    f32::from_bits(value.bits)
}

fn pixel(x: f32, y: f32) -> Pixel {
    Pixel { x: scalar(x), y: scalar(y) }
}

fn radius_clamped(radius: f32) -> Reply {
    Reply::RadiusClamped(scalar(radius.clamp(MIN_RADIUS_MM, MAX_RADIUS_MM)))
}

fn strength_clamped(strength: f32) -> Reply {
    Reply::StrengthClamped(scalar(strength.clamp(MIN_STRENGTH, MAX_STRENGTH)))
}

fn centre() -> Pixel {
    pixel(WIDTH / 2.0, HEIGHT / 2.0)
}

fn file(handle: u64, display: &str) -> FilePath {
    FilePath {
        handle,
        display: display.to_string(),
        file_name: display.rsplit('/').next().map(|name| name.to_string()),
    }
}

#[derive(Clone, Debug, PartialEq)]
struct Node {
    id: NodeId,
    name: String,
    depth: u8,
    visible: bool,
    collapsed: bool,
    is_body: bool,
    /// How many edits it has taken.
    clay: i64,
    bytes: usize,
    centre: [f32; 3],
    radius: f32,
    printable: bool,
}

impl Node {
    fn straddles(&self) -> PerAxis {
        let across = |axis: usize| {
            self.centre[axis] - self.radius <= 0.0 && self.centre[axis] + self.radius >= 0.0
        };
        PerAxis { x: across(0), y: across(1), z: across(2) }
    }
}

#[derive(Clone, Debug, PartialEq)]
struct Doc {
    nodes: Vec<Node>,
    active: NodeId,
    next: u64,
    voxel: f32,
}

impl Doc {
    fn new() -> Doc {
        let mut doc = Doc { nodes: Vec::new(), active: NodeId(1), next: 1, voxel: VOXEL_SIZE_MM };
        doc.add_body(FIRST_BODY_NAME, [0.0, 0.0, 0.0], MODEL_RADIUS_MM);
        doc
    }

    fn fresh(&mut self) -> NodeId {
        let id = NodeId(self.next);
        self.next += 1;
        id
    }

    fn body(&mut self, name: &str, centre: [f32; 3], radius: f32) -> Node {
        Node {
            id: self.fresh(),
            name: name.to_string(),
            depth: 0,
            visible: true,
            collapsed: false,
            is_body: true,
            clay: 0,
            bytes: 1000,
            centre,
            radius,
            printable: true,
        }
    }

    fn add_body(&mut self, name: &str, centre: [f32; 3], radius: f32) -> NodeId {
        let node = self.body(name, centre, radius);
        let id = node.id;
        self.nodes.push(node);
        id
    }

    fn outline(&self) -> Outline {
        Outline {
            rows: self
                .nodes
                .iter()
                .map(|node| Row {
                    id: node.id,
                    name: node.name.clone(),
                    depth: node.depth,
                    visible: node.visible,
                    collapsed: node.collapsed,
                    is_body: node.is_body,
                })
                .collect(),
            active: self.active,
        }
    }

    fn index(&self, id: NodeId) -> Option<usize> {
        self.nodes.iter().position(|node| node.id == id)
    }

    fn node(&self, id: NodeId) -> &Node {
        &self.nodes[self.index(id).expect("a live row")]
    }

    fn node_mut(&mut self, id: NodeId) -> &mut Node {
        let at = self.index(id).expect("a live row");
        &mut self.nodes[at]
    }

    fn end(&self, at: usize) -> usize {
        let depth = self.nodes[at].depth;
        (at + 1..self.nodes.len()).find(|&k| self.nodes[k].depth <= depth).unwrap_or(self.nodes.len())
    }

    fn prune(&mut self) {
        while let Some(at) = (0..self.nodes.len())
            .find(|&at| !self.nodes[at].is_body && self.end(at) == at + 1)
        {
            self.nodes.remove(at);
        }
    }

    fn bodies(&self) -> usize {
        self.nodes.iter().filter(|node| node.is_body).count()
    }

    /// Keeps the selection on a body, near where it was.
    fn reselect(&mut self, was_at: usize) {
        if self.index(self.active).is_some_and(|at| self.nodes[at].is_body) {
            return;
        }
        let below = self.nodes.iter().skip(was_at).find(|node| node.is_body);
        let above = self.nodes.iter().take(was_at).rev().find(|node| node.is_body);
        self.active = below.or(above).expect("a document holds a body").id;
    }

    fn group(&mut self, id: NodeId, name: &str) -> bool {
        let Some(at) = self.index(id) else {
            return false;
        };
        let end = self.end(at);
        if self.nodes[at..end].iter().any(|node| node.depth >= 7) {
            return false;
        }
        let folder = Node {
            id: self.fresh(),
            is_body: false,
            depth: self.nodes[at].depth,
            ..self.body(name, [0.0; 3], 0.0)
        };
        for node in &mut self.nodes[at..end] {
            node.depth += 1;
        }
        self.nodes.insert(at, Node { bytes: 0, ..folder });
        true
    }

    fn ungroup(&mut self, id: NodeId) -> bool {
        let Some(at) = self.index(id) else {
            return false;
        };
        if self.nodes[at].is_body {
            return false;
        }
        let end = self.end(at);
        for node in &mut self.nodes[at + 1..end] {
            node.depth -= 1;
        }
        self.nodes.remove(at);
        true
    }

    fn move_to_folder(&mut self, id: NodeId, into: Option<NodeId>) -> bool {
        let Some(at) = self.index(id) else {
            return false;
        };
        if into.is_some_and(|folder| self.index(folder).is_none()) {
            return false;
        }
        let end = self.end(at);
        let mut moved: Vec<Node> = self.nodes.drain(at..end).collect();
        let (to, depth) = match into {
            Some(folder) => {
                let at = self.index(folder).expect("a live folder");
                (self.end(at), self.nodes[at].depth + 1)
            }
            None => (self.nodes.len(), 0),
        };
        let base = moved[0].depth;
        for node in &mut moved {
            node.depth = node.depth - base + depth;
        }
        self.nodes.splice(to..to, moved);
        self.prune();
        true
    }
}

#[derive(Clone, Debug)]
struct Entry {
    before: Doc,
    after: Doc,
    /// The bodies whose field it changed.
    touches: Vec<NodeId>,
    deleted_bodies: usize,
    deleted_bytes: usize,
}

#[derive(Clone, Debug, PartialEq)]
struct Saved {
    doc: Doc,
    view: RestoredView,
}

struct World {
    app: Brokkr,
    doc: Doc,
    undo: Vec<Entry>,
    redo: Vec<Entry>,
    dropped_bodies: usize,
    reclaim_budget: usize,
    stroke: Option<Doc>,
    carved: bool,
    /// Every request carried out, in order.
    log: Vec<Action>,
    /// What the renderer was told to hide, and to forget.
    hidden: Vec<NodeId>,
    forgotten: Vec<NodeId>,
    /// The bodies with something to mesh, and those that were meshed last.
    dirty: Vec<NodeId>,
    remeshed: Vec<NodeId>,
    meshed: usize,
    model_radius: f32,
    pool_emptied: usize,
    files: HashMap<u64, Saved>,
    bad_files: HashSet<u64>,
    names: HashMap<u64, String>,
    temporaries: HashSet<u64>,
    fail_at: Option<SaveStage>,
    recent: Vec<u64>,
    now: u64,
    last_key: String,
    slicer: bool,
    printer: PrinterKind,
    pool: Pool,
    /// What the document is said to weigh, where that is not what its bodies do.
    resident_bytes: Option<usize>,
    exported: Vec<Vec<NodeId>>,
    /// Whether the disk takes what an export writes, and whether a file for the
    /// slicer is there from before.
    export_fails: bool,
    staged: bool,
    keys: Vec<(f32, RestoredView)>,
    track: f32,
    held_key: Option<usize>,
    pen: Pen,
    turned: usize,
    puck: Vec<ButtonAction>,
    waiting_import: Option<(Node, Option<Facing>, FilePath)>,
    copied_report: bool,
}

/// What the mesh pool reports.
#[derive(Clone, Copy, Default)]
struct Pool {
    vertices_reserved: u64,
    vertices_watermark: u64,
    vertex_capacity: u64,
    indices_reserved: u64,
    index_capacity: u64,
}

#[derive(Clone, Copy, PartialEq)]
enum PrinterKind {
    Nowhere,
    Unset,
    There,
}

fn app() -> World {
    World::new()
}

impl World {
    fn new() -> World {
        let doc = Doc::new();
        let app = Brokkr::new(Startup {
            outline: doc.outline(),
            brush: Brush {
                kind: DRAW,
                radius: scalar(4.0),
                strength: scalar(0.15),
                falloff: 0,
                pattern: 0,
                pattern_scale: scalar(1.0),
                pattern_depth: scalar(0.5),
            },
            strengths: vec![scalar(0.15), scalar(0.15), scalar(0.5), scalar(1.0)],
            smooth: SMOOTH,
            pressure_curve: scalar(1.0),
            expanded: vec![true, false, false],
            viewport_size: pixel(WIDTH, HEIGHT),
            history_stats: HistoryStats {
                undo_entries: 0,
                dropped_bodies: 0,
                budget_bytes: HISTORY_BUDGET,
            },
            autosave_file: Some(AUTOSAVE),
            has_autosave: false,
            now: 0,
        });
        World {
            app,
            doc,
            undo: Vec::new(),
            redo: Vec::new(),
            dropped_bodies: 0,
            reclaim_budget: DEFAULT_RECLAIM_BUDGET,
            stroke: None,
            carved: false,
            log: Vec::new(),
            hidden: Vec::new(),
            forgotten: Vec::new(),
            dirty: Vec::new(),
            remeshed: Vec::new(),
            meshed: 0,
            model_radius: MODEL_RADIUS_MM,
            pool_emptied: 0,
            files: HashMap::new(),
            bad_files: HashSet::new(),
            names: HashMap::new(),
            temporaries: HashSet::new(),
            fail_at: None,
            recent: Vec::new(),
            now: 0,
            last_key: String::new(),
            slicer: true,
            printer: PrinterKind::There,
            pool: Pool::default(),
            resident_bytes: None,
            exported: Vec::new(),
            export_fails: false,
            staged: false,
            keys: Vec::new(),
            track: 0.0,
            held_key: None,
            pen: Pen { in_proximity: false, eraser: false },
            turned: 0,
            puck: Vec::new(),
            waiting_import: None,
            copied_report: false,
        }
    }

    fn stats(&self) -> HistoryStats {
        HistoryStats {
            undo_entries: self.undo.len(),
            dropped_bodies: self.dropped_bodies,
            budget_bytes: HISTORY_BUDGET,
        }
    }

    fn can_undo(&self) -> bool {
        !self.undo.is_empty()
    }

    /// How long the longest side of the active body is.
    fn longest(&self) -> f32 {
        2.0 * self.doc.node(self.doc.active).radius
    }

    fn resident_bytes(&self) -> usize {
        self.resident_bytes.unwrap_or_else(|| self.doc.nodes.iter().map(|node| node.bytes).sum())
    }

    /// Why so many more vertices do not fit, where they do not.
    fn no_room_for(&self, vertices: f64) -> Option<String> {
        let left = vertex_headroom(self.pool.vertex_capacity, self.pool.vertices_watermark);
        (vertices > left as f64).then(|| {
            format!(
                "it needs about {:.1}M vertices and the mesh pool has {:.1}M left",
                vertices / 1.0e6,
                left as f64 / 1.0e6
            )
        })
    }

    fn resample_facts(&self, requested: f32) -> ResampleFacts {
        let wanted = requested.clamp(FINEST_VOXEL_MM, COARSEST_VOXEL_MM);
        let voxel = self.doc.voxel;
        let growth = (voxel / wanted).powi(2) as f64;
        let bytes = self.resident_bytes() as f64 * growth;
        let vertices = self.pool.vertices_reserved as f64 * growth;
        let indices = self.pool.indices_reserved as f64 * growth;
        let memory = MEMORY_CEILING / self.resident_bytes().max(1) as f64;
        let headroom = if self.pool.vertices_reserved == 0 {
            memory
        } else {
            memory
                .min(self.pool.vertex_capacity as f64 / self.pool.vertices_reserved as f64)
                .min(self.pool.index_capacity as f64 / self.pool.indices_reserved as f64)
        };
        let finest = voxel / headroom.sqrt() as f32 * 1.03;
        let mm = |size: f32| format!("{size:.3}");
        let too_fine = match pool_verdict(
            wanted < voxel,
            bytes > MEMORY_CEILING,
            self.pool.vertices_reserved,
            vertices <= self.pool.vertex_capacity as f64,
            indices <= self.pool.index_capacity as f64,
        ) {
            PoolVerdict::Fits => None,
            PoolVerdict::OutOfMemory => {
                let needs = format!("{:.1}", bytes / GIGABYTE);
                let ceiling = format!("{:.0}", MEMORY_CEILING / GIGABYTE);
                Some((out_of_memory_line(&mm(wanted), &needs, &ceiling, &mm(finest)), finest))
            }
            PoolVerdict::OutOfPool => {
                let needs = format!("{:.1}", vertices / 1.0e6);
                let capacity = format!("{:.1}", self.pool.vertex_capacity as f64 / 1.0e6);
                Some((out_of_pool_line(&mm(wanted), &needs, &capacity, &mm(finest)), finest))
            }
        };
        let (too_fine, fallback) = match too_fine {
            Some((why, finest)) => (Some(why), finest.clamp(FINEST_VOXEL_MM, COARSEST_VOXEL_MM)),
            None => (None, wanted),
        };
        ResampleFacts {
            unchanged: (wanted - voxel).abs() < 1.0e-6,
            too_fine,
            fallback_helps: fallback < voxel * 0.98,
            wanted: scalar(wanted),
            fallback: scalar(fallback),
        }
    }

    fn push(&mut self, before: Doc, touches: Vec<NodeId>, deleted: Vec<Node>) -> HistoryNote {
        let dropped_before = self.dropped_bodies;
        self.redo.clear();
        self.undo.push(Entry {
            before,
            after: self.doc.clone(),
            touches,
            deleted_bodies: deleted.len(),
            deleted_bytes: deleted.iter().map(|node| node.bytes).sum(),
        });
        while self.undo.len() > 1
            && self.undo.iter().map(|entry| entry.deleted_bytes).sum::<usize>() > self.reclaim_budget
        {
            let gone = self.undo.remove(0);
            self.dropped_bodies += gone.deleted_bodies;
        }
        HistoryNote { dropped_before, stats: self.stats() }
    }

    fn clear_history(&mut self) {
        self.undo.clear();
        self.redo.clear();
    }

    /// The body that a ray through a pixel meets first, of those in the mask.
    fn pick(&self, at: Pixel, mask: &[bool]) -> Option<NodeId> {
        let (x, y) = ((float(at.x) - WIDTH / 2.0) / 10.0, (float(at.y) - HEIGHT / 2.0) / 10.0);
        let mut best: Option<&Node> = None;
        for (node, shown) in self.doc.nodes.iter().zip(mask) {
            let (dx, dy) = (x - node.centre[0], y - node.centre[1]);
            if node.is_body && *shown && dx * dx + dy * dy <= node.radius * node.radius {
                if best.is_none_or(|other| node.centre[2] > other.centre[2]) {
                    best = Some(node);
                }
            }
        }
        best.map(|node| node.id)
    }

    fn hits_active(&self, at: Pixel) -> bool {
        let mask: Vec<bool> = self.doc.nodes.iter().map(|node| node.id == self.doc.active).collect();
        self.pick(at, &mask).is_some()
    }

    fn cube_at(&self, at: Pixel) -> Option<CubePart> {
        if float(at.x) > WIDTH - 100.0 && float(at.y) < 100.0 {
            Some(CubePart { code: 1, extremes: 1, facing: Some(Facing::Front) })
        } else {
            None
        }
    }

    fn view(&self) -> RestoredView {
        RestoredView {
            radius: self.app.tool.brush.radius,
            strength: self.app.tool.brush.strength,
            mirrors: self.app.tool.symmetry,
            straddles: None,
        }
    }

    fn file(&self, handle: u64) -> FilePath {
        file(handle, self.names.get(&handle).map_or("sculpt.brokkr", |name| name.as_str()))
    }

    fn name_file(&mut self, handle: u64, display: &str) -> FilePath {
        self.names.insert(handle, display.to_string());
        self.file(handle)
    }

    // --- driving it ---------------------------------------------------------

    fn update(&mut self, message: Message) {
        if let Message::KeyPressed { key: Key::Character(character), .. } = &message {
            self.last_key = character.clone();
        }
        let actions = self.app.update(message);
        self.perform(actions);
    }

    fn pointer(&mut self, event: PointerEvent) {
        let actions = self.app.on_pointer(event, self.now);
        self.perform(actions);
    }

    fn reply(&mut self, reply: Reply) {
        assert!(reply.is_fit_for(&self.app), "the fixture answered with {reply:?}");
        let actions = self.app.reply(reply);
        self.perform(actions);
    }

    fn perform(&mut self, actions: Vec<Action>) {
        for action in actions {
            self.log.push(action);
            self.carry_out(action);
        }
    }

    fn press_button(&mut self, button: PointerButton, at: Pixel) {
        let under = if button == PointerButton::Left {
            self.pick(at, &self.app.drawn_nodes())
        } else {
            None
        };
        self.pointer(PointerEvent::Pressed {
            button,
            position: at,
            size: pixel(WIDTH, HEIGHT),
            cube: self.cube_at(at),
            under,
            pen: self.pen,
        });
    }

    fn press(&mut self, at: Pixel) {
        self.press_button(PointerButton::Left, at);
    }

    fn release(&mut self) {
        self.pointer(PointerEvent::Released { button: PointerButton::Left });
    }

    fn right_press(&mut self, at: Pixel) {
        self.press_button(PointerButton::Right, at);
    }

    fn right_release(&mut self) {
        self.pointer(PointerEvent::Released { button: PointerButton::Right });
    }

    fn moved(&mut self, to: Pixel) {
        let past_slop = self.app.hand.drag.is_some_and(|drag| {
            let (dx, dy) =
                (float(to.x) - float(drag.origin.x), float(to.y) - float(drag.origin.y));
            (dx * dx + dy * dy).sqrt() > CLICK_SLOP_PX
        });
        self.pointer(PointerEvent::Moved { position: to, size: pixel(WIDTH, HEIGHT), past_slop });
    }

    fn stroke_at_the_centre(&mut self) {
        self.press(centre());
        self.release();
    }

    fn key(&mut self, character: &str, command: bool) {
        self.update(Message::KeyPressed {
            key: Key::Character(character.to_string()),
            modifiers: KeyModifiers { command, shift: false, alt: false },
        });
    }

    /// Adds a body behind the session's back, as an import of test data would.
    fn add_body(&mut self, name: &str, centre: [f32; 3], radius: f32) -> NodeId {
        let id = self.doc.add_body(name, centre, radius);
        self.dirty.push(id);
        self.sync();
        id
    }

    /// Hands the document's rows to the session, and settles what is drawn.
    fn sync(&mut self) {
        self.app.outline = self.doc.outline();
        assert!(self.app.outline.is_sound());
        self.app.publish_visibility();
        self.hidden = self.app.looking.hidden_bodies.clone();
    }

    fn set_eye(&mut self, id: NodeId, visible: bool) {
        self.doc.node_mut(id).visible = visible;
        self.sync();
    }

    fn save(&mut self, handle: u64) {
        self.carry_out(Action::SaveProject { path: handle, continuing: false });
    }

    fn open(&mut self, handle: u64) {
        self.carry_out(Action::OpenProject { path: handle, recover: false });
    }

    fn undo(&mut self) {
        self.carry_out(Action::Undo);
    }

    fn select_body(&mut self, row: NodeId) {
        let actions = self.app.select_body(row);
        self.perform(actions);
    }

    fn name_of(&self, id: NodeId) -> String {
        assert_eq!(self.app.outline.name_or(id, "?"), self.doc.node(id).name);
        self.doc.node(id).name.clone()
    }

    fn names(&self) -> Vec<String> {
        self.doc.nodes.iter().map(|node| node.name.clone()).collect()
    }

    fn shape(&self) -> Vec<(u8, String)> {
        self.doc.nodes.iter().map(|node| (node.depth, node.name.clone())).collect()
    }

    fn drawn(&self) -> Vec<NodeId> {
        self.doc
            .nodes
            .iter()
            .zip(self.app.drawn_nodes())
            .filter(|(node, shown)| node.is_body && *shown)
            .map(|(node, _)| node.id)
            .collect()
    }

    /// The renderer hides exactly the bodies that the rows and solo leave out.
    fn assert_agrees(&self, after: &str) {
        let left_out: Vec<NodeId> = self
            .doc
            .nodes
            .iter()
            .filter(|node| node.is_body && !self.drawn().contains(&node.id))
            .map(|node| node.id)
            .collect();
        assert_eq!(self.hidden, left_out, "the renderer and the rows disagree after {after}");
        assert_eq!(self.app.looking.hidden_bodies, left_out);
        let own: Vec<(NodeId, String, bool)> = self
            .app
            .outline
            .rows
            .iter()
            .map(|row| (row.id, row.name.clone(), row.visible))
            .collect();
        let told: Vec<(NodeId, String, bool)> =
            self.doc.nodes.iter().map(|node| (node.id, node.name.clone(), node.visible)).collect();
        assert_eq!(own, told, "the session and the document disagree after {after}");
        assert_eq!(self.app.outline.active, self.doc.active, "the selections differ after {after}");
    }

    fn drag_kind(&self) -> Option<DragKind> {
        self.app.hand.drag.map(|drag| drag.kind)
    }

    fn mirrored(&self, axis: MirrorAxis) -> bool {
        self.app.tool.symmetry.axis(axis)
    }

    fn has_autosave(&self) -> bool {
        self.files.contains_key(&AUTOSAVE)
    }

    fn clay(&self, id: NodeId) -> i64 {
        self.doc.node(id).clay
    }

    // --- what the program does on request -----------------------------------

    fn step_history(&mut self, redo: bool) {
        let entry = if redo { self.redo.pop() } else { self.undo.pop() };
        let Some(entry) = entry else {
            return self.reply(Reply::HistoryStepped { redo, outcome: StepOutcome::Nothing });
        };
        let saved = self.app.saved_nodes();
        let vetoed = entry
            .touches
            .iter()
            .copied()
            .find(|&id| self.doc.index(id).is_some_and(|at| !saved[at]));
        if let Some(id) = vetoed {
            if redo {
                self.redo.push(entry);
            } else {
                self.undo.push(entry);
            }
            return self
                .reply(Reply::HistoryStepped { redo, outcome: StepOutcome::Refused(id) });
        }
        let was_at = self.doc.index(self.doc.active).unwrap_or(0);
        let target = if redo { &entry.after } else { &entry.before };
        self.doc.nodes = target.nodes.clone();
        self.doc.voxel = target.voxel;
        self.doc.reselect(was_at);
        self.mark_everything_dirty();
        if redo {
            self.undo.push(entry);
        } else {
            self.redo.push(entry);
        }
        let (outline, stats) = (self.doc.outline(), self.stats());
        self.reply(Reply::HistoryStepped { redo, outcome: StepOutcome::Applied { outline, stats } });
    }

    fn mark_everything_dirty(&mut self) {
        self.dirty =
            self.doc.nodes.iter().filter(|node| node.is_body).map(|node| node.id).collect();
    }

    fn refresh_model_radius(&mut self) {
        self.model_radius = self.doc.node(self.doc.active).radius;
        self.app.refresh_model_radius();
    }

    fn remesh(&mut self) {
        self.meshed += 1;
        if self.dirty.is_empty() {
            return;
        }
        self.remeshed = std::mem::take(&mut self.dirty);
        let previous = self.model_radius;
        self.model_radius = self.doc.node(self.doc.active).radius;
        if self.app.note_remesh() {
            let factor = self.model_radius / previous;
            if (factor - 1.0).abs() > 1.0e-4 {
                self.reply(radius_clamped(float(self.app.tool.brush.radius) * factor));
            }
        }
    }

    fn regrouped(&mut self, before: Doc, done: bool) -> Option<Regrouped> {
        if !done {
            self.doc = before;
            return None;
        }
        let history = self.push(before, Vec::new(), Vec::new());
        Some(Regrouped { outline: self.doc.outline(), history })
    }

    fn save_stages(&mut self, path: u64, continuing: bool) {
        let mut stage = SaveStage::Create;
        let outcome = loop {
            let error = if self.fail_at == Some(stage) {
                Some("the disk said no".to_string())
            } else {
                match stage {
                    SaveStage::Create => {
                        self.temporaries.insert(path);
                        None
                    }
                    SaveStage::Write => None,
                    SaveStage::Verify => self
                        .app
                        .verify_written(
                            self.doc.nodes.len(),
                            self.doc.bodies(),
                            true,
                            format!("{}", self.doc.voxel),
                            format!("{}", self.doc.voxel),
                        )
                        .err(),
                    SaveStage::Replace => {
                        self.temporaries.remove(&path);
                        let saved = Saved { doc: self.doc.clone(), view: self.view() };
                        self.files.insert(path, saved);
                        None
                    }
                }
            };
            match save_step(stage, error) {
                SaveProgress::Next(next) => stage = next,
                SaveProgress::Over(outcome) => break outcome,
            }
        };
        let path = self.file(path);
        self.reply(Reply::SaveFinished { path, continuing, outcome });
    }

    fn open_file(&mut self, handle: u64, recover: bool) {
        let path = self.file(handle);
        let outcome = if self.bad_files.contains(&handle) {
            OpenOutcome::CannotRead("not a BrokkrSculpt file".to_string())
        } else {
            match self.files.get(&handle).cloned() {
                None => OpenOutcome::CannotOpen("No such file or directory".to_string()),
                Some(saved) => {
                    self.doc = saved.doc;
                    self.clear_history();
                    let straddles = Some(self.doc.node(self.doc.active).straddles());
                    OpenOutcome::Opened {
                        outline: self.doc.outline(),
                        view: RestoredView { straddles, ..saved.view },
                        stats: self.stats(),
                    }
                }
            }
        };
        self.reply(Reply::ProjectOpened { path, recover, outcome });
    }

    fn export_outcome(&mut self) -> ExportOutcome {
        let saved = self.app.saved_nodes();
        let bodies: Vec<&Node> = self
            .doc
            .nodes
            .iter()
            .zip(saved)
            .filter(|(node, shown)| node.is_body && *shown)
            .map(|(node, _)| node)
            .collect();
        if let Some(node) = bodies.iter().find(|node| !node.printable) {
            return ExportOutcome::Refused(format!("{} has a hole in it", node.name));
        }
        if self.export_fails {
            return ExportOutcome::Failed("the disk said no".to_string());
        }
        let ids: Vec<NodeId> = bodies.iter().map(|node| node.id).collect();
        let parts = ids.len();
        self.exported.push(ids);
        ExportOutcome::Written {
            parts,
            summary: "watertight".to_string(),
            megabytes: "1.0".to_string(),
            millis: "2".to_string(),
        }
    }

    fn carry_out(&mut self, action: Action) {
        match action {
            Action::PublishVisibility => {
                self.app.publish_visibility();
                self.hidden = self.app.looking.hidden_bodies.clone();
            }
            Action::LookUpShortcut(modifiers) => {
                let message = match (self.last_key.as_str(), modifiers.command, modifiers.alt) {
                    ("x", false, false) => Some(Message::SymmetryAxisToggled(MirrorAxis::X)),
                    ("1", false, false) => Some(Message::BrushKindChanged(DRAW)),
                    ("2", false, false) => Some(Message::BrushKindChanged(CLAY)),
                    ("z", true, false) => Some(Message::Undo),
                    (",", true, false) => Some(Message::ActiveBodyVisibilityToggled),
                    (",", true, true) => Some(Message::EveryBodyShown),
                    _ => None,
                };
                if let Some(message) = message {
                    self.update(message);
                }
            }
            Action::ClampRadius(radius) => {
                self.reply(radius_clamped(float(radius)));
            }
            Action::ScaleRadius(factor) => {
                let radius = float(self.app.tool.brush.radius) * float(factor);
                self.reply(radius_clamped(radius));
            }
            Action::ApplySizing(at) => {
                let sizing = self.app.hand.sizing.expect("a gesture under way");
                let travel = float(at.x) - float(sizing.from_pixel.x);
                let original = float(sizing.original);
                self.reply(match sizing.what {
                    SizingTarget::Radius => {
                        radius_clamped(original * (travel * RADIUS_PER_PIXEL).exp())
                    }
                    SizingTarget::Strength => {
                        strength_clamped(original + travel * STRENGTH_PER_PIXEL)
                    }
                });
            }
            Action::ReadMenuField => {
                let edit = self.app.menus.menu_edit.as_ref().expect("a field being typed into");
                if let Ok(value) = edit.text.trim().parse::<f32>() {
                    let reply = match edit.which {
                        SizingTarget::Radius => radius_clamped(value),
                        SizingTarget::Strength => strength_clamped(value),
                    };
                    self.reply(reply);
                }
            }
            Action::MeasureMirror(axis) => {
                let straddles = self.doc.node(self.doc.active).straddles().axis(axis);
                self.reply(Reply::MirrorMeasured { axis, straddles });
            }
            Action::SetActive(id) => {
                self.doc.active = id;
                self.refresh_model_radius();
                let straddles = Some(self.doc.node(id).straddles());
                self.reply(Reply::ActiveMeasured(straddles));
            }
            Action::WriteName(id) => {
                let before = self.doc.clone();
                self.doc.node_mut(id).name = self.app.outline.name_or(id, "?");
                let note = self.push(before, Vec::new(), Vec::new());
                self.reply(Reply::OutlineWritten(note));
            }
            Action::WriteEyes => {
                let before = self.doc.clone();
                for (node, row) in self.doc.nodes.iter_mut().zip(&self.app.outline.rows) {
                    assert_eq!(node.id, row.id);
                    node.visible = row.visible;
                }
                let note = self.push(before, Vec::new(), Vec::new());
                self.reply(Reply::OutlineWritten(note));
            }
            Action::AddPrimitive(kind) => {
                if let Some(why) = self.no_room_for(PRIMITIVE_VERTICES) {
                    return self.reply(Reply::PrimitiveRefused {
                        kind,
                        across: "40.0".to_string(),
                        why,
                        workable: "20.0".to_string(),
                    });
                }
                let before = self.doc.clone();
                let right = self
                    .doc
                    .nodes
                    .iter()
                    .filter(|node| node.is_body)
                    .map(|node| node.centre[0] + node.radius)
                    .fold(0.0, f32::max);
                let name = match kind {
                    PrimitiveKind::Cube => "Cube",
                    PrimitiveKind::Sphere => "Sphere",
                    PrimitiveKind::Cylinder => "Cylinder",
                };
                let id = self.doc.add_body(name, [right + 22.0, 0.0, 0.0], 20.0);
                self.dirty.push(id);
                let history = self.push(before, Vec::new(), Vec::new());
                let outline = self.doc.outline();
                let across = "40.0".to_string();
                self.reply(Reply::PrimitiveBuilt { kind, id, across, outline, history });
            }
            Action::Duplicate { source, at, depth } => {
                let share =
                    self.doc.node(source).bytes as f64 / self.resident_bytes().max(1) as f64;
                if let Some(why) = self.no_room_for(self.pool.vertices_reserved as f64 * share) {
                    return self.reply(Reply::CopyRefused { why });
                }
                let before = self.doc.clone();
                let name = self.app.copy_name();
                let id = self.doc.fresh();
                let copy = Node { id, name, depth, ..self.doc.node(source).clone() };
                self.doc.nodes.insert(at, copy);
                self.dirty.push(id);
                let history = self.push(before, Vec::new(), Vec::new());
                let outline = self.doc.outline();
                self.reply(Reply::Copied { id, outline, history });
            }
            Action::PlanMerge(source) => {
                let at = self.doc.index(source).expect("a live row");
                let target = match self.doc.nodes.get(at + 1) {
                    Some(below) if below.depth == self.doc.nodes[at].depth => {
                        if below.is_body {
                            let bytes = self.doc.nodes[at].bytes + below.bytes;
                            MergeTarget::Body {
                                target: below.id,
                                plan: Some(MergePlan {
                                    bytes,
                                    stroke_bytes: below.bytes,
                                    reclaim_bytes: self.doc.nodes[at].bytes,
                                }),
                            }
                        } else {
                            MergeTarget::Folder(below.id)
                        }
                    }
                    _ => MergeTarget::Bottom,
                };
                self.reply(Reply::MergePlanned { source, target });
            }
            Action::MergeDown(source) => {
                let before = self.doc.clone();
                let at = self.doc.index(source).expect("a live row");
                let gone = self.doc.nodes.remove(at);
                let target = self.doc.nodes[at].id;
                self.doc.node_mut(target).clay += gone.clay + 1;
                if self.doc.active == source {
                    self.doc.active = target;
                }
                let history = self.push(before, vec![target], vec![gone]);
                let outline = self.doc.outline();
                let outcome = Some(MergeOutcome { target, bricks: 7, outline, history });
                self.reply(Reply::Merged { source, outcome });
            }
            Action::WeighRows(id) => {
                let weights = self.doc.nodes.iter().map(|node| node.bytes).collect();
                self.reply(Reply::RowsWeighed { id, weights });
            }
            Action::RemoveRows(id) => {
                let before = self.doc.clone();
                let at = self.doc.index(id).expect("a live row");
                let end = self.doc.end(at);
                let gone: Vec<Node> = self.doc.nodes.drain(at..end).collect();
                let bodies: Vec<Node> = gone.into_iter().filter(|node| node.is_body).collect();
                self.doc.prune();
                self.doc.reselect(at);
                let ids = bodies.iter().map(|node| node.id).collect();
                let history = self.push(before, Vec::new(), bodies);
                let outline = self.doc.outline();
                let outcome = Some(Removal { bodies: ids, outline, history });
                self.reply(Reply::RowsRemoved { id, outcome });
            }
            Action::Group(id) => {
                let before = self.doc.clone();
                let done = self.doc.group(id, &self.app.next_group_name());
                let outcome = self.regrouped(before, done);
                self.reply(Reply::Grouped(outcome));
            }
            Action::Ungroup(folder) => {
                let before = self.doc.clone();
                let done = self.doc.ungroup(folder);
                let outcome = self.regrouped(before, done);
                self.reply(Reply::Ungrouped { folder, outcome });
            }
            Action::MoveToFolder { row, into } => {
                let before = self.doc.clone();
                let done = self.doc.move_to_folder(row, into);
                let outcome = self.regrouped(before, done);
                self.reply(Reply::MovedToFolder { into, outcome });
            }
            Action::SetCollapsed { folder, collapsed } => {
                let before = self.doc.clone();
                self.doc.node_mut(folder).collapsed = collapsed;
                let outcome = self.regrouped(before, true);
                self.reply(Reply::CollapseSet(outcome));
            }
            Action::Undo => self.step_history(false),
            Action::Redo => self.step_history(true),
            Action::ForgetBody(id) => self.forgotten.push(id),
            Action::MarkEverythingDirty => self.mark_everything_dirty(),
            Action::RefreshModelRadius => self.refresh_model_radius(),
            Action::Remesh => self.remesh(),
            Action::RebuildEverything => {
                self.pool_emptied += 1;
                self.mark_everything_dirty();
                self.remesh();
                self.forgotten.clear();
                self.hidden = self.app.looking.hidden_bodies.clone();
            }
            Action::Sculpt { at, direction: _, start } => {
                if start {
                    self.stroke = Some(self.doc.clone());
                    self.carved = false;
                }
                if self.hits_active(at) {
                    let active = self.doc.active;
                    self.doc.node_mut(active).clay += 1;
                    self.carved = true;
                    self.dirty.push(active);
                    self.remesh();
                }
            }
            Action::EndStroke => {
                let before = self.stroke.take();
                let edit = match before {
                    Some(before) if self.carved => {
                        let touches = vec![self.doc.active];
                        Some(self.push(before, touches, Vec::new()))
                    }
                    _ => None,
                };
                self.reply(Reply::StrokeEnded(edit));
            }
            Action::Cut { from, to } => {
                let (dx, dy) = (float(to.x) - float(from.x), float(to.y) - float(from.y));
                if (dx * dx + dy * dy).sqrt() < 8.0 {
                    return self.reply(Reply::CutDone(CutOutcome::TooShort));
                }
                let before = self.doc.clone();
                let drawn = self.drawn();
                for id in &drawn {
                    self.doc.node_mut(*id).clay -= 100;
                    self.dirty.push(*id);
                }
                let count = drawn.len() as u64;
                let history = self.push(before, drawn, Vec::new());
                self.reply(Reply::CutDone(CutOutcome::Clipped {
                    bricks: 5,
                    bodies_cut: count,
                    bodies_crossed: count,
                    history,
                }));
            }
            Action::PickCube(at) => {
                let part = self.cube_at(at);
                self.reply(Reply::CubePicked { part, at });
            }
            Action::HoverAny(at) => {
                let body = self.pick(at, &self.app.drawn_nodes());
                self.reply(Reply::HoverPicked(body));
            }
            Action::HoverActive(at) => {
                let hit = self.hits_active(at);
                self.reply(Reply::HoverSurface(hit));
            }
            Action::Orient { from, to } => {
                if from == to {
                    return self.reply(Reply::Oriented(None));
                }
                self.turned += 1;
                self.clear_history();
                let history = HistoryNote { dropped_before: 0, stats: self.stats() };
                let turn = Regrouped { outline: self.doc.outline(), history };
                self.reply(Reply::Oriented(Some((turn, "12".to_string()))));
            }
            Action::NewDocument => {
                self.doc = Doc::new();
                self.clear_history();
                let (outline, stats) = (self.doc.outline(), self.stats());
                self.reply(Reply::DocumentReset { outline, stats });
            }
            Action::OpenProject { path, recover } => self.open_file(path, recover),
            Action::SaveProject { path, continuing } => self.save_stages(path, continuing),
            Action::RemoveTemporary(path) => {
                self.temporaries.remove(&path);
            }
            Action::RecordRecent(path) => {
                self.recent.retain(|other| *other != path);
                self.recent.insert(0, path);
            }
            Action::ForgetRecent(path) => self.recent.retain(|other| *other != path),
            Action::ClearAutosave => {
                self.files.remove(&AUTOSAVE);
            }
            Action::Export { format, path, handoff } => {
                let outcome = self.export_outcome();
                let path = self.file(path);
                if handoff {
                    let is_file = self.staged || matches!(outcome, ExportOutcome::Written { .. });
                    self.staged = is_file;
                    self.reply(Reply::StagedExported { path, outcome, is_file });
                } else {
                    self.reply(Reply::Exported { format, path, outcome });
                }
            }
            Action::FindSlicer => {
                let found = if self.slicer {
                    SlicerSearch::Ready { staged: 77 }
                } else {
                    SlicerSearch::NoSlicer
                };
                self.reply(Reply::SlicerSought(found));
            }
            Action::OpenSlicer => {
                self.reply(Reply::SlicerOpened(Ok("/usr/bin/orca-slicer".to_string())));
            }
            Action::AdoptImport => {
                let (node, resting_up, source) = self.waiting_import.take().expect("an import");
                self.doc.nodes = vec![node];
                self.doc.active = self.doc.nodes[0].id;
                self.clear_history();
                let (outline, stats) = (self.doc.outline(), self.stats());
                self.reply(Reply::ImportAdopted {
                    source,
                    summary: "1200 triangles".to_string(),
                    millis: "12".to_string(),
                    resting_up,
                    outline,
                    stats,
                });
            }
            Action::MeasureResample(requested) => {
                let facts = self.resample_facts(float(requested));
                self.reply(Reply::ResampleMeasured(facts));
            }
            Action::Resample { to, wanted } => {
                self.doc.voxel = float(to);
                self.clear_history();
                let (outline, stats) = (self.doc.outline(), self.stats());
                self.reply(Reply::Resampled {
                    outline,
                    stats,
                    size: format!("{:.3}", float(to)),
                    wanted: wanted.map(|wanted| format!("{:.3}", float(wanted))),
                    dense: 12,
                    megabytes: "3.0".to_string(),
                    millis: "40".to_string(),
                });
            }
            Action::ReadWorkingSize => {
                let wanted = self.app.panel.working_size_field.trim().parse::<f32>();
                let length = wanted.clone().unwrap_or(0.0);
                let factor = length / self.longest();
                let voxel = self.doc.voxel * factor;
                let clamped = voxel.clamp(FINEST_VOXEL_MM, COARSEST_VOXEL_MM);
                self.reply(Reply::WorkingSizeRead(WorkingSizeFacts {
                    parsed: wanted.is_ok(),
                    is_length: length.is_finite() && length > 0.0,
                    has_model: true,
                    has_size: true,
                    in_range: (clamped - voxel).abs() <= 1.0e-9,
                    longest: format!("{length:.1}"),
                    voxel: format!("{voxel:.4}"),
                    range: format!("{FINEST_VOXEL_MM:.2}-{COARSEST_VOXEL_MM:.2}"),
                    length: scalar(length),
                    factor: scalar(factor),
                }));
            }
            Action::Rescale { factor, length } => {
                let scale = float(factor);
                self.doc.voxel *= scale;
                for node in self.doc.nodes.iter_mut() {
                    node.centre = node.centre.map(|at| at * scale);
                    node.radius *= scale;
                }
                let radius = scalar(float(self.app.tool.brush.radius) * scale);
                let outline = self.doc.outline();
                let longest = format!("{:.1}", float(length));
                let advice = format!("{:.3} mm voxel", self.doc.voxel);
                self.reply(Reply::Rescaled { outline, radius, longest, advice });
            }
            Action::ConsiderAutosave => {
                let stroke_active = self.stroke.is_some();
                self.reply(Reply::AutosaveTick { now: self.now, stroke_active });
            }
            Action::WriteAutosave => {
                if self.app.file.autosave_file.is_some() {
                    let saved = Saved { doc: self.doc.clone(), view: self.view() };
                    self.files.insert(AUTOSAVE, saved);
                }
                self.reply(Reply::AutosaveWritten { now: self.now });
            }
            Action::GatherDiagnostics => self.reply(Reply::DiagnosticsCopied),
            Action::CopyReport => {
                self.copied_report = true;
                self.reply(Reply::ReportCopied);
            }
            Action::SendReport => self.reply(Reply::ReportSent),
            Action::FindPrinter => {
                let found = match self.printer {
                    PrinterKind::Nowhere => PrinterSearch::NoConfigPlace,
                    PrinterKind::Unset => {
                        PrinterSearch::Unconfigured { config: "/cfg/printer".to_string() }
                    }
                    PrinterKind::There => {
                        PrinterSearch::Configured { host: "voron.local".to_string() }
                    }
                };
                self.reply(Reply::PrinterSought(found));
            }
            Action::HoverTimeline(x) => {
                self.track = float(x);
                if let Some(held) = self.held_key {
                    self.keys[held].0 = self.track;
                }
                let dragging = self.held_key.is_some();
                self.reply(Reply::TimelineHovered { dragging });
            }
            Action::PressTimeline => {
                let near = self.keys.iter().position(|key| (key.0 - self.track).abs() < 0.02);
                let press = match near {
                    Some(index) => {
                        self.held_key = Some(index);
                        let straddles = Some(self.doc.node(self.doc.active).straddles());
                        let view = Some(RestoredView { straddles, ..self.keys[index].1 });
                        TimelinePress::WentTo { index, keys: self.keys.len(), view }
                    }
                    None => {
                        let view = self.view();
                        let index = self.keys.iter().filter(|key| key.0 < self.track).count();
                        self.keys.insert(index, (self.track, view));
                        TimelinePress::Added { index, keys: self.keys.len() }
                    }
                };
                self.reply(Reply::TimelinePressed(press));
            }
            Action::ReleaseTimeline => self.held_key = None,
            Action::RemoveTimelineKey => {
                let near = self.keys.iter().position(|key| (key.0 - self.track).abs() < 0.02);
                let left = near.map(|index| {
                    self.keys.remove(index);
                    self.keys.len()
                });
                self.reply(Reply::TimelineRemoved(left));
            }
            Action::DriveSpaceMouse => {
                for button in std::mem::take(&mut self.puck) {
                    let actions = self.app.puck_pressed(button);
                    self.perform(actions);
                }
            }
            _ => {}
        }
    }
}

fn app_with_unsaved_work() -> World {
    let mut app = app();
    app.stroke_at_the_centre();
    assert!(app.app.file.unsaved, "the fixture did not actually dirty the document");
    app
}

// --- strokes, the pointer and the hands ----------------------------------------

#[test]
fn a_press_at_the_centre_of_the_viewport_changes_the_model() {
    let mut app = app();
    let before = app.clay(app.doc.active);

    app.press(centre());

    assert_ne!(app.clay(app.doc.active), before, "the press carved nothing");
    assert!(app.log.contains(&Action::Sculpt {
        at: centre(),
        direction: BrushDirection::Add,
        start: true
    }));
}

#[test]
fn the_stats_readout_starts_collapsed_and_the_icon_toggles_it() {
    let mut app = app();
    assert!(!app.app.panel.stats_open, "the readout should not be over the model on launch");

    app.update(Message::StatsToggled);
    assert!(app.app.panel.stats_open, "pressing the info icon should show the numbers");

    app.update(Message::StatsToggled);
    assert!(!app.app.panel.stats_open, "pressing it again should put them away");
}

#[test]
fn a_press_that_misses_the_model_changes_nothing() {
    let mut app = app();
    let before = app.doc.clone();

    app.press(pixel(2.0, 2.0));

    assert_eq!(app.doc, before, "a miss must not carve");
    assert_eq!(app.meshed, 0, "a miss must not schedule a remesh");
}

#[test]
fn orbiting_moves_the_camera_without_touching_the_model() {
    let mut app = app();
    let before = app.doc.clone();

    app.right_press(centre());
    app.moved(pixel(460.0, 300.0));

    assert!(
        app.log.contains(&Action::Orbit { from: Some(centre()), to: pixel(460.0, 300.0) }),
        "a right drag should have orbited: {:?}",
        app.log
    );
    assert_eq!(app.doc, before, "orbiting must not sculpt");
}

#[test]
fn releasing_a_different_button_does_not_cancel_a_stroke() {
    let mut app = app();
    app.press(centre());
    app.right_release();
    assert!(app.app.hand.drag.is_some(), "the left button drag should still be live");

    app.release();
    assert!(app.app.hand.drag.is_none());
}

#[test]
fn a_finished_stroke_becomes_exactly_one_undo_entry() {
    let mut app = app();
    app.press(centre());
    for offset in 1..8 {
        app.moved(pixel(WIDTH / 2.0 + offset as f32 * 6.0, HEIGHT / 2.0));
    }
    assert_eq!(app.app.books.history_stats.undo_entries, 0, "history should wait for the button up");

    app.release();
    assert_eq!(
        app.app.books.history_stats.undo_entries, 1,
        "a whole drag is one entry, not one per pointer event"
    );
}

#[test]
fn an_eviction_that_takes_a_deleted_body_with_it_reaches_the_status_line() {
    let mut app = app();
    let doomed = app.add_body("Body 2", [60.0, 0.0, 0.0], 10.0);
    let before = app.doc.clone();
    let at = app.doc.index(doomed).expect("the second body");
    let node = app.doc.nodes.remove(at);
    app.push(before, Vec::new(), vec![node]);
    app.reclaim_budget = 1;
    app.sync();
    assert!(app.app.status.is_empty(), "nothing has been evicted yet");

    app.stroke_at_the_centre();

    assert_eq!(app.app.books.history_stats.dropped_bodies, 1, "the delete was not evicted");
    assert!(
        app.app.status.contains("deleted body"),
        "the eviction left the user nothing to read: {:?}",
        app.app.status
    );
}

#[test]
fn undo_returns_the_model_to_where_it_started() {
    let mut app = app();
    let before = app.doc.clone();

    app.stroke_at_the_centre();
    assert_ne!(app.doc, before);
    let meshed = app.meshed;

    app.update(Message::Undo);
    assert_eq!(app.doc, before, "undo did not restore the field");
    assert!(app.meshed > meshed, "undo must schedule a remesh or the screen goes stale");

    app.update(Message::Redo);
    assert_ne!(app.doc, before, "redo did not reapply the stroke");
}

#[test]
fn holding_shift_sculpts_with_smooth_without_changing_the_selection() {
    let mut app = app();
    app.update(Message::BrushKindChanged(DRAW));
    assert_eq!(app.app.effective_brush().kind, DRAW);

    let hold = |shift| Message::Pointer {
        event: PointerEvent::Modifiers { shift, control: false, alt: false },
        now: 0,
    };
    app.update(hold(true));
    assert_eq!(app.app.effective_brush().kind, SMOOTH, "shift should smooth");
    assert_eq!(
        app.app.tool.brush.kind, DRAW,
        "the selection itself must not change, or the tool strip would flicker \
         and a key released out of focus would strand the wrong brush"
    );

    app.update(hold(false));
    assert_eq!(app.app.effective_brush().kind, DRAW, "releasing shift should restore");
}

#[test]
fn a_fresh_application_starts_with_every_mirror_plane_off() {
    let app = app();
    assert!(app.app.tool.symmetry.is_off(), "symmetry was {:?}", app.app.tool.symmetry);
    for axis in [MirrorAxis::X, MirrorAxis::Y, MirrorAxis::Z] {
        assert!(!app.mirrored(axis), "{} was on at startup", axis.label());
    }
}

#[test]
fn holding_the_sizing_key_and_dragging_scales_the_radius_reversibly() {
    let mut app = app();
    app.moved(centre());
    let original = float(app.app.tool.brush.radius);

    app.update(Message::SizingStarted(SizingTarget::Radius));
    assert!(app.app.hand.sizing.is_some(), "the gesture did not start");

    let at = |dx: f32| pixel(WIDTH / 2.0 + dx, HEIGHT / 2.0);
    app.moved(at(120.0));
    assert!(float(app.app.tool.brush.radius) > original, "dragging right should grow the brush");

    app.moved(at(-120.0));
    assert!(float(app.app.tool.brush.radius) < original, "dragging left should shrink it");

    app.moved(at(0.0));
    assert!((float(app.app.tool.brush.radius) - original).abs() < 1.0e-4, "the gesture drifted");

    app.update(Message::SizingEnded);
    assert!(app.app.hand.sizing.is_none());

    app.moved(at(200.0));
    assert!((float(app.app.tool.brush.radius) - original).abs() < 1.0e-4, "sizing outlived its key");
}

#[test]
fn a_sizing_drag_does_not_sculpt() {
    let mut app = app();
    app.moved(centre());
    let before = app.doc.clone();

    app.update(Message::SizingStarted(SizingTarget::Radius));
    app.press(centre());
    assert_eq!(app.drag_kind(), Some(DragKind::Sizing));
    for step in 1..=8 {
        app.moved(pixel(WIDTH / 2.0 + step as f32 * 10.0, HEIGHT / 2.0));
    }
    app.release();

    assert_eq!(app.doc, before, "a sizing drag cut into the model");
    assert!(!app.can_undo(), "a sizing drag recorded an undo entry");
}

#[test]
fn each_brush_remembers_its_own_strength() {
    let mut app = app();
    app.update(Message::BrushKindChanged(DRAW));
    let strength = |app: &World| float(app.app.tool.brush.strength);
    assert!((strength(&app) - 0.15).abs() < 1.0e-6, "draw: {}", strength(&app));

    app.update(Message::BrushKindChanged(MOVE));
    assert!(
        strength(&app) > 0.9,
        "a grab tool at {} would follow a seventh of the drag",
        strength(&app)
    );

    app.update(Message::BrushStrengthChanged(scalar(0.5)));
    app.update(Message::BrushKindChanged(DRAW));
    assert!((strength(&app) - 0.15).abs() < 1.0e-6, "draw was overwritten");
    app.update(Message::BrushKindChanged(MOVE));
    assert!((strength(&app) - 0.5).abs() < 1.0e-6, "move forgot its setting");
}

fn hold(app: &mut World, shift: bool, control: bool, alt: bool) {
    app.update(Message::Pointer { event: PointerEvent::Modifiers { shift, control, alt }, now: 0 });
}

fn direction(app: &World) -> BrushDirection {
    app.app.stroke_direction(app.pen)
}

#[test]
fn either_modifier_inverts_and_holding_both_is_not_a_double_negative() {
    let mut app = app();
    app.update(Message::BrushKindChanged(DRAW));
    for (control, alt, expected) in [
        (false, false, BrushDirection::Add),
        (true, false, BrushDirection::Subtract),
        (false, true, BrushDirection::Subtract),
        (true, true, BrushDirection::Subtract),
        (false, false, BrushDirection::Add),
    ] {
        hold(&mut app, false, control, alt);
        assert_eq!(direction(&app), expected, "control {control}, alt {alt}");
    }
}

#[test]
fn alt_combines_with_the_eraser_the_way_control_does() {
    for (control, alt) in [(true, false), (false, true)] {
        let mut app = app();
        app.update(Message::BrushKindChanged(DRAW));
        app.pen = Pen { in_proximity: true, eraser: true };
        assert_eq!(direction(&app), BrushDirection::Subtract, "the eraser alone");
        hold(&mut app, false, control, alt);
        assert_eq!(
            direction(&app),
            BrushDirection::Add,
            "a modifier over the eraser should give back the additive brush"
        );
    }
}

#[test]
fn control_does_not_invert_a_brush_that_has_no_opposite() {
    let mut app = app();
    hold(&mut app, false, true, false);
    app.update(Message::BrushKindChanged(DRAW));
    assert_eq!(direction(&app), BrushDirection::Subtract);
    app.update(Message::BrushKindChanged(SMOOTH));
    assert_eq!(
        direction(&app),
        BrushDirection::Add,
        "smooth has no opposite, so inverting it should do nothing"
    );
}

#[test]
fn the_eraser_end_inverts_the_brush() {
    let mut app = app();
    app.pen = Pen { in_proximity: true, eraser: false };
    assert_eq!(direction(&app), BrushDirection::Add);
    app.pen = Pen { in_proximity: true, eraser: true };
    assert_eq!(direction(&app), BrushDirection::Subtract);
    hold(&mut app, false, true, false);
    assert_eq!(direction(&app), BrushDirection::Add);
}

#[test]
fn the_eraser_does_nothing_to_a_brush_with_no_opposite() {
    let mut app = app();
    app.update(Message::BrushKindChanged(SMOOTH));
    app.pen = Pen { in_proximity: true, eraser: true };
    assert_eq!(direction(&app), BrushDirection::Add);
}

#[test]
fn a_pen_that_is_away_cannot_erase() {
    let mut app = app();
    app.pen = Pen { in_proximity: false, eraser: true };
    assert_eq!(direction(&app), BrushDirection::Add);
}

#[test]
fn every_brush_can_be_driven_from_the_interface_without_panicking() {
    for kind in [DRAW, CLAY, SMOOTH, MOVE] {
        let mut app = app();
        app.update(Message::BrushKindChanged(kind));
        app.update(Message::BrushStrengthChanged(scalar(0.6)));
        app.press(centre());
        app.moved(pixel(WIDTH / 2.0 + 30.0, HEIGHT / 2.0 + 12.0));
        app.release();
        assert!(app.app.hand.drag.is_none());
        assert_eq!(
            app.app.books.history_stats.undo_entries, 1,
            "brush {} recorded no undo entry",
            kind.slot
        );
    }
}

// --- the unsaved mark and the title ---------------------------------------------

#[test]
fn a_stroke_marks_the_document_unsaved_and_a_save_clears_it() {
    let mut app = app();
    assert!(!app.app.file.unsaved, "a freshly opened sphere is not unsaved work");

    app.stroke_at_the_centre();
    assert!(app.app.file.unsaved, "a stroke did not mark the document unsaved");

    app.save(5);
    assert!(app.app.status.starts_with("saved"), "save reported: {}", app.app.status);
    assert!(!app.app.file.unsaved, "a successful save did not clear the marker");
}

#[test]
fn a_press_that_misses_the_model_does_not_mark_it_unsaved() {
    let mut app = app();
    app.press(pixel(4.0, 4.0));
    app.release();
    assert!(!app.app.file.unsaved, "a click into empty space armed the unsaved marker");
    assert!(!app.can_undo(), "the corner of the viewport hit the model after all");

    app.stroke_at_the_centre();
    assert!(app.app.file.unsaved, "the control press missed too, so this shows nothing");
}

#[test]
fn a_failed_save_leaves_it_unsaved() {
    let mut app = app_with_unsaved_work();
    app.fail_at = Some(SaveStage::Create);
    app.save(5);

    assert!(app.app.status.contains("could not"), "a failed save reported: {}", app.app.status);
    assert!(app.app.file.unsaved, "a failed save cleared the unsaved marker");
    assert!(app.app.file.project_path.is_none(), "a failed save claimed the file");
}

#[test]
fn undo_and_redo_mark_it_unsaved_through_the_direct_call_path() {
    let mut app = app_with_unsaved_work();
    app.app.file.unsaved = false;

    app.undo();
    assert!(app.app.file.unsaved, "undo did not mark the document unsaved");

    app.app.file.unsaved = false;
    app.carry_out(Action::Redo);
    assert!(app.app.file.unsaved, "redo did not mark the document unsaved");
}

#[test]
fn undo_with_an_empty_history_does_not_mark_it_unsaved() {
    let mut app = app();
    assert!(!app.can_undo(), "the fixture already had something to undo");
    app.undo();
    assert!(!app.app.file.unsaved, "an undo that did nothing armed the unsaved marker");

    app.stroke_at_the_centre();
    app.app.file.unsaved = false;
    app.undo();
    assert!(app.app.file.unsaved, "an undo with something to undo failed to mark it");
}

#[test]
fn resampling_to_the_current_size_leaves_the_flag_alone() {
    let mut app = app();
    let size = app.doc.voxel;
    app.carry_out(Action::MeasureResample(scalar(size)));
    assert!(!app.app.file.unsaved, "a resample that did nothing armed the unsaved marker");

    app.carry_out(Action::MeasureResample(scalar(size * 2.0)));
    assert!(app.app.file.unsaved, "a real resample did not mark the document unsaved");
}

#[test]
fn the_title_carries_the_file_name_and_the_unsaved_star() {
    let mut app = app();
    assert_eq!(app.app.title(), "untitled — BrokkrSculpt");

    app.stroke_at_the_centre();
    assert_eq!(app.app.title(), "untitled* — BrokkrSculpt");

    app.app.file.project_path = Some(file(1, "/tmp/dragon.brokkr"));
    assert_eq!(app.app.title(), "dragon.brokkr* — BrokkrSculpt");

    app.app.file.unsaved = false;
    assert_eq!(app.app.title(), "dragon.brokkr — BrokkrSculpt");
}

// --- the unsaved-work prompt ----------------------------------------------------

#[test]
fn new_with_unsaved_work_raises_the_prompt_and_does_not_reset() {
    let mut app = app_with_unsaved_work();
    let sculpted = app.doc.clone();

    app.update(Message::NewSculpt);

    assert_eq!(app.app.prompts.confirm, Some(PendingAction::NewSculpt), "no prompt was raised");
    assert!(app.app.file.unsaved, "the document was reset behind the prompt");
    assert_eq!(app.doc, sculpted, "New threw the sculpt away before the user had answered");
}

#[test]
fn reset_sphere_asks_as_well_since_it_shares_the_arm() {
    let mut app = app_with_unsaved_work();
    app.update(Message::ResetSphere);
    assert_eq!(app.app.prompts.confirm, Some(PendingAction::NewSculpt));
}

#[test]
fn quitting_with_unsaved_work_raises_the_prompt() {
    let mut app = app_with_unsaved_work();
    app.update(Message::CloseRequested(3));
    assert_eq!(
        app.app.prompts.confirm,
        Some(PendingAction::Quit(3)),
        "the close request was not intercepted, so quitting still loses work"
    );
}

#[test]
fn a_clean_document_is_not_prompted_at_all() {
    let mut app = app();
    assert!(!app.app.file.unsaved, "the fixture starts dirty, so this proves nothing");

    app.update(Message::NewSculpt);
    assert!(app.app.prompts.confirm.is_none(), "a clean document was prompted");

    app.update(Message::CloseRequested(3));
    assert!(app.app.prompts.confirm.is_none(), "a clean document was prompted on quit");
    assert!(app.log.contains(&Action::CloseWindow(3)));

    app.update(Message::OpenRequested);
    assert!(app.app.prompts.confirm.is_none(), "a clean document was prompted on open");
    assert!(app.log.contains(&Action::PickProjectToOpen));

    for action in [Message::NewSculpt, Message::CloseRequested(3)] {
        let mut dirty = app_with_unsaved_work();
        dirty.update(action);
        assert!(
            dirty.app.prompts.confirm.is_some(),
            "nothing is ever asked about, so the lines above show nothing"
        );
    }
}

#[test]
fn a_viewport_press_does_not_dismiss_the_prompt_or_sculpt() {
    let mut app = app_with_unsaved_work();
    app.update(Message::NewSculpt);
    let before = app.doc.clone();
    let entries = app.app.books.history_stats.undo_entries;

    app.stroke_at_the_centre();

    assert_eq!(
        app.app.prompts.confirm,
        Some(PendingAction::NewSculpt),
        "a stray click dismissed it"
    );
    assert_eq!(app.doc, before, "it sculpted behind the prompt");
    assert_eq!(
        app.app.books.history_stats.undo_entries, entries,
        "it recorded a stroke behind the prompt"
    );
}

#[test]
fn escape_cancels_the_prompt_rather_than_dropping_it() {
    let mut app = app_with_unsaved_work();
    app.update(Message::NewSculpt);

    app.update(Message::MenuClosed);

    assert!(app.app.prompts.confirm.is_none(), "escape left the prompt up");
    assert!(app.app.file.unsaved, "escape discarded the work it was asking about");
    assert!(app.can_undo(), "escape reset the sculpt");
}

fn key_window_event(character: &str, modifiers: KeyModifiers) -> WindowEvent {
    WindowEvent::KeyPressed { key: Key::Character(character.to_string()), modifiers }
}

fn bare() -> KeyModifiers {
    KeyModifiers { command: false, shift: false, alt: false }
}

fn ctrl() -> KeyModifiers {
    KeyModifiers { command: true, shift: false, alt: false }
}

#[test]
fn a_key_a_widget_already_consumed_never_reaches_the_application() {
    let message = key_event(key_window_event("z", ctrl()), true);
    assert!(
        message.is_none(),
        "a captured key press was forwarded, so shortcuts fire while typing"
    );
}

#[test]
fn an_ignored_key_press_is_forwarded_with_its_key_and_modifiers_intact() {
    let modifiers = KeyModifiers { shift: true, ..ctrl() };
    let message = key_event(key_window_event("z", modifiers), false);

    let Some(Message::KeyPressed { key, modifiers: forwarded }) = message else {
        panic!("an ignored key press produced {message:?} rather than a KeyPressed");
    };
    assert!(matches!(key, Key::Character(character) if character == "z"));
    assert!(forwarded.command, "the command modifier was dropped");
    assert!(forwarded.shift, "the shift modifier was dropped");
}

#[test]
fn a_left_press_nobody_wanted_is_the_only_blur_the_application_can_see() {
    let ignored = key_event(WindowEvent::ButtonPressed(PointerButton::Left), false);
    assert!(
        matches!(ignored, Some(Message::PressedNothing)),
        "a press on nothing produced {ignored:?}, so a rename in flight never hears about it"
    );

    let captured = key_event(WindowEvent::ButtonPressed(PointerButton::Left), true);
    assert!(
        captured.is_none(),
        "a press a widget wanted produced {captured:?}; clicking inside the field closes it"
    );

    let right = key_event(WindowEvent::ButtonPressed(PointerButton::Right), false);
    assert!(
        right.is_none(),
        "a right press produced {right:?}, but the field stays focused through one"
    );
}

#[test]
fn releasing_a_sizing_key_ends_the_gesture_and_no_other_release_means_anything() {
    let released = |character: &str| {
        key_event(WindowEvent::KeyReleased(Key::Character(character.to_string())), false)
    };
    for sizing in ["s", "u", "S", "U"] {
        let message = released(sizing);
        assert!(
            matches!(message, Some(Message::SizingEnded)),
            "releasing {sizing} produced {message:?} rather than ending the sizing drag"
        );
    }
    let message = released("x");
    assert!(
        message.is_none(),
        "releasing x produced {message:?}; only presses carry meaning for the mirror keys"
    );
    assert!(key_event(WindowEvent::KeyReleased(Key::Escape), false).is_none());
    assert!(key_event(WindowEvent::Other, false).is_none());
}

#[test]
fn control_z_under_a_modal_leaves_the_document_alone() {
    let mut app = app_with_unsaved_work();
    app.update(Message::NewSculpt);
    assert!(app.app.prompts.confirm.is_some(), "the fixture never raised a prompt");
    let before = app.doc.clone();

    app.key("z", true);

    assert_eq!(app.doc, before, "ctrl+Z undid a stroke behind the prompt");
    assert!(app.can_undo(), "the stroke left the undo stack");
    assert!(app.app.prompts.confirm.is_some(), "the prompt went away on its own");
}

fn adopt_import(app: &mut World, resting_up: Option<Facing>) {
    let node = app.doc.body("dragon", [0.0, 0.0, 0.0], 14.0);
    app.waiting_import = Some((node, resting_up, file(8, "/tmp/dragon.stl")));
    app.carry_out(Action::AdoptImport);
}

#[test]
fn no_shortcut_fires_while_any_modal_card_is_up() {
    let cards: [(&str, fn(&mut World)); 3] = [
        ("the unsaved-work prompt", |app| app.update(Message::NewSculpt)),
        ("the bug report", |app| app.update(Message::BugReportOpened)),
        ("the orientation prompt", |app| adopt_import(app, Some(Facing::Back))),
    ];
    for (what, raise) in cards {
        let mut app = app_with_unsaved_work();
        let brush = app.app.tool.brush.kind;
        raise(&mut app);
        assert!(app.app.modal_open(), "{what} did not count as a modal");
        app.key("x", false);
        app.key("2", false);
        assert!(!app.mirrored(MirrorAxis::X), "x flipped a mirror plane behind {what}");
        assert_eq!(app.app.tool.brush.kind, brush, "a digit swapped the brush behind {what}");
    }
}

#[test]
fn the_same_keys_all_land_with_no_modal_up() {
    let mut app = app_with_unsaved_work();
    let sculpted = app.doc.clone();
    assert!(!app.app.modal_open(), "the fixture is not a fair control");

    app.key("x", false);
    assert!(app.mirrored(MirrorAxis::X), "x did not reach the mirror planes");
    app.key("2", false);
    assert_eq!(app.app.tool.brush.kind, CLAY, "the digit did not reach the brush");
    app.key("z", true);
    assert_ne!(app.doc, sculpted, "ctrl+Z did not undo the stroke");
}

#[test]
fn escape_still_reaches_a_modal_through_the_key_path() {
    let mut app = app_with_unsaved_work();
    app.update(Message::NewSculpt);

    app.update(Message::KeyPressed { key: Key::Escape, modifiers: bare() });

    assert!(app.app.prompts.confirm.is_none(), "escape was swallowed by the modal guard");
    assert!(app.app.file.unsaved, "escape discarded the work it was asking about");
}

#[test]
fn a_press_beside_the_bug_report_card_does_not_sculpt() {
    let mut app = app();
    app.update(Message::BugReportOpened);
    assert!(app.app.prompts.bug_report.is_some(), "the dialog never opened");
    let before = app.doc.clone();

    app.stroke_at_the_centre();

    assert_eq!(app.doc, before, "a press reached the model behind the card");
    assert!(app.app.hand.drag.is_none(), "it started a stroke behind the card");
    assert!(!app.app.file.unsaved, "it dirtied a document nobody had touched");
}

#[test]
fn discard_runs_the_pending_action() {
    let mut app = app_with_unsaved_work();
    app.update(Message::NewSculpt);
    app.update(Message::ConfirmAnswered(ConfirmChoice::Discard));

    assert!(app.app.prompts.confirm.is_none());
    assert!(!app.app.file.unsaved, "the fresh sphere is not unsaved work");
    assert!(!app.can_undo(), "the reset did not happen");
}

#[test]
fn cancel_leaves_everything_exactly_as_it_was() {
    let mut app = app_with_unsaved_work();
    let before = app.doc.clone();
    app.update(Message::NewSculpt);
    app.update(Message::ConfirmAnswered(ConfirmChoice::Cancel));

    assert!(app.app.prompts.confirm.is_none());
    assert!(app.app.file.unsaved, "cancel cleared the unsaved marker");
    assert_eq!(app.doc, before, "cancel reset the sculpt anyway");
}

#[test]
fn saving_from_the_prompt_writes_the_file_and_then_acts() {
    let mut app = app_with_unsaved_work();
    app.save(5);
    assert!(!app.app.file.unsaved);
    app.press(pixel(WIDTH / 2.0 + 12.0, HEIGHT / 2.0));
    app.release();
    assert!(app.app.file.unsaved);
    let sculpted = app.doc.clone();

    app.update(Message::NewSculpt);
    app.update(Message::ConfirmAnswered(ConfirmChoice::Save));

    assert!(app.app.prompts.confirm.is_none(), "the prompt stayed up after a good save");
    assert!(!app.can_undo(), "the pending New did not run after the save");
    assert_eq!(app.files[&5].doc, sculpted);

    app.open(5);
    assert!(app.app.status.starts_with("opened"), "open reported: {}", app.app.status);
    assert_eq!(app.doc, sculpted);
}

#[test]
fn a_failed_save_from_the_prompt_does_not_continue() {
    let mut app = app_with_unsaved_work();
    app.app.file.project_path = Some(app.file(5));
    app.fail_at = Some(SaveStage::Create);
    app.update(Message::NewSculpt);
    app.update(Message::ConfirmAnswered(ConfirmChoice::Save));

    assert!(app.app.status.contains("could not"), "reported: {}", app.app.status);
    assert_eq!(
        app.app.prompts.confirm,
        Some(PendingAction::NewSculpt),
        "the prompt was dismissed by a save that did not happen"
    );
    assert!(app.app.file.unsaved, "a failed save cleared the marker");
    assert!(app.can_undo(), "the sculpt was discarded on a failed save");
}

#[test]
fn a_failed_save_before_an_import_does_not_continue() {
    let mut app = app_with_bodies(2);
    app.save(5);
    assert!(!app.app.file.unsaved);
    app.fail_at = Some(SaveStage::Create);
    app.log.clear();
    app.update(Message::ImportRequested);
    assert_eq!(app.app.prompts.confirm, Some(PendingAction::Import));
    app.update(Message::ConfirmAnswered(ConfirmChoice::Save));

    assert!(app.app.status.contains("could not"), "reported: {}", app.app.status);
    assert_eq!(
        app.app.prompts.confirm,
        Some(PendingAction::Import),
        "the prompt was dismissed by a save that did not happen"
    );
    assert!(!app.log.contains(&Action::PickMeshToImport), "the import went on");
}

#[test]
fn dismissing_the_save_dialog_leaves_the_prompt_up() {
    let mut app = app_with_unsaved_work();
    app.update(Message::NewSculpt);
    app.update(Message::SavedThenContinue(None));
    assert_eq!(app.app.prompts.confirm, Some(PendingAction::NewSculpt));
    assert!(app.can_undo(), "the sculpt was discarded");
}

// --- files ----------------------------------------------------------------------

#[test]
fn a_sculpt_survives_a_save_and_a_reopen() {
    let mut app = app();
    app.update(Message::BrushKindChanged(DRAW));
    for _ in 0..4 {
        app.stroke_at_the_centre();
    }
    app.update(Message::SymmetryAxisToggled(MirrorAxis::Y));
    app.update(Message::BrushRadiusChanged(scalar(5.5)));
    let sculpted = app.doc.clone();
    app.save(5);
    assert!(app.app.status.starts_with("saved"), "save reported: {}", app.app.status);
    assert_eq!(app.app.file.project_path.as_ref().map(|path| path.handle), Some(5));

    let mut reopened = World::new();
    reopened.files = app.files.clone();
    reopened.open(5);
    assert!(reopened.app.status.starts_with("opened"), "open reported: {}", reopened.app.status);
    assert_eq!(reopened.doc, sculpted, "the field came back different");
    assert!(
        (float(reopened.app.tool.brush.radius) - 5.5).abs() < 1.0e-5,
        "the brush did not follow"
    );
    assert!(reopened.mirrored(MirrorAxis::Y), "the mirror planes did not follow");
    assert!(reopened.meshed > 0, "the reopened model was never meshed");
    assert!(!reopened.can_undo(), "undo outlived the model it belonged to");
    reopened.assert_agrees("an open");
}

#[test]
fn saving_and_opening_both_record_into_the_recent_list() {
    let mut app = app_with_unsaved_work();
    app.save(5);
    assert_eq!(app.recent.len(), 1, "a save did not record the file");

    let mut reopened = World::new();
    reopened.files = app.files.clone();
    reopened.open(5);
    assert!(reopened.app.status.starts_with("opened"), "open reported: {}", reopened.app.status);
    assert_eq!(reopened.recent[0], 5);
}

#[test]
fn opening_a_missing_recent_file_drops_it_from_the_list() {
    let mut app = app();
    app.recent = vec![6];
    app.open(6);
    assert!(app.app.status.contains("could not"), "reported: {}", app.app.status);
    assert!(app.recent.is_empty(), "a file that cannot be opened stayed in the list");
}

#[test]
fn the_autosave_round_trips_but_is_not_a_save() {
    let mut app = app_with_unsaved_work();
    let sculpted = app.doc.clone();

    app.carry_out(Action::WriteAutosave);
    assert!(app.has_autosave(), "nothing was written");
    assert!(app.app.file.unsaved, "the autosave cleared the unsaved marker");
    assert!(app.app.file.project_path.is_none(), "the autosave claimed to be the document's file");

    let mut recovered = World::new();
    recovered.files = app.files.clone();
    recovered.update(Message::RecoverAutosave);
    assert_eq!(recovered.doc, sculpted, "the field came back different");
    assert!(
        recovered.app.file.project_path.is_none(),
        "a recovered autosave adopted its own path"
    );
    assert!(recovered.app.file.unsaved, "a recovered autosave must still want saving");
    assert!(recovered.recent.is_empty(), "the crash net was listed as a recent document");
    assert_eq!(recovered.app.status, "recovered the autosave — save it somewhere");
}

#[test]
fn a_recovered_autosave_is_homeless_whatever_its_bodies_are_called() {
    let mut app = app();
    let active = app.doc.active;
    app.doc.node_mut(active).name = "could not".to_string();
    app.doc.node_mut(active).centre = [80.0, 0.0, 0.0];
    app.sync();
    app.app.tool.symmetry.x = true;
    app.carry_out(Action::WriteAutosave);

    let mut recovered = World::new();
    recovered.files = app.files.clone();
    recovered.update(Message::RecoverAutosave);
    assert!(!recovered.mirrored(MirrorAxis::X), "the fixture needs a plane that goes off");
    assert!(recovered.app.file.project_path.is_none(), "the crash net became the document's file");
    assert!(recovered.app.file.unsaved, "a recovered autosave must still want saving");
    assert_eq!(recovered.app.status, "recovered the autosave — save it somewhere");
}

#[test]
fn an_explicit_save_throws_the_crash_net_away() {
    let mut app = app_with_unsaved_work();
    app.carry_out(Action::WriteAutosave);
    assert!(app.has_autosave());

    app.save(5);
    assert!(app.app.status.starts_with("saved"), "save reported: {}", app.app.status);
    assert!(!app.has_autosave(), "a stale crash net survived a real save");
}

fn a_save_that_fails(stage: SaveStage, reported: &str) {
    let mut app = app_with_unsaved_work();
    let previous = Saved { doc: Doc::new(), view: app.view() };
    app.files.insert(5, previous.clone());
    app.carry_out(Action::WriteAutosave);
    assert!(app.has_autosave(), "the fixture needs a crash net to protect");
    app.fail_at = Some(stage);

    app.save(5);

    assert!(app.app.status.contains(reported), "a failed save reported: {}", app.app.status);
    assert_eq!(app.files[&5], previous, "a failed save destroyed the file it was replacing");
    assert!(app.app.file.unsaved, "a failed save cleared the unsaved marker");
    assert!(app.app.file.project_path.is_none(), "a failed save adopted the path anyway");
    assert!(app.has_autosave(), "a failed save deleted the crash net");
    assert!(app.temporaries.is_empty(), "a failed save left the temporary behind");
}

#[test]
fn a_save_that_fails_leaves_the_previous_file_and_the_crash_net_alone() {
    a_save_that_fails(SaveStage::Create, "could not");
    a_save_that_fails(SaveStage::Write, "could not write");
}

#[test]
fn a_save_that_works_leaves_no_temporary_behind() {
    let mut app = app_with_unsaved_work();
    app.save(5);
    assert!(app.app.status.starts_with("saved"), "save reported: {}", app.app.status);
    assert!(app.files.contains_key(&5), "the file was not written");
    assert!(app.temporaries.is_empty(), "the temporary the save writes through was left on disk");
}

#[test]
fn the_save_verification_notices_a_file_that_is_not_this_document() {
    let mut app = app_with_unsaved_work();
    app.save(5);
    assert!(app.app.status.starts_with("saved"), "save reported: {}", app.app.status);
    let (rows, bodies) = (app.files[&5].doc.nodes.len(), app.files[&5].doc.bodies());
    let verify = |app: &World, same: bool| {
        app.app.verify_written(rows, bodies, same, "0.25".to_string(), "0.5".to_string())
    };
    assert!(verify(&app, true).is_ok(), "a file just written failed its own check");

    app.add_body("Body 2", [60.0, 0.0, 0.0], 10.0);
    let problem = verify(&app, true).expect_err("a stale file passed the check");
    assert!(problem.contains("2"), "the mismatch did not say what it found: {problem}");
    assert_eq!(
        problem,
        "the file came back with 1 rows and 1 bodies, and the document has 2 and 2"
    );

    let app = World::new();
    assert_eq!(
        verify(&app, false).expect_err("another voxel passed the check"),
        "the file came back at a 0.25 mm voxel, and the document is at 0.5 mm"
    );
}

#[test]
fn a_save_that_cannot_read_its_own_output_back_keeps_the_previous_file() {
    a_save_that_fails(SaveStage::Verify, "could not write");
}

#[test]
fn a_save_that_cannot_replace_the_target_keeps_the_crash_net() {
    a_save_that_fails(SaveStage::Replace, "could not replace");
}

#[test]
fn a_bad_file_reports_and_changes_nothing() {
    let mut app = app();
    let before = app.doc.clone();
    app.bad_files.insert(4);

    app.open(4);
    assert!(app.app.status.contains("not a BrokkrSculpt file"), "reported: {}", app.app.status);
    assert_eq!(app.doc, before, "a failed open lost the model");
    assert!(app.app.file.project_path.is_none(), "a failed open claimed the file");

    app.open(6);
    assert!(app.app.status.contains("could not open"), "reported: {}", app.app.status);
    assert_eq!(app.doc, before);
}

#[test]
fn the_autosave_tick_waits_for_the_interval_and_for_the_stroke_to_end() {
    let mut app = app();
    app.now = 600_000;
    app.app.clock.last_activity = 0;
    app.update(Message::Frame);
    assert!(!app.has_autosave(), "a clean document was autosaved");

    app.stroke_at_the_centre();
    app.app.clock.last_activity = 0;
    app.app.clock.last_autosave = app.now;
    app.update(Message::Frame);
    assert!(!app.has_autosave(), "it autosaved before the interval was up");

    app.app.clock.last_autosave = 0;
    app.press(centre());
    app.app.clock.last_activity = 0;
    app.update(Message::Frame);
    assert!(!app.has_autosave(), "it autosaved in the middle of a stroke");

    app.release();
    app.update(Message::Frame);
    assert!(!app.has_autosave(), "it autosaved the instant the pointer stopped");

    app.app.clock.last_activity = app.now - 60_000;
    app.update(Message::Frame);
    assert!(app.has_autosave(), "an overdue autosave never happened after a pause");
    assert_eq!(app.app.clock.last_autosave, app.now);
}

#[test]
fn importing_a_mesh_replaces_the_model_without_claiming_its_file() {
    let mut app = app();
    app.app.file.project_path = Some(file(3, "/tmp/previous.brokkr"));
    app.stroke_at_the_centre();
    let meshed = app.meshed;

    adopt_import(&mut app, None);

    assert!(app.app.file.project_path.is_none(), "the import adopted the mesh's path");
    assert!(app.app.file.unsaved, "an imported model is unsaved work and quitting would lose it");
    assert!(!app.can_undo(), "history outlived the model it belonged to");
    assert!(app.meshed > meshed, "nothing was meshed, so the import is invisible");
    assert!(app.app.status.starts_with("imported"), "reported: {}", app.app.status);
}

#[test]
fn a_mesh_that_cannot_be_read_reports_and_changes_nothing() {
    let mut app = app_with_unsaved_work();
    let before = app.doc.clone();

    app.update(Message::ImportLoaded(ImportNews::Failed("not a mesh".to_string())));

    assert!(app.app.status.contains("could not"), "reported: {}", app.app.status);
    assert_eq!(app.doc, before, "a failed import changed the model");
    assert!(app.can_undo(), "a failed import cleared history");
}

#[test]
fn importing_with_unsaved_work_raises_the_prompt() {
    let mut app = app_with_unsaved_work();
    app.update(Message::ImportRequested);
    assert_eq!(app.app.prompts.confirm, Some(PendingAction::Import));
}

#[test]
fn importing_over_a_saved_document_of_several_bodies_asks_first() {
    let mut app = app();
    assert!(!app.app.file.unsaved, "the fixture must be clean or this shows nothing");

    app.update(Message::ImportRequested);
    assert_eq!(app.app.prompts.confirm, None, "a single-body import should not be interrupted");

    app.add_body("Body 2", [60.0, 0.0, 0.0], 10.0);
    assert!(!app.app.file.unsaved, "adding the fixture body must not be what raises the prompt");
    app.update(Message::ImportRequested);
    assert_eq!(
        app.app.prompts.confirm,
        Some(PendingAction::Import),
        "importing discarded a second body without asking"
    );
}

// --- cuts -----------------------------------------------------------------------

fn cut_across(app: &mut World) {
    app.update(Message::CutToggled);
    app.press(pixel(WIDTH * 0.1, HEIGHT / 2.0));
    app.moved(pixel(WIDTH * 0.9, HEIGHT / 2.0));
    app.release();
}

#[test]
fn a_click_with_the_cut_armed_does_nothing() {
    let mut app = app();
    app.update(Message::CutToggled);
    let before = app.doc.clone();
    app.stroke_at_the_centre();

    assert_eq!(app.doc, before, "a click cut the model");
    assert!(!app.app.file.unsaved, "a click that cut nothing marked the document unsaved");
    assert!(app.app.status.contains("cancelled"), "reported: {}", app.app.status);
    assert!(app.app.hand.cut_armed, "a cut that was no line put itself away");
}

#[test]
fn a_cut_is_undoable_through_the_application() {
    let mut app = app();
    let before = app.doc.clone();
    cut_across(&mut app);
    assert_ne!(app.doc, before, "the cut did nothing to undo");
    app.undo();
    assert_eq!(app.doc, before, "undo did not restore the cut");
}

#[test]
fn escape_disarms_the_cut() {
    let mut app = app();
    app.update(Message::CutToggled);
    assert!(app.app.hand.cut_armed);
    app.update(Message::MenuClosed);
    assert!(!app.app.hand.cut_armed, "escape left a destructive mode armed");
}

#[test]
fn a_cut_crosses_every_visible_body() {
    let mut app = app();
    let other = app.add_body("Body 2", [10.0, 0.0, 0.0], MODEL_RADIUS_MM * 0.5);
    let before = app.clay(other);
    cut_across(&mut app);
    assert_ne!(
        app.clay(other),
        before,
        "the cut passed straight through the inactive body and left it whole"
    );
}

#[test]
fn solo_narrows_the_cut_to_the_body_it_is_showing() {
    let mut app = app();
    let other = app.add_body("Body 2", [10.0, 0.0, 0.0], MODEL_RADIUS_MM * 0.5);
    let first = app.doc.nodes[0].id;
    app.update(Message::SoloEntered(first));
    let (spared, cut_away) = (app.clay(other), app.clay(first));

    cut_across(&mut app);

    assert_eq!(app.clay(other), spared, "the cut went through a body solo was hiding");
    assert_ne!(app.clay(first), cut_away, "the cut missed the soloed body too: {}", app.app.status);
    assert!(
        app.app.status.contains("bricks") && !app.app.status.contains("bodies"),
        "the cut did not report exactly one body: {}",
        app.app.status
    );
}

#[test]
fn a_cut_leaves_a_hidden_body_it_crosses_untouched() {
    let mut app = app();
    let other = app.add_body("Body 2", [10.0, 0.0, 0.0], MODEL_RADIUS_MM * 0.5);
    app.set_eye(other, false);
    let before = app.clay(other);
    let entries = app.app.books.history_stats.undo_entries;
    cut_across(&mut app);
    assert_eq!(app.clay(other), before, "the cut went through a body nothing is drawing");
    assert_ne!(app.clay(app.doc.active), 0, "the cut missed what is drawn");
    assert_eq!(
        app.app.books.history_stats.undo_entries,
        entries + 1,
        "one gesture became more than one undo entry"
    );
}

// --- pressing bodies ------------------------------------------------------------

fn two_bodies_in_a_line(app: &mut World) -> (NodeId, NodeId) {
    let other = app.add_body("Body 2", [0.0, 0.0, 55.0], 8.0);
    (app.doc.active, other)
}

#[test]
fn a_press_over_another_body_selects_it_and_carves_nothing_until_the_next_press() {
    let mut app = app();
    let (first, other) = two_bodies_in_a_line(&mut app);

    app.stroke_at_the_centre();

    assert_eq!(app.doc.active, other, "the press did not choose the body it landed on");
    assert!(!app.can_undo(), "a press that only selected recorded a stroke");
    assert!(!app.app.file.unsaved, "a press that only selected dirtied the document");
    assert_eq!(app.clay(first), 0, "the press carved the body it was leaving");
    assert_eq!(app.clay(other), 0, "the press that selected also carved");

    app.stroke_at_the_centre();

    assert_eq!(app.doc.active, other, "the second press moved the selection again");
    assert!(app.can_undo(), "the second press recorded no undo entry");
    assert!(app.app.file.unsaved, "the second press left the document looking saved");
    assert_ne!(app.clay(other), 0, "the second press did not carve the selected body");
    assert_eq!(app.clay(first), 0, "the stroke landed on the body that was NOT selected");
}

#[test]
fn a_press_over_a_hidden_body_carves_nothing_and_reaches_what_is_behind_it() {
    let mut app = app();
    let (first, other) = two_bodies_in_a_line(&mut app);
    app.set_eye(other, false);

    app.stroke_at_the_centre();

    assert_eq!(app.doc.active, first, "a hidden body was selected by a press over it");
    assert_eq!(app.clay(other), 0, "the press carved a body that is not on screen");
    assert_ne!(app.clay(first), 0, "the press stopped at a body nothing is drawing");
}

#[test]
fn a_press_while_the_active_body_is_hidden_carves_nothing_and_says_which_body() {
    let mut app = app();
    let active = app.doc.active;
    app.set_eye(active, false);

    app.press(centre());
    app.moved(pixel(WIDTH / 2.0 + 20.0, HEIGHT / 2.0));
    app.release();

    assert_eq!(app.clay(active), 0, "the press carved the body that is not on screen");
    assert!(!app.can_undo(), "a press that carved nothing recorded a stroke");
    assert!(!app.app.file.unsaved, "a press that carved nothing dirtied the document");
    assert!(
        app.app.status.contains("hidden") && app.app.status.contains(FIRST_BODY_NAME),
        "nothing said why the press did nothing: {:?}",
        app.app.status
    );

    app.set_eye(active, true);
    app.stroke_at_the_centre();
    assert_ne!(app.clay(active), 0, "the press stopped working on a body that is drawn");
}

#[test]
fn the_ring_stays_on_the_body_a_live_stroke_is_carving() {
    let mut app = app();
    let (first, other) = two_bodies_in_a_line(&mut app);
    app.moved(centre());
    assert_eq!(
        app.app.looking.hover_body,
        Some(other),
        "the fixture never hovers the second body"
    );

    app.press(pixel(610.0, 300.0));
    assert_eq!(app.doc.active, first, "the press beside the second ball chose a body");
    assert!(
        matches!(app.drag_kind(), Some(DragKind::Sculpt(_))),
        "the press beside the second ball did not start a stroke: {:?}",
        app.drag_kind()
    );
    app.moved(centre());
    assert_eq!(
        app.app.looking.hover_body,
        Some(first),
        "mid-stroke the ring hopped onto a body the stroke is not carving"
    );
    app.release();
    app.moved(centre());
    assert_eq!(
        app.app.looking.hover_body,
        Some(other),
        "the hover never returned to the pick"
    );
}

// --- mirror planes --------------------------------------------------------------

fn off_to_the_side(app: &mut World) -> NodeId {
    app.add_body("Body 2", [80.0, 0.0, 0.0], 10.0)
}

#[test]
fn a_mirror_the_active_body_does_not_straddle_is_refused_with_a_reason() {
    let mut app = app();
    app.update(Message::SymmetryAxisToggled(MirrorAxis::X));
    assert!(app.mirrored(MirrorAxis::X), "a body on the origin was refused its mirror");
    app.update(Message::SymmetryAxisToggled(MirrorAxis::X));
    assert!(!app.mirrored(MirrorAxis::X));

    let other = off_to_the_side(&mut app);
    app.select_body(other);
    app.update(Message::SymmetryAxisToggled(MirrorAxis::X));
    assert!(!app.mirrored(MirrorAxis::X), "a mirror was enabled that misses the body");
    assert!(
        app.app.status.contains('X') && app.app.status.contains("Body 2"),
        "the refusal said nothing useful: {:?}",
        app.app.status
    );
    assert_eq!(
        app.app.status,
        "X mirroring refused: Body 2 sits entirely to one side of the X plane, so every \
         mirrored stroke would land in empty space"
    );

    app.update(Message::SymmetryAxisToggled(MirrorAxis::Y));
    assert!(app.mirrored(MirrorAxis::Y), "a plane the body straddles was refused");
}

#[test]
fn the_spacemouse_symmetry_button_is_refused_the_mirror_the_strip_is_refused() {
    let mut app = app();
    let first = app.doc.active;
    let other = off_to_the_side(&mut app);
    app.select_body(other);

    app.puck = vec![ButtonAction::ToggleSymmetry];
    app.carry_out(Action::DriveSpaceMouse);
    assert!(
        !app.mirrored(MirrorAxis::X),
        "the puck turned on a mirror plane the body sits entirely to one side of"
    );
    assert!(
        app.app.status.contains('X') && app.app.status.contains("Body 2"),
        "the puck's refusal said nothing: {:?}",
        app.app.status
    );

    app.select_body(first);
    app.puck = vec![ButtonAction::ToggleSymmetry];
    app.carry_out(Action::DriveSpaceMouse);
    assert!(app.mirrored(MirrorAxis::X), "the puck stopped turning on a mirror the body does straddle");
}

#[test]
fn a_mirror_restored_from_a_view_the_body_does_not_straddle_is_turned_off() {
    let mut app = app();
    let other = off_to_the_side(&mut app);
    app.select_body(other);
    app.app.apply_view(RestoredView {
        mirrors: PerAxis { x: true, y: true, z: true },
        straddles: Some(app.doc.node(other).straddles()),
        ..app.view()
    });
    assert!(!app.mirrored(MirrorAxis::X), "a file turned on a mirror the body misses");
    assert!(
        app.mirrored(MirrorAxis::Y) && app.mirrored(MirrorAxis::Z),
        "the two planes the body does straddle were dropped as well"
    );
}

#[test]
fn selecting_a_body_clear_of_an_enabled_mirror_plane_turns_that_plane_off() {
    let mut app = app();
    app.update(Message::SymmetryAxisToggled(MirrorAxis::X));
    assert!(app.mirrored(MirrorAxis::X));

    let other = off_to_the_side(&mut app);
    app.select_body(other);
    assert!(!app.mirrored(MirrorAxis::X), "the mirror stayed on over a body it does not cross");
    assert!(app.app.status.contains('X'), "nothing said the mirror went off: {:?}", app.app.status);
}

// --- menus ----------------------------------------------------------------------

#[test]
fn a_right_click_opens_the_menu_but_a_right_drag_orbits() {
    let to = |dx: f32| pixel(WIDTH / 2.0 + dx, HEIGHT / 2.0);

    let mut click = app();
    click.right_press(centre());
    click.right_release();
    assert!(click.app.menus.menu.is_some(), "a right click did not open the menu");

    let mut orbit = app();
    orbit.right_press(centre());
    orbit.moved(to(60.0));
    orbit.right_release();
    assert!(orbit.app.menus.menu.is_none(), "an orbit opened the menu");
    assert!(
        orbit.log.contains(&Action::Orbit { from: Some(centre()), to: to(60.0) }),
        "the orbit did not happen"
    );

    let mut returned = app();
    returned.right_press(centre());
    for dx in [40.0, 0.0] {
        returned.moved(to(dx));
    }
    returned.right_release();
    assert!(returned.app.menus.menu.is_none(), "an orbit that came back opened the menu");

    let mut wobble = app();
    wobble.right_press(centre());
    wobble.moved(to(CLICK_SLOP_PX * 0.5));
    wobble.right_release();
    assert!(wobble.app.menus.menu.is_some(), "a click that wobbled a pixel opened nothing");

    let mut held = app();
    held.right_press(centre());
    held.now = 250;
    held.right_release();
    assert!(held.app.menus.menu.is_none(), "a press that was held opened the menu");
}

#[test]
fn the_menu_closes_on_escape_and_on_a_click_elsewhere() {
    let mut app = app();
    app.right_press(centre());
    app.right_release();
    assert!(app.app.menus.menu.is_some());

    app.update(Message::MenuClosed);
    assert!(app.app.menus.menu.is_none(), "escape did not close it");

    app.right_press(centre());
    app.right_release();
    let before = app.doc.clone();
    app.stroke_at_the_centre();
    assert!(app.app.menus.menu.is_none(), "a click elsewhere did not close the menu");
    assert_eq!(app.doc, before, "dismissing the menu sculpted");
}

#[test]
fn a_typed_field_survives_being_half_written_and_still_clamps() {
    let mut app = app();
    let shown = |app: &World| app.app.menu_field_text(SizingTarget::Radius);
    let radius = |app: &World| float(app.app.tool.brush.radius);
    for text in ["", "2", "2.", "2.5"] {
        app.update(Message::MenuFieldEdited(SizingTarget::Radius, text.to_string()));
        assert_eq!(shown(&app).as_deref(), Some(text), "the text was lost");
    }
    assert!((radius(&app) - 2.5).abs() < 1.0e-5, "the value never arrived");

    app.update(Message::MenuFieldEdited(SizingTarget::Radius, "banana".into()));
    assert!((radius(&app) - 2.5).abs() < 1.0e-5, "junk moved the value");

    app.update(Message::MenuFieldEdited(SizingTarget::Radius, "500".into()));
    assert_eq!(radius(&app), MAX_RADIUS_MM);
    app.update(Message::MenuFieldEdited(SizingTarget::Strength, "-5".into()));
    assert_eq!(float(app.app.tool.brush.strength), MIN_STRENGTH);

    app.update(Message::MenuFieldSubmitted);
    assert_eq!(shown(&app), None, "the field kept what was typed instead of the value");
}

fn cube_centre() -> Pixel {
    pixel(WIDTH - 50.0, 50.0)
}

#[test]
fn hovering_the_cube_hides_the_brush_ring() {
    let mut app = app();
    app.moved(centre());
    assert!(app.app.looking.hover_body.is_some(), "the model should be under the pointer");

    app.moved(cube_centre());
    assert!(app.app.looking.cube_hover.is_some(), "the cube should be under the pointer");
    assert!(app.app.looking.hover_body.is_none(), "the brush ring is over the cube");
}

#[test]
fn clicking_the_navigation_cube_flies_the_camera_without_sculpting() {
    let mut app = app();
    let before = app.doc.clone();
    app.press(cube_centre());
    app.release();
    assert!(
        app.log.iter().any(|action| matches!(action, Action::FlyTo(_))),
        "the cube did nothing: {:?}",
        app.log
    );
    assert_eq!(app.doc, before, "it sculpted through the cube");
    assert!(!app.can_undo(), "clicking the cube recorded an undo entry");
    assert!(app.app.hand.drag.is_none(), "it started a drag");
}

#[test]
fn a_right_click_on_the_cube_opens_the_cubes_menu_and_not_the_brushs() {
    let mut app = app();
    app.right_press(cube_centre());
    app.right_release();
    assert!(app.app.menus.cube_menu.is_some(), "the cube's menu did not open");
    assert!(app.app.menus.menu.is_none(), "the brush menu opened over the cube");
    assert!(app.app.hand.drag.is_none(), "the press started an orbit");
    assert!(
        !app.log.iter().any(|action| matches!(action, Action::FlyTo(_))),
        "a right click flew the camera as though it were a left one"
    );
}

#[test]
fn a_left_click_on_the_cube_still_flies_the_camera() {
    let mut app = app();
    app.press(cube_centre());
    app.release();
    assert!(app.log.iter().any(|action| matches!(action, Action::FlyTo(_))));
    assert!(app.app.menus.cube_menu.is_none());
}

#[test]
fn the_next_press_closes_the_cube_menu_without_sculpting() {
    let mut app = app();
    app.right_press(cube_centre());
    app.right_release();
    assert!(app.app.menus.cube_menu.is_some());
    let before = app.doc.clone();

    app.stroke_at_the_centre();
    assert!(app.app.menus.cube_menu.is_none(), "the press left the menu up");
    assert_eq!(app.doc, before, "the press that closed the menu also sculpted");
}

#[test]
fn escape_closes_the_cube_menu() {
    let mut app = app();
    app.right_press(cube_centre());
    app.right_release();
    app.update(Message::MenuClosed);
    assert!(app.app.menus.cube_menu.is_none());
}

#[test]
fn choosing_a_direction_turns_the_model_and_leaves_the_camera_alone() {
    let mut app = app_with_unsaved_work();
    app.app.file.unsaved = false;
    app.app.menus.cube_menu = Some(CubeMenu { at: pixel(700.0, 20.0), facing: Facing::Up });
    app.log.clear();
    let meshed = app.meshed;

    app.update(Message::OrientFace(Facing::Front));

    assert_eq!(app.turned, 1, "the model did not turn");
    assert!(app.log.contains(&Action::Orient { from: Facing::Up, to: Facing::Front }));
    assert!(app.log.contains(&Action::RefreshAdvice), "the advice was left as it was");
    assert!(app.app.menus.cube_menu.is_none(), "the menu stayed up");
    assert!(
        !app.log.iter().any(|action| matches!(
            action,
            Action::FlyTo(_) | Action::FrameModel | Action::FrameMeasured | Action::ResetView
        )),
        "turning the model moved the camera"
    );
    assert!(app.app.file.unsaved, "a turned model is unsaved work");
    assert!(!app.can_undo(), "history outlived the volume it named bricks of");
    assert!(app.meshed > meshed, "nothing was remeshed, so the turn is invisible");
    assert_eq!(app.app.status, "turned the model, 12 ms -- turn it back the same way to undo");
}

#[test]
fn turning_a_face_onto_itself_changes_nothing() {
    let mut app = app_with_unsaved_work();
    app.app.file.unsaved = false;
    app.app.menus.cube_menu = Some(CubeMenu { at: pixel(0.0, 0.0), facing: Facing::Up });
    let before = app.doc.clone();

    app.update(Message::OrientFace(Facing::Up));

    assert_eq!(app.turned, 0, "a turn onto itself turned the model");
    assert_eq!(app.doc, before);
    assert!(!app.app.file.unsaved, "a turn that did nothing marked the document unsaved");
    assert!(app.can_undo(), "a turn that did nothing cleared history");
}

// --- the orientation prompt -----------------------------------------------------

#[test]
fn an_import_that_came_in_lying_down_raises_the_prompt() {
    let mut app = app();
    adopt_import(&mut app, Some(Facing::Back));
    assert_eq!(app.app.prompts.orient_prompt, Some(Facing::Back));
}

#[test]
fn an_import_that_is_already_upright_is_not_asked_about() {
    let mut app = app();
    adopt_import(&mut app, Some(Facing::Up));
    assert!(app.app.prompts.orient_prompt.is_none());
}

#[test]
fn an_import_with_no_tell_is_not_guessed_at() {
    let mut app = app();
    adopt_import(&mut app, None);
    assert!(app.app.prompts.orient_prompt.is_none());
}

#[test]
fn accepting_the_prompt_stands_the_model_up() {
    let mut app = app();
    adopt_import(&mut app, Some(Facing::Back));
    app.update(Message::OrientPromptAnswered(true));
    assert!(app.app.prompts.orient_prompt.is_none());
    assert_eq!(app.turned, 1);
    assert!(app.log.contains(&Action::Orient { from: Facing::Back, to: Facing::Up }));
}

#[test]
fn declining_the_prompt_leaves_the_model_exactly_as_imported() {
    let mut app = app();
    adopt_import(&mut app, Some(Facing::Back));
    let before = app.doc.clone();
    app.update(Message::OrientPromptAnswered(false));
    assert!(app.app.prompts.orient_prompt.is_none());
    assert_eq!(app.turned, 0);
    assert_eq!(app.doc, before);
}

#[test]
fn a_press_behind_the_orientation_prompt_does_not_sculpt() {
    let mut app = app();
    adopt_import(&mut app, Some(Facing::Back));
    assert!(app.app.prompts.orient_prompt.is_some());
    let before = app.doc.clone();
    let entries = app.app.books.history_stats.undo_entries;
    app.stroke_at_the_centre();
    assert_eq!(app.doc, before, "it sculpted behind the prompt");
    assert_eq!(
        app.app.books.history_stats.undo_entries, entries,
        "it recorded a stroke behind the prompt"
    );
    assert!(app.app.hand.drag.is_none());
    assert_eq!(app.app.prompts.orient_prompt, Some(Facing::Back), "the press dismissed it");
}

#[test]
fn escape_declines_the_orientation_prompt() {
    let mut app = app();
    adopt_import(&mut app, Some(Facing::Back));
    app.update(Message::MenuClosed);
    assert!(app.app.prompts.orient_prompt.is_none());
    assert_eq!(app.turned, 0, "escape turned the model");
}

#[test]
fn resetting_discards_history_that_refers_to_the_old_model() {
    let mut app = app_with_unsaved_work();
    assert!(app.can_undo());
    app.update(Message::ResetSphere);
    app.update(Message::ConfirmAnswered(ConfirmChoice::Discard));
    assert!(!app.can_undo(), "reset must clear history");
    assert!(app.redo.is_empty());
    assert_eq!(app.app.books.history_stats.undo_entries, 0);
    assert_eq!(app.app.status, "");
}

// --- sizes ----------------------------------------------------------------------

fn resize_to(app: &mut World, text: &str) {
    app.update(Message::WorkingSizeTyped(text.to_string()));
    app.update(Message::WorkingSizeCommitted);
}

#[test]
fn resizing_scales_the_model_without_touching_a_voxel() {
    let mut app = app();
    let (before, voxel) = (app.clay(app.doc.active), app.doc.voxel);
    let longest_before = app.longest();

    resize_to(&mut app, "30");

    let longest_after = app.longest();
    assert!(
        (longest_after - 30.0).abs() < 0.5,
        "asked for 30 mm and got {longest_after:.2} mm (from {longest_before:.2})"
    );
    let factor = 30.0 / longest_before;
    assert!((app.doc.voxel - voxel * factor).abs() < 1.0e-6, "the voxel did not scale");
    assert_eq!(app.clay(app.doc.active), before, "a voxel changed");
    assert_eq!(app.app.status, "working size 30.0 mm, 0.125 mm voxel");
    assert!(app.log.contains(&Action::FrameMeasured), "the view was left where it stood");
    assert!(!app.log.iter().any(|action| matches!(action, Action::Resample { .. })));
    assert!(app.app.file.unsaved);
}

#[test]
fn a_size_that_would_put_the_voxel_out_of_range_is_refused() {
    let mut app = app();
    let before = app.doc.voxel;
    resize_to(&mut app, "0.001");
    assert_eq!(app.doc.voxel, before, "the model was resized anyway");
    assert!(app.app.status.contains("could not resize"), "no refusal shown: {}", app.app.status);
}

#[test]
fn nonsense_in_the_field_is_refused_rather_than_parsed_as_zero() {
    let mut app = app();
    let before = app.doc.voxel;
    resize_to(&mut app, "big");
    assert_eq!(app.doc.voxel, before);
    assert!(app.app.status.contains("could not resize"), "{}", app.app.status);
}

#[test]
fn a_step_that_does_not_fit_lands_on_the_finest_that_does() {
    let mut app = app();
    app.pool = Pool {
        vertices_reserved: 6_000_000,
        indices_reserved: 33_000_000,
        vertex_capacity: 11_000_000,
        index_capacity: 66_000_000,
        ..Pool::default()
    };
    app.update(Message::Resample(scalar(VOXEL_SIZE_MM / 2.0)));
    let expected = VOXEL_SIZE_MM / (11.0f32 / 6.0).sqrt() * 1.03;
    assert!(
        (app.doc.voxel - expected).abs() < 1.0e-3,
        "expected to land near {expected:.3} mm, landed at {:.3}",
        app.doc.voxel
    );
    assert!(
        app.app.status.contains("finest the mesh pool holds"),
        "the status must say the step was capped: {}",
        app.app.status
    );
}

#[test]
fn at_the_fit_limit_the_refusal_remains() {
    let mut app = app();
    app.pool = Pool {
        vertices_reserved: 10_800_000,
        indices_reserved: 64_000_000,
        vertex_capacity: 11_000_000,
        index_capacity: 66_000_000,
        ..Pool::default()
    };
    let before = app.doc.voxel;
    app.update(Message::Resample(scalar(before / 2.0)));
    assert_eq!(app.doc.voxel, before, "there was no room, so nothing should move");
    assert!(app.app.status.contains("could not resample"), "{}", app.app.status);
}

#[test]
fn resampling_clears_history_and_schedules_a_full_remesh() {
    let mut app = app_with_unsaved_work();
    assert!(app.can_undo());
    let emptied = app.pool_emptied;

    app.update(Message::Resample(scalar(app.doc.voxel / 2.0)));

    assert!(!app.can_undo(), "history refers to bricks at the old resolution and must be dropped");
    assert_eq!(app.app.books.history_stats.undo_entries, 0);
    assert!(app.pool_emptied > emptied, "the whole model has to be remeshed");
    assert!(app.app.status.contains("resampled"), "the interface should say what happened");
}

#[test]
fn resampling_to_the_current_size_does_nothing() {
    let mut app = app();
    let before = app.doc.clone();
    app.update(Message::Resample(scalar(before.voxel)));
    assert_eq!(app.doc, before);
    assert!(app.app.status.is_empty(), "nothing happened, so nothing should be reported");
}

// --- exports --------------------------------------------------------------------

fn app_with_bodies(count: usize) -> World {
    let mut app = app();
    for index in 1..count {
        app.add_body(&format!("Body {}", index + 1), [index as f32 * 48.0, 0.0, 0.0], 8.0);
    }
    app
}

fn export(app: &mut World, format: ExportFormat, name: &str) {
    let path = app.name_file(40, name);
    app.update(Message::ExportChosen(format, Some(path)));
}

#[test]
fn a_hidden_body_is_omitted_and_the_status_names_how_many() {
    let mut app = app_with_bodies(12);
    let hidden = app.doc.nodes[4].id;
    app.set_eye(hidden, false);
    export(&mut app, ExportFormat::Obj, "/tmp/twelve.obj");
    assert!(
        app.app.status.contains("exported 11 of 12 bodies; 1 hidden"),
        "the omitted count is not in the status: {}",
        app.app.status
    );
    assert_eq!(app.exported[0].len(), 11, "eleven bodies should have reached the file");
    assert!(!app.exported[0].contains(&hidden), "the hidden body reached the file anyway");
}

#[test]
fn a_document_with_nothing_hidden_still_names_the_count() {
    let mut app = app();
    export(&mut app, ExportFormat::Stl, "/tmp/one.stl");
    assert!(
        app.app.status.contains("exported 1 of 1 bodies; 0 hidden"),
        "the count is missing from a plain single-body export: {}",
        app.app.status
    );
}

#[test]
fn an_export_while_soloed_still_writes_every_body_the_eye_shows() {
    let mut app = app_with_bodies(12);
    let hidden = app.doc.nodes[4].id;
    app.set_eye(hidden, false);
    let soloed = app.doc.nodes[7].id;
    app.update(Message::SoloEntered(soloed));
    assert_eq!(app.app.looking.solo, Some(soloed), "the fixture never entered solo");
    assert_eq!(app.drawn().len(), 1, "the fixture is not actually hiding anything on screen");

    export(&mut app, ExportFormat::Obj, "/tmp/twelve.obj");
    assert!(
        app.app.status.contains("exported 11 of 12 bodies; 1 hidden"),
        "solo reached the export, or the count now includes it: {}",
        app.app.status
    );
    assert_eq!(app.exported[0].len(), 11, "solo dropped ten parts out of the print");
    assert!(!app.exported[0].contains(&hidden), "the eye-hidden body reached the file anyway");
}

#[test]
fn an_stl_of_several_bodies_says_they_arrive_as_one_part() {
    let mut app = app_with_bodies(3);
    export(&mut app, ExportFormat::Stl, "/tmp/three.stl");
    assert!(app.app.status.contains("exported 3 of 3 bodies"), "{}", app.app.status);
    assert!(
        app.app.status.contains("STL fuses them into one part"),
        "an STL of three bodies did not say what it did with them: {}",
        app.app.status
    );
}

#[test]
fn an_unprintable_body_refuses_before_the_file_is_opened() {
    let mut app = app_with_bodies(2);
    app.doc.nodes[1].printable = false;
    export(&mut app, ExportFormat::Obj, "/tmp/keepme.obj");
    assert!(app.app.status.starts_with("not exported"), "reported: {}", app.app.status);
    assert!(app.app.status.contains("Body 2"), "the refusal must name the body: {}", app.app.status);
    assert!(app.exported.is_empty(), "the refusal wrote something before deciding");
}

#[test]
fn a_refused_export_is_not_handed_to_the_slicer() {
    let mut app = app();
    app.update(Message::OpenInSlicer);
    assert!(app.log.contains(&Action::OpenSlicer), "the slicer was never opened");
    assert_eq!(app.app.status, "opened in /usr/bin/orca-slicer");

    let mut app = app_with_bodies(2);
    app.doc.nodes[1].printable = false;
    app.update(Message::OpenInSlicer);
    assert!(!app.log.contains(&Action::OpenSlicer), "an unprintable model was handed over");
    assert!(app.app.status.starts_with("not exported"), "{}", app.app.status);

    let mut app = World::new();
    app.update(Message::OpenInSlicer);
    app.export_fails = true;
    app.log.clear();
    app.update(Message::OpenInSlicer);
    assert!(!app.log.contains(&Action::OpenSlicer), "an older file was handed over");
    assert!(app.app.status.starts_with("could not write"), "{}", app.app.status);

    let mut app = World::new();
    app.slicer = false;
    app.update(Message::OpenInSlicer);
    assert_eq!(app.app.status, "could not find OrcaSlicer — install it and try again");
}

// --- the timeline ---------------------------------------------------------------

fn click_at(app: &mut World, fraction: f32) {
    app.update(Message::TimelineHover(scalar(fraction)));
    app.update(Message::TimelinePressed);
    app.update(Message::TimelineReleased);
}

#[test]
fn clicking_empty_track_stores_the_view_that_was_showing() {
    let mut app = app();
    app.update(Message::BrushRadiusChanged(scalar(7.5)));
    app.update(Message::SymmetryAxisToggled(MirrorAxis::Y));

    click_at(&mut app, 0.4);

    assert_eq!(app.keys.len(), 1, "a click on empty track stored nothing");
    let (at, view) = app.keys[0];
    assert!((at - 0.4).abs() < 0.01, "the key landed at {at}");
    assert_eq!(float(view.radius), 7.5, "a key has to hold the brush, not only the camera");
    assert_eq!(view.mirrors, PerAxis { x: false, y: true, z: false });
    assert!(app.app.file.unsaved, "storing a key changed the document and did not say so");
}

#[test]
fn clicking_a_key_puts_everything_it_holds_back() {
    let mut app = app();
    app.update(Message::BrushRadiusChanged(scalar(3.0)));
    app.update(Message::BrushStrengthChanged(scalar(0.2)));
    click_at(&mut app, 0.3);

    app.update(Message::BrushRadiusChanged(scalar(9.0)));
    app.update(Message::BrushStrengthChanged(scalar(0.6)));
    app.update(Message::SymmetryAxisToggled(MirrorAxis::X));
    click_at(&mut app, 0.3);

    assert_eq!(app.keys.len(), 1, "clicking the key added a second one");
    assert_eq!(float(app.app.tool.brush.radius), 3.0);
    assert_eq!(float(app.app.tool.brush.strength), 0.2);
    assert!(!app.mirrored(MirrorAxis::X), "the mirror plane was not restored");
}

#[test]
fn a_right_click_removes_the_key_under_the_pointer_and_only_that_one() {
    let mut app = app();
    click_at(&mut app, 0.25);
    click_at(&mut app, 0.75);
    app.app.file.unsaved = false;
    app.update(Message::TimelineHover(scalar(0.25)));
    app.update(Message::TimelineRemoveKey);
    assert_eq!(app.keys.len(), 1);
    assert!((app.keys[0].0 - 0.75).abs() < 0.01, "the wrong key went");
    assert!(app.app.file.unsaved, "removing a key changed the document and did not say so");
}

#[test]
fn a_right_click_on_empty_track_removes_nothing() {
    let mut app = app();
    click_at(&mut app, 0.25);
    app.app.file.unsaved = false;
    app.update(Message::TimelineHover(scalar(0.9)));
    app.update(Message::TimelineRemoveKey);
    assert_eq!(app.keys.len(), 1, "a right click on nothing removed a key");
    assert!(!app.app.file.unsaved, "nothing changed, so nothing should be marked unsaved");
}

// --- what is drawn --------------------------------------------------------------

#[test]
fn the_renderers_hidden_set_agrees_with_the_document_after_every_message() {
    let mut app = app();
    let second = app.add_body("Body 2", [60.0, 0.0, 0.0], 10.0);
    app.set_eye(second, false);
    app.update(Message::Frame);
    assert_eq!(app.hidden, vec![second], "a hidden body never reached the renderer at all");

    app.moved(centre());
    app.stroke_at_the_centre();
    for message in [
        Message::Frame,
        Message::BrushKindChanged(DRAW),
        Message::SymmetryAxisToggled(MirrorAxis::X),
        Message::StatsToggled,
        Message::Undo,
        Message::Redo,
        Message::Undo,
        Message::Frame,
    ] {
        let named = format!("{message:?}");
        app.update(message);
        app.assert_agrees(&named);
    }

    app.set_eye(second, true);
    app.update(Message::Frame);
    assert!(app.hidden.is_empty(), "the body never came back");
    app.assert_agrees("showing the body again");
}

#[test]
fn opening_and_resetting_do_not_leave_the_previous_documents_ids_hidden() {
    let mut app = app();
    let second = app.add_body("Body 2", [60.0, 0.0, 0.0], 10.0);
    app.set_eye(second, false);
    app.update(Message::Frame);
    assert_eq!(app.hidden, vec![second]);
    app.save(5);

    app.update(Message::ResetSphere);
    assert!(app.app.prompts.confirm.is_none(), "the fixture had unsaved work and never reset");
    assert!(app.hidden.is_empty(), "the reset document is still hiding an id from before it");
    app.assert_agrees("a reset");

    app.open(5);
    assert!(!app.app.status.contains("could not"), "open reported: {}", app.app.status);
    assert_eq!(app.hidden.len(), 1, "the saved eye did not reach the renderer after the open");
    app.assert_agrees("an open");
}

#[test]
fn hiding_and_showing_a_body_marks_no_brick_dirty() {
    let mut app = app();
    let second = app.add_body("Body 2", [60.0, 0.0, 0.0], 10.0);
    app.log.clear();
    for _ in 0..3 {
        app.update(Message::BodyVisibilityToggled(second));
    }
    assert!(!app.doc.node(second).visible);
    assert!(
        !app.log.contains(&Action::Remesh) && !app.log.contains(&Action::MarkEverythingDirty),
        "turning the eye marked bricks for a remesh: {:?}",
        app.log
    );
}

#[test]
fn hiding_a_folder_moves_the_active_body_out_of_it() {
    let mut app = app();
    let inside = app.add_body("Inside", [60.0, 0.0, 0.0], 10.0);
    app.update(Message::BodySelected(inside));
    app.update(Message::BodyGrouped);
    let folder = app.app.outline.parent_of(inside).expect("the new folder");

    app.update(Message::BodyVisibilityToggled(folder));

    assert!(app.doc.node(inside).visible, "the folder's eye was written into the row");
    assert_ne!(app.doc.active, inside, "the active body is inside a hidden folder");
    assert!(app.doc.node(app.doc.active).is_body);
    app.assert_agrees("hiding a folder");

    app.update(Message::BodyVisibilityToggled(folder));
    assert!(
        app.app.saved_nodes().iter().all(|shown| *shown),
        "re-showing the folder left something hidden"
    );
}

// --- solo -----------------------------------------------------------------------

#[test]
fn leaving_solo_restores_every_hand_set_eye_bit_for_bit() {
    let mut app = app();
    let first = app.doc.active;
    let second = app.add_body("Body 2", [30.0, 0.0, 0.0], 6.0);
    let third = app.add_body("Body 3", [60.0, 0.0, 0.0], 6.0);
    let fourth = app.add_body("Body 4", [90.0, 0.0, 0.0], 6.0);
    for id in [second, third, second, fourth, third, third] {
        app.update(Message::BodyVisibilityToggled(id));
    }
    let hand_set = app.doc.clone();
    assert_eq!(hand_set.nodes.iter().filter(|node| !node.visible).count(), 2);
    let unsaved = app.app.file.unsaved;
    let entries = app.undo.len();

    app.update(Message::SoloEntered(first));
    assert_eq!(app.drawn(), vec![first], "solo is showing more than the row it names");
    app.assert_agrees("entering solo");

    app.update(Message::SoloExited);
    assert_eq!(app.doc, hand_set, "leaving solo did not put the hand-set eyes back");
    assert_eq!(app.app.file.unsaved, unsaved, "a view mode dirtied the document");
    assert_eq!(app.undo.len(), entries, "a view mode pushed an undo entry");
    assert!(app.app.looking.solo.is_none());
    app.assert_agrees("leaving solo");
}

#[test]
fn saving_while_soloed_writes_the_same_bytes_as_saving_without_it() {
    let mut app = app();
    let first = app.doc.active;
    let second = app.add_body("Body 2", [30.0, 0.0, 0.0], 6.0);
    app.add_body("Body 3", [60.0, 0.0, 0.0], 6.0);
    app.update(Message::BodyVisibilityToggled(second));
    app.save(5);
    app.update(Message::SoloEntered(first));
    assert!(app.app.looking.solo.is_some(), "the fixture never entered solo");
    app.save(6);
    assert_eq!(app.files[&6], app.files[&5], "solo left a trace in the file");

    app.open(6);
    assert_eq!(
        app.app.saved_nodes().iter().filter(|shown| !**shown).count(),
        1,
        "the reopened document does not hold exactly the one eye that was turned off"
    );
    assert!(app.app.looking.solo.is_none());
}

#[test]
fn soloing_a_hidden_body_turns_its_eye_on() {
    let mut app = app();
    let second = app.add_body("Body 2", [30.0, 0.0, 0.0], 6.0);
    app.update(Message::BodySelected(second));
    app.update(Message::BodyVisibilityToggled(second));
    assert!(!app.doc.node(second).visible, "the fixture never hid it");
    app.app.file.unsaved = false;
    let entries = app.undo.len();

    app.update(Message::SoloEntered(second));

    assert!(app.doc.node(second).visible, "solo showed nothing at all");
    assert_eq!(app.drawn(), vec![second]);
    assert!(app.app.file.unsaved, "turning an eye on is a change to the document");
    assert_eq!(app.undo.len(), entries + 1, "the eye that was turned on is not undoable");
    app.assert_agrees("soloing a hidden body");
}

#[test]
fn soloing_a_body_inside_a_hidden_folder_opens_the_folders_eye_too() {
    let mut app = app();
    let inside = app.add_body("Inside", [30.0, 0.0, 0.0], 6.0);
    app.update(Message::BodySelected(inside));
    app.update(Message::BodyGrouped);
    let folder = app.app.outline.parent_of(inside).expect("the new folder");
    app.update(Message::BodyVisibilityToggled(folder));
    assert!(!app.doc.node(folder).visible);

    app.update(Message::SoloEntered(inside));

    assert!(app.doc.node(folder).visible, "the folder still masks the row");
    assert_eq!(app.drawn(), vec![inside]);
    app.assert_agrees("soloing inside a hidden folder");
}

#[test]
fn an_eye_click_outside_the_solo_scope_is_refused_and_changes_nothing() {
    let mut app = app();
    let first = app.doc.active;
    let second = app.add_body("Body 2", [30.0, 0.0, 0.0], 6.0);
    app.update(Message::SoloEntered(first));
    app.app.file.unsaved = false;
    let (before, entries) = (app.doc.clone(), app.undo.len());

    app.update(Message::BodyVisibilityToggled(second));

    assert_eq!(app.doc, before, "the refused click wrote an eye anyway");
    assert!(!app.app.file.unsaved, "the refused click dirtied the document");
    assert_eq!(app.undo.len(), entries, "the refused click pushed an entry");
    assert_eq!(app.app.status, "solo is on — leave it before changing Body 2's eye");

    app.update(Message::SoloExited);
    app.update(Message::BodyVisibilityToggled(second));
    assert!(!app.doc.node(second).visible, "the eye stopped working");
}

#[test]
fn deleting_the_soloed_body_clears_solo() {
    let mut app = app();
    let second = app.add_body("Body 2", [30.0, 0.0, 0.0], 6.0);
    app.update(Message::BodySelected(second));
    app.update(Message::SoloEntered(second));
    assert_eq!(app.app.looking.solo, Some(second));

    app.update(Message::BodyDeleted);

    assert!(app.doc.index(second).is_none(), "the fixture never deleted anything");
    assert_eq!(app.app.looking.solo, None, "solo is still naming a row that is gone");
    assert!(!app.drawn().is_empty(), "the document went dark");
    app.assert_agrees("deleting the soloed body");
}

#[test]
fn every_route_that_removes_the_soloed_row_clears_solo() {
    let mut app = app();
    let inside = app.add_body("Inside", [30.0, 0.0, 0.0], 6.0);
    app.update(Message::BodySelected(inside));
    app.update(Message::BodyGrouped);
    let folder = app.app.outline.parent_of(inside).expect("the new folder");
    app.update(Message::SoloEntered(folder));
    assert_eq!(app.app.looking.solo, Some(folder));
    app.update(Message::BodyUngrouped);
    assert!(app.doc.index(folder).is_none(), "the fixture never dissolved the folder");
    assert_eq!(app.app.looking.solo, None, "dissolving the folder left solo dangling");

    app.update(Message::BodyGrouped);
    let again = app.app.outline.parent_of(app.doc.active).expect("the second folder");
    app.update(Message::SoloEntered(again));
    assert_eq!(app.app.looking.solo, Some(again));
    app.update(Message::Undo);
    assert!(app.doc.index(again).is_none(), "the undo did not remove the folder");
    assert_eq!(app.app.looking.solo, None, "undoing the group left solo dangling");
}

#[test]
fn resetting_clears_solo_rather_than_soloing_whatever_gets_that_id_next() {
    let mut app = app();
    let second = app.add_body("Body 2", [30.0, 0.0, 0.0], 6.0);
    app.update(Message::BodySelected(second));
    app.update(Message::SoloEntered(second));
    app.carry_out(Action::NewDocument);
    assert_eq!(app.app.looking.solo, None, "the new document is soloing an id from the old one");
    assert_eq!(app.doc.bodies(), 1);
    assert_eq!(app.drawn().len(), 1, "the reset document is hiding its only body");
    app.assert_agrees("a reset");
}

#[test]
fn escape_leaves_solo_first_and_the_armed_cut_second() {
    let mut app = app();
    let first = app.doc.active;
    app.add_body("Body 2", [30.0, 0.0, 0.0], 6.0);
    app.update(Message::CutToggled);
    app.update(Message::SoloEntered(first));
    assert!(app.app.hand.cut_armed && app.app.looking.solo.is_some());

    app.update(Message::MenuClosed);
    assert_eq!(app.app.looking.solo, None, "escape did not leave solo");
    assert!(app.app.hand.cut_armed, "escape disarmed the cut on its way past solo");

    app.update(Message::MenuClosed);
    assert!(!app.app.hand.cut_armed, "the second escape did not reach the cut");
}

#[test]
fn showing_everything_also_leaves_solo() {
    let mut app = app();
    let first = app.doc.active;
    let second = app.add_body("Body 2", [30.0, 0.0, 0.0], 6.0);
    app.update(Message::BodyVisibilityToggled(second));
    app.update(Message::SoloEntered(first));
    app.update(Message::EveryBodyShown);
    assert_eq!(app.app.looking.solo, None, "everything is showing except that solo is still on");
    assert_eq!(app.drawn().len(), 2, "a body is still missing from the screen");
    assert_eq!(app.app.status, "left solo, showing 1 hidden row");

    app.update(Message::SoloEntered(first));
    app.update(Message::EveryBodyShown);
    assert_eq!(app.app.looking.solo, None, "the early return skipped the exit");
    assert_eq!(app.app.status, "left solo — everything is showing");
}

#[test]
fn solo_does_not_veto_an_undo_of_a_body_it_is_hiding() {
    let mut app = app();
    let first = app.doc.active;
    let second = app.add_body("Body 2", [30.0, 0.0, 0.0], 6.0);
    app.stroke_at_the_centre();
    assert_ne!(app.clay(first), 0, "the fixture carved nothing");
    app.update(Message::BodySelected(second));
    app.update(Message::SoloEntered(second));
    assert!(!app.drawn().contains(&first), "the fixture is still drawing the body");

    app.update(Message::Undo);

    assert_eq!(app.clay(first), 0, "solo refused an undo: {}", app.app.status);
}

#[test]
fn an_eye_vetoes_an_undo_of_the_body_it_hides() {
    let mut app = app();
    let first = app.doc.active;
    let second = app.add_body("Body 2", [30.0, 0.0, 0.0], 6.0);
    app.stroke_at_the_centre();
    app.update(Message::BodySelected(second));
    app.set_eye(first, false);
    let (before, unsaved) = (app.doc.clone(), app.app.file.unsaved);

    app.update(Message::Undo);

    assert_eq!(app.doc, before, "the step changed a body that is not on screen");
    assert_eq!(app.app.file.unsaved, unsaved);
    assert_eq!(app.app.status, "undo would change Body 1, which is hidden");
}

#[test]
fn soloing_can_never_leave_the_viewport_empty() {
    {
        let mut app = app();
        let second = app.add_body("Body 2", [30.0, 0.0, 0.0], 6.0);
        app.update(Message::BodyVisibilityToggled(second));
        app.update(Message::SoloEntered(second));
        assert_eq!(app.drawn(), vec![second], "the fixture never entered solo");
        app.update(Message::Undo);
        assert!(!app.drawn().is_empty(), "undo emptied the viewport: {}", app.app.status);
        assert_eq!(app.app.looking.solo, None, "solo is still on with nothing to show");
        assert!(app.app.status.contains("solo"), "nothing says why: {}", app.app.status);
        app.assert_agrees("undoing the eye solo turned on");
    }
    {
        let mut app = app();
        let first = app.doc.active;
        app.add_body("Body 2", [30.0, 0.0, 0.0], 6.0);
        app.update(Message::BodySelected(first));
        app.update(Message::SoloEntered(first));
        assert_eq!(app.drawn(), vec![first], "the fixture never entered solo");
        app.update(Message::BodyVisibilityToggled(first));
        assert!(!app.drawn().is_empty(), "the eye emptied the viewport: {}", app.app.status);
        assert_eq!(app.app.looking.solo, None, "solo is still on with nothing to show");
        assert!(app.app.status.contains("solo"), "nothing says why: {}", app.app.status);
        app.assert_agrees("hiding the soloed row");
    }
}

#[test]
fn the_renderer_agrees_with_the_document_after_every_solo_message() {
    let mut app = app();
    let first = app.doc.active;
    let second = app.add_body("Body 2", [30.0, 0.0, 0.0], 6.0);
    let third = app.add_body("Body 3", [60.0, 0.0, 0.0], 6.0);
    for message in [
        Message::SoloEntered(second),
        Message::Frame,
        Message::SoloEntered(third),
        Message::BodyVisibilityToggled(third),
        Message::SoloExited,
        Message::BodyVisibilityToggled(first),
        Message::SoloEntered(second),
        Message::EveryBodyShown,
        Message::SoloEntered(first),
        Message::MenuClosed,
        Message::Frame,
    ] {
        let named = format!("{message:?}");
        app.update(message);
        app.assert_agrees(&named);
    }
}

#[test]
fn every_whole_document_swap_asks_the_renderer_to_empty_the_pool() {
    let mut app = app();
    app.save(5);
    let swaps: [(&str, fn(&mut World)); 4] = [
        ("reset", |app| app.carry_out(Action::NewDocument)),
        ("open", |app| app.open(5)),
        ("import", |app| adopt_import(app, None)),
        ("orient", |app| {
            app.carry_out(Action::Orient { from: Facing::Front, to: Facing::Up });
        }),
    ];
    for (name, swap) in swaps {
        let before = app.pool_emptied;
        swap(&mut app);
        assert!(
            app.pool_emptied > before,
            "a {name} left the outgoing model's slots in the pool"
        );
        app.assert_agrees(name);
    }
}

// --- the body panel -------------------------------------------------------------

#[test]
fn adding_a_primitive_puts_a_new_body_clear_of_everything_already_there() {
    let mut app = app();
    app.update(Message::PrimitiveMenuToggled);
    assert!(app.app.menus.adding, "the plus button did not open the menu");
    app.update(Message::PrimitiveAdded(PrimitiveKind::Cube));

    assert!(!app.app.menus.adding, "the menu stayed open after a choice");
    assert_eq!(app.doc.bodies(), 2, "the cube did not become a body");
    assert_eq!(app.names()[1], "Cube");
    assert_eq!(app.app.outline.active, app.doc.nodes[1].id, "the new body was not selected");
    assert!(app.app.file.unsaved, "adding a body did not mark the document unsaved");
    let (ball, cube) = (&app.doc.nodes[0], &app.doc.nodes[1]);
    assert!(
        cube.centre[0] - cube.radius > ball.centre[0] + ball.radius,
        "the cube's surface box overlaps the ball's along X"
    );
    assert!(
        !app.log.iter().any(|action| matches!(action, Action::FlyTo(_) | Action::ResetView)),
        "adding a body moved the camera"
    );
}

#[test]
fn every_primitive_kind_lands_as_its_own_body() {
    let mut app = app();
    for kind in [PrimitiveKind::Cube, PrimitiveKind::Sphere, PrimitiveKind::Cylinder] {
        app.update(Message::PrimitiveAdded(kind));
        assert!(app.app.status.contains(kind.noun()), "{}", app.app.status);
    }
    assert_eq!(app.doc.bodies(), 4);
    assert_eq!(app.names()[1..], ["Cube", "Sphere", "Cylinder"]);
}

#[test]
fn adding_a_primitive_is_one_undo_entry() {
    let mut app = app();
    let before = app.app.books.history_stats.undo_entries;
    app.update(Message::PrimitiveAdded(PrimitiveKind::Sphere));
    assert_eq!(app.app.books.history_stats.undo_entries, before + 1);

    app.update(Message::Undo);
    assert_eq!(app.doc.bodies(), 1, "undo did not remove the primitive");
    app.update(Message::Redo);
    assert_eq!(app.doc.bodies(), 2, "redo did not bring it back");
    assert_eq!(app.names()[1], "Sphere");
    app.assert_agrees("a redo");
}

#[test]
fn adding_past_the_body_cap_is_refused_and_says_so() {
    let mut app = app_with_bodies(MAX_BODIES);
    app.update(Message::PrimitiveAdded(PrimitiveKind::Cube));
    assert_eq!(app.doc.bodies(), MAX_BODIES, "the cap let a body through");
    assert!(
        app.app.status.contains("could not add")
            && app.app.status.contains(&MAX_BODIES.to_string()),
        "the refusal does not name the cap: {}",
        app.app.status
    );
}

#[test]
fn a_primitive_the_pool_cannot_hold_is_refused_before_it_is_built() {
    let mut app = app();
    app.pool = Pool {
        vertices_reserved: 0,
        vertices_watermark: (PRIMITIVE_VERTICES * 2.0) as u64,
        vertex_capacity: (PRIMITIVE_VERTICES * 2.5) as u64,
        ..Pool::default()
    };
    let before = app.doc.clone();
    app.update(Message::PrimitiveAdded(PrimitiveKind::Cube));
    assert_eq!(app.doc, before, "the cube was added anyway");
    assert!(
        app.app.status.contains("could not add a cube") && app.app.status.contains("mesh pool"),
        "the refusal does not say what ran out: {}",
        app.app.status
    );
    assert!(app.app.status.contains("mm)"), "the refusal names no workable size: {}", app.app.status);
}

fn with_a_cube() -> (World, NodeId, NodeId) {
    let mut app = app();
    app.update(Message::PrimitiveAdded(PrimitiveKind::Cube));
    let (first, cube) = (app.doc.nodes[0].id, app.doc.nodes[1].id);
    (app, first, cube)
}

#[test]
fn toggling_another_rows_eye_does_not_change_the_active_body() {
    let (mut app, first, cube) = with_a_cube();
    app.update(Message::BodySelected(cube));
    app.update(Message::BodyVisibilityToggled(first));
    assert!(!app.doc.node(first).visible, "the eye did not go off");
    assert_eq!(app.doc.active, cube, "hiding another row moved the selection");
    assert_eq!(app.app.status, "hiding Body 1");
}

#[test]
fn a_click_that_does_not_hide_the_active_body_leaves_the_selection() {
    let (mut app, first, cube) = with_a_cube();
    app.update(Message::PrimitiveAdded(PrimitiveKind::Sphere));
    let sphere = app.doc.active;
    app.update(Message::BodyVisibilityToggled(cube));
    app.update(Message::BodyVisibilityToggled(first));
    app.update(Message::BodySelected(cube));
    assert_eq!(app.doc.active, cube, "a hidden row can be selected");

    app.update(Message::BodyVisibilityToggled(first));
    assert!(app.doc.node(first).visible, "the eye did not come on");
    assert_eq!(app.doc.active, cube, "showing another row moved the selection");
    assert_eq!(app.app.status, "showing Body 1");

    app.update(Message::BodyVisibilityToggled(sphere));
    assert!(!app.doc.node(sphere).visible, "the eye did not go off");
    assert_eq!(app.doc.active, cube, "hiding another row moved the selection");
    assert_eq!(app.app.status, "hiding Sphere");

    app.update(Message::BodyVisibilityToggled(first));
    assert!(app.doc.node(first).visible, "the last visible body was hidden");
    assert_eq!(
        app.app.status,
        "cannot hide the last visible body — there would be nothing to sculpt"
    );
    app.assert_agrees("a refused click");
}

#[test]
fn hiding_the_active_body_moves_the_selection_to_one_that_is_visible() {
    let (mut app, first, cube) = with_a_cube();
    assert_eq!(app.doc.active, cube);
    app.update(Message::BodyVisibilityToggled(cube));
    assert_eq!(app.doc.active, first, "the selection stayed on a body nobody can see");
    assert_eq!(app.app.status, "hiding Cube — Body 1 is now selected");
}

#[test]
fn hiding_the_last_visible_body_is_refused_and_changes_nothing() {
    let mut app = app();
    let only = app.doc.active;
    app.update(Message::BodyVisibilityToggled(only));
    assert!(app.doc.node(only).visible, "the last visible body was hidden");
    assert!(app.app.outline.rows[0].visible);
    assert!(!app.app.file.unsaved, "a refused hide marked the document unsaved");
    assert_eq!(app.app.books.history_stats.undo_entries, 0, "a refused hide recorded an entry");
    assert!(app.app.status.contains("cannot hide"), "the refusal said nothing: {}", app.app.status);
}

#[test]
fn the_visibility_chords_toggle_the_active_row_and_reveal_everything() {
    let (mut app, first, cube) = with_a_cube();
    app.key(",", true);
    assert!(!app.doc.node(cube).visible);
    assert_eq!(app.doc.active, first);
    app.update(Message::KeyPressed {
        key: Key::Character(",".to_string()),
        modifiers: KeyModifiers { command: true, shift: false, alt: true },
    });
    assert!(app.doc.nodes.iter().all(|node| node.visible), "the reveal left something hidden");
    app.update(Message::Undo);
    assert!(!app.doc.node(cube).visible, "undoing the reveal did not restore the eye");
}

#[test]
fn revealing_when_nothing_is_hidden_records_nothing() {
    let mut app = app();
    app.update(Message::EveryBodyShown);
    assert_eq!(app.app.books.history_stats.undo_entries, 0);
    assert_eq!(app.app.status, "everything is already showing");
}

#[test]
fn deleting_a_body_is_undoable() {
    let (mut app, _, cube) = with_a_cube();
    app.update(Message::BodyDeleted);
    assert_eq!(app.doc.bodies(), 1, "the delete did nothing");
    assert!(app.app.status.contains("deleted Cube"), "{}", app.app.status);
    app.update(Message::Undo);
    assert_eq!(app.doc.bodies(), 2, "undo did not bring the body back");
    assert_eq!(app.name_of(cube), "Cube");
}

#[test]
fn a_delete_tells_the_renderer_to_drop_the_body_and_re_offers_everything_left() {
    let (mut app, _, cube) = with_a_cube();
    app.forgotten.clear();
    app.log.clear();
    app.update(Message::BodyDeleted);
    assert_eq!(app.forgotten, vec![cube], "the deleted body's slots were left in the pool");
    let dirty = app.log.iter().position(|action| *action == Action::MarkEverythingDirty);
    let meshed = app.log.iter().position(|action| *action == Action::Remesh);
    assert!(dirty.is_some() && dirty < meshed, "the delete did not re-offer what is left");
}

#[test]
fn adding_a_primitive_clear_of_the_model_turns_off_a_mirror_it_cannot_use() {
    let mut app = app();
    app.update(Message::SymmetryAxisToggled(MirrorAxis::X));
    assert!(app.mirrored(MirrorAxis::X), "the ball straddles X");
    app.update(Message::PrimitiveAdded(PrimitiveKind::Cube));
    assert!(!app.mirrored(MirrorAxis::X), "X mirroring stayed on for a cube to one side");
    assert!(app.app.status.contains("empty space"), "the refusal said nothing: {}", app.app.status);
}

#[test]
fn deleting_the_last_body_is_refused() {
    let mut app = app();
    app.update(Message::BodyDeleted);
    assert_eq!(app.doc.bodies(), 1);
    assert!(app.app.status.contains("cannot delete the last body"), "{}", app.app.status);
    assert!(app.app.prompts.pending_delete.is_none(), "the last body raised a prompt");
}

#[test]
fn a_large_delete_asks_first_and_cancelling_changes_nothing() {
    let (mut app, _, cube) = with_a_cube();
    let bytes = app.doc.node(cube).bytes;
    app.app.books.delete_prompt_bytes = bytes;

    app.update(Message::BodyDeleted);
    let pending = app.app.prompts.pending_delete.as_ref().expect("a large delete did not ask");
    assert_eq!(pending.id, cube);
    assert_eq!(pending.bytes, bytes);
    assert_eq!(app.doc.bodies(), 2, "the prompt deleted the body anyway");
    assert!(app.app.modal_open(), "the delete prompt is not modal, so a press behind it sculpts");

    app.update(Message::BodyDeleteCancelled);
    assert_eq!(app.doc.bodies(), 2, "cancelling deleted the body");
    assert!(app.app.prompts.pending_delete.is_none());

    app.update(Message::BodyDeleted);
    app.update(Message::BodyDeleteConfirmed);
    assert_eq!(app.doc.bodies(), 1, "confirming did not delete");
}

fn two_to_merge() -> (World, NodeId, NodeId) {
    let (mut app, upper, lower) = with_a_cube();
    app.update(Message::BodySelected(upper));
    app.app.file.unsaved = false;
    (app, upper, lower)
}

#[test]
fn merging_down_consumes_the_source_and_leaves_the_target_where_it_stood() {
    let (mut app, upper, lower) = two_to_merge();
    app.update(Message::BodyMergedDown);
    assert_eq!(app.doc.bodies(), 1, "the merge did nothing: {}", app.app.status);
    assert!(app.doc.index(upper).is_none(), "the source row survived");
    assert_eq!(app.doc.index(lower), Some(0), "the result is not where the source stood");
    assert_eq!(app.app.outline.active, lower, "the result was not selected");
    assert!(app.app.file.unsaved, "merging did not mark the document unsaved");
    assert!(app.app.status.contains("bricks changed"), "the merge said nothing: {}", app.app.status);
}

#[test]
fn one_undo_takes_a_merge_apart_again() {
    let (mut app, upper, lower) = two_to_merge();
    let before = app.clay(lower);
    let entries = app.app.books.history_stats.undo_entries;
    app.update(Message::BodyMergedDown);
    assert_eq!(app.app.books.history_stats.undo_entries, entries + 1, "a merge is not one entry");
    app.update(Message::Undo);
    assert_eq!(app.doc.bodies(), 2, "undo did not bring the consumed body back");
    assert_eq!(app.names(), ["Body 1", "Cube"], "the row came back in the wrong place");
    assert_eq!(app.clay(lower), before, "undo left the target holding the source's bricks");
    assert!(app.doc.index(upper).is_some(), "the source row did not come back");
}

#[test]
fn merging_the_bottom_body_is_refused_by_name_and_changes_nothing() {
    let (mut app, _, _) = with_a_cube();
    let entries = app.undo.len();
    app.app.file.unsaved = false;
    app.update(Message::BodyMergedDown);
    assert_eq!(app.doc.bodies(), 2, "the bottom body merged into something");
    assert_eq!(app.undo.len(), entries, "a refused merge recorded an entry");
    assert!(!app.app.file.unsaved, "a refused merge dirtied the document");
    assert!(
        app.app.status.contains("could not merge Cube")
            && app.app.status.contains("no body below"),
        "the refusal does not say why: {}",
        app.app.status
    );
}

#[test]
fn merging_into_a_folder_below_is_refused_and_names_it() {
    let (mut app, upper, _) = with_a_cube();
    app.update(Message::BodyGrouped);
    app.update(Message::BodySelected(upper));
    app.update(Message::BodyMergedDown);
    assert_eq!(app.doc.bodies(), 2, "a body was merged into a folder");
    assert!(
        app.app.status.contains("Group 1 is a folder"),
        "the refusal does not name the folder: {}",
        app.app.status
    );
}

#[test]
fn a_large_merge_asks_first_and_cancelling_changes_nothing() {
    let (mut app, upper, _) = two_to_merge();
    app.app.books.merge_prompt_bytes = 2000;
    app.update(Message::BodyMergedDown);
    let pending = app.app.prompts.pending_merge.as_ref().expect("a large merge did not ask");
    assert_eq!(pending.source, upper);
    assert_eq!(pending.plan.bytes, 2000);
    assert_eq!(pending.plan.stroke_bytes, 1000);
    assert_eq!(pending.plan.reclaim_bytes, 1000);
    assert_eq!(app.doc.bodies(), 2, "the prompt merged anyway");
    assert!(app.app.modal_open(), "the merge prompt is not modal, so a press behind it sculpts");

    app.update(Message::BodyMergeCancelled);
    assert_eq!(app.doc.bodies(), 2, "cancelling merged the bodies");
    assert!(!app.app.file.unsaved, "cancelling dirtied the document");
    assert!(app.app.prompts.pending_merge.is_none());

    app.update(Message::BodyMergedDown);
    assert!(app.app.prompts.pending_merge.is_some());
    app.update(Message::MenuClosed);
    assert!(app.app.prompts.pending_merge.is_none(), "escape left the merge prompt up");
    assert_eq!(app.doc.bodies(), 2, "escape merged the bodies");

    app.update(Message::BodyMergedDown);
    app.update(Message::BodyMergeConfirmed);
    assert_eq!(app.doc.bodies(), 1, "confirming did not merge");
}

#[test]
fn a_merge_tells_the_renderer_to_drop_the_consumed_body_and_re_offers_the_rest() {
    let (mut app, upper, _) = two_to_merge();
    app.forgotten.clear();
    app.log.clear();
    app.update(Message::BodyMergedDown);
    assert_eq!(app.forgotten, vec![upper], "the consumed body's slots were left in the pool");
    assert!(
        app.log.contains(&Action::MarkEverythingDirty) && app.log.contains(&Action::Remesh),
        "the merge did not re-offer the surviving body"
    );
}

#[test]
fn merging_a_body_that_is_not_soloed_leaves_solo_alone() {
    let (mut app, upper, lower) = two_to_merge();
    app.update(Message::SoloEntered(upper));
    assert_eq!(app.app.looking.solo, Some(upper), "the fixture never entered solo");
    app.update(Message::BodySelected(lower));
    app.update(Message::SoloEntered(lower));
    app.update(Message::BodySelected(upper));
    assert_eq!(app.app.looking.solo, Some(lower), "the fixture is not soloing the survivor");

    app.update(Message::BodyMergedDown);
    assert_eq!(app.doc.bodies(), 1, "the merge did nothing: {}", app.app.status);
    assert_eq!(app.app.looking.solo, Some(lower), "the merge dropped solo");
}

#[test]
fn merging_the_soloed_body_away_leaves_solo() {
    let (mut app, upper, _) = two_to_merge();
    app.update(Message::SoloEntered(upper));
    assert_eq!(app.app.looking.solo, Some(upper), "the fixture never entered solo");
    app.update(Message::BodyMergedDown);
    assert_eq!(app.doc.bodies(), 1, "the merge did nothing: {}", app.app.status);
    assert!(app.app.looking.solo.is_none(), "solo still names a row that was merged away");
}

#[test]
fn the_thumbnail_switch_does_not_dirty_the_document() {
    let mut app = app();
    assert!(app.app.panel.thumbnails, "thumbnails default off");
    app.update(Message::ThumbnailsToggled);
    assert!(!app.app.panel.thumbnails);
    assert!(!app.app.file.unsaved, "turning the pictures off marked the sculpt unsaved");
}

#[test]
fn a_duplicate_lands_directly_below_its_original_and_becomes_the_active_body() {
    let mut app = app();
    let original = app.doc.active;
    app.stroke_at_the_centre();
    app.add_body("Last", [60.0, 0.0, 0.0], 6.0);
    app.update(Message::BodyDuplicated);

    assert_eq!(app.doc.bodies(), 3, "the copy did not become a body");
    assert_eq!(app.names(), ["Body 1", "Body 1 copy", "Last"]);
    let copy = app.doc.nodes[1].id;
    assert_ne!(copy, original, "the copy took the original's id");
    assert_eq!(app.app.outline.active, copy, "the copy did not become the active body");
    assert!(app.app.file.unsaved, "duplicating did not mark the document unsaved");
    assert_eq!(app.clay(copy), app.clay(original), "the copy does not hold the original's field");
    assert!(app.log.contains(&Action::Remesh), "the copy never reaches the screen");
}

#[test]
fn a_duplicate_made_inside_a_folder_stays_inside_it_and_keeps_its_siblings() {
    let (mut app, _, cube) = with_a_cube();
    app.update(Message::BodyGrouped);
    let folder = app.app.outline.parent_of(cube).expect("the new folder");
    app.update(Message::PrimitiveAdded(PrimitiveKind::Sphere));
    let sphere = app.doc.active;
    app.update(Message::BodyMovedToFolder(Some(folder)));
    app.update(Message::BodySelected(cube));
    assert_eq!(app.app.outline.subtree_body_count(folder), 2);

    app.update(Message::BodyDuplicated);

    let copy = app.doc.active;
    assert_ne!(copy, cube, "nothing was duplicated: {}", app.app.status);
    let parent = |app: &World, id| app.app.outline.parent_of(id);
    assert_eq!(parent(&app, copy), Some(folder), "the copy landed outside the folder");
    assert_eq!(parent(&app, sphere), Some(folder), "the sibling fell out of the folder");
    assert_eq!(app.app.outline.subtree_body_count(folder), 3);
}

#[test]
fn the_copy_reaches_the_gpu() {
    let mut app = app();
    let meshed = app.meshed;
    app.update(Message::BodyDuplicated);
    assert!(app.meshed > meshed, "the copy was never meshed");
}

#[test]
fn duplicating_and_undoing_leaves_the_document_byte_identical() {
    let mut app = app();
    let before = app.doc.nodes.clone();
    app.update(Message::BodyDuplicated);
    assert_eq!(app.doc.bodies(), 2, "the fixture did not actually duplicate");
    assert_ne!(app.doc.nodes, before, "the copy left no trace in the document");
    app.update(Message::Undo);
    assert_eq!(app.doc.nodes, before, "undoing the duplicate did not restore the document");
}

#[test]
fn undoing_a_duplicate_from_the_middle_of_the_list_leaves_the_selection_below_it() {
    let mut app = app();
    let original = app.doc.active;
    let last = app.add_body("Last", [60.0, 0.0, 0.0], 6.0);
    app.update(Message::BodyDuplicated);
    app.update(Message::Undo);
    assert_eq!(app.names(), ["Body 1", "Last"], "the copy is still in the document");
    assert_eq!(app.app.outline.active, last);
    assert_ne!(app.app.outline.active, original);
}

#[test]
fn duplicate_at_the_body_cap_is_refused_by_name_and_changes_nothing() {
    let mut app = app_with_bodies(MAX_BODIES);
    let (before, entries) = (app.doc.clone(), app.undo.len());
    app.update(Message::BodyDuplicated);
    assert_eq!(app.doc, before, "a body was added past the cap, or the selection moved");
    assert_eq!(app.undo.len(), entries, "the refusal pushed an undo entry");
    assert!(!app.app.file.unsaved, "a refusal marked the document unsaved");
    assert!(
        app.app.status.contains("could not duplicate") && app.app.status.contains("64"),
        "the refusal does not name the cap: {}",
        app.app.status
    );
}

#[test]
fn a_copy_of_a_full_length_name_still_fits_the_file() {
    let mut app = app();
    let full = "0123456789abcdef0123456789abcdef";
    assert_eq!(full.len(), brokkr_app::text::MAX_NAME_BYTES);
    let id = app.doc.active;
    app.doc.node_mut(id).name = full.to_string();
    app.sync();
    app.update(Message::BodyDuplicated);
    assert_eq!(app.doc.node(app.doc.active).name, full, "the copy's name is not what the file holds");
}

#[test]
fn a_copy_the_pool_cannot_hold_is_refused_before_a_brick_is_copied() {
    let mut app = app();
    app.pool = Pool {
        vertices_reserved: 4_000_000,
        vertices_watermark: 8_000_000,
        vertex_capacity: 10_000_000,
        ..Pool::default()
    };
    let before = app.doc.clone();
    app.update(Message::BodyDuplicated);
    assert_eq!(app.doc, before, "the copy was made anyway");
    assert!(!app.app.file.unsaved, "a refusal marked the document unsaved");
    assert!(
        app.app.status.contains("could not duplicate Body 1")
            && app.app.status.contains("mesh pool")
            && app.app.status.contains("2.0M left"),
        "the refusal does not say what ran out and how much is left: {}",
        app.app.status
    );
    assert!(!app.app.status.contains('%'), "duplicate has no size lever: {}", app.app.status);
}

#[test]
fn ctrl_g_wraps_the_active_row_and_wraps_again_to_nest() {
    let (mut app, _, cube) = with_a_cube();
    app.update(Message::BodyGrouped);
    assert_eq!(
        app.shape(),
        vec![(0, "Body 1".into()), (0, "Group 1".into()), (1, "Cube".into())],
        "the folder did not appear where the row was"
    );
    assert_eq!(app.app.outline.active, cube, "grouping moved the selection");
    assert!(app.app.file.unsaved, "the tree is written to the file, so grouping is a change");

    app.update(Message::BodyGrouped);
    assert_eq!(
        app.shape(),
        vec![
            (0, "Body 1".into()),
            (0, "Group 1".into()),
            (1, "Group 2".into()),
            (2, "Cube".into()),
        ],
        "the second press did not nest"
    );
}

#[test]
fn ctrl_shift_g_dissolves_the_folder_the_active_row_is_in() {
    let (mut app, _, _) = with_a_cube();
    let was = app.shape();
    app.update(Message::BodyGrouped);
    app.update(Message::BodyUngrouped);
    assert_eq!(app.shape(), was, "the pair is not each other's inverse");

    app.update(Message::BodyGrouped);
    let grouped = app.shape();
    app.update(Message::Undo);
    assert_eq!(app.shape(), was, "one undo did not take the group apart");
    app.update(Message::Redo);
    assert_eq!(app.shape(), grouped, "one redo did not put it back");
}

#[test]
fn ungrouping_a_row_that_is_not_in_a_folder_is_refused_with_a_line() {
    let mut app = app();
    let was = app.shape();
    app.update(Message::BodyUngrouped);
    assert_eq!(app.shape(), was);
    assert!(app.app.status.contains("not in a folder"), "no line explains it: {}", app.app.status);
}

#[test]
fn the_chevron_folds_rows_away_and_changes_nothing_else() {
    let (mut app, _, _) = with_a_cube();
    app.update(Message::BodyGrouped);
    let folder = app.doc.nodes[1].id;
    let was = app.shape();
    app.update(Message::FolderCollapseToggled(folder));
    assert!(app.doc.node(folder).collapsed, "the chevron did nothing");
    assert!(app.app.outline.rows[1].collapsed);
    assert_eq!(app.shape(), was, "collapsing changed the tree");
    app.update(Message::Undo);
    assert!(!app.doc.node(folder).collapsed, "collapse is not undoable");
}

#[test]
fn deleting_a_body_in_a_collapsed_folder_never_takes_the_folder() {
    let (mut app, _, cube) = with_a_cube();
    app.update(Message::PrimitiveAdded(PrimitiveKind::Sphere));
    let sphere = app.doc.active;
    app.update(Message::BodyGrouped);
    let folder = app.app.outline.parent_of(sphere).expect("the new folder");
    app.update(Message::BodyMovedToFolder(Some(folder)));
    app.update(Message::BodySelected(cube));
    app.update(Message::BodyMovedToFolder(Some(folder)));
    app.update(Message::FolderCollapseToggled(folder));
    app.update(Message::BodySelected(sphere));
    app.update(Message::BodyDeleted);

    assert!(app.doc.index(folder).is_some(), "a collapsed folder swallowed a body delete");
    assert!(app.doc.index(cube).is_some(), "the folder's other body went with it");
    assert!(app.doc.index(sphere).is_none(), "the body the user asked about survived");
    assert!(app.doc.node(folder).collapsed, "the folder came open");
}

fn a_folder_of_two() -> (World, NodeId) {
    let (mut app, _, _) = with_a_cube();
    app.update(Message::BodyGrouped);
    let folder = app.doc.nodes[1].id;
    app.update(Message::PrimitiveAdded(PrimitiveKind::Sphere));
    app.update(Message::BodyMovedToFolder(Some(folder)));
    assert_eq!(app.app.outline.subtree_body_count(folder), 2);
    (app, folder)
}

#[test]
fn a_folder_delete_takes_its_bodies_and_one_undo_brings_them_all_back() {
    let (mut app, folder) = a_folder_of_two();
    let was = app.shape();
    let entries = app.app.books.history_stats.undo_entries;

    app.update(Message::FolderDeleted(folder));

    assert_eq!(app.doc.bodies(), 1, "the folder's bodies were left behind");
    assert_eq!(app.app.books.history_stats.undo_entries, entries + 1);
    assert!(
        app.app.status.contains("2 bodies"),
        "the line does not say what went: {}",
        app.app.status
    );
    app.update(Message::Undo);
    assert_eq!(app.shape(), was, "one undo did not put the whole folder back");
}

#[test]
fn the_folder_delete_refuses_a_body_row() {
    let (mut app, _, cube) = with_a_cube();
    let was = app.shape();
    app.update(Message::FolderDeleted(cube));
    assert_eq!(app.shape(), was, "the folder trash deleted a body");
}

#[test]
fn a_folder_delete_over_the_allowance_prompts_with_the_summed_size() {
    let (mut app, folder) = a_folder_of_two();
    app.app.books.delete_prompt_bytes = 1500;
    let was = app.shape();

    app.update(Message::FolderDeleted(folder));
    let pending = app.app.prompts.pending_delete.as_ref().expect("the prompt did not open");
    assert_eq!(pending.bytes, 2000, "the prompt named one body's size, not the folder's");
    assert_eq!(pending.bodies, 2);
    assert_eq!(app.shape(), was, "the prompt deleted before it asked");

    app.update(Message::BodyDeleteCancelled);
    assert_eq!(app.shape(), was, "cancelling changed the document");

    app.update(Message::FolderDeleted(folder));
    app.update(Message::BodyDeleteConfirmed);
    assert!(app.doc.index(folder).is_none(), "confirming did not delete the folder");
}

#[test]
fn pressing_a_folder_row_selects_the_first_body_inside_it() {
    let (mut app, first, cube) = with_a_cube();
    app.update(Message::BodyGrouped);
    let folder = app.doc.nodes[1].id;
    app.update(Message::BodySelected(first));
    assert_ne!(app.doc.active, cube);
    app.update(Message::BodySelected(folder));
    assert_eq!(app.doc.active, cube, "pressing a folder did not reach the body inside it");
    assert!(app.doc.node(app.doc.active).is_body, "a folder became the active row");
}

#[test]
fn moving_the_last_child_out_of_a_folder_dissolves_it_in_one_entry() {
    let (mut app, _, _) = with_a_cube();
    app.update(Message::BodyGrouped);
    let folder = app.doc.nodes[1].id;
    let was = app.shape();
    let entries = app.app.books.history_stats.undo_entries;
    app.update(Message::BodyMovedToFolder(None));
    assert!(app.doc.index(folder).is_none(), "an empty folder was left behind");
    assert_eq!(app.app.books.history_stats.undo_entries, entries + 1);
    app.update(Message::Undo);
    assert_eq!(app.shape(), was, "one undo did not restore the folder and the row together");
}

#[test]
fn moving_a_body_to_where_it_is_says_so_and_asks_for_nothing() {
    let mut app = app();
    app.update(Message::BodyMovedToFolder(None));
    assert_eq!(app.app.status, "this body is already in the top level");
    assert!(!app.log.iter().any(|action| matches!(action, Action::MoveToFolder { .. })));
}

#[test]
fn grouping_past_the_row_cap_is_refused_and_says_so() {
    let mut app = app_with_bodies(MAX_BODIES);
    let bodies: Vec<NodeId> = app.doc.nodes.iter().map(|node| node.id).collect();
    for id in bodies {
        if app.doc.nodes.len() >= MAX_NODES {
            break;
        }
        app.update(Message::BodySelected(id));
        app.update(Message::BodyGrouped);
    }
    assert_eq!(app.doc.nodes.len(), MAX_NODES, "the fixture did not fill up");
    app.update(Message::BodyGrouped);
    assert_eq!(app.doc.nodes.len(), MAX_NODES, "the cap let a folder through");
    assert!(
        app.app.status.contains("could not group")
            && app.app.status.contains(&MAX_NODES.to_string()),
        "the refusal does not name the cap: {}",
        app.app.status
    );
    let mut names: Vec<String> = app
        .doc
        .nodes
        .iter()
        .filter(|node| !node.is_body)
        .map(|node| node.name.clone())
        .collect();
    names.sort();
    names.dedup();
    assert_eq!(names.len(), MAX_NODES - MAX_BODIES, "two folders have one name");
}

#[test]
fn grouping_past_the_eighth_level_is_refused_and_says_so() {
    let mut app = app();
    for _ in 0..7 {
        app.update(Message::BodyGrouped);
    }
    assert_eq!(app.doc.node(app.doc.active).depth, 7);
    let rows = app.doc.nodes.len();
    app.update(Message::BodyGrouped);
    assert_eq!(app.doc.nodes.len(), rows, "an eighth level was allowed");
    assert!(
        app.app.status.contains("as far as the panel goes"),
        "the refusal does not say why: {}",
        app.app.status
    );
}

// --- renaming -------------------------------------------------------------------

fn type_into_the_field(app: &mut World, id: NodeId, typed: &str) {
    app.update(Message::BodyRenameBegan(id));
    app.update(Message::BodyRenameEdited(typed.to_string()));
}

#[test]
fn opening_a_rename_hands_the_runtime_the_work_that_focuses_the_field() {
    let mut opened = app();
    let first = opened.doc.active;
    opened.update(Message::BodyRenameBegan(first));
    assert!(opened.log.contains(&Action::FocusRename), "the field opens dead");

    let mut missing = app();
    missing.update(Message::BodyRenameBegan(NodeId(9_999)));
    assert_eq!(
        missing.log,
        vec![Action::PublishVisibility],
        "a rename of a row that is not there still asked for work"
    );
}

#[test]
fn a_digit_typed_into_the_rename_field_does_not_switch_the_brush() {
    let mut app = app();
    let first = app.doc.active;
    app.update(Message::BrushKindChanged(MOVE));
    type_into_the_field(&mut app, first, "Hea");
    assert!(key_event(key_window_event("1", bare()), true).is_none());
    assert_eq!(app.app.tool.brush.kind, MOVE, "typing a name changed the brush");
    assert!(app.app.prompts.renaming.is_some(), "the field closed on a keystroke it never saw");

    let Some(message) = key_event(key_window_event("1", bare()), false) else {
        panic!("an ignored digit produced no message, so the lines above show nothing");
    };
    app.update(message);
    assert_eq!(app.app.tool.brush.kind, DRAW, "the control never switched the brush");
}

#[test]
fn enter_commits_the_typed_name_as_one_undoable_change() {
    let mut app = app();
    let first = app.doc.active;
    let was = app.name_of(first);
    type_into_the_field(&mut app, first, "Left ear");
    assert_eq!(app.name_of(first), was, "the document changed before the commit");

    app.update(Message::BodyRenameSubmitted);
    assert_eq!(app.name_of(first), "Left ear");
    assert!(app.app.prompts.renaming.is_none(), "the field stayed open after Enter");
    assert!(app.app.file.unsaved, "a rename did not mark the document unsaved");
    assert_eq!(app.app.books.history_stats.undo_entries, 1, "one rename was not one undo entry");
    assert_eq!(app.app.status, "renamed Body 1 to Left ear");

    app.update(Message::Undo);
    assert_eq!(app.name_of(first), was, "undo did not put the old name back");
    app.update(Message::Redo);
    assert_eq!(app.name_of(first), "Left ear", "redo did not bring the new name back");
}

#[test]
fn escape_reverts_a_rename_and_leaves_nothing_behind() {
    let mut app = app();
    let first = app.doc.active;
    let was = app.name_of(first);
    type_into_the_field(&mut app, first, "Discarded");
    app.update(Message::MenuClosed);
    assert!(app.app.prompts.renaming.is_none(), "escape left the field open");
    assert_eq!(app.name_of(first), was, "escape committed the name it was meant to discard");
    assert!(!app.app.file.unsaved, "a reverted rename marked the document unsaved");
    assert_eq!(app.undo.len(), 0, "a reverted rename cost an undo entry");
}

#[test]
fn escape_against_a_rename_leaves_an_armed_cut_armed() {
    let mut app = app();
    let first = app.doc.active;
    app.update(Message::CutToggled);
    type_into_the_field(&mut app, first, "Discarded");
    app.update(Message::MenuClosed);
    assert!(app.app.prompts.renaming.is_none(), "escape left the field open");
    assert!(app.app.hand.cut_armed, "escaping a rename also disarmed the cut");
}

#[test]
fn every_way_out_of_the_field_except_escape_keeps_what_was_typed() {
    let exits: [(&str, fn(&mut World)); 5] = [
        ("a press on the empty panel below the last row", |app| {
            let message = key_event(WindowEvent::ButtonPressed(PointerButton::Left), false);
            app.update(message.expect("a press nobody wanted raised no message"));
        }),
        ("a press in the viewport", |app| {
            app.update(Message::Pointer {
                event: PointerEvent::Pressed {
                    button: PointerButton::Left,
                    position: centre(),
                    size: pixel(WIDTH, HEIGHT),
                    cube: None,
                    under: None,
                    pen: Pen { in_proximity: false, eraser: false },
                },
                now: 0,
            });
        }),
        ("clicking another row", |app| {
            let other = app.doc.nodes[1].id;
            app.update(Message::BodySelected(other));
        }),
        ("a menu command", |app| app.update(Message::ThumbnailsToggled)),
        ("a shortcut once the field has been blurred", |app| app.key("2", false)),
    ];
    for (what, exit) in exits {
        let (mut app, first, _) = with_a_cube();
        type_into_the_field(&mut app, first, "Kept");
        exit(&mut app);
        assert!(app.app.prompts.renaming.is_none(), "the field survived {what}");
        assert_eq!(app.name_of(first), "Kept", "{what} threw the typed name away");
    }
}

#[test]
fn a_rename_that_ends_on_an_eye_is_an_entry_of_its_own() {
    let exits: [(&str, bool, fn(&mut World, NodeId)); 4] = [
        ("another row's eye", true, |app, cube| app.update(Message::BodyVisibilityToggled(cube))),
        ("the active row's eye", true, |app, _| app.update(Message::ActiveBodyVisibilityToggled)),
        ("showing everything", false, |app, _| app.update(Message::EveryBodyShown)),
        ("soloing a hidden row", false, |app, cube| app.update(Message::SoloEntered(cube))),
    ];
    for (what, visible, exit) in exits {
        let (mut app, first, cube) = with_a_cube();
        let was = app.name_of(first);
        app.set_eye(cube, visible);
        let entries = app.undo.len();
        type_into_the_field(&mut app, first, "Ear");
        exit(&mut app, cube);
        assert_eq!(app.name_of(first), "Ear", "{what}");
        assert_eq!(app.doc.node(cube).visible, !visible, "{what} did not reach the eye");
        assert_eq!(app.undo.len(), entries + 2, "{what} and the rename are not two entries");

        app.undo();
        assert_eq!(app.doc.node(cube).visible, visible, "{what}: one undo left the eye");
        assert_eq!(app.name_of(first), "Ear", "{what}: one undo took the name too");

        app.undo();
        assert_eq!(app.doc.node(cube).visible, visible, "{what}");
        assert_eq!(app.name_of(first), was, "{what}: the second undo left the name");
    }
}

#[test]
fn the_frame_tick_and_a_moving_pointer_leave_the_field_alone() {
    let mut app = app();
    let first = app.doc.active;
    type_into_the_field(&mut app, first, "Still typing");
    app.update(Message::Frame);
    app.update(Message::Pointer {
        event: PointerEvent::Moved {
            position: centre(),
            size: pixel(WIDTH, HEIGHT),
            past_slop: false,
        },
        now: 0,
    });
    app.update(Message::BodyRenameEdited("Still typing more".to_string()));
    let Some(renaming) = &app.app.prompts.renaming else {
        panic!("the field closed on a frame tick or a mouse move");
    };
    assert_eq!(renaming.id, first);
    assert_eq!(renaming.text, "Still typing more");
}

#[test]
fn a_multi_byte_name_at_exactly_the_field_length_round_trips_unchanged() {
    let name = "𝄞𝄞𝄞𝄞𝄞𝄞𝄞𝄞";
    assert_eq!(name.len(), brokkr_app::text::MAX_NAME_BYTES);
    let mut app = app();
    let first = app.doc.active;
    type_into_the_field(&mut app, first, name);
    app.update(Message::BodyRenameSubmitted);
    assert_eq!(app.name_of(first), name, "the field would not accept a full-length name");
    app.save(5);
    app.open(5);
    assert_eq!(app.name_of(first), name, "a full-length name did not survive the file");
}

#[test]
fn a_name_past_the_field_is_clamped_to_a_valid_prefix_and_never_to_a_default() {
    let typed = "。。。。。。。。。。。";
    let expected = "。。。。。。。。。。";
    assert_eq!(typed.len(), brokkr_app::text::MAX_NAME_BYTES + 1);
    assert_eq!(expected.len(), 30);
    let mut app = app();
    let first = app.doc.active;
    type_into_the_field(&mut app, first, typed);
    let Some(renaming) = &app.app.prompts.renaming else {
        panic!("the field closed while it was being typed into");
    };
    assert_eq!(renaming.text, expected, "the field held a name the file cannot store");
    app.update(Message::BodyRenameSubmitted);
    assert_eq!(app.name_of(first), expected);
    app.save(5);
    app.open(5);
    assert_eq!(app.name_of(first), expected, "the name came back as something else");
}

#[test]
fn a_rename_to_nothing_keeps_the_old_name() {
    let mut app = app();
    let first = app.doc.active;
    let was = app.name_of(first);
    type_into_the_field(&mut app, first, "   ");
    app.update(Message::BodyRenameSubmitted);
    assert_eq!(app.name_of(first), was, "an empty name was committed");
    assert_eq!(app.undo.len(), 0, "an empty name cost an undo entry");
    assert!(!app.app.file.unsaved, "an empty name marked the document unsaved");
    assert!(app.app.status.contains(&was), "the refusal did not say which name was kept");
}

#[test]
fn committing_an_unchanged_name_costs_no_undo_entry() {
    let mut app = app();
    let first = app.doc.active;
    let was = app.name_of(first);
    app.update(Message::BodyRenameBegan(first));
    app.update(Message::BodyRenameEdited(format!("  {was}  ")));
    app.update(Message::BodyRenameSubmitted);
    assert_eq!(app.name_of(first), was);
    assert_eq!(app.undo.len(), 0, "a no-op rename cost an undo entry");
    assert!(!app.app.file.unsaved, "a no-op rename marked the document unsaved");
}

#[test]
fn beginning_a_second_rename_commits_the_first() {
    let (mut app, first, second) = with_a_cube();
    type_into_the_field(&mut app, first, "One");
    app.update(Message::BodyRenameBegan(second));
    assert_eq!(app.name_of(first), "One", "the first rename was thrown away");
    let Some(renaming) = &app.app.prompts.renaming else {
        panic!("the second rename did not open a field");
    };
    assert_eq!(renaming.id, second);
    assert_eq!(renaming.text, "Cube", "the field did not start from the row's name");
}

#[test]
fn only_the_field_its_keys_and_the_ambient_ticks_keep_a_rename_open() {
    let pointer = |event| Message::Pointer { event, now: 0 };
    let keeps = [
        Message::BodyRenameEdited("half a name".to_string()),
        Message::KeyPressed { key: Key::Character("1".into()), modifiers: bare() },
        Message::MenuClosed,
        Message::Frame,
        pointer(PointerEvent::Moved {
            position: pixel(1.0, 1.0),
            size: pixel(WIDTH, HEIGHT),
            past_slop: false,
        }),
        pointer(PointerEvent::Released { button: PointerButton::Left }),
    ];
    for message in keeps {
        assert!(keeps_the_rename_open(&message), "{message:?} closed the rename field");
    }
    let commits = [
        Message::BodyRenameSubmitted,
        Message::BodyRenameBegan(NodeId(1)),
        Message::BodySelected(NodeId(1)),
        Message::Undo,
        pointer(PointerEvent::Pressed {
            button: PointerButton::Left,
            position: pixel(1.0, 1.0),
            size: pixel(WIDTH, HEIGHT),
            cube: None,
            under: None,
            pen: Pen { in_proximity: false, eraser: false },
        }),
        Message::PressedNothing,
    ];
    for message in commits {
        assert!(!keeps_the_rename_open(&message), "{message:?} left the rename field open");
    }
}

// --- reports and devices --------------------------------------------------------

#[test]
fn a_blank_bug_report_is_neither_copied_nor_sent() {
    let mut app = app();
    app.update(Message::BugReportOpened);
    app.update(Message::BugReportEdited(" \u{2003}\n ".to_string()));
    app.update(Message::BugReportCopied);
    app.update(Message::BugReportSubmitted);
    assert!(!app.copied_report && !app.log.contains(&Action::SendReport), "a blank report went out");

    app.update(Message::BugReportEdited("it fell over".to_string()));
    app.update(Message::BugReportSubmitted);
    assert!(app.log.contains(&Action::SendReport), "a report that says something was held back");
    assert!(app.app.prompts.bug_report.as_ref().is_some_and(|draft| draft.sending));

    app.update(Message::BugReportFinished(Ok("thanks".to_string())));
    assert!(app.app.prompts.bug_report.is_none(), "a sent report stayed up");
}

#[test]
fn a_report_that_could_not_be_sent_says_why() {
    let mut app = app();
    app.update(Message::BugReportOpened);
    app.update(Message::BugReportEdited("it fell over".to_string()));
    app.update(Message::BugReportSubmitted);
    assert_eq!(app.app.status, "sending the report…");
    app.update(Message::BugReportFinished(Err("no network".to_string())));
    assert!(app.app.prompts.bug_report.is_none());
    assert_eq!(app.app.status, "could not send the report: no network");
}

#[test]
fn a_status_line_goes_on_the_trail_once() {
    let mut app = app();
    app.update(Message::IssueOpened);
    app.log.clear();
    for _ in 0..3 {
        app.update(Message::Frame);
    }
    let crumbs = app.log.iter().filter(|action| **action == Action::DropCrumb).count();
    assert_eq!(crumbs, 1);
}

#[test]
fn the_printer_is_asked_only_where_one_is_set_up() {
    for (printer, asked) in
        [(PrinterKind::Nowhere, false), (PrinterKind::Unset, false), (PrinterKind::There, true)]
    {
        let mut app = app();
        app.printer = printer;
        app.update(Message::PrinterChecked);
        assert_eq!(app.log.contains(&Action::AskPrinter), asked);
        assert!(!app.app.status.is_empty(), "nothing was said");
    }
}

#[test]
fn a_section_of_the_panel_opens_and_closes() {
    let mut app = app();
    assert_eq!(app.app.panel.expanded, vec![true, false, false]);
    app.update(Message::SectionToggled(PanelSection { index: 1 }));
    assert_eq!(app.app.panel.expanded, vec![true, true, false]);
    app.update(Message::SectionToggled(PanelSection { index: 1 }));
    assert_eq!(app.app.panel.expanded, vec![true, false, false]);
}

#[test]
fn a_build_that_was_not_told_its_commit_says_so() {
    assert_eq!(build_commit(None), "unknown");
    assert_eq!(build_commit(Some("a1b2c3d")), "a1b2c3d");
}

#[test]
fn unsound_rows_and_misfit_replies_are_noticed() {
    let app = app();
    let row = |id: u64, depth: u8, is_body: bool| Row {
        id: NodeId(id),
        name: String::new(),
        depth,
        visible: true,
        collapsed: false,
        is_body,
    };
    let sound = |rows: Vec<Row>, active: u64| Outline { rows, active: NodeId(active) }.is_sound();
    assert!(sound(vec![row(1, 0, true)], 1));
    assert!(sound(vec![row(1, 0, false), row(2, 1, true), row(3, 0, true)], 3));
    assert!(!sound(vec![], 1), "no rows");
    assert!(!sound(vec![row(1, 1, true)], 1), "a first row inside nothing");
    assert!(!sound(vec![row(1, 0, true), row(1, 0, true)], 1), "one identity twice");
    assert!(!sound(vec![row(1, 0, true), row(2, 1, true)], 1), "a row inside a body");
    assert!(!sound(vec![row(1, 0, true), row(2, 0, false)], 1), "an empty folder");
    assert!(!sound(vec![row(1, 0, false), row(2, 1, true)], 1), "an active folder");
    assert!(!sound(vec![row(1, 0, true)], 2), "an active row that is not there");

    let weighed = |weights| Reply::RowsWeighed { id: NodeId(1), weights };
    assert!(weighed(vec![usize::MAX]).is_fit_for(&app.app));
    assert!(!weighed(vec![1, 2]).is_fit_for(&app.app), "more weights than rows");
    assert!(!Reply::TimelinePressed(TimelinePress::Added { index: 1, keys: 1 })
        .is_fit_for(&app.app));
}

// --- frames and meshes ----------------------------------------------------------

#[test]
fn the_frame_tick_is_what_advances_a_flight() {
    let mut app = app();
    app.press(cube_centre());
    assert!(app.log.iter().any(|action| matches!(action, Action::FlyTo(_))));
    assert!(!app.log.contains(&Action::AdvanceFlight), "something but a frame moved the camera");
    app.update(Message::Frame);
    assert!(app.log.contains(&Action::AdvanceFlight), "a frame left the camera where it was");
}

#[test]
fn undoing_a_body_delete_schedules_every_one_of_its_bricks_for_remesh() {
    let mut app = app();
    let doomed = app.add_body("Body 2", [60.0, 0.0, 0.0], 10.0);
    app.update(Message::BodySelected(doomed));
    app.update(Message::BodyDeleted);
    assert!(app.doc.index(doomed).is_none());
    app.log.clear();

    app.update(Message::Undo);

    assert!(app.doc.index(doomed).is_some(), "the body did not come back");
    assert!(app.log.contains(&Action::Remesh), "the restored body never reaches the screen");
}

#[test]
fn a_dynamic_radius_keeps_its_proportion_to_the_model() {
    let proportion = |app: &World| float(app.app.tool.brush.radius) / app.model_radius;

    let mut fixed = app();
    let before = fixed.app.tool.brush.radius;
    fixed.update(Message::Resample(scalar(VOXEL_SIZE_MM / 2.0)));
    assert_eq!(fixed.app.tool.brush.radius, before, "a fixed radius must survive a resample");
    let active = fixed.doc.active;
    fixed.doc.node_mut(active).radius = MODEL_RADIUS_MM * 2.0;
    fixed.mark_everything_dirty();
    fixed.remesh();
    assert_eq!(fixed.app.tool.brush.radius, before, "a fixed radius followed the model");

    let mut dynamic = app();
    dynamic.update(Message::DynamicRadiusToggled(true));
    let before = proportion(&dynamic);
    let active = dynamic.doc.active;
    dynamic.doc.node_mut(active).radius = MODEL_RADIUS_MM * 2.0;
    dynamic.mark_everything_dirty();
    dynamic.remesh();

    assert!(
        float(dynamic.app.tool.brush.radius) > float(fixed.app.tool.brush.radius),
        "a dynamic radius should have grown with the model"
    );
    assert!(
        (proportion(&dynamic) - before).abs() < 0.15 * before,
        "the brush lost its proportion: {before} became {}",
        proportion(&dynamic)
    );
}

#[test]
fn changing_the_active_body_does_not_resize_the_dynamic_brush() {
    let mut app = app();
    app.update(Message::DynamicRadiusToggled(true));
    let radius = app.app.tool.brush.radius;

    let first = app.doc.active;
    let second = app.add_body("Body 2", [128.0, 0.0, 0.0], 2.5);
    app.remesh();
    assert_eq!(app.app.tool.brush.radius, radius, "ADDING a body resized the brush");

    app.doc.active = second;
    app.sync();
    app.mark_everything_dirty();
    app.remesh();
    assert_eq!(app.app.tool.brush.radius, radius, "selecting a smaller body resized the brush");
    assert!(
        app.model_radius < MODEL_RADIUS_MM,
        "the framing radius did not follow the selection: {}",
        app.model_radius
    );

    app.doc.active = first;
    app.sync();
    app.mark_everything_dirty();
    app.remesh();
    assert_eq!(app.app.tool.brush.radius, radius, "selecting back resized the brush");
}

#[test]
fn the_brush_follows_the_body_that_was_measured_before() {
    let mut app = app();
    assert!(!app.app.note_remesh(), "the brush follows only where that is wanted");
    app.update(Message::DynamicRadiusToggled(true));
    assert!(app.app.note_remesh(), "the body that was measured is the one in hand");
    let second = app.add_body("Body 2", [128.0, 0.0, 0.0], 2.5);
    assert!(app.app.note_remesh(), "adding a body counted as another body");
    app.doc.active = second;
    app.sync();
    assert!(!app.app.note_remesh(), "another body's size was taken for this one's growth");
    assert!(app.app.note_remesh());
}

#[test]
fn adding_a_primitive_dirties_only_the_new_body_and_leaves_the_brush_alone() {
    let mut app = app();
    app.update(Message::DynamicRadiusToggled(true));
    let radius = app.app.tool.brush.radius;
    app.remesh();

    app.update(Message::PrimitiveAdded(PrimitiveKind::Cube));
    let added = app.doc.nodes[1].id;

    assert!(!app.remeshed.is_empty(), "the add dirtied nothing at all");
    assert!(
        app.remeshed.iter().all(|body| *body == added),
        "the add dirtied bricks belonging to a body it did not touch"
    );
    assert!(app.dirty.is_empty(), "something dirtied bricks after the add: {:?}", app.dirty);
    assert!(app.doc.node(added).bytes > 0, "the cube has no bricks");
    assert_eq!(app.app.tool.brush.radius, radius, "adding a body resized a Dynamic brush");
}

#[test]
fn a_new_working_size_scales_a_dynamic_brush_once() {
    let mut app = app();
    app.update(Message::DynamicRadiusToggled(true));
    let (before, longest) = (float(app.app.tool.brush.radius), app.longest());
    let proportion = before / app.model_radius;

    resize_to(&mut app, "90");

    assert_eq!(app.longest(), 90.0);
    assert_eq!(float(app.app.tool.brush.radius), before * 90.0 / longest);
    assert_eq!(float(app.app.tool.brush.radius) / app.model_radius, proportion);

    let active = app.doc.active;
    app.doc.node_mut(active).radius *= 2.0;
    app.mark_everything_dirty();
    app.remesh();
    assert_eq!(
        float(app.app.tool.brush.radius),
        before * 2.0 * 90.0 / longest,
        "the brush no longer follows"
    );
}

#[test]
fn an_opened_project_brings_its_brush_back_with_dynamic_on() {
    let mut app = app();
    app.update(Message::BrushRadiusChanged(scalar(5.5)));
    resize_to(&mut app, "20");
    let saved = app.app.tool.brush.radius;
    app.save(5);

    let mut reopened = World::new();
    reopened.files = app.files.clone();
    reopened.update(Message::DynamicRadiusToggled(true));
    reopened.open(5);
    assert_eq!(reopened.doc.active, app.doc.active, "the fixture needs the same id");
    assert_ne!(reopened.model_radius, MODEL_RADIUS_MM);
    assert_eq!(reopened.app.tool.brush.radius, saved, "the measurement scaled the brush away");
}

#[test]
fn a_report_on_its_way_is_not_sent_again() {
    let mut app = app();
    app.update(Message::BugReportOpened);
    app.update(Message::BugReportEdited("the brush ring is gone".to_string()));
    app.log.clear();
    app.update(Message::BugReportSubmitted);
    assert_eq!(app.app.status, "sending the report…");
    app.update(Message::BugReportSubmitted);
    let sent = app.log.iter().filter(|action| **action == Action::SendReport).count();
    assert_eq!(sent, 1, "one bug would be filed twice");
}

#[test]
fn a_setting_that_the_overlay_shows_redraws_it() {
    let mut app = app();
    for message in [
        Message::BrushKindChanged(CLAY),
        Message::BrushRadiusChanged(scalar(6.0)),
        Message::BrushStrengthChanged(scalar(0.4)),
        Message::BrushRadiusScaled(scalar(1.1)),
        Message::SymmetryAxisToggled(MirrorAxis::X),
        Message::SymmetryAxisToggled(MirrorAxis::X),
        Message::MenuFieldEdited(SizingTarget::Radius, "3".to_string()),
        Message::Resample(scalar(VOXEL_SIZE_MM / 2.0)),
    ] {
        app.log.clear();
        app.update(message);
        assert!(app.log.contains(&Action::RefreshOverlay), "{:?}", app.log);
    }
}

#[test]
fn the_history_budget_is_reported_before_anything_is_drawn() {
    let app = app();
    assert!(
        app.app.books.history_stats.budget_bytes > 0,
        "the overlay would show a zero byte history budget until the first stroke"
    );
}

#[test]
fn an_eviction_outranks_the_line_of_the_entry_that_caused_it() {
    fn about_to_evict() -> World {
        let mut app = app_with_bodies(3);
        app.update(Message::BodyDeleted);
        assert!(app.app.status.starts_with("deleted"), "{}", app.app.status);
        app.reclaim_budget = 1;
        app
    }
    let line = "undo history is full — a deleted body can no longer be brought back";

    let mut app = about_to_evict();
    app.update(Message::PrimitiveAdded(PrimitiveKind::Cube));
    assert_eq!(app.app.status, line, "an add spoke over it");

    let mut app = about_to_evict();
    app.update(Message::BodyDuplicated);
    assert_eq!(app.app.status, line, "a copy spoke over it");

    let mut app = about_to_evict();
    app.update(Message::BodyGrouped);
    assert_eq!(app.app.status, line, "a group spoke over it");

    let mut app = about_to_evict();
    let first = app.doc.nodes[0].id;
    app.update(Message::BodyVisibilityToggled(first));
    assert_eq!(app.app.status, line, "an eye spoke over it");

    let mut app = about_to_evict();
    let active = app.doc.active;
    app.update(Message::BodyRenameBegan(active));
    app.update(Message::BodyRenameEdited("Torso".to_string()));
    app.update(Message::BodyRenameSubmitted);
    assert_eq!(app.name_of(active), "Torso");
    assert_eq!(app.app.status, line, "a rename spoke over it");
}

#[test]
fn a_size_too_fine_for_memory_and_pool_lands_where_both_have_room() {
    let mut app = app();
    app.pool = Pool {
        vertices_reserved: 1_000_000,
        indices_reserved: 6_000_000,
        vertex_capacity: 1_500_000,
        index_capacity: 9_000_000,
        ..Pool::default()
    };
    app.resident_bytes = Some(4 * 1024 * 1024 * 1024);
    let before = app.doc.voxel;
    app.update(Message::Resample(scalar(before / 2.0)));
    let growth = (before / app.doc.voxel).powi(2) as f64;
    assert!(growth > 1.0, "it should still go finer: {}", app.app.status);
    assert!(growth * 1_000_000.0 <= 1_500_000.0, "the mesh pool would overflow");
    assert!(growth * 4.0 * GIGABYTE <= MEMORY_CEILING, "the memory would overflow");
}

#[test]
fn a_step_that_would_exhaust_memory_is_capped_even_when_the_pool_has_room() {
    let mut app = app();
    app.pool = Pool {
        vertices_reserved: 1_000_000,
        indices_reserved: 6_000_000,
        vertex_capacity: 64_000_000,
        index_capacity: 384_000_000,
        ..Pool::default()
    };
    app.resident_bytes = Some(4 * 1024 * 1024 * 1024);
    let before = app.doc.voxel;
    app.update(Message::Resample(scalar(before / 2.0)));
    assert!(app.doc.voxel < before, "it should still go finer, just not that fine");
    assert!(app.doc.voxel > before / 2.0, "and not all the way to the requested size");
    assert_eq!(
        app.app.status,
        "resampled to 0.182 mm -- the finest the mesh pool holds at this size (0.125 mm did not \
         fit), 12 dense bricks, 3.0 MB, 40 ms"
    );
}
