//! The size of the model and of its voxels, and which way up it stands.
use vstd::prelude::*;

use crate::action::{Action, Regrouped, ResampleFacts, WorkingSizeFacts};
use crate::files;
use crate::outline::{Outline, OutlineV};
use crate::state::{Brokkr, BrokkrV, MenusV, PanelV, Step};
use crate::text;
use crate::values::{Brush, Facing, HistoryStats, Scalar};

verus! {

/// Whether a finer voxel fits.
#[derive(Clone, Copy, Debug, PartialEq, Eq, Structural)]
pub enum PoolVerdict {
    Fits,
    OutOfMemory,
    OutOfPool,
}

/// Whether a voxel size fits: one that is no finer always does, then memory is
/// asked, then the mesh pool, which has no say while it holds nothing.
pub fn pool_verdict(
    finer: bool,
    over_memory: bool,
    vertices_reserved: u64,
    vertices_fit: bool,
    indices_fit: bool,
) -> (r: PoolVerdict)
    ensures
        r == if !finer {
            PoolVerdict::Fits
        } else if over_memory {
            PoolVerdict::OutOfMemory
        } else if vertices_reserved == 0 || (vertices_fit && indices_fit) {
            PoolVerdict::Fits
        } else {
            PoolVerdict::OutOfPool
        },
{
    if !finer {
        PoolVerdict::Fits
    } else if over_memory {
        PoolVerdict::OutOfMemory
    } else if vertices_reserved == 0 || (vertices_fit && indices_fit) {
        PoolVerdict::Fits
    } else {
        PoolVerdict::OutOfPool
    }
}

/// Why a voxel size is too fine for the memory.
pub fn out_of_memory_line(wanted: &str, needs: &str, ceiling: &str, finest: &str) -> (r: String)
    ensures
        r@ == "could not resample to "@ + wanted@ + " mm: it needs about "@ + needs@
            + " GB of memory against a "@ + ceiling@ + " GB ceiling -- "@ + finest@
            + " mm is the finest that fits"@,
{
    String::from_str("could not resample to ").concat(wanted).concat(
        " mm: it needs about ",
    ).concat(needs).concat(" GB of memory against a ").concat(ceiling).concat(
        " GB ceiling -- ",
    ).concat(finest).concat(" mm is the finest that fits")
}

/// Why a voxel size is too fine for the mesh pool.
pub fn out_of_pool_line(wanted: &str, needs: &str, capacity: &str, finest: &str) -> (r: String)
    ensures
        r@ == "could not resample to "@ + wanted@ + " mm: it needs about "@ + needs@
            + "M vertices against a pool of "@ + capacity@ + "M -- "@ + finest@
            + " mm is the finest that fits at this size"@,
{
    String::from_str("could not resample to ").concat(wanted).concat(
        " mm: it needs about ",
    ).concat(needs).concat("M vertices against a pool of ").concat(capacity).concat(
        "M -- ",
    ).concat(finest).concat(" mm is the finest that fits at this size")
}

/// What a voxel size is good for.
pub open spec fn verdict(at_resin: bool, at_filament: bool) -> Seq<char> {
    if at_resin {
        "at or below what a resin printer resolves"@
    } else if at_filament {
        "finer than a filament nozzle, coarser than resin"@
    } else {
        "coarse: a filament nozzle would not see the difference"@
    }
}

/// What the panel says of the detail: the model's extent, the voxel, and what a
/// printer would make of it.
pub fn detail_advice(
    has_model: bool,
    longest: &str,
    voxel: &str,
    across: &str,
    at_resin: bool,
    at_filament: bool,
) -> (r: String)
    ensures
        r@ == if has_model {
            longest@ + " mm across, voxel "@ + voxel@ + " mm, "@ + across@ + " voxels wide -- "@
                + verdict(at_resin, at_filament)
        } else {
            "no model"@
        },
{
    if !has_model {
        return String::from_str("no model");
    }
    let verdict: &str = if at_resin {
        "at or below what a resin printer resolves"
    } else if at_filament {
        "finer than a filament nozzle, coarser than resin"
    } else {
        "coarse: a filament nozzle would not see the difference"
    };
    String::from_str(longest).concat(" mm across, voxel ").concat(voxel).concat(" mm, ").concat(
        across,
    ).concat(" voxels wide -- ").concat(verdict)
}

/// What is said once the model was resampled.
pub open spec fn resampled_line(
    size: Seq<char>,
    wanted: Option<Seq<char>>,
    dense: nat,
    megabytes: Seq<char>,
    millis: Seq<char>,
) -> Seq<char> {
    "resampled to "@ + size + " mm"@ + (match wanted {
        Some(wanted) => " -- the finest the mesh pool holds at this size ("@ + wanted
            + " mm did not fit)"@,
        None => ""@,
    }) + ", "@ + text::decimal(dense) + " dense bricks, "@ + megabytes + " MB, "@ + millis
        + " ms"@
}

/// Why the working size cannot be set, where it cannot. The first reason is the
/// one that is given.
pub open spec fn working_size_refusal(facts: WorkingSizeFacts) -> Option<Seq<char>> {
    if !facts.parsed {
        Some("could not resize: type a size in millimetres"@)
    } else if !facts.is_length {
        Some("could not resize: that is not a length"@)
    } else if !facts.has_model {
        Some("could not resize: there is no model"@)
    } else if !facts.has_size {
        Some("could not resize: the model has no size"@)
    } else if !facts.in_range {
        Some(
            "could not resize to "@ + facts.longest@ + " mm: that would put the voxel at "@
                + facts.voxel@ + " mm, outside the "@ + facts.range@ + " mm range"@,
        )
    } else {
        None
    }
}

impl BrokkrV {
    /// The session with another side panel.
    pub open spec fn with_panel(self, panel: PanelV) -> BrokkrV {
        BrokkrV { panel: panel, ..self }
    }

    /// A change of the voxel size: nothing where there is none to make, the
    /// finest size that fits where the wanted one does not and this helps, and a
    /// refusal where it does not help.
    pub open spec fn resample_measured(self, facts: ResampleFacts) -> Step {
        if facts.unchanged {
            self.quiet()
        } else {
            match facts.too_fine {
                Some(why) => if facts.fallback_helps {
                    self.asking(Action::Resample { to: facts.fallback, wanted: Some(facts.wanted) })
                } else {
                    self.saying(why@).quiet()
                },
                None => self.asking(Action::Resample { to: facts.wanted, wanted: None }),
            }
        }
    }

    /// A model that was resampled. Undo does not reach back over it.
    pub open spec fn resampled(
        self,
        outline: OutlineV,
        stats: HistoryStats,
        line: Seq<char>,
    ) -> Step {
        Step {
            state: self.with_outline(outline).dirty().counting(stats).rebuilt().saying(line),
            actions: files::rebuilding(),
        }
    }

    /// A working size that was typed. The field is emptied either way.
    pub open spec fn working_size_read(self, facts: WorkingSizeFacts) -> Step {
        let emptied = self.with_panel(PanelV { working_size_field: ""@, ..self.panel });
        match working_size_refusal(facts) {
            Some(why) => emptied.saying(why).quiet(),
            None => emptied.asking(
                Action::Rescale { factor: facts.factor, length: facts.length },
            ),
        }
    }

    /// A model that was given another size.
    pub open spec fn rescaled(
        self,
        outline: OutlineV,
        radius: Scalar,
        longest: Seq<char>,
        advice: Seq<char>,
    ) -> Step {
        let sized = self.with_outline(outline).wielding(
            Brush { radius: radius, ..self.tool.brush },
        ).dirty().unmeasured().rebuilt();
        Step {
            state: sized.with_panel(PanelV { detail_advice: advice, ..sized.panel }).saying(
                "working size "@ + longest + " mm, "@ + advice,
            ),
            actions: seq![
                Action::RebuildEverything,
                Action::FrameMeasured,
                Action::RefreshOverlay,
            ],
        }
    }

    /// A face of the cube's menu chosen: the model is to be turned, and the menu
    /// closes.
    pub open spec fn orient_face(self, to: Facing) -> Step {
        match self.menus.cube_menu {
            Some(menu) => self.with_menus(MenusV { cube_menu: None, ..self.menus }).asking(
                Action::Orient { from: menu.facing, to: to },
            ),
            None => self.quiet(),
        }
    }

    /// The question which way is up, answered.
    pub open spec fn orient_prompt_answered(self, accept: bool) -> Step {
        match self.prompts.orient_prompt {
            Some(up) => if accept {
                self.asking_up(None).asking(Action::Orient { from: up, to: Facing::Up })
            } else {
                self.asking_up(None).quiet()
            },
            None => self.quiet(),
        }
    }

    /// A model that was turned.
    pub open spec fn oriented(
        self,
        outline: OutlineV,
        stats: HistoryStats,
        millis: Seq<char>,
    ) -> Step {
        Step {
            state: self.with_outline(outline).dirty().counting(stats).rebuilt().saying(
                "turned the model, "@ + millis + " ms -- turn it back the same way to undo"@,
            ),
            actions: files::rebuilding(),
        }
    }
}

impl Brokkr {
    /// Asks for the model to be resampled, or says why not.
    pub fn resample_measured(&mut self, facts: ResampleFacts) -> (actions: Vec<Action>)
        requires
            old(self)@.wf(),
        ensures
            final(self)@ == old(self)@.resample_measured(facts).state,
            actions@ == old(self)@.resample_measured(facts).actions,
            final(self)@.wf(),
    {
        if facts.unchanged {
            return Vec::new();
        }
        match facts.too_fine {
            Some(why) => {
                if facts.fallback_helps {
                    vec![Action::Resample { to: facts.fallback, wanted: Some(facts.wanted) }]
                } else {
                    self.status = why;
                    Vec::new()
                }
            },
            None => vec![Action::Resample { to: facts.wanted, wanted: None }],
        }
    }

    /// Takes in a model that was resampled.
    pub fn resampled(
        &mut self,
        outline: Outline,
        stats: HistoryStats,
        size: String,
        wanted: Option<String>,
        dense: u64,
        megabytes: String,
        millis: String,
    ) -> (actions: Vec<Action>)
        requires
            old(self)@.wf(),
            outline@.wf(),
        ensures
            final(self)@ == old(self)@.resampled(
                outline@,
                stats,
                resampled_line(
                    size@,
                    crate::values::chars_of(wanted),
                    dense as nat,
                    megabytes@,
                    millis@,
                ),
            ).state,
            actions@ == files::rebuilding(),
            final(self)@.wf(),
    {
        self.outline = outline;
        self.file.unsaved = true;
        self.books.history_stats = stats;
        self.rebuilt();
        let capped: String = match wanted {
            Some(wanted) => String::from_str(
                " -- the finest the mesh pool holds at this size (",
            ).concat(wanted.as_str()).concat(" mm did not fit)"),
            None => String::from_str(""),
        };
        let number: String = text::write_decimal(dense);
        self.status = String::from_str("resampled to ").concat(size.as_str()).concat(
            " mm",
        ).concat(capped.as_str()).concat(", ").concat(number.as_str()).concat(
            " dense bricks, ",
        ).concat(megabytes.as_str()).concat(" MB, ").concat(millis.as_str()).concat(" ms");
        vec![Action::RebuildEverything, Action::RefreshAdvice, Action::RefreshOverlay]
    }

    /// Asks for the model to be given the size that was typed, or says why not.
    pub fn working_size_read(&mut self, facts: WorkingSizeFacts) -> (actions: Vec<Action>)
        requires
            old(self)@.wf(),
        ensures
            final(self)@ == old(self)@.working_size_read(facts).state,
            actions@ == old(self)@.working_size_read(facts).actions,
            final(self)@.wf(),
    {
        self.panel.working_size_field = String::from_str("");
        let refusal: String = if !facts.parsed {
            String::from_str("could not resize: type a size in millimetres")
        } else if !facts.is_length {
            String::from_str("could not resize: that is not a length")
        } else if !facts.has_model {
            String::from_str("could not resize: there is no model")
        } else if !facts.has_size {
            String::from_str("could not resize: the model has no size")
        } else if !facts.in_range {
            String::from_str("could not resize to ").concat(facts.longest.as_str()).concat(
                " mm: that would put the voxel at ",
            ).concat(facts.voxel.as_str()).concat(" mm, outside the ").concat(
                facts.range.as_str(),
            ).concat(" mm range")
        } else {
            return vec![Action::Rescale { factor: facts.factor, length: facts.length }];
        };
        self.status = refusal;
        Vec::new()
    }

    /// Takes in a model that was given another size.
    pub fn rescaled(
        &mut self,
        outline: Outline,
        radius: Scalar,
        longest: String,
        advice: String,
    ) -> (actions: Vec<Action>)
        requires
            old(self)@.wf(),
            outline@.wf(),
        ensures
            final(self)@ == old(self)@.rescaled(outline@, radius, longest@, advice@).state,
            actions@ == old(self)@.rescaled(outline@, radius, longest@, advice@).actions,
            final(self)@.wf(),
    {
        self.outline = outline;
        self.tool.brush.radius = radius;
        self.file.unsaved = true;
        self.books.model_radius_body = None;
        self.rebuilt();
        self.status = String::from_str("working size ").concat(longest.as_str()).concat(
            " mm, ",
        ).concat(advice.as_str());
        self.panel.detail_advice = advice;
        vec![Action::RebuildEverything, Action::FrameMeasured, Action::RefreshOverlay]
    }

    /// Takes in what the panel is to say of the detail.
    pub fn advise(&mut self, advice: String)
        ensures
            final(self)@ == old(self)@.with_panel(
                (PanelV { detail_advice: advice@, ..old(self)@.panel }),
            ),
    {
        self.panel.detail_advice = advice;
    }

    /// Asks for the model to be turned from the cube's menu.
    pub fn orient_face(&mut self, to: Facing) -> (actions: Vec<Action>)
        requires
            old(self)@.wf(),
        ensures
            final(self)@ == old(self)@.orient_face(to).state,
            actions@ == old(self)@.orient_face(to).actions,
            final(self)@.wf(),
    {
        match self.menus.cube_menu {
            Some(menu) => {
                self.menus.cube_menu = None;
                vec![Action::Orient { from: menu.facing, to }]
            },
            None => Vec::new(),
        }
    }

    /// Answers the question which way is up.
    pub fn orient_prompt_answered(&mut self, accept: bool) -> (actions: Vec<Action>)
        requires
            old(self)@.wf(),
        ensures
            final(self)@ == old(self)@.orient_prompt_answered(accept).state,
            actions@ == old(self)@.orient_prompt_answered(accept).actions,
            final(self)@.wf(),
    {
        match self.prompts.orient_prompt {
            Some(up) => {
                self.prompts.orient_prompt = None;
                if accept {
                    vec![Action::Orient { from: up, to: Facing::Up }]
                } else {
                    Vec::new()
                }
            },
            None => Vec::new(),
        }
    }

    /// Takes in a model that was turned; one that was turned onto itself changed
    /// nothing.
    pub fn oriented(&mut self, outcome: Option<(Regrouped, String)>) -> (actions: Vec<Action>)
        requires
            old(self)@.wf(),
            outcome matches Some(turn) ==> turn.0.outline@.wf(),
        ensures
            final(self)@ == match outcome {
                Some(turn) => old(self)@.oriented(
                    turn.0.outline@,
                    turn.0.history.stats,
                    turn.1@,
                ).state,
                None => old(self)@,
            },
            actions@ == match outcome {
                Some(turn) => files::rebuilding(),
                None => seq![],
            },
            final(self)@.wf(),
    {
        match outcome {
            Some(turn) => {
                self.outline = turn.0.outline;
                self.file.unsaved = true;
                self.books.history_stats = turn.0.history.stats;
                self.rebuilt();
                self.status = String::from_str("turned the model, ").concat(
                    turn.1.as_str(),
                ).concat(" ms -- turn it back the same way to undo");
                vec![Action::RebuildEverything, Action::RefreshAdvice, Action::RefreshOverlay]
            },
            None => Vec::new(),
        }
    }
}

} // verus!
