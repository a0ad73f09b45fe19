//! Bug reports, diagnostics, the trail, and the printer's answer.
use vstd::prelude::*;

use crate::action::{Action, PrinterSearch};
use crate::state::{Brokkr, BrokkrV, MenusV, PromptsV, Step, TrailV, ISSUE_URL};
use crate::text;
use crate::values::{BugReport, BugReportV};

verus! {

/// What is known of the program and the machine, with every number written out.
#[derive(Debug)]
pub struct DiagnosticFacts {
    pub version: String,
    pub commit: String,
    pub session_type: String,
    pub desktop: String,
    pub adapter: String,
    pub voxel: String,
    pub dense_bricks: u64,
    pub uniform_bricks: u64,
    pub megabytes: String,
    pub triangles: u64,
    pub drawn: u64,
    pub culled: u64,
    pub hidden: u64,
    pub fps: String,
    pub tablet: String,
    pub spacemouse: String,
    /// Whether anything is on the trail.
    pub has_trail: bool,
    /// The trail, cut to what a report takes along.
    pub trail: Vec<String>,
}

/// The first `n` crumbs of the trail, a line each.
pub open spec fn crumb_lines(trail: Seq<String>, n: int) -> Seq<char>
    decreases n,
{
    if n <= 0 {
        ""@
    } else {
        crumb_lines(trail, n - 1) + "  "@ + trail[n - 1]@ + "\n"@
    }
}

/// The program and the machine.
pub open spec fn machine_lines(f: DiagnosticFacts) -> Seq<char> {
    "BrokkrSculpt "@ + f.version@ + " ("@ + f.commit@ + ")\nsession: "@ + f.session_type@ + " on "@
        + f.desktop@ + "\nwgpu: "@ + f.adapter@
}

/// The model.
pub open spec fn model_lines(f: DiagnosticFacts) -> Seq<char> {
    "\nmodel: voxel "@ + f.voxel@ + " mm, "@ + text::decimal(f.dense_bricks as nat) + " dense + "@
        + text::decimal(f.uniform_bricks as nat) + " uniform bricks, "@ + f.megabytes@ + " MB"@
}

/// What is drawn, and the devices.
pub open spec fn view_lines(f: DiagnosticFacts) -> Seq<char> {
    "\nview: "@ + text::decimal(f.triangles as nat) + " triangles, "@ + text::decimal(
        f.drawn as nat,
    ) + " drawn / "@ + text::decimal(f.culled as nat) + " culled / "@ + text::decimal(
        f.hidden as nat,
    ) + " hidden, "@ + f.fps@ + " fps\ntablet: "@ + f.tablet@ + "\nspacemouse: "@ + f.spacemouse@
        + "\n"@
}

/// What a report is made of.
#[derive(Debug)]
pub struct ReportParts {
    pub description: String,
    /// Empty where the user kept the detail back.
    pub diagnostics: String,
    /// Whether the trail goes along.
    pub with_trail: bool,
}

impl BrokkrV {
    /// The diagnostics, the last status line among them.
    pub open spec fn diagnostics(self, f: DiagnosticFacts) -> Seq<char> {
        machine_lines(f) + model_lines(f) + view_lines(f) + (if self.status.len() > 0 {
            "last message: "@ + self.status + "\n"@
        } else {
            ""@
        }) + (if f.has_trail {
            "\ntrail:\n"@ + crumb_lines(f.trail@, f.trail@.len() as int)
        } else {
            ""@
        })
    }

    /// Whether there is a draft with anything in it.
    pub open spec fn reportable(self) -> bool {
        self.prompts.bug_report matches Some(draft) && text::trimmed(draft.description).len() > 0
    }

    /// The session with another draft, or none.
    pub open spec fn drafting(self, draft: Option<BugReportV>) -> BrokkrV {
        BrokkrV { prompts: PromptsV { bug_report: draft, ..self.prompts }, ..self }
    }

    /// The session with the title bar's menu closed.
    pub open spec fn without_top_menu(self) -> BrokkrV {
        self.with_menus(MenusV { top_menu: None, ..self.menus })
    }

    /// A new draft.
    pub open spec fn bug_report_opened(self) -> BrokkrV {
        self.without_top_menu().drafting(
            Some(BugReportV { description: seq![], with_detail: true, sending: false }),
        )
    }

    /// What is typed into the draft.
    pub open spec fn bug_report_edited(self, description: Seq<char>) -> BrokkrV {
        match self.prompts.bug_report {
            Some(draft) => self.drafting(Some(BugReportV { description: description, ..draft })),
            None => self,
        }
    }

    /// Whether the detail goes along.
    pub open spec fn bug_report_detail_toggled(self, on: bool) -> BrokkrV {
        match self.prompts.bug_report {
            Some(draft) => self.drafting(Some(BugReportV { with_detail: on, ..draft })),
            None => self,
        }
    }

    /// The report to be copied, or a word on what is missing.
    pub open spec fn bug_report_copied(self) -> Step {
        if self.reportable() {
            self.asking(Action::CopyReport)
        } else {
            self.saying("could not build the report: describe the problem first"@).quiet()
        }
    }

    /// Whether the report is on its way.
    pub open spec fn sending(self) -> bool {
        self.prompts.bug_report matches Some(draft) && draft.sending
    }

    /// The report to be sent, or a word on what is missing. One that is on its way
    /// is not sent again.
    pub open spec fn bug_report_submitted(self) -> Step {
        if self.sending() {
            self.quiet()
        } else if self.reportable() {
            self.asking(Action::SendReport)
        } else {
            self.saying("could not send: describe the problem first"@).quiet()
        }
    }

    /// The report is on its way.
    pub open spec fn report_sent(self) -> BrokkrV {
        (match self.prompts.bug_report {
            Some(draft) => self.drafting(Some(BugReportV { sending: true, ..draft })),
            None => self,
        }).saying("sending the report…"@)
    }

    /// The report arrived, or did not.
    pub open spec fn bug_report_finished(self, outcome: Result<String, String>) -> BrokkrV {
        self.drafting(None).saying(
            match outcome {
                Ok(note) => note@,
                Err(why) => "could not send the report: "@ + why@,
            },
        )
    }

    /// What was found of the printer.
    pub open spec fn printer_sought(self, found: PrinterSearch) -> Step {
        match found {
            PrinterSearch::NoConfigPlace => self.saying(
                "could not work out where the printer config lives"@,
            ).quiet(),
            PrinterSearch::Unconfigured { config } => self.saying(
                "no printer set — put `host = 192.0.2.46` in "@ + config@,
            ).quiet(),
            PrinterSearch::Configured { host } => self.saying("asking "@ + host@ + "…"@).asking(
                Action::AskPrinter,
            ),
        }
    }

    /// What the printer answered.
    pub open spec fn printer_answered(self, answer: Result<String, String>) -> BrokkrV {
        self.saying(
            match answer {
                Ok(summary) => summary@,
                Err(why) => "could not reach the printer: "@ + why@,
            },
        )
    }

    /// A frame: the machine's facts go on the trail once, each new status line
    /// once, and everything that moves by itself moves on.
    pub open spec fn frame(self) -> Step {
        Step {
            state: BrokkrV {
                trail: TrailV { crumbed_status: self.status, facts_recorded: true },
                ..self
            },
            actions: (if self.trail.facts_recorded {
                seq![]
            } else {
                seq![Action::RecordSessionFacts]
            }) + (if self.status == self.trail.crumbed_status {
                seq![]
            } else {
                seq![Action::DropCrumb]
            }) + seq![
                Action::AdvanceFlight,
                Action::AdvanceTimeline,
                Action::DriveSpaceMouse,
                Action::ConsiderAutosave,
            ],
        }
    }
}

fn write_machine_lines(f: &DiagnosticFacts) -> (r: String)
    ensures
        r@ == machine_lines(*f),
{
    String::from_str("BrokkrSculpt ").concat(f.version.as_str()).concat(" (").concat(
        f.commit.as_str(),
    ).concat(")\nsession: ").concat(f.session_type.as_str()).concat(" on ").concat(
        f.desktop.as_str(),
    ).concat("\nwgpu: ").concat(f.adapter.as_str())
}

fn write_model_lines(f: &DiagnosticFacts) -> (r: String)
    ensures
        r@ == model_lines(*f),
{
    let dense: String = text::write_decimal(f.dense_bricks);
    let uniform: String = text::write_decimal(f.uniform_bricks);
    String::from_str("\nmodel: voxel ").concat(f.voxel.as_str()).concat(" mm, ").concat(
        dense.as_str(),
    ).concat(" dense + ").concat(uniform.as_str()).concat(" uniform bricks, ").concat(
        f.megabytes.as_str(),
    ).concat(" MB")
}

fn write_view_lines(f: &DiagnosticFacts) -> (r: String)
    ensures
        r@ == view_lines(*f),
{
    let triangles: String = text::write_decimal(f.triangles);
    let drawn: String = text::write_decimal(f.drawn);
    let culled: String = text::write_decimal(f.culled);
    let hidden: String = text::write_decimal(f.hidden);
    String::from_str("\nview: ").concat(triangles.as_str()).concat(" triangles, ").concat(
        drawn.as_str(),
    ).concat(" drawn / ").concat(culled.as_str()).concat(" culled / ").concat(
        hidden.as_str(),
    ).concat(" hidden, ").concat(f.fps.as_str()).concat(" fps\ntablet: ").concat(
        f.tablet.as_str(),
    ).concat("\nspacemouse: ").concat(f.spacemouse.as_str()).concat("\n")
}

fn write_crumb_lines(trail: &Vec<String>) -> (r: String)
    ensures
        r@ == crumb_lines(trail@, trail@.len() as int),
{
    let mut out: String = String::from_str("");
    let mut n: usize = 0;
    while n < trail.len()
        invariant
            n <= trail@.len(),
            out@ == crumb_lines(trail@, n as int),
        decreases trail@.len() - n,
    {
        out = out.concat("  ").concat(trail[n].as_str()).concat("\n");
        n = n + 1;
    }
    out
}

/// The facts that go on the trail once, at the first frame.
pub fn session_facts(
    adapter: &str,
    session_type: &str,
    desktop: &str,
    tablet: &str,
    spacemouse: &str,
) -> (r: (String, String, String, String))
    ensures
        r.0@ == "[wgpu] "@ + adapter@,
        r.1@ == "[session] "@ + session_type@ + " on "@ + desktop@,
        r.2@ == "[tablet] "@ + tablet@,
        r.3@ == "[spacemouse] "@ + spacemouse@,
{
    (
        String::from_str("[wgpu] ").concat(adapter),
        String::from_str("[session] ").concat(session_type).concat(" on ").concat(desktop),
        String::from_str("[tablet] ").concat(tablet),
        String::from_str("[spacemouse] ").concat(spacemouse),
    )
}

impl Brokkr {
    /// The diagnostics.
    pub fn diagnostics(&self, f: &DiagnosticFacts) -> (r: String)
        ensures
            r@ == self@.diagnostics(*f),
    {
        let model: String = write_model_lines(f);
        let view: String = write_view_lines(f);
        let last: String = if self.status.as_str().is_empty() {
            String::from_str("")
        } else {
            String::from_str("last message: ").concat(self.status.as_str()).concat("\n")
        };
        let trail: String = if f.has_trail {
            let crumbs: String = write_crumb_lines(&f.trail);
            String::from_str("\ntrail:\n").concat(crumbs.as_str())
        } else {
            String::from_str("")
        };
        write_machine_lines(f).concat(model.as_str()).concat(view.as_str()).concat(
            last.as_str(),
        ).concat(trail.as_str())
    }

    /// Whether there is a draft with anything in it.
    pub fn reportable(&self) -> (r: bool)
        ensures
            r == self@.reportable(),
    {
        match &self.prompts.bug_report {
            Some(draft) => {
                let said: String = text::trim(draft.description.as_str());
                !said.as_str().is_empty()
            },
            None => false,
        }
    }

    /// What a report is made of, where there is anything to report.
    pub fn assemble_report(&self, f: &DiagnosticFacts) -> (r: Option<ReportParts>)
        ensures
            r is Some <==> self@.reportable(),
            r matches Some(parts) ==> {
                let draft = self@.prompts.bug_report->0;
                &&& parts.description@ == draft.description
                &&& parts.with_trail == draft.with_detail
                &&& parts.diagnostics@ == if draft.with_detail {
                    self@.diagnostics(*f)
                } else {
                    ""@
                }
            },
    {
        if !self.reportable() {
            return None;
        }
        match &self.prompts.bug_report {
            Some(draft) => {
                let diagnostics: String = if draft.with_detail {
                    self.diagnostics(f)
                } else {
                    String::from_str("")
                };
                Some(
                    ReportParts {
                        description: draft.description.clone(),
                        diagnostics,
                        with_trail: draft.with_detail,
                    },
                )
            },
            None => None,
        }
    }

    /// Opens a new draft.
    pub fn bug_report_opened(&mut self)
        ensures
            final(self)@ == old(self)@.bug_report_opened(),
    {
        self.menus.top_menu = None;
        self.prompts.bug_report = Some(BugReport::new());
    }

    /// Takes what was typed into the draft.
    pub fn bug_report_edited(&mut self, description: String)
        ensures
            final(self)@ == old(self)@.bug_report_edited(description@),
    {
        match self.prompts.bug_report.take() {
            Some(mut draft) => {
                draft.description = description;
                self.prompts.bug_report = Some(draft);
            },
            None => {},
        }
    }

    /// Takes the detail along, or keeps it back.
    pub fn bug_report_detail_toggled(&mut self, on: bool)
        ensures
            final(self)@ == old(self)@.bug_report_detail_toggled(on),
    {
        match self.prompts.bug_report.take() {
            Some(mut draft) => {
                draft.with_detail = on;
                self.prompts.bug_report = Some(draft);
            },
            None => {},
        }
    }

    /// Asks for the report to be copied.
    pub fn bug_report_copied(&mut self) -> (actions: Vec<Action>)
        requires
            old(self)@.wf(),
        ensures
            final(self)@ == old(self)@.bug_report_copied().state,
            actions@ == old(self)@.bug_report_copied().actions,
            final(self)@.wf(),
    {
        if self.reportable() {
            vec![Action::CopyReport]
        } else {
            self.status = String::from_str(
                "could not build the report: describe the problem first",
            );
            Vec::new()
        }
    }

    /// Asks for the report to be sent.
    pub fn bug_report_submitted(&mut self) -> (actions: Vec<Action>)
        requires
            old(self)@.wf(),
        ensures
            final(self)@ == old(self)@.bug_report_submitted().state,
            actions@ == old(self)@.bug_report_submitted().actions,
            final(self)@.wf(),
    {
        let sending: bool = match &self.prompts.bug_report {
            Some(draft) => draft.sending,
            None => false,
        };
        if sending {
            Vec::new()
        } else if self.reportable() {
            vec![Action::SendReport]
        } else {
            self.status = String::from_str("could not send: describe the problem first");
            Vec::new()
        }
    }

    /// Notes that the report is on its way.
    pub fn report_sent(&mut self)
        ensures
            final(self)@ == old(self)@.report_sent(),
    {
        match self.prompts.bug_report.take() {
            Some(mut draft) => {
                draft.sending = true;
                self.prompts.bug_report = Some(draft);
            },
            None => {},
        }
        self.status = String::from_str("sending the report…");
    }

    /// Says how sending the report ended.
    pub fn bug_report_finished(&mut self, outcome: Result<String, String>)
        ensures
            final(self)@ == old(self)@.bug_report_finished(outcome),
    {
        self.prompts.bug_report = None;
        self.status = match outcome {
            Ok(note) => note,
            Err(why) => String::from_str("could not send the report: ").concat(why.as_str()),
        };
    }

    /// Says where bugs are reported.
    pub fn issue_opened(&mut self)
        ensures
            final(self)@ == old(self)@.without_top_menu().saying("report bugs at "@ + ISSUE_URL@),
    {
        self.menus.top_menu = None;
        self.status = String::from_str("report bugs at ").concat(ISSUE_URL);
    }

    /// Takes in what was found of the printer.
    pub fn printer_sought(&mut self, found: PrinterSearch) -> (actions: Vec<Action>)
        requires
            old(self)@.wf(),
        ensures
            final(self)@ == old(self)@.printer_sought(found).state,
            actions@ == old(self)@.printer_sought(found).actions,
            final(self)@.wf(),
    {
        match found {
            PrinterSearch::NoConfigPlace => {
                self.status = String::from_str(
                    "could not work out where the printer config lives",
                );
                Vec::new()
            },
            PrinterSearch::Unconfigured { config } => {
                self.status = String::from_str(
                    "no printer set — put `host = 192.0.2.46` in ",
                ).concat(config.as_str());
                Vec::new()
            },
            PrinterSearch::Configured { host } => {
                self.status = String::from_str("asking ").concat(host.as_str()).concat("…");
                vec![Action::AskPrinter]
            },
        }
    }

    /// Says what the printer answered.
    pub fn printer_answered(&mut self, answer: Result<String, String>)
        ensures
            final(self)@ == old(self)@.printer_answered(answer),
    {
        self.status = match answer {
            Ok(summary) => summary,
            Err(why) => String::from_str("could not reach the printer: ").concat(why.as_str()),
        };
    }

    /// One frame.
    pub fn frame(&mut self) -> (actions: Vec<Action>)
        requires
            old(self)@.wf(),
        ensures
            final(self)@ == old(self)@.frame().state,
            actions@ == old(self)@.frame().actions,
            final(self)@.wf(),
    {
        let mut actions: Vec<Action> = Vec::new();
        if !self.trail.facts_recorded {
            self.trail.facts_recorded = true;
            actions.push(Action::RecordSessionFacts);
        }
        if self.status != self.trail.crumbed_status {
            self.trail.crumbed_status = self.status.clone();
            actions.push(Action::DropCrumb);
        }
        actions.push(Action::AdvanceFlight);
        actions.push(Action::AdvanceTimeline);
        actions.push(Action::DriveSpaceMouse);
        actions.push(Action::ConsiderAutosave);
        assert(actions@ =~= old(self)@.frame().actions);
        actions
    }
}

/// One report is sent once, however often it is submitted while it is on its way.
pub proof fn a_report_is_sent_once(s: BrokkrV)
    requires
        s.reportable(),
        !s.sending(),
    ensures
        s.bug_report_submitted() == s.asking(Action::SendReport),
        s.report_sent().sending(),
        s.report_sent().bug_report_submitted() == s.report_sent().quiet(),
{
}

/// A status line goes on the trail once: a frame after a frame drops no crumb.
pub proof fn a_status_line_leaves_one_crumb(s: BrokkrV)
    ensures
        s.frame().state.frame().actions == seq![
            Action::AdvanceFlight,
            Action::AdvanceTimeline,
            Action::DriveSpaceMouse,
            Action::ConsiderAutosave,
        ],
        s.frame().state.frame().state == s.frame().state,
{
    assert(s.frame().state.frame().actions =~= seq![
        Action::AdvanceFlight,
        Action::AdvanceTimeline,
        Action::DriveSpaceMouse,
        Action::ConsiderAutosave,
    ]);
}

} // verus!
