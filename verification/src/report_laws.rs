//! What the commands about reports and devices come to.
use vstd::prelude::*;

use crate::action::Action;
use crate::command_laws::{comes_to, lemma_acts};
use crate::message::Message;
use crate::state::{BrokkrV, MenusV, PromptsV};
use crate::text;
use crate::values::BugReportV;

verus! {

/// A new draft is empty and takes the detail along; what is typed and what is
/// switched is the draft's, and without a draft there is nothing to change; dismissing
/// throws it away.
pub proof fn a_draft_holds_what_was_put_into_it(s: BrokkrV, typed: String, on: bool)
    requires
        s.prompts.renaming is None,
    ensures
        comes_to(
            s,
            Message::BugReportOpened,
            BrokkrV {
                prompts: PromptsV {
                    bug_report: Some(
                        BugReportV { description: seq![], with_detail: true, sending: false },
                    ),
                    ..s.prompts
                },
                menus: MenusV { top_menu: None, ..s.menus },
                ..s
            },
            seq![],
        ),
        s.prompts.bug_report matches Some(draft) ==> {
            &&& comes_to(
                s,
                Message::BugReportEdited(typed),
                BrokkrV {
                    prompts: PromptsV {
                        bug_report: Some(BugReportV { description: typed@, ..draft }),
                        ..s.prompts
                    },
                    ..s
                },
                seq![],
            )
            &&& comes_to(
                s,
                Message::BugReportDetailToggled(on),
                BrokkrV {
                    prompts: PromptsV {
                        bug_report: Some(BugReportV { with_detail: on, ..draft }),
                        ..s.prompts
                    },
                    ..s
                },
                seq![],
            )
        },
        s.prompts.bug_report is None ==> comes_to(s, Message::BugReportEdited(typed), s, seq![])
            && comes_to(s, Message::BugReportDetailToggled(on), s, seq![]),
        comes_to(
            s,
            Message::BugReportDismissed,
            BrokkrV { prompts: PromptsV { bug_report: None, ..s.prompts }, ..s },
            seq![],
        ),
{
    lemma_acts(s, Message::BugReportOpened);
    lemma_acts(s, Message::BugReportEdited(typed));
    lemma_acts(s, Message::BugReportDetailToggled(on));
    lemma_acts(s, Message::BugReportDismissed);
    reveal(BrokkrV::dispatch_bug_report);
}

/// A draft with something in it is copied or sent as it was asked; one that is blank
/// is neither, and the line says why. Once the sending is over the draft is gone, and
/// the line is what came of it.
pub proof fn a_report_goes_where_it_was_asked_to(s: BrokkrV, note: String)
    requires
        s.prompts.renaming is None,
    ensures
        ({
            let blank = !(s.prompts.bug_report matches Some(draft) && text::trimmed(
                draft.description,
            ).len() > 0);
            let sending = s.prompts.bug_report matches Some(draft) && draft.sending;
            let gone = BrokkrV { prompts: PromptsV { bug_report: None, ..s.prompts }, ..s };
            &&& !blank ==> comes_to(s, Message::BugReportCopied, s, seq![Action::CopyReport])
            &&& blank ==> comes_to(
                s,
                Message::BugReportCopied,
                BrokkrV {
                    status: "could not build the report: describe the problem first"@,
                    ..s
                },
                seq![],
            )
            &&& !blank && !sending ==> comes_to(
                s,
                Message::BugReportSubmitted,
                s,
                seq![Action::SendReport],
            )
            &&& blank && !sending ==> comes_to(
                s,
                Message::BugReportSubmitted,
                BrokkrV { status: "could not send: describe the problem first"@, ..s },
                seq![],
            )
            &&& sending ==> comes_to(s, Message::BugReportSubmitted, s, seq![])
            &&& comes_to(
                s,
                Message::BugReportFinished(Ok(note)),
                BrokkrV { status: note@, ..gone },
                seq![],
            )
            &&& comes_to(
                s,
                Message::BugReportFinished(Err(note)),
                BrokkrV { status: "could not send the report: "@ + note@, ..gone },
                seq![],
            )
        }),
{
    lemma_acts(s, Message::BugReportCopied);
    lemma_acts(s, Message::BugReportSubmitted);
    lemma_acts(s, Message::BugReportFinished(Ok(note)));
    lemma_acts(s, Message::BugReportFinished(Err(note)));
    reveal(BrokkrV::dispatch_bug_report);
}

/// The commands of the help and print menus close the menu and ask for what they
/// name.
pub proof fn a_device_is_asked_for_by_its_own_command(s: BrokkrV)
    requires
        s.prompts.renaming is None,
    ensures
        ({
            let closed = BrokkrV { menus: MenusV { top_menu: None, ..s.menus }, ..s };
            &&& comes_to(s, Message::DiagnosticsCopied, s, seq![Action::GatherDiagnostics])
            &&& comes_to(
                s,
                Message::IssueOpened,
                BrokkrV {
                    status: "report bugs at "@
                        + "https://github.com/MakerViking/brokkrsculpt/issues/new"@,
                    ..closed
                },
                seq![],
            )
            &&& comes_to(s, Message::OpenInSlicer, closed, seq![Action::FindSlicer])
            &&& comes_to(s, Message::PrinterChecked, closed, seq![Action::FindPrinter])
        }),
{
    lemma_acts(s, Message::DiagnosticsCopied);
    lemma_acts(s, Message::IssueOpened);
    lemma_acts(s, Message::OpenInSlicer);
    lemma_acts(s, Message::PrinterChecked);
    reveal(BrokkrV::dispatch_devices);
}

/// The printer's answer is what the line says.
pub proof fn the_line_says_what_the_printer_answered(s: BrokkrV, answer: String)
    requires
        s.prompts.renaming is None,
    ensures
        comes_to(
            s,
            Message::PrinterAnswered(Ok(answer)),
            BrokkrV { status: answer@, ..s },
            seq![],
        ),
        comes_to(
            s,
            Message::PrinterAnswered(Err(answer)),
            BrokkrV { status: "could not reach the printer: "@ + answer@, ..s },
            seq![],
        ),
{
    lemma_acts(s, Message::PrinterAnswered(Ok(answer)));
    lemma_acts(s, Message::PrinterAnswered(Err(answer)));
    reveal(BrokkrV::dispatch_devices);
}

} // verus!
