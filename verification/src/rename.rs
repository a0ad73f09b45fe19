//! Renaming a row in place: open the field, type, leave.
use vstd::prelude::*;

use crate::action::Action;
use crate::outline;
use crate::outline::NodeId;
use crate::state::{Brokkr, BrokkrV, PromptsV, Step};
use crate::text;
use crate::values::{Renaming, RenamingV};

verus! {

/// What of the typed text becomes the row's name: no white space at either end,
/// and no more than a file holds.
pub open spec fn committed_name(typed: Seq<char>) -> Seq<char> {
    text::trimmed_end(text::fitting(text::trimmed(typed)))
}

impl BrokkrV {
    /// The session with another rename under way, or none.
    pub open spec fn renaming_as(self, renaming: Option<RenamingV>) -> BrokkrV {
        BrokkrV { prompts: PromptsV { renaming: renaming, ..self.prompts }, ..self }
    }

    /// The rename field opened on a row, with the row's name in it.
    pub open spec fn begin_rename(self, id: NodeId) -> Step {
        if self.outline.has(id) {
            self.renaming_as(Some(RenamingV { id: id, text: self.outline.name_of(id) })).asking(
                Action::FocusRename,
            )
        } else {
            self.quiet()
        }
    }

    /// What is typed into the field, as far as a file holds it.
    pub open spec fn edit_rename(self, typed: Seq<char>) -> BrokkrV {
        match self.prompts.renaming {
            Some(r) => self.renaming_as(Some(RenamingV { id: r.id, text: text::fitting(typed) })),
            None => self,
        }
    }

    /// The field left: its text becomes the row's name, unless there is nothing
    /// in it, or it is the name already, or the row is gone.
    pub open spec fn commit_rename(self) -> Step {
        match self.prompts.renaming {
            Some(r) => {
                let closed = self.renaming_as(None);
                let name = committed_name(r.text);
                let was = self.outline.name_of(r.id);
                if !self.outline.has(r.id) {
                    closed.quiet()
                } else if name.len() == 0 {
                    closed.saying("a body needs a name — kept "@ + was).quiet()
                } else if name == was {
                    closed.quiet()
                } else {
                    closed.with_outline(
                        self.outline.with_name(self.outline.at(r.id), name),
                    ).dirty().saying("renamed "@ + was + " to "@ + name).asking(
                        Action::WriteName(r.id),
                    )
                }
            },
            None => self.quiet(),
        }
    }

    /// The field closed, and what was typed thrown away.
    pub open spec fn cancel_rename(self) -> BrokkrV {
        self.renaming_as(None)
    }
}

impl Brokkr {
    /// Opens the rename field on a row.
    pub fn begin_rename(&mut self, id: NodeId) -> (actions: Vec<Action>)
        requires
            old(self)@.wf(),
        ensures
            final(self)@ == old(self)@.begin_rename(id).state,
            actions@ == old(self)@.begin_rename(id).actions,
            final(self)@.wf(),
    {
        match self.outline.index_of(id) {
            Some(at) => {
                let text: String = self.outline.rows[at].name.clone();
                assert(text@ == self@.outline.name_of(id));
                self.prompts.renaming = Some(Renaming { id, text });
                vec![Action::FocusRename]
            },
            None => Vec::new(),
        }
    }

    /// Takes what was typed into the field.
    pub fn edit_rename(&mut self, typed: String)
        ensures
            final(self)@ == old(self)@.edit_rename(typed@),
    {
        match &self.prompts.renaming {
            Some(r) => {
                let id: NodeId = r.id;
                let text: String = text::name_that_fits(typed.as_str());
                self.prompts.renaming = Some(Renaming { id, text });
            },
            None => {},
        }
    }

    /// Closes the field and gives the row its name.
    pub fn commit_rename(&mut self) -> (actions: Vec<Action>)
        requires
            old(self)@.wf(),
        ensures
            final(self)@ == old(self)@.commit_rename().state,
            actions@ == old(self)@.commit_rename().actions,
            final(self)@.wf(),
    {
        let renaming: Renaming = match self.prompts.renaming.take() {
            Some(r) => r,
            None => {
                return Vec::new();
            },
        };
        let at: usize = match self.outline.index_of(renaming.id) {
            Some(at) => at,
            None => {
                return Vec::new();
            },
        };
        let was: String = self.outline.rows[at].name.clone();
        assert(was@ == old(self)@.outline.name_of(renaming.id));
        let trimmed: String = text::trim(renaming.text.as_str());
        let fitting: String = text::name_that_fits(trimmed.as_str());
        let name: String = text::trim_end(fitting.as_str());
        if name.as_str().is_empty() {
            self.status = String::from_str("a body needs a name — kept ").concat(was.as_str());
            return Vec::new();
        }
        if name == was {
            return Vec::new();
        }
        self.status = String::from_str("renamed ").concat(was.as_str()).concat(" to ").concat(
            name.as_str(),
        );
        self.outline.set_name(at, name);
        proof {
            outline::lemma_same_shape(old(self)@.outline, self@.outline);
        }
        self.file.unsaved = true;
        vec![Action::WriteName(renaming.id)]
    }

    /// Closes the field and throws away what was typed.
    pub fn cancel_rename(&mut self)
        ensures
            final(self)@ == old(self)@.cancel_rename(),
    {
        self.prompts.renaming = None;
    }
}

/// What is committed fits a file and has no white space at its end.
pub proof fn a_committed_name_fits_and_does_not_trail_off(typed: Seq<char>)
    ensures
        text::text_bytes(committed_name(typed)) <= text::MAX_NAME_BYTES,
        committed_name(typed).len() > 0 ==> !text::is_blank(committed_name(typed).last()),
{
    let cut = text::fitting(text::trimmed(typed));
    text::a_fitting_name_is_the_longest_that_fits(text::trimmed(typed));
    text::lemma_trimming_an_end(cut);
}

/// Escape against a rename leaves nothing behind: the session is as it was
/// before the field was opened.
pub proof fn a_rename_cancelled_leaves_nothing(s: BrokkrV, id: NodeId, typed: Seq<char>)
    requires
        s.prompts.renaming is None,
    ensures
        s.begin_rename(id).state.edit_rename(typed).cancel_rename() == s,
{
}

/// A rename that comes to the name the row already has costs nothing: no undo
/// entry, and nothing to save.
pub proof fn an_unchanged_name_costs_nothing(s: BrokkrV, r: RenamingV)
    requires
        s.outline.wf(),
        s.prompts.renaming == Some(r),
        s.outline.has(r.id),
        committed_name(r.text) == s.outline.name_of(r.id),
        committed_name(r.text).len() > 0,
    ensures
        s.commit_rename() == s.renaming_as(None).quiet(),
{
}

/// A rename touches one row's name and nothing else of the rows.
pub proof fn a_rename_changes_one_name(s: BrokkrV, r: RenamingV, k: int)
    requires
        s.outline.wf(),
        s.prompts.renaming == Some(r),
        0 <= k < s.outline.rows.len(),
    ensures
        ({
            let after = s.commit_rename().state.outline;
            &&& after.rows.len() == s.outline.rows.len()
            &&& after.active == s.outline.active
            &&& after.rows[k] == (outline::RowV { name: after.rows[k].name, ..s.outline.rows[k] })
            &&& s.outline.rows[k].id != r.id ==> after.rows[k] == s.outline.rows[k]
        }),
{
    if s.outline.has(r.id) {
        assert(s.outline.is_at(r.id, s.outline.at(r.id)));
    }
}

} // verus!
