//! The menus, the side panel's switches, and what Escape closes.
use vstd::prelude::*;

use crate::action::Action;
use crate::message::Key;
use crate::state::{Brokkr, BrokkrV, MenusV, PanelV, Step};
use crate::values::{
    ConfirmChoice, KeyModifiers, MenuEdit, MenuEditV, PanelSection, SizingTarget, TopMenu,
};

verus! {

impl BrokkrV {
    /// A menu of the title bar pressed: it opens, or closes if it was open.
    pub open spec fn top_menu_toggled(self, which: TopMenu) -> BrokkrV {
        self.with_menus(
            MenusV {
                top_menu: if self.menus.top_menu == Some(which) {
                    None
                } else {
                    Some(which)
                },
                ..self.menus
            },
        )
    }

    /// What is typed into a field of the brush menu, kept as it is typed.
    pub open spec fn menu_field_edited(self, which: SizingTarget, text: Seq<char>) -> Step {
        Step {
            state: self.with_menus(
                MenusV { menu_edit: Some(MenuEditV { which: which, text: text }), ..self.menus },
            ),
            actions: seq![Action::ReadMenuField, Action::RefreshOverlay],
        }
    }

    /// What a field of the brush menu shows while it is being typed into.
    pub open spec fn menu_field_text(self, which: SizingTarget) -> Option<Seq<char>> {
        match self.menus.menu_edit {
            Some(edit) => if edit.which == which {
                Some(edit.text)
            } else {
                None
            },
            None => None,
        }
    }

    /// A section of the side panel opened or closed.
    pub open spec fn section_toggled(self, section: PanelSection) -> BrokkrV {
        if section.index < self.panel.expanded.len() {
            let i = section.index as int;
            self.with_panel(
                PanelV {
                    expanded: self.panel.expanded.update(i, !self.panel.expanded[i]),
                    ..self.panel
                },
            )
        } else {
            self
        }
    }

    /// Everything that Escape closes once nothing waits for an answer.
    pub open spec fn all_menus_closed(self) -> BrokkrV {
        self.disarmed().with_menus(
            MenusV { menu: None, menu_edit: None, top_menu: None, cube_menu: None, adding: false },
        ).asking_up(None)
    }

    /// Escape: it answers or leaves one thing, the first there is. A prompt comes
    /// before a rename, a rename before solo, and solo before what is armed or
    /// open.
    pub open spec fn menu_closed(self) -> Step {
        if self.prompts.confirm is Some {
            self.answer_confirm(ConfirmChoice::Cancel)
        } else if self.prompts.pending_delete is Some {
            self.deleting_later(None).quiet()
        } else if self.prompts.pending_merge is Some {
            self.merging_later(None).quiet()
        } else if self.prompts.renaming is Some {
            self.cancel_rename().quiet()
        } else if self.looking.solo is Some {
            self.exit_solo().quiet()
        } else {
            self.all_menus_closed().quiet()
        }
    }

    /// A key. Escape works under a card, and no other key does.
    pub open spec fn on_key(self, key: Key, modifiers: KeyModifiers) -> Step {
        match key {
            Key::Escape => self.menu_closed(),
            Key::Character(_) => if self.modal_open() {
                self.quiet()
            } else {
                self.asking(Action::LookUpShortcut(modifiers))
            },
            Key::Other => self.quiet(),
        }
    }
}

impl Brokkr {
    /// Opens a menu of the title bar, or closes it.
    pub fn top_menu_toggled(&mut self, which: TopMenu)
        ensures
            final(self)@ == old(self)@.top_menu_toggled(which),
    {
        let open: bool = match self.menus.top_menu {
            Some(menu) => menu == which,
            None => false,
        };
        self.menus.top_menu = if open {
            None
        } else {
            Some(which)
        };
    }

    /// Takes what was typed into a field of the brush menu.
    pub fn menu_field_edited(&mut self, which: SizingTarget, text: String) -> (actions: Vec<
        Action,
    >)
        requires
            old(self)@.wf(),
        ensures
            final(self)@ == old(self)@.menu_field_edited(which, text@).state,
            actions@ == old(self)@.menu_field_edited(which, text@).actions,
            final(self)@.wf(),
    {
        self.menus.menu_edit = Some(MenuEdit { which, text });
        vec![Action::ReadMenuField, Action::RefreshOverlay]
    }

    /// What a field of the brush menu shows while it is being typed into.
    pub fn menu_field_text(&self, which: SizingTarget) -> (r: Option<String>)
        ensures
            match r {
                Some(text) => self@.menu_field_text(which) == Some(text@),
                None => self@.menu_field_text(which) is None,
            },
    {
        match &self.menus.menu_edit {
            Some(edit) => {
                if edit.which == which {
                    Some(edit.text.clone())
                } else {
                    None
                }
            },
            None => None,
        }
    }

    /// Opens a section of the side panel, or closes it.
    pub fn section_toggled(&mut self, section: PanelSection)
        ensures
            final(self)@ == old(self)@.section_toggled(section),
    {
        if section.index < self.panel.expanded.len() {
            let open: bool = self.panel.expanded[section.index];
            self.panel.expanded.set(section.index, !open);
        }
    }

    /// Escape.
    pub fn menu_closed(&mut self) -> (actions: Vec<Action>)
        requires
            old(self)@.wf(),
        ensures
            final(self)@ == old(self)@.menu_closed().state,
            actions@ == old(self)@.menu_closed().actions,
            final(self)@.wf(),
    {
        if self.prompts.confirm.is_some() {
            return self.answer_confirm(ConfirmChoice::Cancel);
        }
        if self.prompts.pending_delete.is_some() {
            self.prompts.pending_delete = None;
        } else if self.prompts.pending_merge.is_some() {
            self.prompts.pending_merge = None;
        } else if self.prompts.renaming.is_some() {
            self.cancel_rename();
        } else if self.looking.solo.is_some() {
            self.exit_solo();
        } else {
            self.hand.cut_armed = false;
            self.menus.adding = false;
            self.menus.menu = None;
            self.menus.menu_edit = None;
            self.menus.top_menu = None;
            self.menus.cube_menu = None;
            self.prompts.orient_prompt = None;
        }
        Vec::new()
    }

    /// Takes in a key that went down.
    pub fn on_key(&mut self, key: Key, modifiers: KeyModifiers) -> (actions: Vec<Action>)
        requires
            old(self)@.wf(),
        ensures
            final(self)@ == old(self)@.on_key(key, modifiers).state,
            actions@ == old(self)@.on_key(key, modifiers).actions,
            final(self)@.wf(),
    {
        match key {
            Key::Escape => self.menu_closed(),
            Key::Character(_) => {
                if self.modal_open() {
                    Vec::new()
                } else {
                    vec![Action::LookUpShortcut(modifiers)]
                }
            },
            Key::Other => Vec::new(),
        }
    }
}

/// Under a card no shortcut fires, and Escape still reaches it.
pub proof fn a_card_takes_the_keyboard_but_escape(
    s: BrokkrV,
    character: String,
    modifiers: KeyModifiers,
)
    requires
        s.modal_open(),
    ensures
        s.on_key(Key::Character(character), modifiers) == s.quiet(),
        s.on_key(Key::Escape, modifiers) == s.menu_closed(),
{
}

/// Escape asks for nothing: no document work, no dialog, no window.
pub proof fn escape_asks_for_nothing(s: BrokkrV)
    ensures
        s.menu_closed().actions.len() == 0,
{
}

/// Escape never touches the rows, the file or the tool.
pub proof fn escape_changes_no_document(s: BrokkrV)
    ensures
        s.menu_closed().state.outline == s.outline,
        s.menu_closed().state.file == s.file,
        s.menu_closed().state.tool == s.tool,
        s.menu_closed().state.prompts.bug_report == s.prompts.bug_report,
{
}

/// Escape leaves solo before it puts the cut away; a second Escape reaches the
/// cut.
pub proof fn escape_leaves_solo_first_and_the_cut_second(s: BrokkrV)
    requires
        s.prompts.confirm is None,
        s.prompts.pending_delete is None,
        s.prompts.pending_merge is None,
        s.prompts.renaming is None,
        s.looking.solo is Some,
    ensures
        s.menu_closed().state.looking.solo is None,
        s.menu_closed().state.hand == s.hand,
        !s.menu_closed().state.menu_closed().state.hand.cut_armed,
{
}

/// Escape against a rename leaves solo, the cut and every menu as they are.
pub proof fn escape_against_a_rename_leaves_the_rest(s: BrokkrV)
    requires
        s.prompts.confirm is None,
        s.prompts.pending_delete is None,
        s.prompts.pending_merge is None,
        s.prompts.renaming is Some,
    ensures
        s.menu_closed().state == s.renaming_as(None),
{
}

/// A section toggled twice, and a menu toggled twice from closed, are as they
/// were.
pub proof fn toggling_twice_changes_nothing(s: BrokkrV, section: PanelSection, which: TopMenu)
    ensures
        s.section_toggled(section).section_toggled(section) == s,
        s.menus.top_menu is None ==> s.top_menu_toggled(which).top_menu_toggled(which) == s,
{
    if section.index < s.panel.expanded.len() {
        let i = section.index as int;
        let twice = s.section_toggled(section).section_toggled(section);
        assert(twice.panel.expanded =~= s.panel.expanded);
    }
}

} // verus!
