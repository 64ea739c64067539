use vstd::prelude::*;
use crate::text::same_text;

verus! {

/// An entry of the tray menu.
#[derive(PartialEq, Eq, Structural, Clone, Copy, Debug)]
pub enum MenuAction {
    /// Show and focus the main window.
    Show,
    /// Start a security check.
    Check,
    /// Terminate the application.
    Quit,
}

/// The identifier by which the runtime reports a selected entry.
pub open spec fn menu_id(a: MenuAction) -> Seq<char> {
    match a {
        MenuAction::Show => "show"@,
        MenuAction::Check => "check"@,
        MenuAction::Quit => "quit"@,
    }
}

/// The label the menu shows for an entry.
pub open spec fn menu_label(a: MenuAction) -> Seq<char> {
    match a {
        MenuAction::Show => "Показать"@,
        MenuAction::Check => "Проверить безопасность"@,
        MenuAction::Quit => "Выход"@,
    }
}

/// The entry an identifier names; any other identifier names none.
pub open spec fn action_for_id(id: Seq<char>) -> Option<MenuAction> {
    if id == "show"@ {
        Some(MenuAction::Show)
    } else if id == "check"@ {
        Some(MenuAction::Check)
    } else if id == "quit"@ {
        Some(MenuAction::Quit)
    } else {
        None
    }
}

/// The entries of the tray menu, top to bottom.
pub open spec fn tray_menu_spec() -> Seq<MenuAction> {
    seq![MenuAction::Show, MenuAction::Check, MenuAction::Quit]
}

impl MenuAction {
    /// The identifier of this entry.
    pub fn id(&self) -> (r: &'static str)
        ensures
            r@ == menu_id(*self),
    {
        match self {
            MenuAction::Show => "show",
            MenuAction::Check => "check",
            MenuAction::Quit => "quit",
        }
    }

    /// The label of this entry.
    pub fn label(&self) -> (r: &'static str)
        ensures
            r@ == menu_label(*self),
    {
        match self {
            MenuAction::Show => "Показать",
            MenuAction::Check => "Проверить безопасность",
            MenuAction::Quit => "Выход",
        }
    }

    /// The entry named by `id`, or `None` for an identifier that is not on the
    /// menu; an unknown identifier is ignored rather than treated as an error.
    pub fn from_id(id: &str) -> (r: Option<MenuAction>)
        ensures
            r == action_for_id(id@),
    {
        if same_text(id, "show") {
            Some(MenuAction::Show)
        } else if same_text(id, "check") {
            Some(MenuAction::Check)
        } else if same_text(id, "quit") {
            Some(MenuAction::Quit)
        } else {
            None
        }
    }
}

/// The entries of the tray menu, top to bottom.
pub fn tray_menu() -> (r: Vec<MenuAction>)
    ensures
        r@ == tray_menu_spec(),
{
    vec![MenuAction::Show, MenuAction::Check, MenuAction::Quit]
}

/// Every entry of the tray menu has an identifier that no other entry has,
/// and that identifier dispatches back to the entry itself.
pub proof fn lemma_menu_ids_dispatch()
    ensures
        forall|i: int|
            0 <= i < tray_menu_spec().len() ==> action_for_id(menu_id(#[trigger] tray_menu_spec()[i]))
                == Some(tray_menu_spec()[i]),
        forall|i: int, j: int|
            0 <= i < tray_menu_spec().len() && 0 <= j < tray_menu_spec().len() && i != j
                ==> menu_id(#[trigger] tray_menu_spec()[i]) != menu_id(#[trigger] tray_menu_spec()[j]),
{
    reveal_strlit("show");
    reveal_strlit("check");
    reveal_strlit("quit");
    assert("show"@.len() == 4 && "check"@.len() == 5 && "quit"@.len() == 4);
    assert("show"@[0] != "quit"@[0]);
    assert forall|i: int| 0 <= i < tray_menu_spec().len() implies action_for_id(
        menu_id(#[trigger] tray_menu_spec()[i]),
    ) == Some(tray_menu_spec()[i]) by {
        if i == 0 {
        } else if i == 1 {
        } else {
        }
    }
}

} // verus!
