use vstd::prelude::*;

verus! {

/// A desktop notification the shell shows.
#[derive(PartialEq, Eq, Structural, Clone, Copy, Debug)]
pub enum Notice {
    /// Shown when the interface asks for a security check.
    CommandCheck,
    /// Shown when the tray menu starts a security check.
    TrayCheck,
}

pub open spec fn notice_title(n: Notice) -> Seq<char> {
    match n {
        Notice::CommandCheck => "Проверка безопасности"@,
        Notice::TrayCheck => "Проверка"@,
    }
}

pub open spec fn notice_body(n: Notice) -> Seq<char> {
    match n {
        Notice::CommandCheck => "Запущена проверка безопасности..."@,
        Notice::TrayCheck => "Запущена проверка безопасности"@,
    }
}

impl Notice {
    /// The title of this notification.
    pub fn title(&self) -> (r: &'static str)
        ensures
            r@ == notice_title(*self),
    {
        match self {
            Notice::CommandCheck => "Проверка безопасности",
            Notice::TrayCheck => "Проверка",
        }
    }

    /// The text of this notification.
    pub fn body(&self) -> (r: &'static str)
        ensures
            r@ == notice_body(*self),
    {
        match self {
            Notice::CommandCheck => "Запущена проверка безопасности...",
            Notice::TrayCheck => "Запущена проверка безопасности",
        }
    }
}

/// What becomes of a failure of an effect.
#[derive(PartialEq, Eq, Structural, Clone, Copy, Debug)]
pub enum Delivery {
    /// A failure is discarded and never reaches anyone.
    BestEffort,
    /// A failure is returned to the caller as its description.
    Reported,
}

/// One thing the host runtime does on the shell's behalf.
#[derive(PartialEq, Eq, Structural, Clone, Copy, Debug)]
pub enum Effect {
    /// Make the main window visible.
    ShowMain,
    /// Give the main window the input focus.
    FocusMain,
    /// Hide the window whose close was requested.
    HideWindow,
    /// Cancel the runtime's default handling of a close request.
    PreventClose,
    /// Send the check-security event to every listener of the interface.
    EmitCheckSecurity,
    /// Show a desktop notification.
    Notify(Notice),
    /// Terminate the process with an exit code.
    Exit(i32),
}

pub open spec fn delivery_of(e: Effect) -> Delivery {
    if e == Effect::Notify(Notice::CommandCheck) {
        Delivery::Reported
    } else {
        Delivery::BestEffort
    }
}

impl Effect {
    /// What becomes of a failure of this effect: only the notification of a
    /// requested security check reports its failure.
    pub fn delivery(&self) -> (r: Delivery)
        ensures
            r == delivery_of(*self),
    {
        match self {
            Effect::Notify(Notice::CommandCheck) => Delivery::Reported,
            _ => Delivery::BestEffort,
        }
    }
}

/// How many times `e` occurs in `es`.
pub open spec fn occurrences(es: Seq<Effect>, e: Effect) -> nat
    decreases es.len(),
{
    if es.len() == 0 {
        0
    } else {
        occurrences(es.drop_last(), e) + if es.last() == e {
            1nat
        } else {
            0nat
        }
    }
}

/// Occurrences in a list of one or two effects, counted directly.
pub proof fn lemma_occurrences_short(a: Effect, b: Effect, e: Effect)
    ensures
        occurrences(seq![a], e) == if a == e { 1nat } else { 0nat },
        occurrences(seq![a, b], e) == occurrences(seq![a], e) + if b == e { 1nat } else { 0nat },
{
    assert(seq![a, b].drop_last() =~= seq![a]);
    assert(seq![a].drop_last() =~= Seq::<Effect>::empty());
    assert(occurrences(Seq::<Effect>::empty(), e) == 0);
}

/// The main window as the shell sees it.
#[derive(PartialEq, Eq, Structural, Clone, Copy, Debug)]
pub struct WindowState {
    pub visible: bool,
    pub focused: bool,
}

/// The main window, if it exists, and the exit code once the process has
/// terminated.
#[derive(PartialEq, Eq, Structural, Clone, Copy, Debug)]
pub struct ShellState {
    pub main: Option<WindowState>,
    pub exit_code: Option<i32>,
}

impl ShellState {
    pub open spec fn running(self) -> bool {
        self.exit_code is None
    }

    /// The state after the runtime carries out `e`. Nothing changes once the
    /// process has terminated, and effects on the main window do nothing
    /// where it does not exist.
    pub open spec fn after(self, e: Effect) -> ShellState {
        if !self.running() {
            self
        } else {
            match e {
                Effect::ShowMain => match self.main {
                    Some(w) => ShellState { main: Some(WindowState { visible: true, ..w }), ..self },
                    None => self,
                },
                Effect::FocusMain => match self.main {
                    Some(w) => ShellState { main: Some(WindowState { focused: true, ..w }), ..self },
                    None => self,
                },
                Effect::HideWindow => match self.main {
                    Some(w) => ShellState {
                        main: Some(WindowState { visible: false, focused: false }),
                        ..self
                    },
                    None => self,
                },
                Effect::Exit(code) => ShellState { exit_code: Some(code), ..self },
                _ => self,
            }
        }
    }

    /// The state after the runtime carries out `es` in order.
    pub open spec fn after_all(self, es: Seq<Effect>) -> ShellState
        decreases es.len(),
    {
        if es.len() == 0 {
            self
        } else {
            self.after_all(es.drop_last()).after(es.last())
        }
    }

    /// Carrying out one or two effects, step by step.
    pub proof fn lemma_after_short(self, a: Effect, b: Effect)
        ensures
            self.after_all(seq![a]) == self.after(a),
            self.after_all(seq![a, b]) == self.after(a).after(b),
    {
        assert(seq![a, b].drop_last() =~= seq![a]);
        assert(seq![a].drop_last() =~= Seq::<Effect>::empty());
        assert(self.after_all(Seq::<Effect>::empty()) == self);
    }

    /// Carries out `e` on this state.
    pub fn apply(&mut self, e: Effect)
        ensures
            *final(self) == old(self).after(e),
    {
        if self.exit_code.is_some() {
            return;
        }
        match e {
            Effect::ShowMain => {
                if let Some(w) = self.main {
                    self.main = Some(WindowState { visible: true, focused: w.focused });
                }
            },
            Effect::FocusMain => {
                if let Some(w) = self.main {
                    self.main = Some(WindowState { visible: w.visible, focused: true });
                }
            },
            Effect::HideWindow => {
                if self.main.is_some() {
                    self.main = Some(WindowState { visible: false, focused: false });
                }
            },
            Effect::Exit(code) => {
                self.exit_code = Some(code);
            },
            _ => {},
        }
    }

    /// Carries out `es` in order on this state.
    pub fn apply_all(&mut self, es: &Vec<Effect>)
        ensures
            *final(self) == old(self).after_all(es@),
    {
        let ghost start = *self;
        let mut i: usize = 0;
        while i < es.len()
            invariant
                i <= es@.len(),
                *self == start.after_all(es@.take(i as int)),
            decreases es@.len() - i,
        {
            assert(es@.take(i as int + 1).drop_last() =~= es@.take(i as int));
            self.apply(es[i]);
            i = i + 1;
        }
        assert(es@.take(i as int) =~= es@);
    }
}

} // verus!
