//! The actions of the menu.

use vstd::prelude::*;

verus! {

/// The question of the menu.
pub const ACTION_PROMPT: &'static str = "What do you want to do?";

/// One action of the menu.
#[derive(Debug, Clone, Copy, PartialEq, Eq, Structural)]
pub enum Action {
    ChangeMod,
    CreateNewModFolder,
    ChangeConfigurationPath,
    ClearConfiguration,
    Exit,
}

impl Action {
    /// The line of each action in the menu.
    pub open spec fn label_text(self) -> Seq<char> {
        match self {
            Action::ChangeMod => "Change the current mod."@,
            Action::CreateNewModFolder => "Create a new mod folder structure."@,
            Action::ChangeConfigurationPath => "Change one of your paths."@,
            Action::ClearConfiguration => "Clear your configuration."@,
            Action::Exit => "Exit."@,
        }
    }

    /// The actions in the order of the menu.
    pub open spec fn all() -> Seq<Action> {
        seq![
            Action::ChangeMod,
            Action::CreateNewModFolder,
            Action::ChangeConfigurationPath,
            Action::ClearConfiguration,
            Action::Exit,
        ]
    }

    /// The actions in the order of the menu.
    pub fn variants() -> (r: Vec<Action>)
        ensures
            r@ == Action::all(),
    {
        let mut actions: Vec<Action> = Vec::new();
        actions.push(Action::ChangeMod);
        actions.push(Action::CreateNewModFolder);
        actions.push(Action::ChangeConfigurationPath);
        actions.push(Action::ClearConfiguration);
        actions.push(Action::Exit);
        assert(actions@ =~= Action::all());
        actions
    }

    /// The line of this action in the menu.
    pub fn label(&self) -> (r: &'static str)
        ensures
            r@ == self.label_text(),
    {
        match self {
            Action::ChangeMod => "Change the current mod.",
            Action::CreateNewModFolder => "Create a new mod folder structure.",
            Action::ChangeConfigurationPath => "Change one of your paths.",
            Action::ClearConfiguration => "Clear your configuration.",
            Action::Exit => "Exit.",
        }
    }
}

} // verus!
