//! Choosing the bundle to swap to.

use crate::functions::PromptOutcome;
use crate::hotline_mod::{formatted_name_of, HotlineMod};
use crate::text::texts;
use vstd::prelude::*;

verus! {

/// The question of the selection prompt.
pub const SELECT_MOD_PROMPT: &'static str = "What mod do you wish to use?";

/// The help line of the selection prompt.
pub const SELECT_MOD_HELP: &'static str = "Press ESC to go back.";

/// Why no bundle was chosen, as a value.
pub enum ChangeCurrentModErrorView {
    EmptyMods,
    UserCanceledOperation,
    UserExitedApplication,
    InquireError(Seq<char>),
}

/// Why no bundle was chosen.
#[derive(Debug)]
pub enum ChangeCurrentModError {
    /// The mod library holds no bundle that can be selected.
    EmptyMods,
    /// The user went back.
    UserCanceledOperation,
    /// The user asked to leave the program.
    UserExitedApplication,
    /// The prompt failed, or its answer names no bundle; the cause as text.
    InquireError(String),
}

impl View for ChangeCurrentModError {
    type V = ChangeCurrentModErrorView;

    open spec fn view(&self) -> ChangeCurrentModErrorView {
        match self {
            ChangeCurrentModError::EmptyMods => ChangeCurrentModErrorView::EmptyMods,
            ChangeCurrentModError::UserCanceledOperation =>
                ChangeCurrentModErrorView::UserCanceledOperation,
            ChangeCurrentModError::UserExitedApplication =>
                ChangeCurrentModErrorView::UserExitedApplication,
            ChangeCurrentModError::InquireError(cause) => ChangeCurrentModErrorView::InquireError(
                cause@,
            ),
        }
    }
}

impl ChangeCurrentModError {
    /// The message of each kind of error.
    pub open spec fn message_text(&self) -> Seq<char> {
        match self {
            ChangeCurrentModError::EmptyMods =>
                "You have no mods in your folder right now. Try downloading new mods or bringing your existing mods to this folder."@,
            ChangeCurrentModError::UserCanceledOperation => "User pressed ESC when prompted."@,
            ChangeCurrentModError::UserExitedApplication =>
                "User wants to exit the application."@,
            ChangeCurrentModError::InquireError(_) => "Inquire error"@,
        }
    }

    /// The message to show for this error.
    pub fn message(&self) -> (r: &'static str)
        ensures
            r@ == self.message_text(),
    {
        match self {
            ChangeCurrentModError::EmptyMods =>
                "You have no mods in your folder right now. Try downloading new mods or bringing your existing mods to this folder.",
            ChangeCurrentModError::UserCanceledOperation => "User pressed ESC when prompted.",
            ChangeCurrentModError::UserExitedApplication => "User wants to exit the application.",
            ChangeCurrentModError::InquireError(_) => "Inquire error",
        }
    }
}

/// What is said of an answer that names no bundle.
pub open spec fn no_such_mod_text() -> Seq<char> {
    "The selection names no mod of the list."@
}

/// The display names of the bundles, in their order.
pub open spec fn display_names(mods: Seq<HotlineMod>) -> Seq<Seq<char>> {
    mods.map_values(|bundle: HotlineMod| formatted_name_of(bundle@.name))
}

/// What the selection prompt offers: the display name of every bundle, in
/// the order of the library. An empty library has nothing to offer, and the
/// prompt is not shown.
pub fn mod_options(mods: &[HotlineMod]) -> (r: Result<Vec<String>, ChangeCurrentModError>)
    ensures
        match r {
            Ok(names) => mods.len() > 0 && texts(names@)
                == display_names(mods@),
            Err(error) => mods.len() == 0 && error is EmptyMods,
        },
{
    if mods.len() == 0 {
        return Err(ChangeCurrentModError::EmptyMods);
    }
    let mut names: Vec<String> = Vec::new();
    let mut i: usize = 0;
    while i < mods.len()
        invariant
            i <= mods.len(),
            texts(names@) == display_names(mods@.subrange(0, i as int)),
        decreases mods.len() - i,
    {
        let ghost before = texts(names@);
        names.push(String::from_str(mods[i].name().formatted_name()));
        assert(texts(names@) =~= before.push(
            formatted_name_of(mods@[i as int]@.name),
        ));
        assert(display_names(mods@.subrange(0, i + 1)) =~= display_names(
            mods@.subrange(0, i as int),
        ).push(formatted_name_of(mods@[i as int]@.name)));
        i += 1;
    }
    assert(mods@.subrange(0, i as int) == mods@);
    Ok(names)
}

/// The position of the bundle chosen, given how the selection prompt ended.
/// An empty library gives `EmptyMods` whatever the outcome. Otherwise an
/// answer inside the list is the choice, and every other outcome is the
/// error that names it.
pub fn select_mod(mods: &[HotlineMod], outcome: PromptOutcome<usize>) -> (r: Result<
    usize,
    ChangeCurrentModError,
>)
    ensures
        mods.len() == 0 ==> (r matches Err(error) && error is EmptyMods),
        mods.len() > 0 ==> match outcome {
            PromptOutcome::Answered(index) => if index < mods.len() {
                r == Ok::<usize, ChangeCurrentModError>(index)
            } else {
                r matches Err(error) && error@ == ChangeCurrentModErrorView::InquireError(
                    no_such_mod_text(),
                )
            },
            PromptOutcome::Canceled => r matches Err(error) && error is UserCanceledOperation,
            PromptOutcome::Interrupted => r matches Err(error) && error is UserExitedApplication,
            PromptOutcome::Failed(cause) => r matches Err(error) && error@
                == ChangeCurrentModErrorView::InquireError(cause@),
        },
{
    if mods.len() == 0 {
        return Err(ChangeCurrentModError::EmptyMods);
    }
    match outcome {
        PromptOutcome::Answered(index) => {
            if index < mods.len() {
                Ok(index)
            } else {
                Err(
                    ChangeCurrentModError::InquireError(
                        String::from_str("The selection names no mod of the list."),
                    ),
                )
            }
        },
        PromptOutcome::Canceled => Err(ChangeCurrentModError::UserCanceledOperation),
        PromptOutcome::Interrupted => Err(ChangeCurrentModError::UserExitedApplication),
        PromptOutcome::Failed(cause) => Err(ChangeCurrentModError::InquireError(cause)),
    }
}

} // verus!
