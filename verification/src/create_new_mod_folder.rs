//! Creating the directories of a new bundle.

use crate::configs::paths_config::{ModsGroupPath, ProgramPath};
use crate::functions::PromptOutcome;
use crate::hotline_mod::{HotlineModName, MODS_FOLDER_NAME, MUSIC_FOLDER_NAME};
use crate::manager::{name_taken, AllMods};
use crate::text::{same_text, texts};
use vstd::prelude::*;

verus! {

/// The question that asks for the name of a new bundle.
pub const GET_NEW_MOD_NAME_PROMPT: &'static str =
    "What will be the mod's name? (Please use the snake case identifier)";

/// A directory below a base directory, named by the segments that lead to
/// it.
#[derive(Debug)]
pub struct FolderPath {
    /// The directory from which the segments start.
    pub base: String,
    /// The names of the directories to go through, the last being the
    /// directory meant.
    pub segments: Vec<String>,
}

/// What a folder path is, as a value.
pub struct FolderPathView {
    pub base: Seq<char>,
    pub segments: Seq<Seq<char>>,
}

impl View for FolderPath {
    type V = FolderPathView;

    open spec fn view(&self) -> FolderPathView {
        FolderPathView {
            base: self.base@,
            segments: texts(self.segments@),
        }
    }
}

/// What the folder paths are, in order.
pub open spec fn folder_views(folders: Seq<FolderPath>) -> Seq<FolderPathView> {
    folders.map_values(|folder: FolderPath| folder@)
}

/// Why the new bundle was not created, as a value.
pub enum CreateNewModFolderErrorView {
    UserCanceledOperation,
    InquireError(Seq<char>),
    CreatingFolderError(Seq<char>, Seq<char>),
}

/// Why the new bundle was not created.
#[derive(Debug)]
pub enum CreateNewModFolderError {
    /// The user went back.
    UserCanceledOperation,
    /// The prompt failed; the cause as text.
    InquireError(String),
    /// A directory could not be created; the cause as text, and the path
    /// of the directory. Directories created before it stay.
    CreatingFolderError(String, String),
}

impl View for CreateNewModFolderError {
    type V = CreateNewModFolderErrorView;

    open spec fn view(&self) -> CreateNewModFolderErrorView {
        match self {
            CreateNewModFolderError::UserCanceledOperation =>
                CreateNewModFolderErrorView::UserCanceledOperation,
            CreateNewModFolderError::InquireError(cause) =>
                CreateNewModFolderErrorView::InquireError(cause@),
            CreateNewModFolderError::CreatingFolderError(cause, path) =>
                CreateNewModFolderErrorView::CreatingFolderError(cause@, path@),
        }
    }
}

/// The message of each kind of error.
pub open spec fn error_text(error: CreateNewModFolderErrorView) -> Seq<char> {
    match error {
        CreateNewModFolderErrorView::UserCanceledOperation => "User pressed ESC when prompted."@,
        CreateNewModFolderErrorView::InquireError(_) => "Inquire error"@,
        CreateNewModFolderErrorView::CreatingFolderError(cause, path) =>
            "Error creating the folder for path "@ + path + ". Error: "@ + cause,
    }
}

impl CreateNewModFolderError {
    /// The message to show for this error.
    pub fn message(&self) -> (r: String)
        ensures
            r@ == error_text(self@),
    {
        match self {
            CreateNewModFolderError::UserCanceledOperation => String::from_str(
                "User pressed ESC when prompted.",
            ),
            CreateNewModFolderError::InquireError(_) => String::from_str("Inquire error"),
            CreateNewModFolderError::CreatingFolderError(cause, path) => {
                let mut message = String::from_str("Error creating the folder for path ");
                message.append(path.as_str());
                message.append(". Error: ");
                message.append(cause.as_str());
                message
            },
        }
    }
}

/// What to do about a new bundle after the prompt for its name.
#[derive(Debug)]
pub enum NewModStep {
    /// Create these directories, in this order, for the bundle `name`.
    Create { name: HotlineModName, folders: Vec<FolderPath> },
    /// The name is taken: say so, and ask again. Nothing is created.
    AskAgain { message: String },
    /// The user asked to leave the program. Nothing is created.
    Quit,
}

/// The directory of the bundle `new_mod_name` in the mod library.
pub open spec fn mod_folder(new_mod_name: Seq<char>, mods_group_path: Seq<char>) -> FolderPathView {
    FolderPathView { base: mods_group_path, segments: seq![new_mod_name] }
}

/// The music directory of the bundle `new_mod_name`.
pub open spec fn music_folder(new_mod_name: Seq<char>, mods_group_path: Seq<char>)
    -> FolderPathView {
    FolderPathView { base: mods_group_path, segments: seq![new_mod_name, MUSIC_FOLDER_NAME@] }
}

/// The mods directory of the bundle `new_mod_name`.
pub open spec fn mods_folder(new_mod_name: Seq<char>, mods_group_path: Seq<char>)
    -> FolderPathView {
    FolderPathView { base: mods_group_path, segments: seq![new_mod_name, MODS_FOLDER_NAME@] }
}

/// The directories of a new bundle in the order of their creation: the
/// bundle's own, then that of its music, then that of its mods.
pub open spec fn new_mod_folders(new_mod_name: Seq<char>, mods_group_path: Seq<char>) -> Seq<
    FolderPathView,
> {
    seq![
        mod_folder(new_mod_name, mods_group_path),
        music_folder(new_mod_name, mods_group_path),
        mods_folder(new_mod_name, mods_group_path),
    ]
}

/// What is said of a name that is taken.
pub open spec fn name_taken_text(new_mod_name: Seq<char>) -> Seq<char> {
    "There's already a mod called "@ + new_mod_name
        + " in your mods directory. Please provide another one."@
}

/// Whether no bundle of the library has the name `new_mod_name`. Names are
/// compared character by character, the case of letters counts.
pub fn is_new_mod_name_valid(new_mod_name: &str, all_mods: &AllMods) -> (r: bool)
    ensures
        r == !name_taken(all_mods@, new_mod_name@),
{
    let mods = all_mods.mods();
    let mut i: usize = 0;
    while i < mods.len()
        invariant
            i <= mods.len(),
            mods@ == all_mods.stored()@,
            forall|j: int| 0 <= j < i ==> (#[trigger] all_mods@[j]).name != new_mod_name@,
        decreases mods.len() - i,
    {
        if same_text(mods[i].name().directory_name(), new_mod_name) {
            assert(all_mods@[i as int].name == new_mod_name@);
            return false;
        }
        i += 1;
    }
    true
}

/// The directory of the bundle `new_mod_name` in the mod library.
pub fn format_mod_folder_name(new_mod_name: &str, mods_group_path: &ModsGroupPath) -> (r:
    FolderPath)
    ensures
        r@ == mod_folder(new_mod_name@, mods_group_path.path_text()),
{
    let mut segments: Vec<String> = Vec::new();
    segments.push(String::from_str(new_mod_name));
    let folder = FolderPath { base: String::from_str(mods_group_path.path()), segments };
    assert(folder@.segments =~= seq![new_mod_name@]);
    folder
}

/// The music directory of the bundle `new_mod_name`.
pub fn format_music_folder_name(new_mod_name: &str, mods_group_path: &ModsGroupPath) -> (r:
    FolderPath)
    ensures
        r@ == music_folder(new_mod_name@, mods_group_path.path_text()),
{
    let mut segments: Vec<String> = Vec::new();
    segments.push(String::from_str(new_mod_name));
    segments.push(String::from_str(MUSIC_FOLDER_NAME));
    let folder = FolderPath { base: String::from_str(mods_group_path.path()), segments };
    assert(folder@.segments =~= seq![new_mod_name@, MUSIC_FOLDER_NAME@]);
    folder
}

/// The mods directory of the bundle `new_mod_name`.
pub fn format_mods_folder_name(new_mod_name: &str, mods_group_path: &ModsGroupPath) -> (r:
    FolderPath)
    ensures
        r@ == mods_folder(new_mod_name@, mods_group_path.path_text()),
{
    let mut segments: Vec<String> = Vec::new();
    segments.push(String::from_str(new_mod_name));
    segments.push(String::from_str(MODS_FOLDER_NAME));
    let folder = FolderPath { base: String::from_str(mods_group_path.path()), segments };
    assert(folder@.segments =~= seq![new_mod_name@, MODS_FOLDER_NAME@]);
    folder
}

/// The directories to create for the bundle `new_mod_name`, in the order of
/// their creation.
pub fn create_all_mods_dirs(new_mod_name: &HotlineModName, mods_group_path: &ModsGroupPath) -> (r:
    Vec<FolderPath>)
    ensures
        folder_views(r@) == new_mod_folders(
            new_mod_name@,
            mods_group_path.path_text(),
        ),
{
    let name = new_mod_name.directory_name();
    let mut folders: Vec<FolderPath> = Vec::new();
    folders.push(format_mod_folder_name(name, mods_group_path));
    folders.push(format_music_folder_name(name, mods_group_path));
    folders.push(format_mods_folder_name(name, mods_group_path));
    assert(folder_views(folders@) =~= new_mod_folders(
        new_mod_name@,
        mods_group_path.path_text(),
    ));
    folders
}

/// What the outcome of creating the directory at `path` means: success, or
/// the failure with its cause and the path.
pub fn create_new_mod_dir(path: &str, outcome: Result<(), String>) -> (r: Result<
    (),
    CreateNewModFolderError,
>)
    ensures
        match outcome {
            Ok(_) => r is Ok,
            Err(cause) => r matches Err(error) && error@
                == CreateNewModFolderErrorView::CreatingFolderError(cause@, path@),
        },
{
    match outcome {
        Ok(_) => Ok(()),
        Err(cause) => Err(
            CreateNewModFolderError::CreatingFolderError(cause, String::from_str(path)),
        ),
    }
}

/// Decides what to do about a new bundle, given how the prompt for its name
/// ended. A name that a bundle of the library already has is turned down
/// before anything is created: the step then holds a message and no
/// directory.
pub fn create_new_mod_folder(
    all_mods: &AllMods,
    mods_group_path: &ModsGroupPath,
    outcome: PromptOutcome<String>,
) -> (r: Result<NewModStep, CreateNewModFolderError>)
    ensures
        match outcome {
            PromptOutcome::Answered(new_name) => if name_taken(all_mods@, new_name@) {
                r matches Ok(NewModStep::AskAgain { message }) && message@ == name_taken_text(
                    new_name@,
                )
            } else {
                r matches Ok(NewModStep::Create { name, folders }) && name@ == new_name@
                    && folder_views(folders@) == new_mod_folders(
                    new_name@,
                    mods_group_path.path_text(),
                )
            },
            PromptOutcome::Canceled => r matches Err(error) && error is UserCanceledOperation,
            PromptOutcome::Interrupted => r matches Ok(NewModStep::Quit),
            PromptOutcome::Failed(cause) => r matches Err(error) && error@
                == CreateNewModFolderErrorView::InquireError(cause@),
        },
{
    match outcome {
        PromptOutcome::Answered(new_name) => {
            if is_new_mod_name_valid(new_name.as_str(), all_mods) {
                let name = HotlineModName::from_directory(new_name.as_str());
                let folders = create_all_mods_dirs(&name, mods_group_path);
                Ok(NewModStep::Create { name, folders })
            } else {
                let mut message = String::from_str("There's already a mod called ");
                message.append(new_name.as_str());
                message.append(" in your mods directory. Please provide another one.");
                Ok(NewModStep::AskAgain { message })
            }
        },
        PromptOutcome::Canceled => Err(CreateNewModFolderError::UserCanceledOperation),
        PromptOutcome::Interrupted => Ok(NewModStep::Quit),
        PromptOutcome::Failed(cause) => Err(CreateNewModFolderError::InquireError(cause)),
    }
}

} // verus!
