//! The remembered current bundle, stored in a file of its own.

use crate::configs::key_value::{
    entry_line, find_value, format_entry, is_key, is_storable, lemma_entry_line_parses,
    lemma_stored_value_is_storable, lookup, parse_lines, read_lines, LineView,
};
use crate::hotline_mod::HotlineModName;
use vstd::prelude::*;

verus! {

/// Name of the file that stores the current bundle.
pub const MODS_CONFIG_FILE_NAME: &'static str = "hm_mod_manager_mods_configs.conf";

/// Key of the current bundle in its file.
pub open spec fn current_mod_key() -> Seq<char> {
    "current_mod"@
}

/// The bundle that was installed last. It is known by its directory name
/// alone.
#[derive(Debug)]
pub struct CurrentMod(HotlineModName);

impl View for CurrentMod {
    type V = Seq<char>;

    /// The directory name of the bundle.
    closed spec fn view(&self) -> Seq<char> {
        self.0@
    }
}

/// What went wrong with the current bundle's file, as a value.
pub enum CurrentModErrorView {
    IoError(Seq<char>),
    CurrentModNotFound,
}

/// What went wrong with the current bundle's file.
#[derive(Debug)]
pub enum CurrentModError {
    /// The file could not be read or written; the cause as text.
    IoError(String),
    /// The file names no current bundle, as on a first run.
    CurrentModNotFound,
}

impl View for CurrentModError {
    type V = CurrentModErrorView;

    open spec fn view(&self) -> CurrentModErrorView {
        match self {
            CurrentModError::IoError(cause) => CurrentModErrorView::IoError(cause@),
            CurrentModError::CurrentModNotFound => CurrentModErrorView::CurrentModNotFound,
        }
    }
}

impl CurrentModError {
    /// The message of each kind of error.
    pub open spec fn message_text(&self) -> Seq<char> {
        match self {
            CurrentModError::IoError(_) =>
                "Something wrong happened trying to use the current mod configuration file."@,
            CurrentModError::CurrentModNotFound =>
                "The current mod was not found. Maybe it's the first time using the program?"@,
        }
    }

    /// The message to show for this error.
    pub fn message(&self) -> (r: &'static str)
        ensures
            r@ == self.message_text(),
    {
        match self {
            CurrentModError::IoError(_) =>
                "Something wrong happened trying to use the current mod configuration file.",
            CurrentModError::CurrentModNotFound =>
                "The current mod was not found. Maybe it's the first time using the program?",
        }
    }
}

/// What the file of the current bundle says: the directory name stored
/// under the one key, if there is such an entry. An empty file names no
/// bundle. Other lines are passed over.
pub open spec fn parse_current_mod(content: Seq<char>) -> Result<Seq<char>, CurrentModErrorView> {
    match lookup(parse_lines(content), current_mod_key()) {
        Some(name) => Ok(name),
        None => Err(CurrentModErrorView::CurrentModNotFound),
    }
}

/// The content of the file for the bundle with this directory name.
pub open spec fn format_current_mod(name: Seq<char>) -> Seq<char> {
    entry_line(current_mod_key(), name)
}

impl CurrentMod {
    /// Reads the current bundle from the content of its file.
    pub fn build(content: &str) -> (r: Result<CurrentMod, CurrentModError>)
        ensures
            match r {
                Ok(current) => parse_current_mod(content@) == Ok::<Seq<char>, CurrentModErrorView>(
                    current@,
                ),
                Err(error) => parse_current_mod(content@) == Err::<Seq<char>, CurrentModErrorView>(
                    error@,
                ),
            },
    {
        let lines = read_lines(content);
        match find_value(&lines, Self::key()) {
            Some(name) => Ok(CurrentMod(HotlineModName::from_directory(name))),
            None => Err(CurrentModError::CurrentModNotFound),
        }
    }

    /// The bundle `name` as the current one.
    pub fn from_mod(name: HotlineModName) -> (r: Self)
        ensures
            r@ == name@,
    {
        CurrentMod(name)
    }

    /// The name of the bundle.
    pub fn name(&self) -> (r: &HotlineModName)
        ensures
            r@ == self@,
    {
        &self.0
    }

    /// The content that the file must hold to remember this bundle. The
    /// whole file is replaced by it.
    pub fn save(&self) -> (r: String)
        ensures
            r@ == format_current_mod(self@),
    {
        self.format_for_file()
    }

    /// The file to delete so that no current bundle stays on disk.
    pub fn clear(&self) -> (r: &'static str)
        ensures
            r@ == MODS_CONFIG_FILE_NAME@,
    {
        MODS_CONFIG_FILE_NAME
    }

    /// The key of the entry.
    pub fn key() -> (r: &'static str)
        ensures
            r@ == current_mod_key(),
    {
        "current_mod"
    }

    /// The line that stores this bundle.
    pub fn format_for_file(&self) -> (r: String)
        ensures
            r@ == format_current_mod(self@),
    {
        format_entry(Self::key(), self.0.directory_name())
    }
}

/// Writing then reading. The file written for a storable directory name is
/// read back as that name.
pub proof fn lemma_save_then_build(name: Seq<char>)
    requires
        is_storable(name),
    ensures
        parse_current_mod(format_current_mod(name)) == Ok::<Seq<char>, CurrentModErrorView>(name),
{
    reveal_strlit("current_mod");
    assert(current_mod_key()[0] == 'c');
    assert(is_key(current_mod_key()));
    let empty = Seq::<char>::empty();
    lemma_entry_line_parses(current_mod_key(), name, empty);
    assert(format_current_mod(name) + empty == format_current_mod(name));
    assert(parse_lines(empty) == Seq::<LineView>::empty());
    let parsed = parse_lines(format_current_mod(name));
    assert(parsed == seq![LineView::Entry { key: current_mod_key(), value: name }]);
    assert(parsed.last() == (LineView::Entry { key: current_mod_key(), value: name }));
}

/// Reading, writing, reading again. Where a file names a current bundle,
/// the file written for that bundle names the same one.
pub proof fn lemma_build_save_build(content: Seq<char>)
    ensures
        parse_current_mod(content) matches Ok(name) ==> parse_current_mod(
            format_current_mod(name),
        ) == Ok::<Seq<char>, CurrentModErrorView>(name),
{
    lemma_stored_value_is_storable(content, current_mod_key());
    if let Ok(name) = parse_current_mod(content) {
        lemma_save_then_build(name);
    }
}

} // verus!
