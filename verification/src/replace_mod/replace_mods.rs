//! Replacing the installed mods: which files leave the active mods
//! directory, and which files of the bundle go in.

use crate::configs::paths_config::{ModsPath, ProgramPath};
use crate::hotline_mod::{AssociatedMods, HotlineModName, ListedEntry};
use crate::text::{file_has_extension, has_extension, texts};
use vstd::prelude::*;

verus! {

/// Extension of the files that an installation leaves in the active mods
/// directory.
pub const PATCH_EXTENSION: &'static str = "patchwad";

/// The bulk copy of the mod files of a bundle into the active mods
/// directory.
#[derive(Debug)]
pub struct ModsCopy {
    /// Paths of the files and directories to copy.
    pub sources: Vec<String>,
    /// The active mods directory.
    pub directory: String,
    /// What the progress display says when the copy starts.
    pub message: String,
}

/// What a bulk copy is, as a value.
pub struct ModsCopyView {
    pub sources: Seq<Seq<char>>,
    pub directory: Seq<char>,
    pub message: Seq<char>,
}

impl View for ModsCopy {
    type V = ModsCopyView;

    open spec fn view(&self) -> ModsCopyView {
        ModsCopyView {
            sources: texts(self.sources@),
            directory: self.directory@,
            message: self.message@,
        }
    }
}

/// Why the mods could not be replaced, as a value.
pub enum ReplaceModErrorView {
    FsExtra(Seq<char>),
    ReadingModsDirectory(Seq<char>),
    DeletingModFile(Seq<char>, Seq<char>),
}

/// Why the mods could not be replaced.
#[derive(Debug)]
pub enum ReplaceModError {
    /// The bulk copy failed; the cause as text.
    FsExtra(String),
    /// The active mods directory could not be listed; the cause as text.
    ReadingModsDirectory(String),
    /// A patch file could not be deleted; the cause as text, and the path
    /// of the file.
    DeletingModFile(String, String),
}

impl View for ReplaceModError {
    type V = ReplaceModErrorView;

    open spec fn view(&self) -> ReplaceModErrorView {
        match self {
            ReplaceModError::FsExtra(cause) => ReplaceModErrorView::FsExtra(cause@),
            ReplaceModError::ReadingModsDirectory(cause) =>
                ReplaceModErrorView::ReadingModsDirectory(cause@),
            ReplaceModError::DeletingModFile(cause, path) => ReplaceModErrorView::DeletingModFile(
                cause@,
                path@,
            ),
        }
    }
}

impl ReplaceModError {
    /// The message of each kind of error.
    pub open spec fn message_text(&self) -> Seq<char> {
        match self {
            ReplaceModError::FsExtra(_) => "Error trying to copy the mods bytes."@,
            ReplaceModError::ReadingModsDirectory(_) => "Error reading the mods directory"@,
            ReplaceModError::DeletingModFile(_, _) => "Error removing the mods directory"@,
        }
    }

    /// The message to show for this error.
    pub fn message(&self) -> (r: &'static str)
        ensures
            r@ == self.message_text(),
    {
        match self {
            ReplaceModError::FsExtra(_) => "Error trying to copy the mods bytes.",
            ReplaceModError::ReadingModsDirectory(_) => "Error reading the mods directory",
            ReplaceModError::DeletingModFile(_, _) => "Error removing the mods directory",
        }
    }
}

/// Whether a listed entry is a patch file: a regular file whose extension
/// is the patch extension, in any case of letters.
pub open spec fn is_patchwad(entry: ListedEntry) -> bool {
    entry.is_file && has_extension(entry.file_name@, PATCH_EXTENSION@)
}

/// The paths of the patch files of a listing, in listing order.
pub open spec fn patch_files(entries: Seq<ListedEntry>) -> Seq<Seq<char>>
    decreases entries.len(),
{
    if entries.len() == 0 {
        Seq::empty()
    } else if is_patchwad(entries.last()) {
        patch_files(entries.drop_last()).push(entries.last().path@)
    } else {
        patch_files(entries.drop_last())
    }
}

/// The text of the progress display at the start of a bulk copy.
pub open spec fn mods_message(formatted_name: Seq<char>) -> Seq<char> {
    "Copying "@ + formatted_name + " mods."@
}

/// The bulk copy for a bundle, if it has mod files.
pub open spec fn mods_copy_of(mods_path: Seq<char>, mods: Seq<Seq<char>>, mod_name: Seq<char>)
    -> Option<ModsCopyView> {
    if mods.len() == 0 {
        None
    } else {
        Some(
            ModsCopyView {
                sources: mods,
                directory: mods_path,
                message: mods_message(crate::hotline_mod::formatted_name_of(mod_name)),
            },
        )
    }
}

/// Whether `path` is the path of a patch file of the listing.
pub open spec fn is_patch_path(entries: Seq<ListedEntry>, path: Seq<char>) -> bool {
    exists|k: int|
        0 <= k < entries.len() && is_patchwad(#[trigger] entries[k]) && entries[k].path@ == path
}

/// What `patch_files` selects. Every path selected is the path of a patch
/// file of the listing, and the path of every patch file is selected: no
/// patch file stays, and nothing else is touched.
pub proof fn lemma_patch_files(entries: Seq<ListedEntry>)
    ensures
        forall|i: int|
            0 <= i < patch_files(entries).len() ==> is_patch_path(
                entries,
                #[trigger] patch_files(entries)[i],
            ),
        forall|k: int|
            0 <= k < entries.len() && is_patchwad(#[trigger] entries[k]) ==> patch_files(
                entries,
            ).contains(entries[k].path@),
        patch_files(entries).len() <= entries.len(),
    decreases entries.len(),
{
    if entries.len() > 0 {
        let front = entries.drop_last();
        let last = entries.last();
        lemma_patch_files(front);
        let selected = patch_files(entries);
        assert forall|i: int| 0 <= i < selected.len() implies is_patch_path(
            entries,
            #[trigger] selected[i],
        ) by {
            if i < patch_files(front).len() {
                assert(selected[i] == patch_files(front)[i]);
                assert(is_patch_path(front, patch_files(front)[i]));
                let k = choose|k: int|
                    0 <= k < front.len() && is_patchwad(#[trigger] front[k]) && front[k].path@
                        == patch_files(front)[i];
                assert(entries[k] == front[k]);
            } else {
                assert(entries[entries.len() - 1] == last);
            }
        }
        assert forall|k: int|
            0 <= k < entries.len() && is_patchwad(#[trigger] entries[k]) implies selected.contains(
            entries[k].path@,
        ) by {
            if k < front.len() {
                assert(entries[k] == front[k]);
                let i = choose|i: int|
                    0 <= i < patch_files(front).len() && patch_files(front)[i] == front[k].path@;
                assert(selected[i] == front[k].path@);
            } else {
                assert(selected[selected.len() - 1] == last.path@);
            }
        }
    }
}

/// Whether the entry is a patch file.
pub fn file_is_patchwad(dir_entry: &ListedEntry) -> (r: bool)
    ensures
        r == is_patchwad(*dir_entry),
{
    dir_entry.is_file && file_has_extension(dir_entry.file_name.as_str(), PATCH_EXTENSION)
}

/// The paths of the patch files of a listing, in listing order.
pub fn patch_file_paths(entries: &[ListedEntry]) -> (r: Vec<String>)
    ensures
        texts(r@) == patch_files(entries@),
{
    let mut paths: Vec<String> = Vec::new();
    let mut i: usize = 0;
    while i < entries.len()
        invariant
            i <= entries.len(),
            texts(paths@) == patch_files(entries@.subrange(0, i as int)),
        decreases entries.len() - i,
    {
        let ghost before = texts(paths@);
        assert(entries@.subrange(0, i + 1).drop_last() == entries@.subrange(0, i as int));
        assert(entries@.subrange(0, i + 1).last() == entries@[i as int]);
        if file_is_patchwad(&entries[i]) {
            paths.push(entries[i].path.clone());
            assert(texts(paths@) =~= before.push(entries@[i as int].path@));
        }
        i += 1;
    }
    assert(entries@.subrange(0, i as int) == entries@);
    paths
}

/// The files to delete from the active mods directory, given what listing
/// it gave: its entries, or the cause for which it could not be listed.
/// Only patch files are deleted. A directory that cannot be listed ends the
/// replacement.
pub fn remove_mods_in_mods_dir(listing: Result<&[ListedEntry], String>) -> (r: Result<
    Vec<String>,
    ReplaceModError,
>)
    ensures
        match listing {
            Ok(entries) => r matches Ok(paths) && texts(paths@) == patch_files(entries@),
            Err(cause) => r matches Err(error) && error@
                == ReplaceModErrorView::ReadingModsDirectory(cause@),
        },
{
    match listing {
        Ok(entries) => Ok(patch_file_paths(entries)),
        Err(cause) => Err(ReplaceModError::ReadingModsDirectory(cause)),
    }
}

/// What the outcome of deleting the patch file at `path` means for the
/// replacement: success, or the failure with its cause and the path.
pub fn mod_file_removed(path: &str, outcome: Result<(), String>) -> (r: Result<
    (),
    ReplaceModError,
>)
    ensures
        match outcome {
            Ok(_) => r is Ok,
            Err(cause) => r matches Err(error) && error@ == ReplaceModErrorView::DeletingModFile(
                cause@,
                path@,
            ),
        },
{
    match outcome {
        Ok(_) => Ok(()),
        Err(cause) => Err(ReplaceModError::DeletingModFile(cause, String::from_str(path))),
    }
}

/// The text of the progress display at the start of a bulk copy.
pub fn format_progress_bar_mods_message(mod_name: &HotlineModName) -> (r: String)
    ensures
        r@ == mods_message(mod_name.formatted_text()),
{
    let mut message = String::from_str("Copying ");
    message.append(mod_name.formatted_name());
    message.append(" mods.");
    message
}

/// Plans the installation of the mod files of the bundle `mod_name`, which
/// follows the removal of the patch files. A bundle without mod files needs
/// no copy.
pub fn replace_mods(
    mods_path: &ModsPath,
    associated_mods: &AssociatedMods,
    mod_name: &HotlineModName,
) -> (r: Option<ModsCopy>)
    ensures
        match r {
            Some(copy) => mods_copy_of(mods_path.path_text(), associated_mods@, mod_name@) == Some(
                copy@,
            ),
            None => mods_copy_of(mods_path.path_text(), associated_mods@, mod_name@) is None,
        },
{
    if associated_mods.is_empty() {
        return None;
    }
    let paths = associated_mods.mods();
    let mut sources: Vec<String> = Vec::new();
    let mut i: usize = 0;
    while i < paths.len()
        invariant
            i <= paths.len(),
            texts(sources@) == texts(paths@).subrange(0, i as int),
        decreases paths.len() - i,
    {
        let ghost before = texts(sources@);
        sources.push(paths[i].clone());
        assert(texts(sources@) =~= before.push(paths@[i as int]@));
        assert(texts(paths@).subrange(0, i + 1) =~= before.push(
            paths@[i as int]@,
        ));
        i += 1;
    }
    assert(texts(paths@).subrange(0, i as int) == texts(paths@));
    Some(
        ModsCopy {
            sources,
            directory: String::from_str(mods_path.path()),
            message: format_progress_bar_mods_message(mod_name),
        },
    )
}

/// What the outcome of the bulk copy means for the replacement: success, or
/// the failure with its cause.
pub fn mods_copied(outcome: Result<(), String>) -> (r: Result<(), ReplaceModError>)
    ensures
        match outcome {
            Ok(_) => r is Ok,
            Err(cause) => r matches Err(error) && error@ == ReplaceModErrorView::FsExtra(cause@),
        },
{
    match outcome {
        Ok(_) => Ok(()),
        Err(cause) => Err(ReplaceModError::FsExtra(cause)),
    }
}

} // verus!
