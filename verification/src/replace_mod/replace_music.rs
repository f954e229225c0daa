//! Replacing the music of the game: what to copy, where, and how.

use crate::configs::paths_config::{GamePath, ProgramPath};
use crate::hotline_mod::{HotlineModName, Music};
use vstd::prelude::*;

verus! {

/// Name of the music file in the game directory.
pub const MUSIC_FILE_NAME: &'static str = "hlm2_music_desktop.wad";

/// How a single file is copied.
#[derive(Debug, Clone, Copy)]
pub struct CopyOptions {
    /// Replace a file that is already there.
    pub overwrite: bool,
    /// Leave a file that is already there and report no error.
    pub skip_exist: bool,
    /// Bytes copied between two progress reports.
    pub buffer_size: usize,
}

/// The copy of a music file into the game directory.
#[derive(Debug)]
pub struct MusicCopy {
    /// Path of the file to copy.
    pub source: String,
    /// The game directory.
    pub directory: String,
    /// Name of the copy inside the game directory.
    pub file_name: &'static str,
    /// How to copy.
    pub options: CopyOptions,
    /// What the progress display says when the copy starts.
    pub message: String,
}

/// What a music copy is, as a value.
pub struct MusicCopyView {
    pub source: Seq<char>,
    pub directory: Seq<char>,
    pub file_name: Seq<char>,
    pub options: CopyOptions,
    pub message: Seq<char>,
}

impl View for MusicCopy {
    type V = MusicCopyView;

    open spec fn view(&self) -> MusicCopyView {
        MusicCopyView {
            source: self.source@,
            directory: self.directory@,
            file_name: self.file_name@,
            options: self.options,
            message: self.message@,
        }
    }
}

/// Why the music could not be replaced, as a value.
pub enum ReplaceMusicErrorView {
    FsExtraError(Seq<char>),
}

/// Why the music could not be replaced.
#[derive(Debug)]
pub enum ReplaceMusicError {
    /// The copy failed; the cause as text.
    FsExtraError(String),
}

impl View for ReplaceMusicError {
    type V = ReplaceMusicErrorView;

    open spec fn view(&self) -> ReplaceMusicErrorView {
        match self {
            ReplaceMusicError::FsExtraError(cause) => ReplaceMusicErrorView::FsExtraError(cause@),
        }
    }
}

impl ReplaceMusicError {
    /// The message to show for this error.
    pub fn message(&self) -> (r: &'static str)
        ensures
            r@ == "Error trying to copy the music bytes."@,
    {
        "Error trying to copy the music bytes."
    }
}

/// The options of a music copy: a music file that is already in the game
/// directory is replaced.
pub open spec fn music_copy_options() -> CopyOptions {
    CopyOptions { overwrite: true, skip_exist: false, buffer_size: 64000 }
}

/// The text of the progress display at the start of a music copy.
pub open spec fn music_message(formatted_name: Seq<char>) -> Seq<char> {
    "Copying "@ + formatted_name + " music."@
}

/// The copy that puts the music at `music` into the game directory under
/// the fixed file name.
pub open spec fn music_copy_of(game_path: Seq<char>, music: Seq<char>, mod_name: Seq<char>)
    -> MusicCopyView {
    MusicCopyView {
        source: music,
        directory: game_path,
        file_name: MUSIC_FILE_NAME@,
        options: music_copy_options(),
        message: music_message(crate::hotline_mod::formatted_name_of(mod_name)),
    }
}

/// The options of a music copy.
pub fn default_copy_options() -> (r: CopyOptions)
    ensures
        r == music_copy_options(),
{
    CopyOptions { overwrite: true, skip_exist: false, buffer_size: 64000 }
}

/// The text of the progress display at the start of a music copy.
pub fn format_progress_bar_music_message(mod_name: &HotlineModName) -> (r: String)
    ensures
        r@ == music_message(mod_name.formatted_text()),
{
    let mut message = String::from_str("Copying ");
    message.append(mod_name.formatted_name());
    message.append(" music.");
    message
}

/// Plans the replacement of the game's music by the file `music` of the
/// bundle `mod_name`.
pub fn replace_music(game_path: &GamePath, music: &Music, mod_name: &HotlineModName) -> (r:
    MusicCopy)
    ensures
        r@ == music_copy_of(game_path.path_text(), music@, mod_name@),
{
    MusicCopy {
        source: String::from_str(music.path()),
        directory: String::from_str(game_path.path()),
        file_name: MUSIC_FILE_NAME,
        options: default_copy_options(),
        message: format_progress_bar_music_message(mod_name),
    }
}

/// What the outcome of the copy means for the replacement: success, or the
/// failure with its cause.
pub fn music_replaced(outcome: Result<(), String>) -> (r: Result<(), ReplaceMusicError>)
    ensures
        match outcome {
            Ok(_) => r is Ok,
            Err(cause) => r matches Err(error) && error@ == ReplaceMusicErrorView::FsExtraError(
                cause@,
            ),
        },
{
    match outcome {
        Ok(_) => Ok(()),
        Err(cause) => Err(ReplaceMusicError::FsExtraError(cause)),
    }
}

} // verus!
