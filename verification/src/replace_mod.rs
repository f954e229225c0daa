//! The swap: replacing the music and the installed mods of the game by
//! those of one bundle, step by step. The steps that touch the disk are
//! requests to the caller; what the caller reports decides the next step.

pub mod laws;
pub mod replace_mods;
pub mod replace_music;

use crate::configs::current_mod_config::{
    format_current_mod, CurrentMod, CurrentModError, CurrentModErrorView, MODS_CONFIG_FILE_NAME,
};
use crate::configs::paths_config::{GamePath, PathsConfig, PathsConfigView, ProgramPath};
use crate::hotline_mod::{HotlineMod, HotlineModName, HotlineModView, ListedEntry, Music};
use crate::manager::DefaultHotlineMod;
use crate::replace_mod::replace_mods::{
    mods_copy_of, patch_file_paths, patch_files, replace_mods, ModsCopy, ModsCopyView,
    ReplaceModError, ReplaceModErrorView,
};
use crate::replace_mod::replace_music::{
    music_copy_of, replace_music, MusicCopy, MusicCopyView, ReplaceMusicError,
    ReplaceMusicErrorView,
};
use crate::text::texts;
use vstd::prelude::*;

verus! {

/// What is shown where neither the bundle nor the default bundle has music.
pub const ORIGINAL_GAME_SETTINGS_NOT_FOUND_WARNING: &'static str =
    "Attention: You don't have a folder for the original Hotline Miami 2 with the correct configuration. It should contain the original game's music and be named 'hotline_miami_2'. Without it, the program may not behave as expected. For more information, visit the project's GitHub (https://github.com/cardosoOReis/hotline_miami_mod_manager.git).";

/// The text that a progress display shows for a number of bytes.
pub uninterp spec fn human_bytes_text(bytes: u64) -> Seq<char>;

/// Formats a number of bytes with `indicatif::HumanBytes`, through its
/// `Display`. The text depends on the number alone; the contract gives it
/// the name `human_bytes_text(bytes)` and claims nothing more of it.
#[verifier::external_body]
fn human_bytes(bytes: u64) -> (r: String)
    ensures
        r@ == human_bytes_text(bytes),
{
    indicatif::HumanBytes(bytes).to_string()
}

/// The progress line for the two amounts, each already as text.
pub open spec fn progress_text(copied: Seq<char>, total: Seq<char>) -> Seq<char> {
    "Copied: "@ + copied + " - Total: "@ + total
}

/// The progress line for the two amounts, each already as text.
pub fn progress_message(copied: &str, total: &str) -> (r: String)
    ensures
        r@ == progress_text(copied@, total@),
{
    let mut message = String::from_str("Copied: ");
    message.append(copied);
    message.append(" - Total: ");
    message.append(total);
    message
}

/// The progress line of a copy that has moved `copied_bytes` of
/// `total_bytes`.
pub fn update_progress_bar(total_bytes: u64, copied_bytes: u64) -> (r: String)
    ensures
        r@ == progress_text(human_bytes_text(copied_bytes), human_bytes_text(total_bytes)),
{
    let total = human_bytes(total_bytes);
    let copied = human_bytes(copied_bytes);
    progress_message(copied.as_str(), total.as_str())
}

/// Where a swap stands.
#[derive(Debug, Clone, Copy, PartialEq, Eq, Structural)]
pub enum SwapStage {
    /// The music copy was requested.
    CopyingMusic,
    /// The listing of the active mods directory was requested.
    ListingMods,
    /// The deletion of a patch file was requested.
    RemovingMods,
    /// The bulk copy of the mod files was requested.
    CopyingMods,
    /// The write of the current bundle's file was requested.
    Persisting,
    /// Every step succeeded: the bundle is the current one.
    Done,
    /// A step failed: nothing more is done.
    Failed,
}

/// Why a swap ended without success, as a value.
pub enum SwapErrorView {
    Music(ReplaceMusicErrorView),
    Mods(ReplaceModErrorView),
    CurrentMod(CurrentModErrorView),
    UnexpectedReply,
}

/// Why a swap ended without success.
#[derive(Debug)]
pub enum SwapError {
    /// The music could not be replaced.
    Music(ReplaceMusicError),
    /// The mods could not be replaced.
    Mods(ReplaceModError),
    /// The current bundle could not be written to its file.
    CurrentMod(CurrentModError),
    /// The caller reported something that the step requested cannot give,
    /// or reported to a swap that had ended.
    UnexpectedReply,
}

impl View for SwapError {
    type V = SwapErrorView;

    open spec fn view(&self) -> SwapErrorView {
        match self {
            SwapError::Music(error) => SwapErrorView::Music(error@),
            SwapError::Mods(error) => SwapErrorView::Mods(error@),
            SwapError::CurrentMod(error) => SwapErrorView::CurrentMod(error@),
            SwapError::UnexpectedReply => SwapErrorView::UnexpectedReply,
        }
    }
}

impl SwapError {
    /// The message of each kind of error.
    pub open spec fn message_text(&self) -> Seq<char> {
        match self {
            SwapError::Music(_) => "Error trying to copy the music bytes."@,
            SwapError::Mods(error) => error.message_text(),
            SwapError::CurrentMod(error) => error.message_text(),
            SwapError::UnexpectedReply => "The swap was given a report it did not ask for."@,
        }
    }

    /// The message to show for this error.
    pub fn message(&self) -> (r: &'static str)
        ensures
            r@ == self.message_text(),
    {
        match self {
            SwapError::Music(error) => error.message(),
            SwapError::Mods(error) => error.message(),
            SwapError::CurrentMod(error) => error.message(),
            SwapError::UnexpectedReply => "The swap was given a report it did not ask for.",
        }
    }
}

/// What the caller must do next, as a value.
pub enum SwapRequestView {
    CopyMusic(MusicCopyView),
    ListMods { directory: Seq<char> },
    RemoveFile { path: Seq<char> },
    CopyMods(ModsCopyView),
    Persist { file_name: Seq<char>, content: Seq<char> },
    Finish,
    Abort(SwapErrorView),
}

/// What the caller must do next.
#[derive(Debug)]
pub enum SwapRequest {
    /// Copy the music file and report how it went.
    CopyMusic(MusicCopy),
    /// List the active mods directory and report its entries.
    ListMods { directory: String },
    /// Delete this patch file and report how it went.
    RemoveFile { path: String },
    /// Copy the mod files and report how it went.
    CopyMods(ModsCopy),
    /// Replace the content of this file and report how it went.
    Persist { file_name: &'static str, content: String },
    /// Nothing: the swap succeeded.
    Finish,
    /// Nothing: the swap failed for this reason.
    Abort(SwapError),
}

impl View for SwapRequest {
    type V = SwapRequestView;

    open spec fn view(&self) -> SwapRequestView {
        match self {
            SwapRequest::CopyMusic(copy) => SwapRequestView::CopyMusic(copy@),
            SwapRequest::ListMods { directory } => SwapRequestView::ListMods {
                directory: directory@,
            },
            SwapRequest::RemoveFile { path } => SwapRequestView::RemoveFile { path: path@ },
            SwapRequest::CopyMods(copy) => SwapRequestView::CopyMods(copy@),
            SwapRequest::Persist { file_name, content } => SwapRequestView::Persist {
                file_name: file_name@,
                content: content@,
            },
            SwapRequest::Finish => SwapRequestView::Finish,
            SwapRequest::Abort(error) => SwapRequestView::Abort(error@),
        }
    }
}

/// What the caller reports of the step it was asked for, as a value.
pub enum SwapReplyView {
    Completed,
    Failed(Seq<char>),
    Listing(Seq<ListedEntry>),
}

/// What the caller reports of the step it was asked for.
#[derive(Debug)]
pub enum SwapReply {
    /// The copy, the deletion or the write succeeded.
    Completed,
    /// The step failed; the cause as text.
    Failed(String),
    /// The entries of the directory listed.
    Listing(Vec<ListedEntry>),
}

impl View for SwapReply {
    type V = SwapReplyView;

    open spec fn view(&self) -> SwapReplyView {
        match self {
            SwapReply::Completed => SwapReplyView::Completed,
            SwapReply::Failed(cause) => SwapReplyView::Failed(cause@),
            SwapReply::Listing(entries) => SwapReplyView::Listing(entries@),
        }
    }
}

/// What a swap is: the bundle it installs, the bulk copy that the bundle
/// needs if any, the active mods directory, the stage, and the patch files
/// that are still to be deleted.
pub struct ModSwapView {
    pub name: Seq<char>,
    pub copy: Option<ModsCopyView>,
    pub mods_path: Seq<char>,
    pub stage: SwapStage,
    pub pending: Seq<Seq<char>>,
}

impl ModSwapView {
    /// While a deletion is awaited, there is a file to delete.
    pub open spec fn wf(self) -> bool {
        self.stage == SwapStage::RemovingMods ==> self.pending.len() > 0
    }

    /// The swap has not ended.
    pub open spec fn is_live(self) -> bool {
        self.stage != SwapStage::Done && self.stage != SwapStage::Failed
    }
}

/// The music that a swap copies: that of the bundle, else that of the
/// default bundle, else none.
pub open spec fn resolved_music(target: Option<Seq<char>>, fallback: Option<Seq<char>>) -> Option<
    Seq<char>,
> {
    match target {
        Some(music) => Some(music),
        None => fallback,
    }
}

/// The request to remember the bundle as the current one.
pub open spec fn persist_request(name: Seq<char>) -> SwapRequestView {
    SwapRequestView::Persist {
        file_name: MODS_CONFIG_FILE_NAME@,
        content: format_current_mod(name),
    }
}

/// The swap ends in failure.
pub open spec fn abort_spec(swap: ModSwapView, error: SwapErrorView) -> (
    ModSwapView,
    SwapRequestView,
) {
    (ModSwapView { stage: SwapStage::Failed, ..swap }, SwapRequestView::Abort(error))
}

/// The step after the cleanup: the bulk copy, or for a bundle without mod
/// files the write of the current bundle's file.
pub open spec fn install_spec(swap: ModSwapView) -> (ModSwapView, SwapRequestView) {
    match swap.copy {
        Some(copy) => (
            ModSwapView { stage: SwapStage::CopyingMods, ..swap },
            SwapRequestView::CopyMods(copy),
        ),
        None => (ModSwapView { stage: SwapStage::Persisting, ..swap }, persist_request(swap.name)),
    }
}

/// The next step of the cleanup: the deletion of the first patch file that
/// is left, or where none is left the step after the cleanup.
pub open spec fn removal_spec(swap: ModSwapView) -> (ModSwapView, SwapRequestView) {
    if swap.pending.len() > 0 {
        (
            ModSwapView { stage: SwapStage::RemovingMods, ..swap },
            SwapRequestView::RemoveFile { path: swap.pending[0] },
        )
    } else {
        install_spec(swap)
    }
}

/// How a swap starts: with the music copy where there is music to copy,
/// with the listing of the active mods directory where there is none.
pub open spec fn begin_spec(
    target: HotlineModView,
    default_music: Option<Seq<char>>,
    paths: PathsConfigView,
) -> (ModSwapView, SwapRequestView) {
    let swap = ModSwapView {
        name: target.name,
        copy: mods_copy_of(paths.mods_path, target.mods, target.name),
        mods_path: paths.mods_path,
        stage: SwapStage::ListingMods,
        pending: Seq::empty(),
    };
    match resolved_music(target.music, default_music) {
        Some(music) => (
            ModSwapView { stage: SwapStage::CopyingMusic, ..swap },
            SwapRequestView::CopyMusic(music_copy_of(paths.game_path, music, target.name)),
        ),
        None => (swap, SwapRequestView::ListMods { directory: paths.mods_path }),
    }
}

/// How a swap goes on after a report. The steps follow each other in one
/// order: music, listing, deletions, bulk copy, write of the current
/// bundle. A failure ends the swap with the error of the step that failed.
/// A report that the awaited step cannot give ends it too. A swap that has
/// ended stays as it is.
pub open spec fn advance_spec(swap: ModSwapView, reply: SwapReplyView) -> (
    ModSwapView,
    SwapRequestView,
) {
    match swap.stage {
        SwapStage::CopyingMusic => match reply {
            SwapReplyView::Completed => (
                ModSwapView { stage: SwapStage::ListingMods, ..swap },
                SwapRequestView::ListMods { directory: swap.mods_path },
            ),
            SwapReplyView::Failed(cause) => abort_spec(
                swap,
                SwapErrorView::Music(ReplaceMusicErrorView::FsExtraError(cause)),
            ),
            SwapReplyView::Listing(_) => abort_spec(swap, SwapErrorView::UnexpectedReply),
        },
        SwapStage::ListingMods => match reply {
            SwapReplyView::Listing(entries) => removal_spec(
                ModSwapView { pending: patch_files(entries), ..swap },
            ),
            SwapReplyView::Failed(cause) => abort_spec(
                swap,
                SwapErrorView::Mods(ReplaceModErrorView::ReadingModsDirectory(cause)),
            ),
            SwapReplyView::Completed => abort_spec(swap, SwapErrorView::UnexpectedReply),
        },
        SwapStage::RemovingMods => match reply {
            SwapReplyView::Completed => removal_spec(
                ModSwapView { pending: swap.pending.drop_first(), ..swap },
            ),
            SwapReplyView::Failed(cause) => abort_spec(
                swap,
                SwapErrorView::Mods(
                    ReplaceModErrorView::DeletingModFile(cause, swap.pending[0]),
                ),
            ),
            SwapReplyView::Listing(_) => abort_spec(swap, SwapErrorView::UnexpectedReply),
        },
        SwapStage::CopyingMods => match reply {
            SwapReplyView::Completed => (
                ModSwapView { stage: SwapStage::Persisting, ..swap },
                persist_request(swap.name),
            ),
            SwapReplyView::Failed(cause) => abort_spec(
                swap,
                SwapErrorView::Mods(ReplaceModErrorView::FsExtra(cause)),
            ),
            SwapReplyView::Listing(_) => abort_spec(swap, SwapErrorView::UnexpectedReply),
        },
        SwapStage::Persisting => match reply {
            SwapReplyView::Completed => (
                ModSwapView { stage: SwapStage::Done, ..swap },
                SwapRequestView::Finish,
            ),
            SwapReplyView::Failed(cause) => abort_spec(
                swap,
                SwapErrorView::CurrentMod(CurrentModErrorView::IoError(cause)),
            ),
            SwapReplyView::Listing(_) => abort_spec(swap, SwapErrorView::UnexpectedReply),
        },
        SwapStage::Done => (swap, SwapRequestView::Finish),
        SwapStage::Failed => (swap, SwapRequestView::Abort(SwapErrorView::UnexpectedReply)),
    }
}

/// A swap in its cleanup, made of these parts.
pub open spec fn cleanup_view(
    name: HotlineModName,
    copy: Option<ModsCopy>,
    mods_path: String,
    pending: Seq<Seq<char>>,
) -> ModSwapView {
    ModSwapView {
        name: name@,
        copy: match copy {
            Some(copy) => Some(copy@),
            None => None,
        },
        mods_path: mods_path@,
        stage: SwapStage::RemovingMods,
        pending,
    }
}

/// One swap in progress.
#[derive(Debug)]
pub struct ModSwap {
    name: HotlineModName,
    copy: Option<ModsCopy>,
    mods_path: String,
    stage: SwapStage,
    pending: Vec<String>,
    removed: usize,
}

impl View for ModSwap {
    type V = ModSwapView;

    closed spec fn view(&self) -> ModSwapView {
        ModSwapView {
            name: self.name@,
            copy: match self.copy {
                Some(copy) => Some(copy@),
                None => None,
            },
            mods_path: self.mods_path@,
            stage: self.stage,
            pending: texts(self.pending@).skip(self.removed as int),
        }
    }
}

impl ModSwap {
    #[verifier::type_invariant]
    spec fn removal_in_range(self) -> bool {
        &&& self.removed <= self.pending@.len()
        &&& self.stage == SwapStage::RemovingMods ==> self.removed < self.pending@.len()
    }

    /// Where the swap stands.
    pub fn stage(&self) -> (r: SwapStage)
        ensures
            r == self@.stage,
    {
        self.stage
    }

    /// Whether every step has succeeded.
    pub fn is_done(&self) -> (r: bool)
        ensures
            r == (self@.stage == SwapStage::Done),
    {
        self.stage == SwapStage::Done
    }

    /// The name of the bundle that the swap installs.
    pub fn name(&self) -> (r: &HotlineModName)
        ensures
            r@ == self@.name,
    {
        &self.name
    }

    fn abort(self, error: SwapError) -> (r: (ModSwap, SwapRequest))
        ensures
            (r.0@, r.1@) == abort_spec(self@, error@),
            r.0@.wf(),
    {
        proof {
            use_type_invariant(&self);
        }
        (ModSwap { stage: SwapStage::Failed, ..self }, SwapRequest::Abort(error))
    }

    fn persist(self) -> (r: (ModSwap, SwapRequest))
        ensures
            r.0@ == (ModSwapView { stage: SwapStage::Persisting, ..self@ }),
            r.1@ == persist_request(self@.name),
            r.0@.wf(),
    {
        proof {
            use_type_invariant(&self);
        }
        let content = CurrentMod::from_mod(self.name.clone()).save();
        (
            ModSwap { stage: SwapStage::Persisting, ..self },
            SwapRequest::Persist { file_name: MODS_CONFIG_FILE_NAME, content },
        )
    }

    fn removal_step(
        name: HotlineModName,
        copy: Option<ModsCopy>,
        mods_path: String,
        pending: Vec<String>,
        removed: usize,
    ) -> (r: (ModSwap, SwapRequest))
        requires
            removed <= pending@.len(),
        ensures
            (r.0@, r.1@) == removal_spec(
                cleanup_view(name, copy, mods_path, texts(pending@).skip(removed as int)),
            ),
            r.0@.wf(),
    {
        if removed < pending.len() {
            let path = pending[removed].clone();
            let swap = ModSwap {
                name,
                copy,
                mods_path,
                stage: SwapStage::RemovingMods,
                pending,
                removed,
            };
            (swap, SwapRequest::RemoveFile { path })
        } else {
            match copy {
                Some(copy) => {
                    let request = SwapRequest::CopyMods(clone_mods_copy(&copy));
                    let swap = ModSwap {
                        name,
                        copy: Some(copy),
                        mods_path,
                        stage: SwapStage::CopyingMods,
                        pending,
                        removed,
                    };
                    (swap, request)
                },
                None => {
                    let swap = ModSwap {
                        name,
                        copy: None,
                        mods_path,
                        stage: SwapStage::Persisting,
                        pending,
                        removed,
                    };
                    swap.persist()
                },
            }
        }
    }

    /// Goes on after the report `reply` of the step that was requested
    /// last, and returns the swap with the next request.
    pub fn advance(self, reply: SwapReply) -> (r: (ModSwap, SwapRequest))
        ensures
            (r.0@, r.1@) == advance_spec(self@, reply@),
            r.0@.wf(),
    {
        proof {
            use_type_invariant(&self);
        }
        match self.stage {
            SwapStage::CopyingMusic => match reply {
                SwapReply::Completed => {
                    let directory = self.mods_path.clone();
                    (
                        ModSwap { stage: SwapStage::ListingMods, ..self },
                        SwapRequest::ListMods { directory },
                    )
                },
                SwapReply::Failed(cause) => self.abort(
                    SwapError::Music(ReplaceMusicError::FsExtraError(cause)),
                ),
                SwapReply::Listing(_) => self.abort(SwapError::UnexpectedReply),
            },
            SwapStage::ListingMods => match reply {
                SwapReply::Listing(entries) => {
                    let pending = patch_file_paths(entries.as_slice());
                    assert(texts(pending@).skip(0) == texts(pending@));
                    let ModSwap { name, copy, mods_path, .. } = self;
                    Self::removal_step(name, copy, mods_path, pending, 0)
                },
                SwapReply::Failed(cause) => self.abort(
                    SwapError::Mods(ReplaceModError::ReadingModsDirectory(cause)),
                ),
                SwapReply::Completed => self.abort(SwapError::UnexpectedReply),
            },
            SwapStage::RemovingMods => match reply {
                SwapReply::Completed => {
                    let ModSwap { name, copy, mods_path, pending, removed, .. } = self;
                    assert(removed < pending.len());
                    assert(texts(pending@).skip(removed as int).drop_first() == texts(
                        pending@,
                    ).skip(removed + 1));
                    Self::removal_step(name, copy, mods_path, pending, removed + 1)
                },
                SwapReply::Failed(cause) => {
                    let path = self.pending[self.removed].clone();
                    self.abort(SwapError::Mods(ReplaceModError::DeletingModFile(cause, path)))
                },
                SwapReply::Listing(_) => self.abort(SwapError::UnexpectedReply),
            },
            SwapStage::CopyingMods => match reply {
                SwapReply::Completed => self.persist(),
                SwapReply::Failed(cause) => self.abort(
                    SwapError::Mods(ReplaceModError::FsExtra(cause)),
                ),
                SwapReply::Listing(_) => self.abort(SwapError::UnexpectedReply),
            },
            SwapStage::Persisting => match reply {
                SwapReply::Completed => (
                    ModSwap { stage: SwapStage::Done, ..self },
                    SwapRequest::Finish,
                ),
                SwapReply::Failed(cause) => self.abort(
                    SwapError::CurrentMod(CurrentModError::IoError(cause)),
                ),
                SwapReply::Listing(_) => self.abort(SwapError::UnexpectedReply),
            },
            SwapStage::Done => (self, SwapRequest::Finish),
            SwapStage::Failed => (self, SwapRequest::Abort(SwapError::UnexpectedReply)),
        }
    }
}

fn clone_mods_copy(copy: &ModsCopy) -> (r: ModsCopy)
    ensures
        r@ == copy@,
{
    let mut sources: Vec<String> = Vec::new();
    let mut i: usize = 0;
    while i < copy.sources.len()
        invariant
            i <= copy.sources.len(),
            texts(sources@) == texts(copy.sources@).subrange(0, i as int),
        decreases copy.sources.len() - i,
    {
        let ghost before = texts(sources@);
        sources.push(copy.sources[i].clone());
        assert(texts(sources@) =~= before.push(copy.sources@[i as int]@));
        assert(texts(copy.sources@).subrange(0, i + 1) =~= before.push(
            copy.sources@[i as int]@,
        ));
        i += 1;
    }
    assert(texts(copy.sources@).subrange(0, i as int) == texts(copy.sources@));
    ModsCopy { sources, directory: copy.directory.clone(), message: copy.message.clone() }
}

/// The music that a swap to `hm_mod` copies: its own, else that of the
/// default bundle, else none.
pub fn resolve_music<'a>(hm_mod: &'a HotlineMod, default_music: Option<&'a Music>) -> (r: Option<
    &'a Music,
>)
    ensures
        match r {
            Some(music) => resolved_music(
                hm_mod@.music,
                match default_music {
                    Some(music) => Some(music@),
                    None => None,
                },
            ) == Some(music@),
            None => hm_mod@.music is None && default_music is None,
        },
{
    match hm_mod.music() {
        Some(music) => Some(music),
        None => default_music,
    }
}

/// Plans the replacement of the game's music by that of the default bundle.
/// There is nothing to copy where the default bundle has no music.
pub fn replace_default_music(default_mod: &DefaultHotlineMod, game_path: &GamePath) -> (r: Option<
    MusicCopy,
>)
    ensures
        match r {
            Some(copy) => default_mod@.music matches Some(music) && copy@ == music_copy_of(
                game_path.path_text(),
                music,
                default_mod@.name,
            ),
            None => default_mod@.music is None,
        },
{
    let bundle = default_mod.hm_mod();
    match bundle.music() {
        Some(music) => Some(replace_music(game_path, music, bundle.name())),
        None => None,
    }
}

/// Starts the swap to the bundle `hm_mod`. Returns the swap, the first
/// request, and the warning to show where there is no music to copy, which
/// does not stop the swap.
pub fn replace_mod(hm_mod: &HotlineMod, default_music: Option<&Music>, paths: &PathsConfig) -> (r: (
    ModSwap,
    SwapRequest,
    Option<&'static str>,
))
    ensures
        (r.0@, r.1@) == begin_spec(
            hm_mod@,
            match default_music {
                Some(music) => Some(music@),
                None => None,
            },
            paths@,
        ),
        r.0@.wf(),
        match r.2 {
            Some(warning) => hm_mod@.music is None && default_music is None && warning@
                == ORIGINAL_GAME_SETTINGS_NOT_FOUND_WARNING@,
            None => hm_mod@.music is Some || default_music is Some,
        },
{
    let name = hm_mod.name().clone();
    let copy = replace_mods(paths.mods_path(), hm_mod.mods(), hm_mod.name());
    let mods_path = String::from_str(paths.mods_path().path());
    let pending: Vec<String> = Vec::new();
    assert(texts(pending@).skip(0) == Seq::<Seq<char>>::empty());
    match resolve_music(hm_mod, default_music) {
        Some(music) => {
            let request = SwapRequest::CopyMusic(
                replace_music(paths.game_path(), music, hm_mod.name()),
            );
            (
                ModSwap {
                    name,
                    copy,
                    mods_path,
                    stage: SwapStage::CopyingMusic,
                    pending,
                    removed: 0,
                },
                request,
                None,
            )
        },
        None => {
            let request = SwapRequest::ListMods { directory: mods_path.clone() };
            (
                ModSwap {
                    name,
                    copy,
                    mods_path,
                    stage: SwapStage::ListingMods,
                    pending,
                    removed: 0,
                },
                request,
                Some(ORIGINAL_GAME_SETTINGS_NOT_FOUND_WARNING),
            )
        },
    }
}

} // verus!
