//! The manager: the configuration, the bundles of the mod library and the
//! default bundle, and the operations that the menu offers on them.

use crate::configs::current_mod_config::MODS_CONFIG_FILE_NAME;
use crate::configs::paths_config::{format_paths_config, PathsConfig, PATH_CONFIGS_FILE_NAME};
use crate::configs::{Configs, ConfigsView};
use crate::hotline_mod::{
    bundle_views, entry_paths, first_music, HotlineMod, HotlineModName, HotlineModView,
    ListedEntry, Music,
};
use crate::replace_mod::{
    begin_spec, replace_mod, ModSwap, SwapRequest, SwapStage,
    ORIGINAL_GAME_SETTINGS_NOT_FOUND_WARNING,
};
use crate::text::same_text;
use vstd::prelude::*;

verus! {

/// Directory name of the default bundle, which holds the unmodified assets
/// of the game.
pub const DEFAULT_MOD_NAME: &'static str = "hotline_miami_2";

/// What a scan of one directory of the mod library found.
#[derive(Debug)]
pub struct BundleScan {
    /// Whether the entry of the mod library is a directory.
    pub is_directory: bool,
    /// The final segment of the directory's path, where it has one that is
    /// text.
    pub directory_name: Option<String>,
    /// The entries of the music subdirectory; none where it is missing or
    /// unreadable.
    pub music_entries: Vec<ListedEntry>,
    /// The entries of the mods subdirectory; none where it is missing or
    /// unreadable.
    pub mods_entries: Vec<ListedEntry>,
}

/// The bundle that a scan describes, if it describes one: a directory
/// whose path has a final segment.
pub open spec fn bundle_of(scan: BundleScan) -> Option<HotlineModView> {
    match scan.directory_name {
        Some(name) if scan.is_directory => Some(
            HotlineModView {
                name: name@,
                music: first_music(scan.music_entries@),
                mods: entry_paths(scan.mods_entries@),
            },
        ),
        _ => None,
    }
}

/// The bundles that the scans describe, in scan order; a scan that
/// describes none is passed over.
pub open spec fn bundles_of(scans: Seq<BundleScan>) -> Seq<HotlineModView>
    decreases scans.len(),
{
    if scans.len() == 0 {
        Seq::empty()
    } else {
        match bundle_of(scans.last()) {
            Some(bundle) => bundles_of(scans.drop_last()).push(bundle),
            None => bundles_of(scans.drop_last()),
        }
    }
}

/// Position of the first bundle named `name`, or the number of bundles
/// where none has that name.
pub open spec fn position_of(mods: Seq<HotlineModView>, name: Seq<char>) -> int
    decreases mods.len(),
{
    if mods.len() == 0 {
        0
    } else if mods[0].name == name {
        0
    } else {
        1 + position_of(mods.drop_first(), name)
    }
}

/// Whether a bundle has this name.
pub open spec fn name_taken(mods: Seq<HotlineModView>, name: Seq<char>) -> bool {
    exists|i: int| 0 <= i < mods.len() && (#[trigger] mods[i]).name == name
}

/// No two bundles have one name.
pub open spec fn names_unique(mods: Seq<HotlineModView>) -> bool {
    forall|i: int, j: int|
        0 <= i < j < mods.len() ==> (#[trigger] mods[i]).name != (#[trigger] mods[j]).name
}

/// The default bundle, held out of the library, and the bundles that stay:
/// the first bundle with the default name leaves the list, the others keep
/// their order.
pub open spec fn split_default(mods: Seq<HotlineModView>) -> (
    Option<HotlineModView>,
    Seq<HotlineModView>,
) {
    let k = position_of(mods, DEFAULT_MOD_NAME@);
    if 0 <= k < mods.len() {
        (Some(mods[k]), mods.remove(k))
    } else {
        (None, mods)
    }
}

/// What `position_of` returns: a position inside the list or its length,
/// with no bundle of that name before it and, inside the list, one at it.
pub proof fn lemma_position_of(mods: Seq<HotlineModView>, name: Seq<char>)
    ensures
        0 <= position_of(mods, name) <= mods.len(),
        forall|i: int| 0 <= i < position_of(mods, name) ==> (#[trigger] mods[i]).name != name,
        position_of(mods, name) < mods.len() ==> mods[position_of(mods, name)].name == name,
        position_of(mods, name) < mods.len() <==> name_taken(mods, name),
    decreases mods.len(),
{
    if mods.len() > 0 && mods[0].name != name {
        let rest = mods.drop_first();
        lemma_position_of(rest, name);
        assert forall|i: int| 0 <= i < position_of(mods, name) implies (#[trigger] mods[i]).name
            != name by {
            if i > 0 {
                assert(mods[i] == rest[i - 1]);
            }
        }
        if name_taken(mods, name) {
            let i = choose|i: int| 0 <= i < mods.len() && (#[trigger] mods[i]).name == name;
            assert(rest[i - 1] == mods[i]);
        }
        if name_taken(rest, name) {
            let i = choose|i: int| 0 <= i < rest.len() && (#[trigger] rest[i]).name == name;
            assert(mods[i + 1] == rest[i]);
        }
    } else if mods.len() > 0 {
        assert(mods[0].name == name);
    }
}

/// The default bundle is not offered for selection. Where no two bundles
/// found have one name, no bundle that stays in the library has the
/// default name, and the names that stay are still unique.
pub proof fn lemma_default_is_held_out(mods: Seq<HotlineModView>)
    requires
        names_unique(mods),
    ensures
        !name_taken(split_default(mods).1, DEFAULT_MOD_NAME@),
        names_unique(split_default(mods).1),
        split_default(mods).0 is Some <==> name_taken(mods, DEFAULT_MOD_NAME@),
{
    let name = DEFAULT_MOD_NAME@;
    let k = position_of(mods, name);
    let rest = split_default(mods).1;
    lemma_position_of(mods, name);
    if k < mods.len() {
        assert forall|i: int| 0 <= i < rest.len() implies (#[trigger] rest[i]).name != name by {
            if i < k {
                assert(rest[i] == mods[i]);
            } else {
                assert(rest[i] == mods[i + 1]);
            }
        }
        assert forall|i: int, j: int| 0 <= i < j < rest.len() implies (#[trigger] rest[i]).name != (
        #[trigger] rest[j]).name by {
            let a = if i < k {
                i
            } else {
                i + 1
            };
            let b = if j < k {
                j
            } else {
                j + 1
            };
            assert(rest[i] == mods[a]);
            assert(rest[j] == mods[b]);
        }
    }
}

/// No two scans that describe a bundle give it the same name, as it is for
/// the entries of one directory.
pub open spec fn scan_names_unique(scans: Seq<BundleScan>) -> bool {
    forall|i: int, j: int|
        0 <= i < j < scans.len() && bundle_of(#[trigger] scans[i]) is Some && bundle_of(
            #[trigger] scans[j],
        ) is Some ==> bundle_of(scans[i])->0.name != bundle_of(scans[j])->0.name
}

/// Whether a scan describes a bundle of this name.
pub open spec fn is_scanned_name(scans: Seq<BundleScan>, name: Seq<char>) -> bool {
    exists|k: int|
        0 <= k < scans.len() && bundle_of(#[trigger] scans[k]) is Some && bundle_of(
            scans[k],
        )->0.name == name
}

proof fn lemma_bundles_come_from_scans(scans: Seq<BundleScan>)
    ensures
        forall|i: int|
            0 <= i < bundles_of(scans).len() ==> is_scanned_name(
                scans,
                (#[trigger] bundles_of(scans)[i]).name,
            ),
    decreases scans.len(),
{
    if scans.len() > 0 {
        let front = scans.drop_last();
        lemma_bundles_come_from_scans(front);
        let found = bundles_of(scans);
        assert forall|i: int| 0 <= i < found.len() implies is_scanned_name(
            scans,
            (#[trigger] found[i]).name,
        ) by {
            if i < bundles_of(front).len() {
                assert(found[i] == bundles_of(front)[i]);
                assert(is_scanned_name(front, bundles_of(front)[i].name));
                let k = choose|k: int|
                    0 <= k < front.len() && bundle_of(#[trigger] front[k]) is Some && bundle_of(
                        front[k],
                    )->0.name == found[i].name;
                assert(scans[k] == front[k]);
            } else {
                assert(scans[scans.len() - 1] == scans.last());
            }
        }
    }
}

/// The bundles of a library have unique names where the scans have: the
/// scan neither repeats nor renames a directory.
pub proof fn lemma_library_names_unique(scans: Seq<BundleScan>)
    requires
        scan_names_unique(scans),
    ensures
        names_unique(bundles_of(scans)),
    decreases scans.len(),
{
    if scans.len() > 0 {
        let front = scans.drop_last();
        assert forall|i: int, j: int|
            0 <= i < j < front.len() && bundle_of(#[trigger] front[i]) is Some && bundle_of(
                #[trigger] front[j],
            ) is Some implies bundle_of(front[i])->0.name != bundle_of(front[j])->0.name by {
            assert(front[i] == scans[i] && front[j] == scans[j]);
        }
        lemma_library_names_unique(front);
        lemma_bundles_come_from_scans(front);
        let found = bundles_of(scans);
        assert forall|i: int, j: int| 0 <= i < j < found.len() implies (#[trigger] found[i]).name
            != (#[trigger] found[j]).name by {
            if j < bundles_of(front).len() {
                assert(found[i] == bundles_of(front)[i]);
                assert(found[j] == bundles_of(front)[j]);
            } else {
                assert(found[i] == bundles_of(front)[i]);
                assert(is_scanned_name(front, bundles_of(front)[i].name));
                let k = choose|k: int|
                    0 <= k < front.len() && bundle_of(#[trigger] front[k]) is Some && bundle_of(
                        front[k],
                    )->0.name == found[i].name;
                assert(scans[k] == front[k]);
                assert(scans[scans.len() - 1] == scans.last());
            }
        }
    }
}

/// The default bundle.
#[derive(Debug)]
pub struct DefaultHotlineMod(HotlineMod);

impl View for DefaultHotlineMod {
    type V = HotlineModView;

    closed spec fn view(&self) -> HotlineModView {
        self.0@
    }
}

impl DefaultHotlineMod {
    /// The bundle itself.
    pub fn hm_mod(&self) -> (r: &HotlineMod)
        ensures
            r@ == self@,
    {
        &self.0
    }
}

/// The bundles of the mod library that can be selected.
#[derive(Debug)]
pub struct AllMods(Vec<HotlineMod>);

impl View for AllMods {
    type V = Seq<HotlineModView>;

    open spec fn view(&self) -> Seq<HotlineModView> {
        bundle_views(self.stored()@)
    }
}

impl AllMods {
    /// The bundles held.
    pub closed spec fn stored(&self) -> Vec<HotlineMod> {
        self.0
    }

    /// A library of these bundles.
    pub fn new(mods: Vec<HotlineMod>) -> (r: Self)
        ensures
            r.stored() == mods,
    {
        AllMods(mods)
    }

    /// The bundles, in scan order.
    pub fn mods(&self) -> (r: &[HotlineMod])
        ensures
            r@ == self.stored()@,
    {
        self.0.as_slice()
    }

    /// The bundles, to change the list in place.
    pub fn mods_mut(&mut self) -> (r: &mut Vec<HotlineMod>)
        ensures
            *r == old(self).stored(),
            final(self).stored() == *final(r),
    {
        &mut self.0
    }
}

/// Builds the bundles that the scans of the mod library describe.
pub fn list_mods(scans: &Vec<BundleScan>) -> (r: AllMods)
    ensures
        r@ == bundles_of(scans@),
{
    let mut mods: Vec<HotlineMod> = Vec::new();
    let mut i: usize = 0;
    while i < scans.len()
        invariant
            i <= scans.len(),
            bundle_views(mods@) == bundles_of(
                scans@.subrange(0, i as int),
            ),
        decreases scans.len() - i,
    {
        let ghost before = bundle_views(mods@);
        assert(scans@.subrange(0, i + 1).drop_last() == scans@.subrange(0, i as int));
        assert(scans@.subrange(0, i + 1).last() == scans@[i as int]);
        let scan = &scans[i];
        let directory_name = match &scan.directory_name {
            Some(name) if scan.is_directory => Some(name.as_str()),
            _ => None,
        };
        match HotlineMod::new(directory_name, &scan.music_entries, &scan.mods_entries) {
            Some(bundle) => {
                mods.push(bundle);
                assert(bundle_views(mods@) =~= before.push(
                    bundle_of(scans@[i as int])->0,
                ));
            },
            None => {},
        }
        i += 1;
    }
    assert(scans@.subrange(0, i as int) == scans@);
    AllMods(mods)
}

/// Position of the default bundle among `mods`, if it is there.
pub fn get_default_mod(mods: &[HotlineMod]) -> (r: Option<usize>)
    ensures
        match r {
            Some(k) => k < mods.len() && k == position_of(
                bundle_views(mods@),
                DEFAULT_MOD_NAME@,
            ),
            None => position_of(bundle_views(mods@), DEFAULT_MOD_NAME@)
                == mods.len(),
        },
{
    let ghost views = bundle_views(mods@);
    let mut i: usize = 0;
    assert(views.subrange(0, views.len() as int) == views);
    while i < mods.len()
        invariant
            i <= mods.len(),
            views == bundle_views(mods@),
            position_of(views, DEFAULT_MOD_NAME@) == i + position_of(
                views.subrange(i as int, views.len() as int),
                DEFAULT_MOD_NAME@,
            ),
        decreases mods.len() - i,
    {
        let ghost rest = views.subrange(i as int, views.len() as int);
        assert(rest[0] == mods@[i as int]@);
        if same_text(mods[i].name().directory_name(), DEFAULT_MOD_NAME) {
            return Some(i);
        }
        assert(rest.drop_first() == views.subrange(i + 1, views.len() as int));
        i += 1;
    }
    None
}

/// What the manager holds.
pub struct HotlineModManagerView {
    pub default_game: Option<HotlineModView>,
    pub all_mods: Seq<HotlineModView>,
    pub configs: ConfigsView,
}

/// The manager: one owner of the configuration and of the scanned library.
#[derive(Debug)]
pub struct HotlineModManager {
    default_game: Option<DefaultHotlineMod>,
    all_mods: AllMods,
    configs: Configs,
}

impl View for HotlineModManager {
    type V = HotlineModManagerView;

    closed spec fn view(&self) -> HotlineModManagerView {
        HotlineModManagerView {
            default_game: match self.default_game {
                Some(bundle) => Some(bundle@),
                None => None,
            },
            all_mods: self.all_mods@,
            configs: self.configs@,
        }
    }
}

/// The music of the default bundle, if there is a default bundle that has
/// music.
pub open spec fn default_music_of(default_game: Option<HotlineModView>) -> Option<Seq<char>> {
    match default_game {
        Some(bundle) => bundle.music,
        None => None,
    }
}

impl HotlineModManager {
    /// The manager of a configuration and a scanned mod library. The
    /// default bundle is held out of the bundles that can be selected.
    /// Where the library has no default bundle, the warning to show is
    /// returned with the manager.
    pub fn build(configs: Configs, scans: &Vec<BundleScan>) -> (r: (
        HotlineModManager,
        Option<&'static str>,
    ))
        ensures
            (r.0@.default_game, r.0@.all_mods) == split_default(bundles_of(scans@)),
            r.0@.configs == configs@,
            match r.1 {
                Some(warning) => r.0@.default_game is None && warning@
                    == ORIGINAL_GAME_SETTINGS_NOT_FOUND_WARNING@,
                None => r.0@.default_game is Some,
            },
    {
        let mut all_mods = list_mods(scans);
        let ghost found = all_mods@;
        proof {
            lemma_position_of(found, DEFAULT_MOD_NAME@);
        }
        match get_default_mod(all_mods.0.as_slice()) {
            Some(index) => {
                let bundle = all_mods.0.remove(index);
                assert(all_mods@ =~= found.remove(index as int));
                (
                    HotlineModManager {
                        default_game: Some(DefaultHotlineMod(bundle)),
                        all_mods,
                        configs,
                    },
                    None,
                )
            },
            None => (
                HotlineModManager { default_game: None, all_mods, configs },
                Some(ORIGINAL_GAME_SETTINGS_NOT_FOUND_WARNING),
            ),
        }
    }

    /// The configuration.
    pub fn configs(&self) -> (r: &Configs)
        ensures
            r@ == self@.configs,
    {
        &self.configs
    }

    /// The bundles that can be selected.
    pub fn all_mods(&self) -> (r: &AllMods)
        ensures
            r@ == self@.all_mods,
    {
        &self.all_mods
    }

    /// The default bundle, if the library has one.
    pub fn default_game(&self) -> (r: Option<&DefaultHotlineMod>)
        ensures
            match r {
                Some(bundle) => self@.default_game == Some(bundle@),
                None => self@.default_game is None,
            },
    {
        self.default_game.as_ref()
    }

    /// The music of the default bundle, if there is one.
    pub fn default_game_music(&self) -> (r: Option<&Music>)
        ensures
            match r {
                Some(music) => default_music_of(self@.default_game) == Some(music@),
                None => default_music_of(self@.default_game) is None,
            },
    {
        match &self.default_game {
            Some(bundle) => bundle.hm_mod().music(),
            None => None,
        }
    }

    /// Starts the swap to the bundle at `index` of the bundles that can be
    /// selected, with the music of the default bundle to fall back on.
    /// There is nothing to start where the index names no bundle.
    pub fn change_mod(&self, index: usize) -> (r: Option<
        (ModSwap, SwapRequest, Option<&'static str>),
    >)
        ensures
            match r {
                Some(start) => index < self@.all_mods.len() && (start.0@, start.1@) == begin_spec(
                    self@.all_mods[index as int],
                    default_music_of(self@.default_game),
                    self@.configs.paths_config,
                ) && start.0@.wf() && match start.2 {
                    Some(warning) => self@.all_mods[index as int].music is None
                        && default_music_of(self@.default_game) is None && warning@
                        == ORIGINAL_GAME_SETTINGS_NOT_FOUND_WARNING@,
                    None => self@.all_mods[index as int].music is Some || default_music_of(
                        self@.default_game,
                    ) is Some,
                },
                None => index >= self@.all_mods.len(),
            },
    {
        let mods = self.all_mods.mods();
        if index < mods.len() {
            Some(replace_mod(&mods[index], self.default_game_music(), self.configs.paths_config()))
        } else {
            None
        }
    }

    /// Starts the swap to the default bundle, which brings the game back to
    /// its unmodified state. There is nothing to start, and a warning to
    /// show, where the library has no default bundle or the default bundle
    /// has no music.
    pub fn use_default_settings(&self) -> (r: Result<(ModSwap, SwapRequest), &'static str>)
        ensures
            match r {
                Ok(start) => self@.default_game matches Some(bundle) && bundle.music is Some && (
                start.0@, start.1@) == begin_spec(bundle, None, self@.configs.paths_config)
                    && start.0@.wf(),
                Err(warning) => default_music_of(self@.default_game) is None && warning@
                    == ORIGINAL_GAME_SETTINGS_NOT_FOUND_WARNING@,
            },
    {
        match &self.default_game {
            Some(bundle) => {
                if bundle.hm_mod().music().is_some() {
                    let start = replace_mod(bundle.hm_mod(), None, self.configs.paths_config());
                    Ok((start.0, start.1))
                } else {
                    Err(ORIGINAL_GAME_SETTINGS_NOT_FOUND_WARNING)
                }
            },
            None => Err(ORIGINAL_GAME_SETTINGS_NOT_FOUND_WARNING),
        }
    }

    /// Ends a swap. The bundle of a swap that is done becomes the current
    /// one; after any other swap the configuration stays as it was.
    pub fn complete_swap(&mut self, swap: &ModSwap)
        ensures
            final(self)@.default_game == old(self)@.default_game,
            final(self)@.all_mods == old(self)@.all_mods,
            final(self)@.configs.paths_config == old(self)@.configs.paths_config,
            final(self)@.configs.current_mod == if swap@.stage == SwapStage::Done {
                Some(swap@.name)
            } else {
                old(self)@.configs.current_mod
            },
    {
        if swap.is_done() {
            let _ = self.configs.set_current_mod(swap.name().clone(), Ok(()));
        }
    }

    /// The files to delete to clear the configuration on disk: the paths
    /// file, and the current bundle's file where a current bundle is known.
    pub fn clear_configuration(&self) -> (r: Vec<&'static str>)
        ensures
            r@.len() == if self@.configs.current_mod is Some {
                2int
            } else {
                1int
            },
            r@[0]@ == PATH_CONFIGS_FILE_NAME@,
            self@.configs.current_mod is Some ==> r@[1]@ == MODS_CONFIG_FILE_NAME@,
    {
        self.configs.clear()
    }

    /// Takes other paths and returns the content that the paths file must
    /// hold from now on. The bundles stay as they were scanned.
    pub fn set_paths_config(&mut self, paths_config: PathsConfig) -> (r: String)
        ensures
            final(self)@.default_game == old(self)@.default_game,
            final(self)@.all_mods == old(self)@.all_mods,
            final(self)@.configs.paths_config == paths_config@,
            final(self)@.configs.current_mod == old(self)@.configs.current_mod,
            r@ == format_paths_config(paths_config@),
    {
        self.configs.set_paths_config(paths_config)
    }

    /// Adds the bundle whose directories were just created: it has a name
    /// and no files yet.
    pub fn create_new_mod_folder(&mut self, new_mod: HotlineModName)
        ensures
            final(self)@ == (HotlineModManagerView {
                all_mods: old(self)@.all_mods.push(
                    HotlineModView { name: new_mod@, music: None, mods: Seq::empty() },
                ),
                ..old(self)@
            }),
    {
        let ghost before = self.all_mods@;
        let bundle = HotlineMod::from_name(new_mod);
        self.all_mods.0.push(bundle);
        assert(self.all_mods@ =~= before.push(bundle@));
    }
}

} // verus!
