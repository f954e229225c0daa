//! The bundle model: one directory of the mod library with its display
//! name, its optional music file and its mod files.

use crate::functions::{capitalize, capitalized};
use crate::text::{file_has_extension, has_extension, join, join_texts, split, split_text, texts};
use vstd::prelude::*;

verus! {

/// Extension of a music file.
pub const VALID_MUSIC_EXTENSION: &'static str = "wad";

/// Name of the subdirectory of a bundle that holds its music.
pub const MUSIC_FOLDER_NAME: &'static str = "music";

/// Name of the subdirectory of a bundle that holds its mod files.
pub const MODS_FOLDER_NAME: &'static str = "mods";

/// The words of a directory name: its pieces between underscores, each with
/// its first character in uppercase.
pub open spec fn display_words(directory_name: Seq<char>) -> Seq<Seq<char>> {
    split(directory_name, '_').map_values(|word: Seq<char>| capitalized(word))
}

/// The display name of a bundle: the words of its directory name with one
/// space between each two.
pub open spec fn formatted_name_of(directory_name: Seq<char>) -> Seq<char> {
    join(display_words(directory_name), seq![' '])
}

/// The name of a bundle. Its identity is the directory name; the display
/// name is derived from it and serves prompts and messages only.
#[derive(Debug)]
pub struct HotlineModName {
    dir_name: String,
    formatted_name: String,
}

impl View for HotlineModName {
    type V = Seq<char>;

    /// The directory name, which identifies the bundle.
    closed spec fn view(&self) -> Seq<char> {
        self.dir_name@
    }
}

impl Clone for HotlineModName {
    fn clone(&self) -> (r: Self)
        ensures
            r@ == self@,
    {
        proof {
            use_type_invariant(self);
        }
        HotlineModName {
            dir_name: self.dir_name.clone(),
            formatted_name: self.formatted_name.clone(),
        }
    }
}

impl HotlineModName {
    #[verifier::type_invariant]
    spec fn display_follows_directory(self) -> bool {
        self.formatted_name@ == formatted_name_of(self.dir_name@)
    }

    /// The display name that belongs to this directory name.
    pub open spec fn formatted_text(&self) -> Seq<char> {
        formatted_name_of(self@)
    }

    /// The name of the bundle in the directory `directory_name`.
    pub fn from_directory(directory_name: &str) -> (r: Self)
        ensures
            r@ == directory_name@,
    {
        HotlineModName {
            dir_name: String::from_str(directory_name),
            formatted_name: format_mod_name(directory_name),
        }
    }

    /// The directory name: the identifier under which the bundle is stored.
    pub fn directory_name(&self) -> (r: &str)
        ensures
            r@ == self@,
    {
        self.dir_name.as_str()
    }

    /// The display name, for prompts and messages only.
    pub fn formatted_name(&self) -> (r: &str)
        ensures
            r@ == self.formatted_text(),
    {
        proof {
            use_type_invariant(self);
        }
        self.formatted_name.as_str()
    }
}

/// The display name for a directory name: underscores become spaces, and
/// each word begins in uppercase.
pub fn format_mod_name(directory_name: &str) -> (r: String)
    ensures
        r@ == formatted_name_of(directory_name@),
{
    let words = split_text(directory_name, '_');
    let mut capitalized_words: Vec<String> = Vec::new();
    let mut i: usize = 0;
    while i < words.len()
        invariant
            i <= words.len(),
            texts(capitalized_words@) == texts(words@).subrange(0, i as int).map_values(
                |word: Seq<char>| capitalized(word),
            ),
        decreases words.len() - i,
    {
        let ghost before = texts(capitalized_words@);
        capitalized_words.push(capitalize(words[i].as_str()));
        assert(texts(capitalized_words@) =~= before.push(capitalized(words@[i as int]@)));
        assert(texts(words@).subrange(0, i + 1).map_values(|word: Seq<char>| capitalized(word))
            =~= before.push(capitalized(words@[i as int]@)));
        i += 1;
    }
    assert(texts(words@).subrange(0, i as int) == texts(words@));
    proof {
        reveal_strlit(" ");
        assert(" "@ == seq![' ']);
    }
    join_texts(&capitalized_words, " ")
}

/// A word of a display name: at least one character, none of them a space.
pub open spec fn is_clean_word(word: Seq<char>) -> bool {
    word.len() > 0 && !word.contains(' ')
}

/// Number of spaces in a text.
pub open spec fn count_spaces(s: Seq<char>) -> nat
    decreases s.len(),
{
    if s.len() == 0 {
        0
    } else if s.last() == ' ' {
        count_spaces(s.drop_last()) + 1
    } else {
        count_spaces(s.drop_last())
    }
}

/// A text that begins and ends with a visible character and never holds two
/// spaces in a row.
pub open spec fn is_single_spaced(s: Seq<char>) -> bool {
    &&& s.len() > 0
    &&& s[0] != ' '
    &&& s.last() != ' '
    &&& forall|i: int| 0 <= i < s.len() - 1 ==> !(s[i] == ' ' && #[trigger] s[i + 1] == ' ')
}

proof fn lemma_count_spaces_concat(a: Seq<char>, b: Seq<char>)
    ensures
        count_spaces(a + b) == count_spaces(a) + count_spaces(b),
    decreases b.len(),
{
    if b.len() == 0 {
        assert(a + b == a);
    } else {
        assert((a + b).drop_last() == a + b.drop_last());
        lemma_count_spaces_concat(a, b.drop_last());
    }
}

proof fn lemma_count_spaces_without_space(word: Seq<char>)
    requires
        !word.contains(' '),
    ensures
        count_spaces(word) == 0,
    decreases word.len(),
{
    if word.len() > 0 {
        let rest = word.drop_last();
        assert(word[word.len() - 1] != ' ');
        assert forall|i: int| 0 <= i < rest.len() implies rest[i] != ' ' by {
            assert(rest[i] == word[i]);
        }
        lemma_count_spaces_without_space(rest);
    }
}

proof fn lemma_join_clean_words(words: Seq<Seq<char>>)
    requires
        words.len() > 0,
        forall|i: int| 0 <= i < words.len() ==> is_clean_word(#[trigger] words[i]),
    ensures
        is_single_spaced(join(words, seq![' '])),
        count_spaces(join(words, seq![' '])) == words.len() - 1,
    decreases words.len(),
{
    let last = words.last();
    assert(is_clean_word(last));
    assert(last[0] != ' ');
    assert(last[last.len() - 1] != ' ');
    if words.len() == 1 {
        assert(forall|i: int| 0 <= i < last.len() ==> last[i] != ' ');
        lemma_count_spaces_without_space(last);
    } else {
        let front = words.drop_last();
        assert forall|i: int| 0 <= i < front.len() implies is_clean_word(#[trigger] front[i]) by {
            assert(front[i] == words[i]);
        }
        lemma_join_clean_words(front);
        let head = join(front, seq![' ']);
        let all = head + seq![' '] + last;
        assert(join(words, seq![' ']) == all);
        assert(all[0] == head[0]);
        assert(all.last() == last.last());
        assert forall|i: int| 0 <= i < all.len() - 1 implies !(all[i] == ' ' && #[trigger] all[i
            + 1] == ' ') by {
            if i + 1 < head.len() {
                assert(all[i] == head[i] && all[i + 1] == head[i + 1]);
            } else if i + 1 == head.len() {
                assert(all[i] == head.last());
            } else if i == head.len() {
                assert(all[i + 1] == last[0]);
            } else {
                assert(all[i] == last[i - head.len() - 1]);
            }
        }
        lemma_count_spaces_concat(head + seq![' '], last);
        lemma_count_spaces_concat(head, seq![' ']);
        lemma_count_spaces_without_space(last);
        let space = seq![' '];
        assert(space.len() == 1 && space.last() == ' ');
        assert(space.drop_last().len() == 0);
        assert(count_spaces(space.drop_last()) == 0);
        assert(count_spaces(space) == 1);
    }
}

/// How a display name is spaced. Where every word of it is clean, which is
/// so for a directory name of non-empty pieces between single underscores
/// whose characters and uppercase forms hold no space, the display name
/// neither begins nor ends with a space, never holds two spaces in a row,
/// and holds one space less than it has words: exactly one between each two
/// neighbours.
pub proof fn lemma_formatted_name_spacing(directory_name: Seq<char>)
    ensures
        (forall|i: int|
            0 <= i < display_words(directory_name).len() ==> is_clean_word(
                #[trigger] display_words(directory_name)[i],
            )) ==> is_single_spaced(formatted_name_of(directory_name)) && count_spaces(
            formatted_name_of(directory_name),
        ) == display_words(directory_name).len() - 1,
{
    let words = display_words(directory_name);
    assert(split(directory_name, '_').len() > 0);
    if forall|i: int| 0 <= i < words.len() ==> is_clean_word(#[trigger] words[i]) {
        lemma_join_clean_words(words);
    }
}

/// The display name is a function of the directory name: two names of one
/// directory have one display name.
pub proof fn lemma_formatted_name_deterministic(first: HotlineModName, second: HotlineModName)
    requires
        first@ == second@,
    ensures
        first.formatted_text() == second.formatted_text(),
{
}

/// One entry of a directory listing, as the file system reported it.
#[derive(Debug)]
pub struct ListedEntry {
    /// Path of the entry, directory and file name together.
    pub path: String,
    /// File name of the entry alone.
    pub file_name: String,
    /// Whether the entry is a regular file.
    pub is_file: bool,
}

/// Path of the music file of a bundle.
#[derive(Debug)]
pub struct Music(String);

impl View for Music {
    type V = Seq<char>;

    closed spec fn view(&self) -> Seq<char> {
        self.0@
    }
}

impl Music {
    /// The music file at `path`.
    pub fn new(path: String) -> (r: Self)
        ensures
            r@ == path@,
    {
        Music(path)
    }

    /// Path of the file.
    pub fn path(&self) -> (r: &str)
        ensures
            r@ == self@,
    {
        self.0.as_str()
    }
}

/// Paths of the mod files of a bundle, in listing order.
#[derive(Debug)]
pub struct AssociatedMods(Vec<String>);

impl View for AssociatedMods {
    type V = Seq<Seq<char>>;

    closed spec fn view(&self) -> Seq<Seq<char>> {
        texts(self.0@)
    }
}

impl AssociatedMods {
    /// The mod files at `paths`.
    pub fn new(paths: Vec<String>) -> (r: Self)
        ensures
            r@ == texts(paths@),
    {
        AssociatedMods(paths)
    }

    /// The paths, in listing order.
    pub fn mods(&self) -> (r: &Vec<String>)
        ensures
            texts(r@) == self@,
    {
        &self.0
    }

    /// Whether the bundle has no mod file.
    pub fn is_empty(&self) -> (r: bool)
        ensures
            r == (self@.len() == 0),
    {
        self.0.len() == 0
    }
}

/// What a bundle is: its identifier, the path of its music file if it has
/// one, and the paths of its mod files.
pub struct HotlineModView {
    pub name: Seq<char>,
    pub music: Option<Seq<char>>,
    pub mods: Seq<Seq<char>>,
}

/// One bundle of the mod library.
#[derive(Debug)]
pub struct HotlineMod {
    name: HotlineModName,
    music: Option<Music>,
    mods: AssociatedMods,
}

impl View for HotlineMod {
    type V = HotlineModView;

    closed spec fn view(&self) -> HotlineModView {
        HotlineModView {
            name: self.name@,
            music: match self.music {
                Some(music) => Some(music@),
                None => None,
            },
            mods: self.mods@,
        }
    }
}

/// What the bundles are, in order.
pub open spec fn bundle_views(mods: Seq<HotlineMod>) -> Seq<HotlineModView> {
    mods.map_values(|bundle: HotlineMod| bundle@)
}

/// Whether a listed entry is a music file: its extension is the music
/// extension, in any case of letters.
pub open spec fn is_music_entry(entry: ListedEntry) -> bool {
    has_extension(entry.file_name@, VALID_MUSIC_EXTENSION@)
}

/// Path of the first music file of a listing, if it holds one.
pub open spec fn first_music(entries: Seq<ListedEntry>) -> Option<Seq<char>>
    decreases entries.len(),
{
    if entries.len() == 0 {
        None
    } else if is_music_entry(entries[0]) {
        Some(entries[0].path@)
    } else {
        first_music(entries.drop_first())
    }
}

/// The paths of a listing, in listing order.
pub open spec fn entry_paths(entries: Seq<ListedEntry>) -> Seq<Seq<char>> {
    entries.map_values(|entry: ListedEntry| entry.path@)
}

/// `first_music` picks the earliest music entry: no entry before it is one,
/// and it is `None` only where the listing has none at all.
pub proof fn lemma_first_music(entries: Seq<ListedEntry>)
    ensures
        match first_music(entries) {
            Some(path) => exists|k: int|
                0 <= k < entries.len() && is_music_entry(#[trigger] entries[k]) && path
                    == entries[k].path@ && forall|j: int|
                    0 <= j < k ==> !is_music_entry(#[trigger] entries[j]),
            None => forall|j: int|
                0 <= j < entries.len() ==> !is_music_entry(#[trigger] entries[j]),
        },
    decreases entries.len(),
{
    if entries.len() > 0 {
        if is_music_entry(entries[0]) {
            assert(is_music_entry(entries[0]));
        } else {
            let rest = entries.drop_first();
            lemma_first_music(rest);
            match first_music(rest) {
                Some(path) => {
                    let k = choose|k: int|
                        0 <= k < rest.len() && is_music_entry(#[trigger] rest[k]) && path
                            == rest[k].path@ && forall|j: int|
                            0 <= j < k ==> !is_music_entry(#[trigger] rest[j]);
                    assert(entries[k + 1] == rest[k]);
                    assert forall|j: int| 0 <= j < k + 1 implies !is_music_entry(
                        #[trigger] entries[j],
                    ) by {
                        if j > 0 {
                            assert(entries[j] == rest[j - 1]);
                        }
                    }
                },
                None => {
                    assert forall|j: int| 0 <= j < entries.len() implies !is_music_entry(
                        #[trigger] entries[j],
                    ) by {
                        if j > 0 {
                            assert(entries[j] == rest[j - 1]);
                        }
                    }
                },
            }
        }
    }
}

/// Whether the file name carries the music extension, in any case of
/// letters.
pub fn is_valid_music_file(file_name: &str) -> (r: bool)
    ensures
        r == has_extension(file_name@, VALID_MUSIC_EXTENSION@),
{
    file_has_extension(file_name, VALID_MUSIC_EXTENSION)
}

/// The name of the bundle whose directory has the final path segment
/// `directory_name`; a path without such a segment names no bundle.
pub fn get_name(directory_name: Option<&str>) -> (r: Option<HotlineModName>)
    ensures
        match r {
            Some(name) => directory_name matches Some(d) && name@ == d@,
            None => directory_name is None,
        },
{
    match directory_name {
        Some(d) => Some(HotlineModName::from_directory(d)),
        None => None,
    }
}

/// The music file of a bundle: the first entry of its music directory that
/// carries the music extension. A listing without one gives `None`.
pub fn get_music(music_entries: &Vec<ListedEntry>) -> (r: Option<Music>)
    ensures
        match r {
            Some(music) => first_music(music_entries@) == Some(music@),
            None => first_music(music_entries@) is None,
        },
{
    let mut i: usize = 0;
    assert(music_entries@.subrange(0, music_entries@.len() as int) == music_entries@);
    while i < music_entries.len()
        invariant
            i <= music_entries.len(),
            first_music(music_entries@) == first_music(
                music_entries@.subrange(i as int, music_entries@.len() as int),
            ),
        decreases music_entries.len() - i,
    {
        let ghost rest = music_entries@.subrange(i as int, music_entries@.len() as int);
        assert(rest[0] == music_entries@[i as int]);
        if is_valid_music_file(music_entries[i].file_name.as_str()) {
            return Some(Music(music_entries[i].path.clone()));
        }
        assert(rest.drop_first() == music_entries@.subrange(i + 1, music_entries@.len() as int));
        i += 1;
    }
    None
}

/// The mod files of a bundle: every entry of its mods directory.
pub fn get_mods(mods_entries: &Vec<ListedEntry>) -> (r: AssociatedMods)
    ensures
        r@ == entry_paths(mods_entries@),
{
    let mut paths: Vec<String> = Vec::new();
    let mut i: usize = 0;
    while i < mods_entries.len()
        invariant
            i <= mods_entries.len(),
            texts(paths@) == entry_paths(
                mods_entries@.subrange(0, i as int),
            ),
        decreases mods_entries.len() - i,
    {
        let ghost before = texts(paths@);
        paths.push(mods_entries[i].path.clone());
        assert(texts(paths@) =~= before.push(
            mods_entries@[i as int].path@,
        ));
        assert(entry_paths(mods_entries@.subrange(0, i + 1)) =~= entry_paths(
            mods_entries@.subrange(0, i as int),
        ).push(mods_entries@[i as int].path@));
        i += 1;
    }
    assert(mods_entries@.subrange(0, i as int) == mods_entries@);
    AssociatedMods(paths)
}

impl HotlineMod {
    /// The bundle in a directory with the final path segment
    /// `directory_name`, the listing `music_entries` of its music
    /// subdirectory and the listing `mods_entries` of its mods
    /// subdirectory. A subdirectory that is missing or unreadable counts as
    /// an empty listing. There is no bundle only where the path has no
    /// final segment.
    pub fn new(
        directory_name: Option<&str>,
        music_entries: &Vec<ListedEntry>,
        mods_entries: &Vec<ListedEntry>,
    ) -> (r: Option<HotlineMod>)
        ensures
            match r {
                Some(bundle) => directory_name matches Some(d) && bundle@ == (HotlineModView {
                    name: d@,
                    music: first_music(music_entries@),
                    mods: entry_paths(mods_entries@),
                }),
                None => directory_name is None,
            },
    {
        match get_name(directory_name) {
            Some(name) => {
                let music = get_music(music_entries);
                let mods = get_mods(mods_entries);
                Some(HotlineMod { name, music, mods })
            },
            None => None,
        }
    }

    /// A bundle that has a name and no files yet.
    pub fn from_name(name: HotlineModName) -> (r: HotlineMod)
        ensures
            r@ == (HotlineModView { name: name@, music: None, mods: Seq::empty() }),
    {
        let mods = AssociatedMods(Vec::new());
        assert(mods@ == Seq::<Seq<char>>::empty());
        HotlineMod { name, music: None, mods }
    }

    /// The name of the bundle.
    pub fn name(&self) -> (r: &HotlineModName)
        ensures
            r@ == self@.name,
    {
        &self.name
    }

    /// The music file of the bundle, if it has one.
    pub fn music(&self) -> (r: Option<&Music>)
        ensures
            match r {
                Some(music) => self@.music == Some(music@),
                None => self@.music is None,
            },
    {
        self.music.as_ref()
    }

    /// The mod files of the bundle.
    pub fn mods(&self) -> (r: &AssociatedMods)
        ensures
            r@ == self@.mods,
    {
        &self.mods
    }
}

} // verus!
