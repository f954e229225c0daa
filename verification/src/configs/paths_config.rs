//! The three configured paths: the game directory, the directory into which
//! mods are installed, and the mod library.

use crate::configs::key_value::{
    entry_line, find_malformed, find_value, first_malformed, format_entry, is_key, is_storable,
    lemma_entry_line_parses, lemma_stored_value_is_storable, lookup, parse_lines, read_lines,
    LineView,
};
use crate::text::concat;
use vstd::prelude::*;

verus! {

/// Name of the file that stores the paths.
pub const PATH_CONFIGS_FILE_NAME: &'static str = "hm_mod_manager_path_configs.conf";

/// Key of the game directory in the paths file.
pub open spec fn game_path_key() -> Seq<char> {
    "game_path"@
}

/// Key of the active mods directory in the paths file.
pub open spec fn mods_path_key() -> Seq<char> {
    "mods_path"@
}

/// Key of the mod library in the paths file.
pub open spec fn mods_group_path_key() -> Seq<char> {
    "mods_group_path"@
}

/// A configured path with its role: the key under which it is stored, the
/// prompt that asks for it and the label that messages use for it.
pub trait ProgramPath: Sized {
    /// The path as text.
    spec fn path_text(&self) -> Seq<char>;

    /// The key of this role.
    spec fn key_text() -> Seq<char>;

    /// The label of this role.
    spec fn name_text() -> Seq<char>;

    /// The prompt of this role.
    spec fn prompt_text() -> Seq<char>;

    /// The path `path` in this role.
    fn new(path: String) -> (r: Self)
        ensures
            r.path_text() == path@,
    ;

    /// The path.
    fn path(&self) -> (r: &str)
        ensures
            r@ == self.path_text(),
    ;

    /// The key under which the path of this role is stored.
    fn key() -> (r: &'static str)
        ensures
            r@ == Self::key_text(),
    ;

    /// The label that messages use for this role.
    fn name() -> (r: &'static str)
        ensures
            r@ == Self::name_text(),
    ;

    /// The prompt that asks the user for the path of this role.
    fn prompt() -> (r: &'static str)
        ensures
            r@ == Self::prompt_text(),
    ;

    /// The entry that stores this path.
    fn as_file_entry(&self) -> (r: PathFileEntry<'_>)
        ensures
            r.key@ == Self::key_text(),
            r.path@ == self.path_text(),
    {
        PathFileEntry { key: Self::key(), path: self.path() }
    }
}

/// One entry of the paths file, about to be written.
#[derive(Debug)]
pub struct PathFileEntry<'a> {
    pub key: &'static str,
    pub path: &'a str,
}

impl<'a> PathFileEntry<'a> {
    /// The line of this entry.
    pub fn format(&self) -> (r: String)
        ensures
            r@ == entry_line(self.key@, self.path@),
    {
        format_entry(self.key, self.path)
    }
}

/// Path of the game directory.
#[derive(Debug)]
pub struct GamePath(String);

impl Clone for GamePath {
    fn clone(&self) -> (r: Self)
        ensures
            r.path_text() == self.path_text(),
    {
        GamePath(self.0.clone())
    }
}

impl ProgramPath for GamePath {
    closed spec fn path_text(&self) -> Seq<char> {
        self.0@
    }

    open spec fn key_text() -> Seq<char> {
        game_path_key()
    }

    open spec fn name_text() -> Seq<char> {
        "game's"@
    }

    open spec fn prompt_text() -> Seq<char> {
        "What is your HM2 path? If you are in doubt, check at C:\\SteamLibrary\\steamapps\\common"@
    }

    fn new(path: String) -> (r: Self) {
        GamePath(path)
    }

    fn path(&self) -> (r: &str) {
        self.0.as_str()
    }

    fn key() -> (r: &'static str) {
        "game_path"
    }

    fn name() -> (r: &'static str) {
        "game's"
    }

    fn prompt() -> (r: &'static str) {
        "What is your HM2 path? If you are in doubt, check at C:\\SteamLibrary\\steamapps\\common"
    }
}

/// Path of the directory into which mods are installed.
#[derive(Debug)]
pub struct ModsPath(String);

impl Clone for ModsPath {
    fn clone(&self) -> (r: Self)
        ensures
            r.path_text() == self.path_text(),
    {
        ModsPath(self.0.clone())
    }
}

impl ProgramPath for ModsPath {
    closed spec fn path_text(&self) -> Seq<char> {
        self.0@
    }

    open spec fn key_text() -> Seq<char> {
        mods_path_key()
    }

    open spec fn name_text() -> Seq<char> {
        "mods"@
    }

    open spec fn prompt_text() -> Seq<char> {
        "What is your HM2 mods folder path?"@
    }

    fn new(path: String) -> (r: Self) {
        ModsPath(path)
    }

    fn path(&self) -> (r: &str) {
        self.0.as_str()
    }

    fn key() -> (r: &'static str) {
        "mods_path"
    }

    fn name() -> (r: &'static str) {
        "mods"
    }

    fn prompt() -> (r: &'static str) {
        "What is your HM2 mods folder path?"
    }
}

/// Path of the mod library: the directory that holds the bundles.
#[derive(Debug)]
pub struct ModsGroupPath(String);

impl Clone for ModsGroupPath {
    fn clone(&self) -> (r: Self)
        ensures
            r.path_text() == self.path_text(),
    {
        ModsGroupPath(self.0.clone())
    }
}

impl ProgramPath for ModsGroupPath {
    closed spec fn path_text(&self) -> Seq<char> {
        self.0@
    }

    open spec fn key_text() -> Seq<char> {
        mods_group_path_key()
    }

    open spec fn name_text() -> Seq<char> {
        "group mods"@
    }

    open spec fn prompt_text() -> Seq<char> {
        "What is your HM2 folder where you keep your mods?"@
    }

    fn new(path: String) -> (r: Self) {
        ModsGroupPath(path)
    }

    fn path(&self) -> (r: &str) {
        self.0.as_str()
    }

    fn key() -> (r: &'static str) {
        "mods_group_path"
    }

    fn name() -> (r: &'static str) {
        "group mods"
    }

    fn prompt() -> (r: &'static str) {
        "What is your HM2 folder where you keep your mods?"
    }
}

/// What a paths configuration holds: one path per role.
pub struct PathsConfigView {
    pub game_path: Seq<char>,
    pub mods_path: Seq<char>,
    pub mods_group_path: Seq<char>,
}

/// The three configured paths.
#[derive(Debug)]
pub struct PathsConfig {
    game_path: GamePath,
    mods_path: ModsPath,
    mods_group_path: ModsGroupPath,
}

impl View for PathsConfig {
    type V = PathsConfigView;

    closed spec fn view(&self) -> PathsConfigView {
        PathsConfigView {
            game_path: self.game_path.path_text(),
            mods_path: self.mods_path.path_text(),
            mods_group_path: self.mods_group_path.path_text(),
        }
    }
}

impl Clone for PathsConfig {
    fn clone(&self) -> (r: Self)
        ensures
            r@ == self@,
    {
        PathsConfig {
            game_path: self.game_path.clone(),
            mods_path: self.mods_path.clone(),
            mods_group_path: self.mods_group_path.clone(),
        }
    }
}

/// What went wrong with the paths file, as a value.
pub enum PathsConfigErrorView {
    FileLoadingError(Seq<char>),
    InvalidFileContent(Seq<char>),
    FileWritingError(Seq<char>),
    GamePathNotFound,
    ModsPathNotFound,
    ModsGroupPathNotFound,
}

/// What went wrong with the paths file.
#[derive(Debug)]
pub enum PathsConfigError {
    /// The file could not be opened or created; the cause as text.
    FileLoadingError(String),
    /// The file could not be read as text, or holds a line that is no
    /// entry; the cause or the line.
    InvalidFileContent(String),
    /// The file could not be written; the cause as text.
    FileWritingError(String),
    /// No entry stores the game directory.
    GamePathNotFound,
    /// No entry stores the active mods directory.
    ModsPathNotFound,
    /// No entry stores the mod library.
    ModsGroupPathNotFound,
}

impl View for PathsConfigError {
    type V = PathsConfigErrorView;

    open spec fn view(&self) -> PathsConfigErrorView {
        match self {
            PathsConfigError::FileLoadingError(cause) => PathsConfigErrorView::FileLoadingError(
                cause@,
            ),
            PathsConfigError::InvalidFileContent(cause) => PathsConfigErrorView::InvalidFileContent(
                cause@,
            ),
            PathsConfigError::FileWritingError(cause) => PathsConfigErrorView::FileWritingError(
                cause@,
            ),
            PathsConfigError::GamePathNotFound => PathsConfigErrorView::GamePathNotFound,
            PathsConfigError::ModsPathNotFound => PathsConfigErrorView::ModsPathNotFound,
            PathsConfigError::ModsGroupPathNotFound => PathsConfigErrorView::ModsGroupPathNotFound,
        }
    }
}

impl PathsConfigError {
    /// The message of each kind of error.
    pub open spec fn message_text(&self) -> Seq<char> {
        match self {
            PathsConfigError::FileLoadingError(_) =>
                "File containing path configuration failed to load."@,
            PathsConfigError::InvalidFileContent(_) =>
                "Content found in path configuration file could not be read."@,
            PathsConfigError::FileWritingError(_) => "Error trying to write paths to file."@,
            PathsConfigError::GamePathNotFound => "Game path not found in configuration file."@,
            PathsConfigError::ModsPathNotFound => "Mods path not found in configuration file."@,
            PathsConfigError::ModsGroupPathNotFound =>
                "Mods group path not found in configuration file."@,
        }
    }

    /// The message to show for this error.
    pub fn message(&self) -> (r: &'static str)
        ensures
            r@ == self.message_text(),
    {
        match self {
            PathsConfigError::FileLoadingError(_) =>
                "File containing path configuration failed to load.",
            PathsConfigError::InvalidFileContent(_) =>
                "Content found in path configuration file could not be read.",
            PathsConfigError::FileWritingError(_) => "Error trying to write paths to file.",
            PathsConfigError::GamePathNotFound => "Game path not found in configuration file.",
            PathsConfigError::ModsPathNotFound => "Mods path not found in configuration file.",
            PathsConfigError::ModsGroupPathNotFound =>
                "Mods group path not found in configuration file.",
        }
    }
}

/// What a paths file says. A malformed line makes the whole file invalid;
/// otherwise each role takes the value of its key, and the first role
/// without one, in the order game, mods, mod library, is reported missing.
/// Blank lines and entries under other keys are passed over.
pub open spec fn parse_paths_config(content: Seq<char>) -> Result<
    PathsConfigView,
    PathsConfigErrorView,
> {
    let lines = parse_lines(content);
    match first_malformed(lines) {
        Some(line) => Err(PathsConfigErrorView::InvalidFileContent(line)),
        None => match lookup(lines, game_path_key()) {
            None => Err(PathsConfigErrorView::GamePathNotFound),
            Some(game_path) => match lookup(lines, mods_path_key()) {
                None => Err(PathsConfigErrorView::ModsPathNotFound),
                Some(mods_path) => match lookup(lines, mods_group_path_key()) {
                    None => Err(PathsConfigErrorView::ModsGroupPathNotFound),
                    Some(mods_group_path) => Ok(
                        PathsConfigView { game_path, mods_path, mods_group_path },
                    ),
                },
            },
        },
    }
}

/// The content of the paths file for a configuration: one entry per role,
/// in the order game, mods, mod library.
pub open spec fn format_paths_config(config: PathsConfigView) -> Seq<char> {
    entry_line(game_path_key(), config.game_path) + entry_line(mods_path_key(), config.mods_path)
        + entry_line(mods_group_path_key(), config.mods_group_path)
}

/// The lines of the entries, one after the other.
pub open spec fn entry_lines(entries: Seq<PathFileEntry<'_>>) -> Seq<Seq<char>> {
    entries.map_values(|entry: PathFileEntry<'_>| entry_line(entry.key@, entry.path@))
}

impl PathsConfig {
    /// Reads the configuration from the content of the paths file.
    pub fn build(content: &str) -> (r: Result<PathsConfig, PathsConfigError>)
        ensures
            match r {
                Ok(config) => parse_paths_config(content@) == Ok::<
                    PathsConfigView,
                    PathsConfigErrorView,
                >(config@),
                Err(error) => parse_paths_config(content@) == Err::<
                    PathsConfigView,
                    PathsConfigErrorView,
                >(error@),
            },
    {
        let lines = read_lines(content);
        if let Some(line) = find_malformed(&lines) {
            return Err(PathsConfigError::InvalidFileContent(String::from_str(line)));
        }
        let game_path = match find_value(&lines, GamePath::key()) {
            Some(path) => GamePath::new(String::from_str(path)),
            None => {
                return Err(PathsConfigError::GamePathNotFound);
            },
        };
        let mods_path = match find_value(&lines, ModsPath::key()) {
            Some(path) => ModsPath::new(String::from_str(path)),
            None => {
                return Err(PathsConfigError::ModsPathNotFound);
            },
        };
        let mods_group_path = match find_value(&lines, ModsGroupPath::key()) {
            Some(path) => ModsGroupPath::new(String::from_str(path)),
            None => {
                return Err(PathsConfigError::ModsGroupPathNotFound);
            },
        };
        Ok(PathsConfig { game_path, mods_path, mods_group_path })
    }

    /// The content that the paths file must hold for this configuration.
    /// The whole file is replaced by it.
    pub fn save(&self) -> (r: String)
        ensures
            r@ == format_paths_config(self@),
    {
        let mut entries: Vec<PathFileEntry<'_>> = Vec::new();
        entries.push(self.game_path.as_file_entry());
        entries.push(self.mods_path.as_file_entry());
        entries.push(self.mods_group_path.as_file_entry());
        let content = Self::format_paths_for_file(entries.as_slice());
        proof {
            let lines = entry_lines(entries@);
            assert(lines.len() == 3);
            assert(lines.drop_last().drop_last().drop_last().len() == 0);
            assert(concat(lines.drop_last().drop_last().drop_last()) == Seq::<char>::empty());
            assert(concat(lines.drop_last().drop_last()) == lines[0]);
            assert(concat(lines.drop_last()) == lines[0] + lines[1]);
            assert(concat(lines) == lines[0] + lines[1] + lines[2]);
        }
        content
    }

    /// The file to delete so that no path stays on disk. The value in
    /// memory stays as it is.
    pub fn clear(&self) -> (r: &'static str)
        ensures
            r@ == PATH_CONFIGS_FILE_NAME@,
    {
        PATH_CONFIGS_FILE_NAME
    }

    /// The game directory.
    pub fn game_path(&self) -> (r: &GamePath)
        ensures
            r.path_text() == self@.game_path,
    {
        &self.game_path
    }

    /// The directory into which mods are installed.
    pub fn mods_path(&self) -> (r: &ModsPath)
        ensures
            r.path_text() == self@.mods_path,
    {
        &self.mods_path
    }

    /// The mod library.
    pub fn mods_group_path(&self) -> (r: &ModsGroupPath)
        ensures
            r.path_text() == self@.mods_group_path,
    {
        &self.mods_group_path
    }

    /// This configuration with another game directory.
    pub fn with_game_path(self, game_path: GamePath) -> (r: Self)
        ensures
            r@ == (PathsConfigView { game_path: game_path.path_text(), ..self@ }),
    {
        PathsConfig { game_path, ..self }
    }

    /// This configuration with another active mods directory.
    pub fn with_mods_path(self, mods_path: ModsPath) -> (r: Self)
        ensures
            r@ == (PathsConfigView { mods_path: mods_path.path_text(), ..self@ }),
    {
        PathsConfig { mods_path, ..self }
    }

    /// This configuration with another mod library.
    pub fn with_mods_group_path(self, mods_group_path: ModsGroupPath) -> (r: Self)
        ensures
            r@ == (PathsConfigView { mods_group_path: mods_group_path.path_text(), ..self@ }),
    {
        PathsConfig { mods_group_path, ..self }
    }

    /// The lines of the entries, one after the other.
    pub fn format_paths_for_file(entries: &[PathFileEntry<'_>]) -> (r: String)
        ensures
            r@ == concat(entry_lines(entries@)),
    {
        let mut buffer = String::new();
        let mut i: usize = 0;
        while i < entries.len()
            invariant
                i <= entries.len(),
                buffer@ == concat(entry_lines(entries@.subrange(0, i as int))),
            decreases entries.len() - i,
        {
            let line = entries[i].format();
            buffer.append(line.as_str());
            proof {
                let before = entry_lines(entries@.subrange(0, i as int));
                let after = entry_lines(entries@.subrange(0, i + 1));
                assert(after =~= before.push(
                    entry_line(entries@[i as int].key@, entries@[i as int].path@),
                ));
                assert(after.drop_last() == before);
            }
            i += 1;
        }
        assert(entries@.subrange(0, i as int) == entries@);
        buffer
    }
}

/// The three keys are keys in the sense of the grammar, and no two of them
/// are equal.
pub proof fn lemma_path_keys()
    ensures
        is_key(game_path_key()),
        is_key(mods_path_key()),
        is_key(mods_group_path_key()),
        game_path_key() != mods_path_key(),
        game_path_key() != mods_group_path_key(),
        mods_path_key() != mods_group_path_key(),
{
    reveal_strlit("game_path");
    reveal_strlit("mods_path");
    reveal_strlit("mods_group_path");
    assert(game_path_key()[0] == 'g');
    assert(mods_path_key()[0] == 'm');
    assert(mods_group_path_key()[0] == 'm');
}

/// Every path of a configuration can be stored and read back as it is.
pub open spec fn is_storable_config(config: PathsConfigView) -> bool {
    &&& is_storable(config.game_path)
    &&& is_storable(config.mods_path)
    &&& is_storable(config.mods_group_path)
}

/// Writing then reading. The file written for a configuration of storable
/// paths is read back as that configuration.
pub proof fn lemma_save_then_build(config: PathsConfigView)
    requires
        is_storable_config(config),
    ensures
        parse_paths_config(format_paths_config(config)) == Ok::<
            PathsConfigView,
            PathsConfigErrorView,
        >(config),
{
    lemma_path_keys();
    let game = entry_line(game_path_key(), config.game_path);
    let mods = entry_line(mods_path_key(), config.mods_path);
    let group = entry_line(mods_group_path_key(), config.mods_group_path);
    let empty = Seq::<char>::empty();
    let first = LineView::Entry { key: game_path_key(), value: config.game_path };
    let second = LineView::Entry { key: mods_path_key(), value: config.mods_path };
    let third = LineView::Entry { key: mods_group_path_key(), value: config.mods_group_path };
    lemma_entry_line_parses(mods_group_path_key(), config.mods_group_path, empty);
    lemma_entry_line_parses(mods_path_key(), config.mods_path, group + empty);
    lemma_entry_line_parses(game_path_key(), config.game_path, mods + (group + empty));
    assert(parse_lines(empty) == Seq::<LineView>::empty());
    assert(game + (mods + (group + empty)) == format_paths_config(config));
    let parsed = parse_lines(format_paths_config(config));
    assert(parsed == seq![first, second, third]);
    assert(parsed.drop_first() == seq![second, third]);
    assert(parsed.drop_first().drop_first() == seq![third]);
    assert(parsed.drop_first().drop_first().drop_first() == Seq::<LineView>::empty());
    assert(first_malformed(parsed.drop_first().drop_first().drop_first()) is None);
    assert(first_malformed(parsed.drop_first().drop_first()) is None);
    assert(first_malformed(parsed.drop_first()) is None);
    assert(first_malformed(parsed) is None);
    assert(parsed.drop_last() == seq![first, second]);
    assert(parsed.drop_last().drop_last() == seq![first]);
    assert(lookup(parsed.drop_last().drop_last(), game_path_key()) == Some(config.game_path));
    assert(lookup(parsed.drop_last(), game_path_key()) == Some(config.game_path));
    assert(lookup(parsed, game_path_key()) == Some(config.game_path));
    assert(lookup(parsed.drop_last(), mods_path_key()) == Some(config.mods_path));
    assert(lookup(parsed, mods_path_key()) == Some(config.mods_path));
    assert(lookup(parsed, mods_group_path_key()) == Some(config.mods_group_path));
}

/// The entry that a role has in the file of a configuration.
pub open spec fn role_entry(config: PathsConfigView, role: ConfigurationPaths) -> LineView {
    match role {
        ConfigurationPaths::Game => LineView::Entry {
            key: game_path_key(),
            value: config.game_path,
        },
        ConfigurationPaths::Mods => LineView::Entry {
            key: mods_path_key(),
            value: config.mods_path,
        },
        ConfigurationPaths::Group => LineView::Entry {
            key: mods_group_path_key(),
            value: config.mods_group_path,
        },
    }
}

/// The line that a role has in the file of a configuration.
pub open spec fn role_line(config: PathsConfigView, role: ConfigurationPaths) -> Seq<char> {
    match role {
        ConfigurationPaths::Game => entry_line(game_path_key(), config.game_path),
        ConfigurationPaths::Mods => entry_line(mods_path_key(), config.mods_path),
        ConfigurationPaths::Group => entry_line(mods_group_path_key(), config.mods_group_path),
    }
}

/// The file that holds the lines of the roles in the order given.
pub open spec fn file_in_order(config: PathsConfigView, order: Seq<ConfigurationPaths>) -> Seq<
    char,
>
    decreases order.len(),
{
    if order.len() == 0 {
        Seq::empty()
    } else {
        role_line(config, order[0]) + file_in_order(config, order.drop_first())
    }
}

proof fn lemma_file_in_order_parses(config: PathsConfigView, order: Seq<ConfigurationPaths>)
    requires
        is_storable_config(config),
    ensures
        parse_lines(file_in_order(config, order)) == order.map_values(
            |role: ConfigurationPaths| role_entry(config, role),
        ),
    decreases order.len(),
{
    lemma_path_keys();
    let entries = order.map_values(|role: ConfigurationPaths| role_entry(config, role));
    if order.len() == 0 {
        assert(parse_lines(Seq::<char>::empty()) == Seq::<LineView>::empty());
        assert(entries == Seq::<LineView>::empty());
    } else {
        let rest = order.drop_first();
        let rest_file = file_in_order(config, rest);
        lemma_file_in_order_parses(config, rest);
        match order[0] {
            ConfigurationPaths::Game => lemma_entry_line_parses(
                game_path_key(),
                config.game_path,
                rest_file,
            ),
            ConfigurationPaths::Mods => lemma_entry_line_parses(
                mods_path_key(),
                config.mods_path,
                rest_file,
            ),
            ConfigurationPaths::Group => lemma_entry_line_parses(
                mods_group_path_key(),
                config.mods_group_path,
                rest_file,
            ),
        }
        assert(entries == seq![role_entry(config, order[0])] + rest.map_values(
            |role: ConfigurationPaths| role_entry(config, role),
        ));
    }
}

proof fn lemma_lookup_in_order(
    config: PathsConfigView,
    order: Seq<ConfigurationPaths>,
    role: ConfigurationPaths,
)
    ensures
        lookup(
            order.map_values(|role: ConfigurationPaths| role_entry(config, role)),
            role_entry(config, role)->key,
        ) == if order.contains(role) {
            Some(role_entry(config, role)->value)
        } else {
            None
        },
        first_malformed(order.map_values(|role: ConfigurationPaths| role_entry(config, role)))
            is None,
    decreases order.len(),
{
    lemma_path_keys();
    let entries = order.map_values(|role: ConfigurationPaths| role_entry(config, role));
    if order.len() > 0 {
        let front = order.drop_last();
        let front_entries = front.map_values(|role: ConfigurationPaths| role_entry(config, role));
        lemma_lookup_in_order(config, front, role);
        assert(entries.drop_last() == front_entries);
        assert(entries.last() == role_entry(config, order.last()));
        if order.last() == role {
            assert(order[order.len() - 1] == role);
        } else {
            if order.contains(role) {
                let i = choose|i: int| 0 <= i < order.len() && order[i] == role;
                assert(front[i] == role);
            }
            if front.contains(role) {
                let i = choose|i: int| 0 <= i < front.len() && front[i] == role;
                assert(order[i] == role);
            }
        }
        let rest = order.drop_first();
        lemma_lookup_in_order(config, rest, role);
        assert(entries.drop_first() == rest.map_values(
            |role: ConfigurationPaths| role_entry(config, role),
        ));
    }
}

/// The order of the lines does not matter. A file that holds the line of
/// every role, in whatever order, is read as the configuration whose lines
/// they are.
pub proof fn lemma_build_in_any_order(config: PathsConfigView, order: Seq<ConfigurationPaths>)
    requires
        is_storable_config(config),
        order.contains(ConfigurationPaths::Game),
        order.contains(ConfigurationPaths::Mods),
        order.contains(ConfigurationPaths::Group),
    ensures
        parse_paths_config(file_in_order(config, order)) == Ok::<
            PathsConfigView,
            PathsConfigErrorView,
        >(config),
{
    lemma_file_in_order_parses(config, order);
    lemma_lookup_in_order(config, order, ConfigurationPaths::Game);
    lemma_lookup_in_order(config, order, ConfigurationPaths::Mods);
    lemma_lookup_in_order(config, order, ConfigurationPaths::Group);
}

/// Every configuration read from a file holds storable paths.
pub proof fn lemma_built_config_is_storable(content: Seq<char>)
    ensures
        parse_paths_config(content) matches Ok(config) ==> is_storable_config(config),
{
    lemma_stored_value_is_storable(content, game_path_key());
    lemma_stored_value_is_storable(content, mods_path_key());
    lemma_stored_value_is_storable(content, mods_group_path_key());
}

/// Reading, writing, reading again. Where a file is read as a configuration,
/// the file written for that configuration is read as the same
/// configuration.
pub proof fn lemma_build_save_build(content: Seq<char>)
    ensures
        parse_paths_config(content) matches Ok(config) ==> parse_paths_config(
            format_paths_config(config),
        ) == Ok::<PathsConfigView, PathsConfigErrorView>(config),
{
    lemma_built_config_is_storable(content);
    if let Ok(config) = parse_paths_config(content) {
        lemma_save_then_build(config);
    }
}

/// The roles of the configured paths, as the menu offers them.
#[derive(Debug, Clone, Copy, PartialEq, Eq, Structural)]
pub enum ConfigurationPaths {
    Game,
    Mods,
    Group,
}

impl ConfigurationPaths {
    /// The roles in the order of the menu.
    pub open spec fn all() -> Seq<ConfigurationPaths> {
        seq![ConfigurationPaths::Game, ConfigurationPaths::Group, ConfigurationPaths::Mods]
    }

    /// The line of each role in the menu.
    pub open spec fn label_text(self) -> Seq<char> {
        match self {
            ConfigurationPaths::Game => "Your game's folder."@,
            ConfigurationPaths::Mods => "Your mods' folder."@,
            ConfigurationPaths::Group => "The folder where you keep your mods."@,
        }
    }

    /// The label of each role in messages.
    pub open spec fn name_text(self) -> Seq<char> {
        match self {
            ConfigurationPaths::Game => GamePath::name_text(),
            ConfigurationPaths::Mods => ModsPath::name_text(),
            ConfigurationPaths::Group => ModsGroupPath::name_text(),
        }
    }

    /// The prompt that asks for the path of each role.
    pub open spec fn prompt_text(self) -> Seq<char> {
        match self {
            ConfigurationPaths::Game => GamePath::prompt_text(),
            ConfigurationPaths::Mods => ModsPath::prompt_text(),
            ConfigurationPaths::Group => ModsGroupPath::prompt_text(),
        }
    }

    /// The roles in the order of the menu.
    pub fn variants() -> (r: Vec<ConfigurationPaths>)
        ensures
            r@ == ConfigurationPaths::all(),
    {
        let mut roles: Vec<ConfigurationPaths> = Vec::new();
        roles.push(ConfigurationPaths::Game);
        roles.push(ConfigurationPaths::Group);
        roles.push(ConfigurationPaths::Mods);
        assert(roles@ =~= ConfigurationPaths::all());
        roles
    }

    /// The line of this role in the menu.
    pub fn label(&self) -> (r: &'static str)
        ensures
            r@ == self.label_text(),
    {
        match self {
            ConfigurationPaths::Game => "Your game's folder.",
            ConfigurationPaths::Mods => "Your mods' folder.",
            ConfigurationPaths::Group => "The folder where you keep your mods.",
        }
    }

    /// The label of this role in messages.
    pub fn name(&self) -> (r: &'static str)
        ensures
            r@ == self.name_text(),
    {
        match self {
            ConfigurationPaths::Game => GamePath::name(),
            ConfigurationPaths::Mods => ModsPath::name(),
            ConfigurationPaths::Group => ModsGroupPath::name(),
        }
    }

    /// The prompt that asks for the path of this role.
    pub fn prompt(&self) -> (r: &'static str)
        ensures
            r@ == self.prompt_text(),
    {
        match self {
            ConfigurationPaths::Game => GamePath::prompt(),
            ConfigurationPaths::Mods => ModsPath::prompt(),
            ConfigurationPaths::Group => ModsGroupPath::prompt(),
        }
    }
}

/// What is said of a path that does not exist.
pub open spec fn invalid_path_text(role_name: Seq<char>) -> Seq<char> {
    "Could not validate your "@ + role_name + " path, please write it again."@
}

/// The paths that a setup holds: one per role, where the role has one.
pub struct PathsSetupView {
    pub game_path: Option<Seq<char>>,
    pub mods_path: Option<Seq<char>>,
    pub mods_group_path: Option<Seq<char>>,
}

impl PathsSetupView {
    /// Whether every role has its path.
    pub open spec fn is_complete(self) -> bool {
        self.game_path is Some && self.mods_path is Some && self.mods_group_path is Some
    }

    /// The role whose path is asked for next: the first without a path, in
    /// the order game, mods, mod library.
    pub open spec fn asked(self) -> ConfigurationPaths {
        if self.game_path is None {
            ConfigurationPaths::Game
        } else if self.mods_path is None {
            ConfigurationPaths::Mods
        } else {
            ConfigurationPaths::Group
        }
    }

    /// The setup with `path` for the role that was asked for.
    pub open spec fn filled(self, path: Seq<char>) -> PathsSetupView {
        match self.asked() {
            ConfigurationPaths::Game => PathsSetupView { game_path: Some(path), ..self },
            ConfigurationPaths::Mods => PathsSetupView { mods_path: Some(path), ..self },
            ConfigurationPaths::Group => PathsSetupView { mods_group_path: Some(path), ..self },
        }
    }

    /// The configuration of a complete setup.
    pub open spec fn config(self) -> PathsConfigView {
        PathsConfigView {
            game_path: self.game_path->0,
            mods_path: self.mods_path->0,
            mods_group_path: self.mods_group_path->0,
        }
    }
}

/// The paths of a configuration whose targets exist; a role whose path
/// leads nowhere has none.
pub open spec fn existing_paths(
    config: PathsConfigView,
    game_exists: bool,
    mods_exists: bool,
    mods_group_exists: bool,
) -> PathsSetupView {
    PathsSetupView {
        game_path: if game_exists {
            Some(config.game_path)
        } else {
            None
        },
        mods_path: if mods_exists {
            Some(config.mods_path)
        } else {
            None
        },
        mods_group_path: if mods_group_exists {
            Some(config.mods_group_path)
        } else {
            None
        },
    }
}

/// The making of a valid configuration by asking the user: the paths are
/// asked for one role after the other, and a path is accepted only if
/// something exists at it. A setup always waits for the path of a role.
#[derive(Debug)]
pub struct PathsSetup {
    game_path: Option<GamePath>,
    mods_path: Option<ModsPath>,
    mods_group_path: Option<ModsGroupPath>,
}

impl View for PathsSetup {
    type V = PathsSetupView;

    closed spec fn view(&self) -> PathsSetupView {
        PathsSetupView {
            game_path: match self.game_path {
                Some(path) => Some(path.path_text()),
                None => None,
            },
            mods_path: match self.mods_path {
                Some(path) => Some(path.path_text()),
                None => None,
            },
            mods_group_path: match self.mods_group_path {
                Some(path) => Some(path.path_text()),
                None => None,
            },
        }
    }
}

/// What the setup needs next.
#[derive(Debug)]
pub enum SetupStep {
    /// Show the diagnostic if there is one, ask with this prompt, and report
    /// the answer and whether a file or directory exists at it.
    Ask { setup: PathsSetup, prompt: &'static str, diagnostic: Option<String> },
    /// Every role has a path that exists: write this content to the paths
    /// file.
    Write { config: PathsConfig, file_name: &'static str, content: String },
}

/// Accepts the path that the user gave for one role, or turns it down. A
/// path is accepted if and only if something exists at it; a path turned
/// down comes with the line that asks for it again.
pub fn request_path_from_user<P: ProgramPath>(path: String, exists: bool) -> (r: Result<P, String>)
    ensures
        match r {
            Ok(accepted) => exists && accepted.path_text() == path@,
            Err(diagnostic) => !exists && diagnostic@ == invalid_path_text(P::name_text()),
        },
{
    if exists {
        Ok(P::new(path))
    } else {
        let mut diagnostic = String::from_str("Could not validate your ");
        diagnostic.append(P::name());
        diagnostic.append(" path, please write it again.");
        Err(diagnostic)
    }
}

impl PathsSetup {
    #[verifier::type_invariant]
    spec fn waits_for_a_path(self) -> bool {
        self.game_path is None || self.mods_path is None || self.mods_group_path is None
    }

    fn next(
        game_path: Option<GamePath>,
        mods_path: Option<ModsPath>,
        mods_group_path: Option<ModsGroupPath>,
        diagnostic: Option<String>,
    ) -> (r: SetupStep)
        ensures
            ({
                let held = PathsSetupView {
                    game_path: match game_path {
                        Some(path) => Some(path.path_text()),
                        None => None,
                    },
                    mods_path: match mods_path {
                        Some(path) => Some(path.path_text()),
                        None => None,
                    },
                    mods_group_path: match mods_group_path {
                        Some(path) => Some(path.path_text()),
                        None => None,
                    },
                };
                step_is(r, held, diagnostic)
            }),
    {
        match game_path {
            None => SetupStep::Ask {
                setup: PathsSetup { game_path: None, mods_path, mods_group_path },
                prompt: GamePath::prompt(),
                diagnostic,
            },
            Some(game_path) => match mods_path {
                None => SetupStep::Ask {
                    setup: PathsSetup {
                        game_path: Some(game_path),
                        mods_path: None,
                        mods_group_path,
                    },
                    prompt: ModsPath::prompt(),
                    diagnostic,
                },
                Some(mods_path) => match mods_group_path {
                    None => SetupStep::Ask {
                        setup: PathsSetup {
                            game_path: Some(game_path),
                            mods_path: Some(mods_path),
                            mods_group_path: None,
                        },
                        prompt: ModsGroupPath::prompt(),
                        diagnostic,
                    },
                    Some(mods_group_path) => {
                        let config = PathsConfig { game_path, mods_path, mods_group_path };
                        let content = config.save();
                        SetupStep::Write { config, file_name: PATH_CONFIGS_FILE_NAME, content }
                    },
                },
            },
        }
    }

    /// Starts from nothing, as on a first run: no role has a path, and the
    /// first prompt asks for the game directory.
    pub fn begin() -> (r: (PathsSetup, &'static str))
        ensures
            r.0@ == (PathsSetupView { game_path: None, mods_path: None, mods_group_path: None }),
            r.1@ == ConfigurationPaths::Game.prompt_text(),
    {
        (PathsSetup { game_path: None, mods_path: None, mods_group_path: None }, GamePath::prompt())
    }

    /// Checks a configuration that was read from the paths file against the
    /// disk, given for each role whether something exists at its path. A
    /// configuration whose three paths exist is valid and comes back as it
    /// is. Otherwise the paths that exist are kept and the others are asked
    /// for again, in the order of the roles: no path that leads nowhere is
    /// ever used.
    pub fn recheck(
        config: PathsConfig,
        game_exists: bool,
        mods_exists: bool,
        mods_group_exists: bool,
    ) -> (r: Result<PathsConfig, (PathsSetup, &'static str)>)
        ensures
            match r {
                Ok(valid) => game_exists && mods_exists && mods_group_exists && valid@ == config@,
                Err(asking) => !(game_exists && mods_exists && mods_group_exists) && asking.0@
                    == existing_paths(config@, game_exists, mods_exists, mods_group_exists)
                    && asking.1@ == asking.0@.asked().prompt_text(),
            },
    {
        if game_exists && mods_exists && mods_group_exists {
            return Ok(config);
        }
        let PathsConfig { game_path, mods_path, mods_group_path } = config;
        let game_path = if game_exists {
            Some(game_path)
        } else {
            None
        };
        let mods_path = if mods_exists {
            Some(mods_path)
        } else {
            None
        };
        let mods_group_path = if mods_group_exists {
            Some(mods_group_path)
        } else {
            None
        };
        match Self::next(game_path, mods_path, mods_group_path, None) {
            SetupStep::Ask { setup, prompt, .. } => Err((setup, prompt)),
            SetupStep::Write { config, .. } => Ok(config),
        }
    }

    /// Takes the answer to the last prompt and whether something exists at
    /// that path. An answer at which nothing exists changes nothing: the
    /// same role is asked for again, as often as it takes. An answer that
    /// exists becomes the path of the role asked for. Then the next role
    /// without a path is asked for, or, where every role has one, the
    /// configuration is complete and its file content is returned.
    pub fn answer(self, path: String, exists: bool) -> (r: SetupStep)
        ensures
            !exists ==> (r matches SetupStep::Ask { setup, prompt, diagnostic } && setup@ == self@
                && prompt@ == self@.asked().prompt_text() && (diagnostic matches Some(text)
                && text@ == invalid_path_text(self@.asked().name_text()))),
            exists ==> step_is(r, self@.filled(path@), None),
    {
        proof {
            use_type_invariant(&self);
        }
        let PathsSetup { game_path, mods_path, mods_group_path } = self;
        match game_path {
            None => match request_path_from_user::<GamePath>(path, exists) {
                Ok(accepted) => Self::next(Some(accepted), mods_path, mods_group_path, None),
                Err(diagnostic) => Self::next(None, mods_path, mods_group_path, Some(diagnostic)),
            },
            Some(game_path) => match mods_path {
                None => match request_path_from_user::<ModsPath>(path, exists) {
                    Ok(accepted) => Self::next(
                        Some(game_path),
                        Some(accepted),
                        mods_group_path,
                        None,
                    ),
                    Err(diagnostic) => Self::next(
                        Some(game_path),
                        None,
                        mods_group_path,
                        Some(diagnostic),
                    ),
                },
                Some(mods_path) => match request_path_from_user::<ModsGroupPath>(path, exists) {
                    Ok(accepted) => Self::next(
                        Some(game_path),
                        Some(mods_path),
                        Some(accepted),
                        None,
                    ),
                    Err(diagnostic) => Self::next(
                        Some(game_path),
                        Some(mods_path),
                        None,
                        Some(diagnostic),
                    ),
                },
            },
        }
    }
}

/// Whether `step` is the step that follows from the paths `held`: the
/// prompt for the first role without a path, with the diagnostic given, or
/// for a complete setup the write of its configuration.
pub open spec fn step_is(step: SetupStep, held: PathsSetupView, diagnostic: Option<String>)
    -> bool {
    if held.is_complete() {
        step matches SetupStep::Write { config, file_name, content } && config@ == held.config()
            && file_name@ == PATH_CONFIGS_FILE_NAME@ && content@ == format_paths_config(
            held.config(),
        )
    } else {
        step matches SetupStep::Ask { setup, prompt, diagnostic: shown } && setup@ == held
            && prompt@ == held.asked().prompt_text() && match diagnostic {
            Some(text) => shown matches Some(line) && line@ == text@,
            None => shown is None,
        }
    }
}

/// A configuration with another path for one role; the paths of the other
/// two roles stay.
pub open spec fn changed_paths(config: PathsConfigView, role: ConfigurationPaths, path: Seq<char>)
    -> PathsConfigView {
    match role {
        ConfigurationPaths::Game => PathsConfigView { game_path: path, ..config },
        ConfigurationPaths::Mods => PathsConfigView { mods_path: path, ..config },
        ConfigurationPaths::Group => PathsConfigView { mods_group_path: path, ..config },
    }
}

impl PathsConfig {
    /// This configuration with another path for one role; the paths of the
    /// other two roles stay.
    pub fn with_path(self, role: ConfigurationPaths, path: String) -> (r: Self)
        ensures
            r@ == changed_paths(self@, role, path@),
    {
        match role {
            ConfigurationPaths::Game => self.with_game_path(GamePath::new(path)),
            ConfigurationPaths::Mods => self.with_mods_path(ModsPath::new(path)),
            ConfigurationPaths::Group => self.with_mods_group_path(ModsGroupPath::new(path)),
        }
    }
}

} // verus!
