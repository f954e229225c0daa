use hotline_mod_manager::change_configuration_path::{path_prompt, validate_path};
use hotline_mod_manager::configs::current_mod_config::{
    CurrentMod, CurrentModError, MODS_CONFIG_FILE_NAME,
};
use hotline_mod_manager::configs::key_value::{
    find_malformed, find_value, format_entry, read_lines, Line,
};
use hotline_mod_manager::configs::paths_config::{
    request_path_from_user, ConfigurationPaths, GamePath, ModsGroupPath, ModsPath, PathFileEntry,
    PathsConfig, PathsConfigError, PathsSetup, ProgramPath, SetupStep, PATH_CONFIGS_FILE_NAME,
};
use hotline_mod_manager::configs::Configs;
use hotline_mod_manager::hotline_mod::HotlineModName;

const WELL_FORMED: &str = "game_path:/games/hm2\nmods_path:/games/hm2/mods\nmods_group_path:/library\n";

fn paths(config: &PathsConfig) -> (String, String, String) {
    (
        String::from(config.game_path().path()),
        String::from(config.mods_path().path()),
        String::from(config.mods_group_path().path()),
    )
}

fn built(content: &str) -> PathsConfig {
    match PathsConfig::build(content) {
        Ok(config) => config,
        Err(error) => panic!("{content:?} was refused with {error:?}"),
    }
}

#[test]
fn read_lines_tells_entries_blank_lines_and_malformed_lines_apart() {
    let lines = read_lines(" key : a value \n\n   \nno colon here\nk:v:w\n:\n");
    assert_eq!(lines.len(), 6);
    assert!(matches!(&lines[0], Line::Entry { key, value } if key == "key " && value == "a value"));
    assert!(matches!(&lines[1], Line::Blank));
    assert!(matches!(&lines[2], Line::Blank));
    assert!(matches!(&lines[3], Line::Malformed(text) if text == "no colon here"));
    assert!(matches!(&lines[4], Line::Entry { key, value } if key == "k" && value == "v:w"));
    assert!(matches!(&lines[5], Line::Entry { key, value } if key.is_empty() && value.is_empty()));
}

#[test]
fn find_value_takes_the_last_entry_of_a_key() {
    let lines = read_lines("a:1\nb:2\na:3\n");
    assert_eq!(find_value(&lines, "a"), Some("3"));
    assert_eq!(find_value(&lines, "b"), Some("2"));
    assert_eq!(find_value(&lines, "c"), None);
}

#[test]
fn find_malformed_takes_the_first_malformed_line() {
    assert_eq!(find_malformed(&read_lines("a:1\noops\nagain\n")), Some("oops"));
    assert_eq!(find_malformed(&read_lines("a:1\n\n")), None);
}

#[test]
fn format_entry_writes_key_colon_value_and_a_line_feed() {
    assert_eq!(format_entry("game_path", "/games/hm2"), "game_path:/games/hm2\n");
    assert_eq!(format_entry("k", ""), "k:\n");
}

#[test]
fn build_reads_a_well_formed_file() {
    let config = built(WELL_FORMED);
    assert_eq!(
        paths(&config),
        (
            String::from("/games/hm2"),
            String::from("/games/hm2/mods"),
            String::from("/library")
        )
    );
}

#[test]
fn build_does_not_depend_on_the_order_of_the_lines() {
    let config = built("mods_group_path:/l\ngame_path:/g\nmods_path:/m\n");
    assert_eq!(paths(&config), (String::from("/g"), String::from("/m"), String::from("/l")));
}

#[test]
fn build_ignores_whitespace_around_lines_and_values() {
    let config = built("  game_path: /g  \r\nmods_path:\t/m\r\n\nmods_group_path: /my library \n");
    assert_eq!(
        paths(&config),
        (String::from("/g"), String::from("/m"), String::from("/my library"))
    );
}

#[test]
fn build_accepts_a_file_without_final_line_feed() {
    let config = built("game_path:/g\nmods_path:/m\nmods_group_path:/l");
    assert_eq!(paths(&config).2, "/l");
}

#[test]
fn build_keeps_colons_inside_a_value() {
    let config = built("game_path:C:\\Games\\HM2\nmods_path:C:\\m\nmods_group_path:D:\\l\n");
    assert_eq!(paths(&config).0, "C:\\Games\\HM2");
}

#[test]
fn build_passes_over_other_keys_and_takes_the_last_of_a_repeated_key() {
    let config = built("other:x\ngame_path:/old\ngame_path:/new\nmods_path:/m\nmods_group_path:/l\n");
    assert_eq!(paths(&config).0, "/new");
}

#[test]
fn build_reports_the_first_missing_role() {
    assert!(matches!(PathsConfig::build(""), Err(PathsConfigError::GamePathNotFound)));
    assert!(matches!(
        PathsConfig::build("mods_path:/m\nmods_group_path:/l\n"),
        Err(PathsConfigError::GamePathNotFound)
    ));
    assert!(matches!(
        PathsConfig::build("game_path:/g\nmods_group_path:/l\n"),
        Err(PathsConfigError::ModsPathNotFound)
    ));
    assert!(matches!(
        PathsConfig::build("game_path:/g\nmods_path:/m\n"),
        Err(PathsConfigError::ModsGroupPathNotFound)
    ));
    assert!(matches!(
        PathsConfig::build("game_path:/g\n"),
        Err(PathsConfigError::ModsPathNotFound)
    ));
}

#[test]
fn build_does_not_take_a_key_with_a_space_before_the_colon() {
    assert!(matches!(
        PathsConfig::build("game_path :/g\nmods_path:/m\nmods_group_path:/l\n"),
        Err(PathsConfigError::GamePathNotFound)
    ));
}

#[test]
fn build_refuses_a_malformed_line() {
    let result = PathsConfig::build("game_path:/g\nthis is no entry\nmods_path:/m\nmods_group_path:/l\n");
    assert!(matches!(result, Err(PathsConfigError::InvalidFileContent(line)) if line == "this is no entry"));
}

#[test]
fn build_reports_a_malformed_line_before_a_missing_role() {
    let result = PathsConfig::build("mods_path:/m\nbroken\n");
    assert!(matches!(result, Err(PathsConfigError::InvalidFileContent(line)) if line == "broken"));
}

#[test]
fn save_writes_one_line_per_role_in_fixed_order() {
    let config = built("mods_group_path:/l\nmods_path:/m\ngame_path:/g\n");
    assert_eq!(config.save(), "game_path:/g\nmods_path:/m\nmods_group_path:/l\n");
}

#[test]
fn build_save_build_gives_the_same_configuration() {
    let contents = [
        WELL_FORMED,
        "mods_group_path: /l \n game_path:/g\nmods_path:\t/m",
        "game_path:C:\\a b\\c\r\nmods_path:\r\nmods_group_path:x:y:z\r\n",
        "game_path:/old\ngame_path:/new\nextra:1\nmods_path:/m\nmods_group_path:/l\n",
    ];
    for content in contents {
        let first = built(content);
        let saved = first.save();
        let second = built(&saved);
        assert_eq!(paths(&first), paths(&second));
        assert_eq!(second.save(), saved);
    }
}

#[test]
fn paths_file_entries_format_as_lines() {
    let game = GamePath::new(String::from("/g"));
    let entry = game.as_file_entry();
    assert_eq!(entry.key, "game_path");
    assert_eq!(entry.path, "/g");
    assert_eq!(entry.format(), "game_path:/g\n");
    let entries = vec![
        PathFileEntry { key: "a", path: "1" },
        PathFileEntry { key: "b", path: "2" },
    ];
    assert_eq!(PathsConfig::format_paths_for_file(&entries), "a:1\nb:2\n");
    assert_eq!(PathsConfig::format_paths_for_file(&Vec::new()), "");
}

#[test]
fn each_role_has_its_key_its_label_and_its_prompt() {
    assert_eq!(GamePath::key(), "game_path");
    assert_eq!(ModsPath::key(), "mods_path");
    assert_eq!(ModsGroupPath::key(), "mods_group_path");
    assert_eq!(GamePath::name(), "game's");
    assert_eq!(ModsPath::name(), "mods");
    assert_eq!(ModsGroupPath::name(), "group mods");
    assert_eq!(
        GamePath::prompt(),
        "What is your HM2 path? If you are in doubt, check at C:\\SteamLibrary\\steamapps\\common"
    );
    assert_eq!(ModsPath::prompt(), "What is your HM2 mods folder path?");
    assert_eq!(ModsGroupPath::prompt(), "What is your HM2 folder where you keep your mods?");
    assert_eq!(ModsPath::new(String::from("/m")).path(), "/m");
    assert_eq!(ModsGroupPath::new(String::from("/l")).path(), "/l");
}

#[test]
fn configuration_paths_are_offered_in_menu_order() {
    assert_eq!(
        ConfigurationPaths::variants(),
        vec![ConfigurationPaths::Game, ConfigurationPaths::Group, ConfigurationPaths::Mods]
    );
    assert_eq!(ConfigurationPaths::Game.label(), "Your game's folder.");
    assert_eq!(ConfigurationPaths::Mods.label(), "Your mods' folder.");
    assert_eq!(ConfigurationPaths::Group.label(), "The folder where you keep your mods.");
    assert_eq!(ConfigurationPaths::Group.name(), "group mods");
    assert_eq!(ConfigurationPaths::Mods.prompt(), "What is your HM2 mods folder path?");
}

#[test]
fn setters_change_one_role_and_keep_the_others() {
    let config = built(WELL_FORMED).with_game_path(GamePath::new(String::from("/other")));
    assert_eq!(
        paths(&config),
        (String::from("/other"), String::from("/games/hm2/mods"), String::from("/library"))
    );
    let config = config.with_mods_path(ModsPath::new(String::from("/m2")));
    let config = config.with_mods_group_path(ModsGroupPath::new(String::from("/l2")));
    assert_eq!(paths(&config), (String::from("/other"), String::from("/m2"), String::from("/l2")));
    let config = config.with_path(ConfigurationPaths::Mods, String::from("/m3"));
    assert_eq!(paths(&config), (String::from("/other"), String::from("/m3"), String::from("/l2")));
    let config = config.with_path(ConfigurationPaths::Game, String::from("/g3"));
    let config = config.with_path(ConfigurationPaths::Group, String::from("/l3"));
    assert_eq!(paths(&config), (String::from("/g3"), String::from("/m3"), String::from("/l3")));
}

#[test]
fn error_messages_of_the_paths_file() {
    assert_eq!(
        PathsConfigError::FileLoadingError(String::from("x")).message(),
        "File containing path configuration failed to load."
    );
    assert_eq!(
        PathsConfigError::InvalidFileContent(String::from("x")).message(),
        "Content found in path configuration file could not be read."
    );
    assert_eq!(
        PathsConfigError::FileWritingError(String::from("x")).message(),
        "Error trying to write paths to file."
    );
    assert_eq!(
        PathsConfigError::GamePathNotFound.message(),
        "Game path not found in configuration file."
    );
    assert_eq!(
        PathsConfigError::ModsPathNotFound.message(),
        "Mods path not found in configuration file."
    );
    assert_eq!(
        PathsConfigError::ModsGroupPathNotFound.message(),
        "Mods group path not found in configuration file."
    );
}

#[test]
fn paths_config_clear_names_the_paths_file() {
    assert_eq!(PATH_CONFIGS_FILE_NAME, "hm_mod_manager_path_configs.conf");
    assert_eq!(built(WELL_FORMED).clear(), "hm_mod_manager_path_configs.conf");
}

#[test]
fn a_path_is_accepted_only_if_it_exists() {
    let accepted: Result<GamePath, String> = request_path_from_user(String::from("/g"), true);
    assert!(matches!(accepted, Ok(path) if path.path() == "/g"));
    let refused: Result<GamePath, String> = request_path_from_user(String::from("/g"), false);
    assert_eq!(
        refused.err(),
        Some(String::from("Could not validate your game's path, please write it again."))
    );
    let refused: Result<ModsGroupPath, String> = request_path_from_user(String::from("/l"), false);
    assert_eq!(
        refused.err(),
        Some(String::from("Could not validate your group mods path, please write it again."))
    );
}

#[test]
fn setup_asks_for_the_roles_in_order_and_asks_again_for_a_missing_path() {
    let (setup, prompt) = PathsSetup::begin();
    assert_eq!(prompt, GamePath::prompt());
    let setup = match setup.answer(String::from("/nowhere"), false) {
        SetupStep::Ask { setup, prompt, diagnostic } => {
            assert_eq!(prompt, GamePath::prompt());
            assert_eq!(
                diagnostic,
                Some(String::from("Could not validate your game's path, please write it again."))
            );
            setup
        }
        step => panic!("unexpected step {step:?}"),
    };
    let setup = match setup.answer(String::from("/again"), false) {
        SetupStep::Ask { setup, prompt, diagnostic } => {
            assert_eq!(prompt, GamePath::prompt());
            assert!(diagnostic.is_some());
            setup
        }
        step => panic!("unexpected step {step:?}"),
    };
    let setup = match setup.answer(String::from("/g"), true) {
        SetupStep::Ask { setup, prompt, diagnostic } => {
            assert_eq!(prompt, ModsPath::prompt());
            assert_eq!(diagnostic, None);
            setup
        }
        step => panic!("unexpected step {step:?}"),
    };
    let setup = match setup.answer(String::from("/m"), true) {
        SetupStep::Ask { setup, prompt, diagnostic } => {
            assert_eq!(prompt, ModsGroupPath::prompt());
            assert_eq!(diagnostic, None);
            setup
        }
        step => panic!("unexpected step {step:?}"),
    };
    let setup = match setup.answer(String::from("/missing"), false) {
        SetupStep::Ask { setup, prompt, diagnostic } => {
            assert_eq!(prompt, ModsGroupPath::prompt());
            assert_eq!(
                diagnostic,
                Some(String::from(
                    "Could not validate your group mods path, please write it again."
                ))
            );
            setup
        }
        step => panic!("unexpected step {step:?}"),
    };
    match setup.answer(String::from("/l"), true) {
        SetupStep::Write { config, file_name, content } => {
            assert_eq!(file_name, "hm_mod_manager_path_configs.conf");
            assert_eq!(content, "game_path:/g\nmods_path:/m\nmods_group_path:/l\n");
            assert_eq!(paths(&config), (String::from("/g"), String::from("/m"), String::from("/l")));
        }
        step => panic!("unexpected step {step:?}"),
    }
}

#[test]
fn recheck_keeps_a_configuration_whose_paths_exist() {
    let result = PathsSetup::recheck(built(WELL_FORMED), true, true, true);
    assert!(matches!(result, Ok(config) if paths(&config).0 == "/games/hm2"));
}

#[test]
fn recheck_asks_again_for_the_paths_that_lead_nowhere() {
    let (setup, prompt) = match PathsSetup::recheck(built(WELL_FORMED), true, false, true) {
        Err(asking) => asking,
        Ok(_) => panic!("a missing path was taken"),
    };
    assert_eq!(prompt, ModsPath::prompt());
    match setup.answer(String::from("/new/mods"), true) {
        SetupStep::Write { config, content, .. } => {
            assert_eq!(
                paths(&config),
                (String::from("/games/hm2"), String::from("/new/mods"), String::from("/library"))
            );
            assert_eq!(content, "game_path:/games/hm2\nmods_path:/new/mods\nmods_group_path:/library\n");
        }
        step => panic!("unexpected step {step:?}"),
    }
    let (setup, prompt) = match PathsSetup::recheck(built(WELL_FORMED), false, true, false) {
        Err(asking) => asking,
        Ok(_) => panic!("a missing path was taken"),
    };
    assert_eq!(prompt, GamePath::prompt());
    match setup.answer(String::from("/g"), true) {
        SetupStep::Ask { prompt, diagnostic, .. } => {
            assert_eq!(prompt, ModsGroupPath::prompt());
            assert_eq!(diagnostic, None);
        }
        step => panic!("unexpected step {step:?}"),
    }
}

#[test]
fn changing_a_path_needs_a_path_that_exists() {
    assert_eq!(path_prompt(ConfigurationPaths::Game), "The path for game's");
    assert_eq!(path_prompt(ConfigurationPaths::Group), "The path for group mods");
    let changed = validate_path(built(WELL_FORMED), ConfigurationPaths::Group, String::from("/l2"), true);
    assert!(matches!(changed, Ok(config) if paths(&config)
        == (String::from("/games/hm2"), String::from("/games/hm2/mods"), String::from("/l2"))));
    let refused = validate_path(built(WELL_FORMED), ConfigurationPaths::Group, String::from("/l2"), false);
    match refused {
        Err((config, diagnostic)) => {
            assert_eq!(paths(&config).2, "/library");
            assert_eq!(diagnostic, "Couldn't validate this path: /l2. Please try again.");
        }
        Ok(_) => panic!("a missing path was taken"),
    }
}

#[test]
fn current_mod_is_read_from_its_file() {
    let current = CurrentMod::build("current_mod:my_cool_mod\n").expect("a current mod");
    assert_eq!(current.name().directory_name(), "my_cool_mod");
    assert_eq!(current.name().formatted_name(), "My Cool Mod");
    let spaced = CurrentMod::build("  current_mod:  spaced_mod \r\n").expect("a current mod");
    assert_eq!(spaced.name().directory_name(), "spaced_mod");
}

#[test]
fn an_empty_file_names_no_current_mod() {
    assert!(matches!(CurrentMod::build(""), Err(CurrentModError::CurrentModNotFound)));
    assert!(matches!(CurrentMod::build("\n\n"), Err(CurrentModError::CurrentModNotFound)));
    assert!(matches!(
        CurrentMod::build("something else\nother:1\n"),
        Err(CurrentModError::CurrentModNotFound)
    ));
}

#[test]
fn current_mod_is_written_as_one_line() {
    let current = CurrentMod::from_mod(HotlineModName::from_directory("my_cool_mod"));
    assert_eq!(CurrentMod::key(), "current_mod");
    assert_eq!(current.save(), "current_mod:my_cool_mod\n");
    assert_eq!(current.format_for_file(), "current_mod:my_cool_mod\n");
    assert_eq!(current.clear(), "hm_mod_manager_mods_configs.conf");
    assert_eq!(MODS_CONFIG_FILE_NAME, "hm_mod_manager_mods_configs.conf");
}

#[test]
fn current_mod_survives_save_and_build() {
    for name in ["my_cool_mod", "hotline_miami_2", "with space", "a:b", ""] {
        let saved = CurrentMod::from_mod(HotlineModName::from_directory(name)).save();
        let read = CurrentMod::build(&saved).expect("a current mod");
        assert_eq!(read.name().directory_name(), name);
        assert_eq!(read.save(), saved);
    }
}

#[test]
fn error_messages_of_the_current_mod_file() {
    assert_eq!(
        CurrentModError::IoError(String::from("x")).message(),
        "Something wrong happened trying to use the current mod configuration file."
    );
    assert_eq!(
        CurrentModError::CurrentModNotFound.message(),
        "The current mod was not found. Maybe it's the first time using the program?"
    );
}

#[test]
fn configs_are_built_from_both_files() {
    let configs = Configs::build(WELL_FORMED, Ok("current_mod:my_mod\n")).expect("configs");
    assert_eq!(configs.paths_config().game_path().path(), "/games/hm2");
    assert_eq!(configs.current_mod().map(|c| c.name().directory_name()), Some("my_mod"));
    assert_eq!(configs.print_mod_name(), "You are currently using: my_mod");
}

#[test]
fn configs_without_a_readable_current_mod_know_none() {
    let first_run = Configs::build(WELL_FORMED, Ok("")).expect("configs");
    assert!(first_run.current_mod().is_none());
    assert_eq!(first_run.print_mod_name(), "You are currently using: Uncertain...");
    let unreadable = Configs::build(WELL_FORMED, Err(String::from("denied"))).expect("configs");
    assert!(unreadable.current_mod().is_none());
}

#[test]
fn configs_fail_with_the_error_of_the_paths_file() {
    assert!(matches!(
        Configs::build("game_path:/g\n", Ok("current_mod:my_mod\n")),
        Err(PathsConfigError::ModsPathNotFound)
    ));
    assert!(matches!(
        Configs::build("nonsense\n", Ok("")),
        Err(PathsConfigError::InvalidFileContent(_))
    ));
}

#[test]
fn configs_new_holds_its_parts() {
    let current = CurrentMod::from_mod(HotlineModName::from_directory("x"));
    let configs = Configs::new(built(WELL_FORMED), Some(current));
    assert_eq!(configs.paths_config().mods_path().path(), "/games/hm2/mods");
    assert_eq!(configs.current_mod().map(|c| c.name().directory_name()), Some("x"));
}

#[test]
fn clear_names_the_files_that_hold_state() {
    let with_mod = Configs::build(WELL_FORMED, Ok("current_mod:my_mod\n")).expect("configs");
    assert_eq!(
        with_mod.clear(),
        vec!["hm_mod_manager_path_configs.conf", "hm_mod_manager_mods_configs.conf"]
    );
    assert_eq!(with_mod.current_mod().map(|c| c.name().directory_name()), Some("my_mod"));
    let without_mod = Configs::build(WELL_FORMED, Ok("")).expect("configs");
    assert_eq!(without_mod.clear(), vec!["hm_mod_manager_path_configs.conf"]);
}

#[test]
fn set_paths_config_returns_the_new_file_content() {
    let mut configs = Configs::build(WELL_FORMED, Ok("current_mod:my_mod\n")).expect("configs");
    let content = configs.set_paths_config(built("game_path:/g\nmods_path:/m\nmods_group_path:/l\n"));
    assert_eq!(content, "game_path:/g\nmods_path:/m\nmods_group_path:/l\n");
    assert_eq!(configs.paths_config().game_path().path(), "/g");
    assert_eq!(configs.current_mod().map(|c| c.name().directory_name()), Some("my_mod"));
}

#[test]
fn mut_paths_config_changes_the_paths_in_place() {
    let mut configs = Configs::build(WELL_FORMED, Ok("")).expect("configs");
    let paths_config = configs.mut_paths_config();
    *paths_config = built("game_path:/g\nmods_path:/m\nmods_group_path:/l\n");
    assert_eq!(configs.paths_config().mods_group_path().path(), "/l");
}

#[test]
fn set_current_mod_follows_the_outcome_of_the_write() {
    let mut configs = Configs::build(WELL_FORMED, Ok("current_mod:old_mod\n")).expect("configs");
    let failed =
        configs.set_current_mod(HotlineModName::from_directory("new_mod"), Err(String::from("disk full")));
    assert!(matches!(failed, Err(CurrentModError::IoError(cause)) if cause == "disk full"));
    assert_eq!(configs.current_mod().map(|c| c.name().directory_name()), Some("old_mod"));
    let done = configs.set_current_mod(HotlineModName::from_directory("new_mod"), Ok(()));
    assert!(done.is_ok());
    assert_eq!(configs.current_mod().map(|c| c.name().directory_name()), Some("new_mod"));
    assert_eq!(configs.paths_config().game_path().path(), "/games/hm2");
}

#[test]
fn only_an_unreadable_current_mod_file_is_reported() {
    assert_eq!(
        Configs::on_current_mod_error(&CurrentModError::IoError(String::from("denied"))),
        Some(String::from(
            "Something wrong happened while trying to read the current mod: denied"
        ))
    );
    assert_eq!(Configs::on_current_mod_error(&CurrentModError::CurrentModNotFound), None);
}

#[test]
fn both_files_can_be_written_at_once() {
    let configs = Configs::build(WELL_FORMED, Ok("current_mod:my_mod\n")).expect("configs");
    assert_eq!(
        configs.save_configs_to_file(),
        (String::from(WELL_FORMED), String::from("current_mod:my_mod\n"))
    );
    let first_run = Configs::build(WELL_FORMED, Ok("")).expect("configs");
    assert_eq!(first_run.save_configs_to_file(), (String::from(WELL_FORMED), String::new()));
}

#[test]
fn a_configuration_can_be_cloned() {
    let config = built(WELL_FORMED);
    assert_eq!(paths(&config.clone()), paths(&config));
}
