use hotline_mod_manager::configs::paths_config::{ModsGroupPath, PathsConfig, ProgramPath};
use hotline_mod_manager::configs::Configs;
use hotline_mod_manager::create_new_mod_folder::{
    create_all_mods_dirs, create_new_mod_dir, create_new_mod_folder, format_mod_folder_name,
    format_mods_folder_name, format_music_folder_name, is_new_mod_name_valid,
    CreateNewModFolderError, FolderPath, NewModStep, GET_NEW_MOD_NAME_PROMPT,
};
use hotline_mod_manager::functions::PromptOutcome;
use hotline_mod_manager::hotline_mod::{
    format_mod_name, get_mods, get_music, get_name, is_valid_music_file, AssociatedMods,
    HotlineMod, HotlineModName, ListedEntry, Music, MODS_FOLDER_NAME, MUSIC_FOLDER_NAME,
    VALID_MUSIC_EXTENSION,
};
use hotline_mod_manager::manager::{
    get_default_mod, list_mods, AllMods, BundleScan, HotlineModManager, DEFAULT_MOD_NAME,
};
use hotline_mod_manager::replace_mod::ORIGINAL_GAME_SETTINGS_NOT_FOUND_WARNING;
use hotline_mod_manager::select_mod::{mod_options, select_mod, ChangeCurrentModError};

fn entry(directory: &str, file_name: &str, is_file: bool) -> ListedEntry {
    ListedEntry {
        path: format!("{directory}/{file_name}"),
        file_name: String::from(file_name),
        is_file,
    }
}

fn scan(name: &str, music: &[&str], mods: &[&str]) -> BundleScan {
    BundleScan {
        is_directory: true,
        directory_name: Some(String::from(name)),
        music_entries: music.iter().map(|f| entry(&format!("/l/{name}/music"), f, true)).collect(),
        mods_entries: mods.iter().map(|f| entry(&format!("/l/{name}/mods"), f, true)).collect(),
    }
}

fn configs() -> Configs {
    Configs::build("game_path:/g\nmods_path:/m\nmods_group_path:/l\n", Ok("")).expect("configs")
}

fn names(mods: &AllMods) -> Vec<String> {
    mods.mods().iter().map(|m| String::from(m.name().directory_name())).collect()
}

#[test]
fn the_fixed_names_of_a_bundle() {
    assert_eq!(VALID_MUSIC_EXTENSION, "wad");
    assert_eq!(MUSIC_FOLDER_NAME, "music");
    assert_eq!(MODS_FOLDER_NAME, "mods");
    assert_eq!(DEFAULT_MOD_NAME, "hotline_miami_2");
}

#[test]
fn a_bundle_takes_its_name_from_the_final_segment() {
    let name = get_name(Some("my_cool_mod")).expect("a name");
    assert_eq!(name.directory_name(), "my_cool_mod");
    assert_eq!(name.formatted_name(), "My Cool Mod");
    assert!(get_name(None).is_none());
}

#[test]
fn music_is_the_first_entry_with_the_music_extension() {
    let entries = vec![
        entry("/l/x/music", "readme.txt", true),
        entry("/l/x/music", "First.WAD", true),
        entry("/l/x/music", "second.wad", true),
    ];
    assert_eq!(get_music(&entries).map(|m| String::from(m.path())), Some(String::from("/l/x/music/First.WAD")));
}

#[test]
fn a_bundle_without_music_file_has_no_music() {
    assert!(get_music(&Vec::new()).is_none());
    let entries = vec![entry("/l/x/music", "notes.txt", true), entry("/l/x/music", "wad", true)];
    assert!(get_music(&entries).is_none());
}

#[test]
fn music_files_are_known_by_their_extension() {
    assert!(is_valid_music_file("hlm2_music_desktop.wad"));
    assert!(is_valid_music_file("MUSIC.Wad"));
    assert!(!is_valid_music_file("music.patchwad"));
    assert!(!is_valid_music_file(".wad"));
}

#[test]
fn every_entry_of_the_mods_directory_is_a_mod_file() {
    let entries = vec![
        entry("/l/x/mods", "a.patchwad", true),
        entry("/l/x/mods", "folder", false),
        entry("/l/x/mods", "notes.txt", true),
    ];
    let mods = get_mods(&entries);
    assert!(!mods.is_empty());
    assert_eq!(
        mods.mods(),
        &vec![
            String::from("/l/x/mods/a.patchwad"),
            String::from("/l/x/mods/folder"),
            String::from("/l/x/mods/notes.txt")
        ]
    );
    assert!(get_mods(&Vec::new()).is_empty());
}

#[test]
fn a_bundle_is_built_from_its_scan() {
    let music = vec![entry("/l/x/music", "m.wad", true)];
    let mods = vec![entry("/l/x/mods", "a.patchwad", true)];
    let bundle = HotlineMod::new(Some("x"), &music, &mods).expect("a bundle");
    assert_eq!(bundle.name().directory_name(), "x");
    assert_eq!(bundle.music().map(|m| m.path()), Some("/l/x/music/m.wad"));
    assert_eq!(bundle.mods().mods(), &vec![String::from("/l/x/mods/a.patchwad")]);
}

#[test]
fn a_bundle_without_files_is_valid() {
    let bundle = HotlineMod::new(Some("empty_one"), &Vec::new(), &Vec::new()).expect("a bundle");
    assert!(bundle.music().is_none());
    assert!(bundle.mods().is_empty());
    let named = HotlineMod::from_name(HotlineModName::from_directory("fresh"));
    assert_eq!(named.name().directory_name(), "fresh");
    assert!(named.music().is_none());
    assert!(named.mods().is_empty());
}

#[test]
fn there_is_no_bundle_without_a_final_segment() {
    let music = vec![entry("/music", "m.wad", true)];
    assert!(HotlineMod::new(None, &music, &Vec::new()).is_none());
}

#[test]
fn music_and_mods_hold_their_paths() {
    assert_eq!(Music::new(String::from("/a/b.wad")).path(), "/a/b.wad");
    let mods = AssociatedMods::new(vec![String::from("/a"), String::from("/b")]);
    assert_eq!(mods.mods().len(), 2);
    assert!(!mods.is_empty());
}

#[test]
fn the_library_holds_a_bundle_per_directory() {
    let scans = vec![
        scan("first", &["a.wad"], &["x.patchwad"]),
        BundleScan {
            is_directory: true,
            directory_name: None,
            music_entries: Vec::new(),
            mods_entries: Vec::new(),
        },
        BundleScan {
            is_directory: false,
            directory_name: Some(String::from("notes.txt")),
            music_entries: Vec::new(),
            mods_entries: Vec::new(),
        },
        scan("second", &[], &[]),
    ];
    let mods = list_mods(&scans);
    assert_eq!(names(&mods), vec![String::from("first"), String::from("second")]);
    assert_eq!(mods.mods()[0].music().map(|m| m.path()), Some("/l/first/music/a.wad"));
    assert!(list_mods(&Vec::new()).mods().is_empty());
}

#[test]
fn the_default_bundle_is_found_by_its_name() {
    let mods = list_mods(&vec![scan("a", &[], &[]), scan("hotline_miami_2", &[], &[]), scan("b", &[], &[])]);
    assert_eq!(get_default_mod(mods.mods()), Some(1));
    let none = list_mods(&vec![scan("a", &[], &[]), scan("Hotline_Miami_2", &[], &[])]);
    assert_eq!(get_default_mod(none.mods()), None);
}

#[test]
fn the_manager_holds_the_default_bundle_out_of_the_library() {
    let scans = vec![
        scan("alpha", &[], &["a.patchwad"]),
        scan("hotline_miami_2", &["vanilla.wad"], &[]),
        scan("beta", &["b.wad"], &[]),
    ];
    let (manager, warning) = HotlineModManager::build(configs(), &scans);
    assert_eq!(warning, None);
    assert_eq!(names(manager.all_mods()), vec![String::from("alpha"), String::from("beta")]);
    let default = manager.default_game().expect("a default bundle");
    assert_eq!(default.hm_mod().name().directory_name(), "hotline_miami_2");
    assert_eq!(
        manager.default_game_music().map(|m| m.path()),
        Some("/l/hotline_miami_2/music/vanilla.wad")
    );
    assert_eq!(manager.configs().paths_config().game_path().path(), "/g");
}

#[test]
fn the_manager_warns_where_the_library_has_no_default_bundle() {
    let (manager, warning) = HotlineModManager::build(configs(), &vec![scan("alpha", &[], &[])]);
    assert_eq!(warning, Some(ORIGINAL_GAME_SETTINGS_NOT_FOUND_WARNING));
    assert!(manager.default_game().is_none());
    assert!(manager.default_game_music().is_none());
    assert_eq!(names(manager.all_mods()), vec![String::from("alpha")]);
}

#[test]
fn a_default_bundle_without_music_gives_no_music() {
    let (manager, warning) = HotlineModManager::build(configs(), &vec![scan("hotline_miami_2", &[], &[])]);
    assert_eq!(warning, None);
    assert!(manager.default_game().is_some());
    assert!(manager.default_game_music().is_none());
    assert!(manager.all_mods().mods().is_empty());
}

#[test]
fn all_mods_can_be_built_and_changed() {
    let mut mods = AllMods::new(vec![HotlineMod::from_name(HotlineModName::from_directory("a"))]);
    mods.mods_mut().push(HotlineMod::from_name(HotlineModName::from_directory("b")));
    assert_eq!(names(&mods), vec![String::from("a"), String::from("b")]);
}

#[test]
fn the_selection_offers_the_display_names() {
    let mods = list_mods(&vec![scan("my_cool_mod", &[], &[]), scan("other", &[], &[])]);
    let options = mod_options(mods.mods()).expect("options");
    assert_eq!(options, vec![String::from("My Cool Mod"), String::from("Other")]);
}

#[test]
fn an_empty_library_has_nothing_to_select() {
    let empty: Vec<HotlineMod> = Vec::new();
    assert!(matches!(mod_options(&empty), Err(ChangeCurrentModError::EmptyMods)));
    assert!(matches!(
        select_mod(&empty, PromptOutcome::Answered(0)),
        Err(ChangeCurrentModError::EmptyMods)
    ));
    assert!(matches!(
        select_mod(&empty, PromptOutcome::Canceled),
        Err(ChangeCurrentModError::EmptyMods)
    ));
}

#[test]
fn the_selection_maps_each_outcome_of_the_prompt() {
    let mods = list_mods(&vec![scan("a", &[], &[]), scan("b", &[], &[])]);
    assert!(matches!(select_mod(mods.mods(), PromptOutcome::Answered(1)), Ok(1)));
    assert!(matches!(select_mod(mods.mods(), PromptOutcome::Answered(0)), Ok(0)));
    assert!(matches!(
        select_mod(mods.mods(), PromptOutcome::Answered(2)),
        Err(ChangeCurrentModError::InquireError(cause)) if cause == "The selection names no mod of the list."
    ));
    assert!(matches!(
        select_mod(mods.mods(), PromptOutcome::Canceled),
        Err(ChangeCurrentModError::UserCanceledOperation)
    ));
    assert!(matches!(
        select_mod(mods.mods(), PromptOutcome::Interrupted),
        Err(ChangeCurrentModError::UserExitedApplication)
    ));
    assert!(matches!(
        select_mod(mods.mods(), PromptOutcome::Failed(String::from("no terminal"))),
        Err(ChangeCurrentModError::InquireError(cause)) if cause == "no terminal"
    ));
}

#[test]
fn error_messages_of_the_selection() {
    assert_eq!(
        ChangeCurrentModError::EmptyMods.message(),
        "You have no mods in your folder right now. Try downloading new mods or bringing your existing mods to this folder."
    );
    assert_eq!(
        ChangeCurrentModError::UserCanceledOperation.message(),
        "User pressed ESC when prompted."
    );
    assert_eq!(
        ChangeCurrentModError::UserExitedApplication.message(),
        "User wants to exit the application."
    );
    assert_eq!(ChangeCurrentModError::InquireError(String::from("x")).message(), "Inquire error");
}

#[test]
fn a_new_name_is_valid_if_no_bundle_has_it() {
    let mods = list_mods(&vec![scan("taken", &[], &[]), scan("other", &[], &[])]);
    assert!(!is_new_mod_name_valid("taken", &mods));
    assert!(!is_new_mod_name_valid("other", &mods));
    assert!(is_new_mod_name_valid("Taken", &mods));
    assert!(is_new_mod_name_valid("take", &mods));
    assert!(is_new_mod_name_valid("", &mods));
    assert!(is_new_mod_name_valid("taken", &AllMods::new(Vec::new())));
}

fn folder(path: &FolderPath) -> (String, Vec<String>) {
    (path.base.clone(), path.segments.clone())
}

#[test]
fn the_folders_of_a_new_bundle() {
    let root = ModsGroupPath::new(String::from("/l"));
    assert_eq!(
        folder(&format_mod_folder_name("fresh", &root)),
        (String::from("/l"), vec![String::from("fresh")])
    );
    assert_eq!(
        folder(&format_music_folder_name("fresh", &root)),
        (String::from("/l"), vec![String::from("fresh"), String::from("music")])
    );
    assert_eq!(
        folder(&format_mods_folder_name("fresh", &root)),
        (String::from("/l"), vec![String::from("fresh"), String::from("mods")])
    );
    let all = create_all_mods_dirs(&HotlineModName::from_directory("fresh"), &root);
    let all: Vec<(String, Vec<String>)> = all.iter().map(folder).collect();
    assert_eq!(
        all,
        vec![
            (String::from("/l"), vec![String::from("fresh")]),
            (String::from("/l"), vec![String::from("fresh"), String::from("music")]),
            (String::from("/l"), vec![String::from("fresh"), String::from("mods")]),
        ]
    );
}

#[test]
fn a_free_name_gives_the_three_folders_to_create() {
    let mods = list_mods(&vec![scan("taken", &[], &[])]);
    let root = ModsGroupPath::new(String::from("/l"));
    assert_eq!(
        GET_NEW_MOD_NAME_PROMPT,
        "What will be the mod's name? (Please use the snake case identifier)"
    );
    match create_new_mod_folder(&mods, &root, PromptOutcome::Answered(String::from("fresh_mod"))) {
        Ok(NewModStep::Create { name, folders }) => {
            assert_eq!(name.directory_name(), "fresh_mod");
            assert_eq!(name.formatted_name(), "Fresh Mod");
            assert_eq!(folders.len(), 3);
            assert_eq!(folders[0].segments, vec![String::from("fresh_mod")]);
            assert_eq!(folders[1].segments, vec![String::from("fresh_mod"), String::from("music")]);
            assert_eq!(folders[2].segments, vec![String::from("fresh_mod"), String::from("mods")]);
            assert!(folders.iter().all(|f| f.base == "/l"));
        }
        other => panic!("unexpected answer {other:?}"),
    }
}

#[test]
fn a_taken_name_is_turned_down_before_anything_is_created() {
    let mods = list_mods(&vec![scan("taken", &[], &[]), scan("other", &[], &[])]);
    let root = ModsGroupPath::new(String::from("/l"));
    match create_new_mod_folder(&mods, &root, PromptOutcome::Answered(String::from("taken"))) {
        Ok(NewModStep::AskAgain { message }) => assert_eq!(
            message,
            "There's already a mod called taken in your mods directory. Please provide another one."
        ),
        other => panic!("unexpected answer {other:?}"),
    }
}

#[test]
fn the_prompt_for_a_new_name_can_end_without_a_name() {
    let mods = AllMods::new(Vec::new());
    let root = ModsGroupPath::new(String::from("/l"));
    assert!(matches!(
        create_new_mod_folder(&mods, &root, PromptOutcome::Canceled),
        Err(CreateNewModFolderError::UserCanceledOperation)
    ));
    assert!(matches!(
        create_new_mod_folder(&mods, &root, PromptOutcome::Interrupted),
        Ok(NewModStep::Quit)
    ));
    assert!(matches!(
        create_new_mod_folder(&mods, &root, PromptOutcome::Failed(String::from("no terminal"))),
        Err(CreateNewModFolderError::InquireError(cause)) if cause == "no terminal"
    ));
}

#[test]
fn a_folder_that_cannot_be_created_is_reported_with_its_path() {
    assert!(create_new_mod_dir("/l/fresh", Ok(())).is_ok());
    let failed = create_new_mod_dir("/l/fresh/music", Err(String::from("denied")));
    match failed {
        Err(error) => {
            assert!(matches!(
                &error,
                CreateNewModFolderError::CreatingFolderError(cause, path)
                    if cause == "denied" && path == "/l/fresh/music"
            ));
            assert_eq!(
                error.message(),
                "Error creating the folder for path /l/fresh/music. Error: denied"
            );
        }
        Ok(()) => panic!("the failure was lost"),
    }
    assert_eq!(
        CreateNewModFolderError::UserCanceledOperation.message(),
        "User pressed ESC when prompted."
    );
    assert_eq!(CreateNewModFolderError::InquireError(String::from("x")).message(), "Inquire error");
}

#[test]
fn the_manager_adds_a_new_bundle_to_the_library() {
    let (mut manager, _) = HotlineModManager::build(configs(), &vec![scan("alpha", &[], &[])]);
    manager.create_new_mod_folder(HotlineModName::from_directory("fresh"));
    assert_eq!(names(manager.all_mods()), vec![String::from("alpha"), String::from("fresh")]);
    assert!(!is_new_mod_name_valid("fresh", manager.all_mods()));
    let fresh = &manager.all_mods().mods()[1];
    assert!(fresh.music().is_none());
    assert!(fresh.mods().is_empty());
}

#[test]
fn the_manager_names_the_files_to_clear() {
    let (manager, _) = HotlineModManager::build(
        Configs::build("game_path:/g\nmods_path:/m\nmods_group_path:/l\n", Ok("current_mod:x\n"))
            .expect("configs"),
        &vec![scan("alpha", &[], &[])],
    );
    assert_eq!(
        manager.clear_configuration(),
        vec!["hm_mod_manager_path_configs.conf", "hm_mod_manager_mods_configs.conf"]
    );
    let (first_run, _) = HotlineModManager::build(configs(), &Vec::new());
    assert_eq!(first_run.clear_configuration(), vec!["hm_mod_manager_path_configs.conf"]);
}

#[test]
fn the_manager_takes_other_paths_and_keeps_its_bundles() {
    let (mut manager, _) = HotlineModManager::build(configs(), &vec![scan("alpha", &[], &[])]);
    let other: PathsConfig =
        PathsConfig::build("game_path:/g2\nmods_path:/m2\nmods_group_path:/l2\n").expect("paths");
    let content = manager.set_paths_config(other.clone());
    assert_eq!(content, "game_path:/g2\nmods_path:/m2\nmods_group_path:/l2\n");
    assert_eq!(content, other.save());
    assert_eq!(manager.configs().paths_config().game_path().path(), "/g2");
    assert_eq!(names(manager.all_mods()), vec![String::from("alpha")]);
}

#[test]
fn format_mod_name_is_the_display_name() {
    assert_eq!(format_mod_name("my_cool_mod"), "My Cool Mod");
    assert_eq!(format_mod_name("hotline_miami_2"), "Hotline Miami 2");
    assert_eq!(format_mod_name(""), "");
}
