use hotline_mod_manager::actions::{Action, ACTION_PROMPT};
use hotline_mod_manager::change_configuration_path::PATH_TO_CHANGE_PROMPT;
use hotline_mod_manager::run_game::{
    build_command, run_hotline_miami_2, RunHotlineMiamiError, HOTLINE_MIAMI_2_STEAM_URL,
};
use hotline_mod_manager::select_mod::{SELECT_MOD_HELP, SELECT_MOD_PROMPT};

#[test]
fn the_menu_offers_its_actions_in_order() {
    assert_eq!(
        Action::variants(),
        vec![
            Action::ChangeMod,
            Action::CreateNewModFolder,
            Action::ChangeConfigurationPath,
            Action::ClearConfiguration,
            Action::Exit
        ]
    );
}

#[test]
fn each_action_has_its_line() {
    assert_eq!(Action::ChangeMod.label(), "Change the current mod.");
    assert_eq!(Action::CreateNewModFolder.label(), "Create a new mod folder structure.");
    assert_eq!(Action::ChangeConfigurationPath.label(), "Change one of your paths.");
    assert_eq!(Action::ClearConfiguration.label(), "Clear your configuration.");
    assert_eq!(Action::Exit.label(), "Exit.");
}

#[test]
fn the_questions_of_the_prompts() {
    assert_eq!(ACTION_PROMPT, "What do you want to do?");
    assert_eq!(PATH_TO_CHANGE_PROMPT, "What folder's path do you want to change?");
    assert_eq!(SELECT_MOD_PROMPT, "What mod do you wish to use?");
    assert_eq!(SELECT_MOD_HELP, "Press ESC to go back.");
}

#[test]
fn the_game_is_started_through_the_command_shell() {
    let command = build_command();
    assert_eq!(command.program, "cmd");
    assert_eq!(command.args, vec!["/C", "start", "", "steam://rungameid/274170"]);
    assert_eq!(HOTLINE_MIAMI_2_STEAM_URL, "steam://rungameid/274170");
}

#[test]
fn a_launcher_that_cannot_be_run_is_reported() {
    assert!(run_hotline_miami_2(Ok(())).is_ok());
    match run_hotline_miami_2(Err(String::from("not found"))) {
        Err(error) => {
            assert!(matches!(&error, RunHotlineMiamiError::IoError(cause) if cause == "not found"));
            assert_eq!(
                error.message(),
                "Something went wrong while opening the game. Error: not found"
            );
        }
        Ok(()) => panic!("the failure was lost"),
    }
}
