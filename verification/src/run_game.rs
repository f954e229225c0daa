//! Starting the game.

use vstd::prelude::*;

verus! {

/// The address under which the game's launcher starts the game.
pub const HOTLINE_MIAMI_2_STEAM_URL: &'static str = "steam://rungameid/274170";

/// Why the game did not start, as a value.
pub enum RunHotlineMiamiErrorView {
    IoError(Seq<char>),
}

/// Why the game did not start.
#[derive(Debug)]
pub enum RunHotlineMiamiError {
    /// The launcher could not be run; the cause as text.
    IoError(String),
}

impl View for RunHotlineMiamiError {
    type V = RunHotlineMiamiErrorView;

    open spec fn view(&self) -> RunHotlineMiamiErrorView {
        match self {
            RunHotlineMiamiError::IoError(cause) => RunHotlineMiamiErrorView::IoError(cause@),
        }
    }
}

impl RunHotlineMiamiError {
    /// The message to show for this error.
    pub fn message(&self) -> (r: String)
        ensures
            self matches RunHotlineMiamiError::IoError(cause) && r@
                == "Something went wrong while opening the game. Error: "@ + cause@,
    {
        match self {
            RunHotlineMiamiError::IoError(cause) => {
                let mut message = String::from_str(
                    "Something went wrong while opening the game. Error: ",
                );
                message.append(cause.as_str());
                message
            },
        }
    }
}

/// The program to run and its arguments.
#[derive(Debug)]
pub struct LaunchCommand {
    pub program: &'static str,
    pub args: Vec<&'static str>,
}

/// The arguments that make the command shell open the game's address.
pub open spec fn launch_args() -> Seq<Seq<char>> {
    seq!["/C"@, "start"@, ""@, HOTLINE_MIAMI_2_STEAM_URL@]
}

/// The command that starts the game: the command shell, told to open the
/// game's address.
pub fn build_command() -> (r: LaunchCommand)
    ensures
        r.program@ == "cmd"@,
        r.args@.map_values(|arg: &'static str| arg@) == launch_args(),
{
    let mut args: Vec<&'static str> = Vec::new();
    args.push("/C");
    args.push("start");
    args.push("");
    args.push(HOTLINE_MIAMI_2_STEAM_URL);
    assert(args@.map_values(|arg: &'static str| arg@) =~= launch_args());
    LaunchCommand { program: "cmd", args }
}

/// What the outcome of running the command means: the game was started, or
/// the failure with its cause.
pub fn run_hotline_miami_2(outcome: Result<(), String>) -> (r: Result<(), RunHotlineMiamiError>)
    ensures
        match outcome {
            Ok(_) => r is Ok,
            Err(cause) => r matches Err(error) && error@ == RunHotlineMiamiErrorView::IoError(
                cause@,
            ),
        },
{
    match outcome {
        Ok(_) => Ok(()),
        Err(cause) => Err(RunHotlineMiamiError::IoError(cause)),
    }
}

} // verus!
