//! The command line that starts the game on a raw replay.
//!
//! The game takes a fixed list of arguments. Where a wrapper is given, as is
//! usual on Linux, the wrapper is the program to start, and the game's
//! executable becomes its first argument. Starting the program is left to
//! the caller.

use vstd::prelude::*;
use vstd::string::StringExecFns;

verus! {

/// A program and the arguments to start it with.
#[derive(Clone, Debug, PartialEq, Eq)]
pub struct LaunchCommand {
    /// The program to start.
    pub program: String,
    /// Its arguments, in order.
    pub arguments: Vec<String>,
}

/// A `LaunchCommand` as a mathematical value.
pub struct CommandModel {
    pub program: Seq<char>,
    pub arguments: Seq<Seq<char>>,
}

impl View for LaunchCommand {
    type V = CommandModel;

    open spec fn view(&self) -> CommandModel {
        CommandModel { program: self.program@, arguments: self.arguments.deep_view() }
    }
}

/// The character for a single decimal digit.
pub open spec fn digit_char(digit: nat) -> char
    recommends
        digit < 10,
{
    seq!['0', '1', '2', '3', '4', '5', '6', '7', '8', '9'][digit as int]
}

/// A number in decimal, without sign and without leading zeros.
pub open spec fn decimal(number: nat) -> Seq<char>
    decreases number,
{
    if number < 10 {
        seq![digit_char(number)]
    } else {
        decimal(number / 10).push(digit_char(number % 10))
    }
}

/// What the game is told: how to initialise, not to report bugs, which
/// replay to play, and the identifier of that replay.
pub open spec fn game_arguments(file_name: Seq<char>, replay_id: nat) -> Seq<Seq<char>> {
    seq![
        "/init"@,
        "init.lua"@,
        "/nobugreport"@,
        "/replay"@,
        file_name,
        "/replayid"@,
        decimal(replay_id),
    ]
}

/// The command that starts the game, directly or through a wrapper.
pub open spec fn launch_plan(
    executable: Seq<char>,
    file_name: Seq<char>,
    replay_id: nat,
    wrapper: Option<Seq<char>>,
) -> CommandModel {
    match wrapper {
        Some(wrapper) => CommandModel {
            program: wrapper,
            arguments: seq![executable] + game_arguments(file_name, replay_id),
        },
        None => CommandModel {
            program: executable,
            arguments: game_arguments(file_name, replay_id),
        },
    }
}

fn digit_text(digit: u32) -> (text: &'static str)
    requires
        digit < 10,
    ensures
        text@ == seq![digit_char(digit as nat)],
{
    proof {
        reveal_strlit("0");
        reveal_strlit("1");
        reveal_strlit("2");
        reveal_strlit("3");
        reveal_strlit("4");
        reveal_strlit("5");
        reveal_strlit("6");
        reveal_strlit("7");
        reveal_strlit("8");
        reveal_strlit("9");
    }
    let text = match digit {
        0 => "0",
        1 => "1",
        2 => "2",
        3 => "3",
        4 => "4",
        5 => "5",
        6 => "6",
        7 => "7",
        8 => "8",
        _ => "9",
    };
    assert(text@ =~= seq![digit_char(digit as nat)]);
    text
}

/// Writes a number in decimal.
pub fn decimal_text(number: u32) -> (text: String)
    ensures
        text@ == decimal(number as nat),
    decreases number,
{
    if number < 10 {
        digit_text(number).to_owned()
    } else {
        let mut text = decimal_text(number / 10);
        text.append(digit_text(number % 10));
        assert(text@ =~= decimal(number as nat));
        text
    }
}

/// Builds the command that starts the game on the replay at `file_name`.
pub fn launch_command(
    executable: &str,
    file_name: &str,
    replay_id: u32,
    wrapper: Option<&str>,
) -> (command: LaunchCommand)
    ensures
        command@ == launch_plan(
            executable@,
            file_name@,
            replay_id as nat,
            match wrapper {
                Some(wrapper) => Some(wrapper@),
                None => None,
            },
        ),
{
    let mut arguments: Vec<String> = Vec::new();
    let program = match wrapper {
        Some(wrapper) => {
            arguments.push(executable.to_owned());
            wrapper.to_owned()
        },
        None => executable.to_owned(),
    };
    arguments.push("/init".to_owned());
    arguments.push("init.lua".to_owned());
    arguments.push("/nobugreport".to_owned());
    arguments.push("/replay".to_owned());
    arguments.push(file_name.to_owned());
    arguments.push("/replayid".to_owned());
    arguments.push(decimal_text(replay_id));
    let command = LaunchCommand { program, arguments };
    assert(command@.arguments =~= launch_plan(
        executable@,
        file_name@,
        replay_id as nat,
        match wrapper {
            Some(wrapper) => Some(wrapper@),
            None => None,
        },
    ).arguments);
    command
}

/// With a wrapper the game's executable is the first argument and the game's
/// own arguments follow unchanged; the replay's path is always the argument
/// behind `/replay`.
pub proof fn lemma_wrapper_goes_in_front(
    executable: Seq<char>,
    file_name: Seq<char>,
    replay_id: nat,
    wrapper: Seq<char>,
)
    ensures
        launch_plan(executable, file_name, replay_id, Some(wrapper)).program == wrapper,
        launch_plan(executable, file_name, replay_id, Some(wrapper)).arguments[0] == executable,
        launch_plan(executable, file_name, replay_id, Some(wrapper)).arguments.skip(1)
            == launch_plan(executable, file_name, replay_id, None).arguments,
        launch_plan(executable, file_name, replay_id, None).program == executable,
        launch_plan(executable, file_name, replay_id, None).arguments[4] == file_name,
{
}

} // verus!
