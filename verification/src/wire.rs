//! Lines written to the player's control socket, and the player's own
//! command line.
//!
//! Every message is one line: a JSON object with the single member `command`,
//! whose value is the list of the command's words.

use vstd::prelude::*;
use vstd::string::StringExecFns;

verus! {

/// The line that carries a command whose words, already written as JSON and
/// separated by commas, are `arguments`.
pub open spec fn command_text(arguments: Seq<char>) -> Seq<char> {
    "{\"command\": ["@ + arguments + "]}\n"@
}

/// The words of the command that asks for the value of `property`.
pub open spec fn get_property_arguments(property: Seq<char>) -> Seq<char> {
    "\"get_property\", \""@ + property + "\""@
}

/// The line that asks the player for the value of `property`.
pub open spec fn property_request_text(property: Seq<char>) -> Seq<char> {
    command_text(get_property_arguments(property))
}

/// The option that tells the player where to open its control socket.
pub open spec fn socket_option_text(socket_path: Seq<char>) -> Seq<char> {
    "--input-ipc-server="@ + socket_path
}

/// Frames the words of a command as one line for the control socket.
///
/// `arguments` is placed between the brackets as it is: the caller writes
/// each word as a JSON value.
pub fn command_line(arguments: &str) -> (line: String)
    ensures
        line@ == command_text(arguments@),
{
    let mut line = "{\"command\": [".to_owned();
    line.append(arguments);
    line.append("]}\n");
    line
}

/// Builds the line that asks the player for the value of `property`.
///
/// The name is placed between quotes as it is.
pub fn property_request(property: &str) -> (line: String)
    ensures
        line@ == property_request_text(property@),
{
    let mut arguments = "\"get_property\", \"".to_owned();
    arguments.append(property);
    arguments.append("\"");
    command_line(arguments.as_str())
}

/// A command the front-end sends to a running player.
#[derive(Clone, Copy, Debug, PartialEq, Eq, Structural)]
pub enum PlayerCommand {
    /// Pause if playing, resume if paused.
    CyclePause,
    /// End the player.
    Quit,
}

impl PlayerCommand {
    /// The command's words as they stand between the brackets of its line.
    pub open spec fn arguments_text(self) -> Seq<char> {
        match self {
            PlayerCommand::CyclePause => "\"cycle\", \"pause\""@,
            PlayerCommand::Quit => "\"quit\""@,
        }
    }

    /// The command's words, written as JSON and separated by a comma.
    pub fn arguments(&self) -> (words: String)
        ensures
            words@ == self.arguments_text(),
    {
        match self {
            PlayerCommand::CyclePause => "\"cycle\", \"pause\"".to_owned(),
            PlayerCommand::Quit => "\"quit\"".to_owned(),
        }
    }

    /// The line that carries this command.
    pub fn line(&self) -> (line: String)
        ensures
            line@ == command_text(self.arguments_text()),
    {
        let words = self.arguments();
        command_line(words.as_str())
    }
}

/// The arguments the player is started with: the stream to play, then the
/// option that names its control socket.
pub fn player_arguments(socket_path: &str, url: &str) -> (args: Vec<String>)
    ensures
        args@.len() == 2,
        args@[0]@ == url@,
        args@[1]@ == socket_option_text(socket_path@),
{
    let mut option = "--input-ipc-server=".to_owned();
    option.append(socket_path);
    let mut args: Vec<String> = Vec::new();
    args.push(url.to_owned());
    args.push(option);
    args
}

} // verus!
