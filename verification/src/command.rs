//! The command line after the program's name: which command it asks for,
//! and with what.

use vstd::prelude::*;
use vstd::string::StringExecFns;
use crate::error::VentError;
use crate::input::collect_message_from_args;
use crate::input::collect_message_id_from_args;
use crate::input::message_id_of;
use crate::input::message_of;
use crate::input::texts;

verus! {

/// What the user asks for.
#[derive(Debug, PartialEq, Eq)]
pub enum Command {
    /// Append an entry with this message.
    Add { message: String },
    /// Replace the message of the entry at this position.
    Edit { message_id: usize, message: String },
    /// Overwrite the entry at this position as removed.
    Remove { message_id: usize },
    /// Render the log.
    Render,
}

/// A command as plain values.
pub enum CommandText {
    Add { message: Seq<char> },
    Edit { message_id: usize, message: Seq<char> },
    Remove { message_id: usize },
    Render,
}

impl View for Command {
    type V = CommandText;

    open spec fn view(&self) -> CommandText {
        match *self {
            Command::Add { message } => CommandText::Add { message: message@ },
            Command::Edit { message_id, message } => CommandText::Edit {
                message_id,
                message: message@,
            },
            Command::Remove { message_id } => CommandText::Remove { message_id },
            Command::Render => CommandText::Render,
        }
    }
}

/// Why the command line gives no command.
#[derive(Debug, Clone, Copy, PartialEq, Eq, Structural)]
pub enum CommandError {
    /// No command, or none that is known: the usage text is due.
    Usage,
    /// The command is known and what follows it is refused.
    Refused(VentError),
}

/// The command that the words after the program's name spell.
///
/// `add` takes all the words after it as the message. `edit` takes the first
/// as the position and the others as the message. `rm` takes the first as the
/// position. `render` takes none.
pub open spec fn command_of(words: Seq<Seq<char>>) -> Result<CommandText, CommandError> {
    if words.len() == 0 {
        Err(CommandError::Usage)
    } else {
        let rest = words.drop_first();
        if words[0] == "add"@ {
            match message_of(rest) {
                Ok(message) => Ok(CommandText::Add { message }),
                Err(e) => Err(CommandError::Refused(e)),
            }
        } else if words[0] == "edit"@ {
            match message_id_of(rest) {
                Ok(message_id) => match message_of(rest.drop_first()) {
                    Ok(message) => Ok(CommandText::Edit { message_id, message }),
                    Err(e) => Err(CommandError::Refused(e)),
                },
                Err(e) => Err(CommandError::Refused(e)),
            }
        } else if words[0] == "rm"@ {
            match message_id_of(rest) {
                Ok(message_id) => Ok(CommandText::Remove { message_id }),
                Err(e) => Err(CommandError::Refused(e)),
            }
        } else if words[0] == "render"@ {
            Ok(CommandText::Render)
        } else {
            Err(CommandError::Usage)
        }
    }
}

/// `r` is the command or the refusal that `expected` names.
pub open spec fn is_command(r: Result<Command, CommandError>, expected: Result<
    CommandText,
    CommandError,
>) -> bool {
    match r {
        Ok(command) => expected == Ok::<CommandText, CommandError>(command@),
        Err(e) => expected == Err::<CommandText, CommandError>(e),
    }
}

/// Reads the words after the program's name as a command.
pub fn parse_command(args: Vec<String>) -> (r: Result<Command, CommandError>)
    ensures
        is_command(r, command_of(texts(args@))),
{
    let mut words = args;
    if words.len() == 0 {
        return Err(CommandError::Usage);
    }
    let action = words.remove(0);
    proof {
        assert(texts(words@) =~= texts(args@).drop_first());
        assert(action@ == texts(args@)[0]);
        if words.len() > 0 {
            assert(texts(words@.drop_first()) =~= texts(words@).drop_first());
        }
    }
    if action == String::from_str("add") {
        match collect_message_from_args(&words) {
            Ok(message) => Ok(Command::Add { message }),
            Err(e) => Err(CommandError::Refused(e)),
        }
    } else if action == String::from_str("edit") {
        match collect_message_id_from_args(&mut words) {
            Ok(message_id) => match collect_message_from_args(&words) {
                Ok(message) => Ok(Command::Edit { message_id, message }),
                Err(e) => Err(CommandError::Refused(e)),
            },
            Err(e) => Err(CommandError::Refused(e)),
        }
    } else if action == String::from_str("rm") {
        match collect_message_id_from_args(&mut words) {
            Ok(message_id) => Ok(Command::Remove { message_id }),
            Err(e) => Err(CommandError::Refused(e)),
        }
    } else if action == String::from_str("render") {
        Ok(Command::Render)
    } else {
        Err(CommandError::Usage)
    }
}

/// The usage text for a program called by the given name, line by line, each
/// line with its line feed.
pub open spec fn usage_spec(program: Seq<char>) -> Seq<char> {
    "Usage: "@ + program + " add [message]\n"@
        + "       "@ + program + " add '>>[reply id]' [message]\n"@
        + "       "@ + program + " edit [message id] [message]\n"@
        + "       "@ + program + " rm [message id]\n"@
        + "       "@ + program + " render\n"@
        + "\n"@
        + "Environment: VENT_TXT_CSV    Vent database location\n"@
        + "                             (default: 'vent.csv')\n"@
        + "             VENT_TXT_HBS    Render template\n"@
        + "                             (default: 'template/vent.hbs')\n"@
}

/// Writes the usage text for a program called by the given name.
pub fn usage_text(program_name: &str) -> (r: String)
    ensures
        r@ == usage_spec(program_name@),
{
    let mut text = String::from_str("Usage: ");
    text.append(program_name);
    text.append(" add [message]\n");
    text.append("       ");
    text.append(program_name);
    text.append(" add '>>[reply id]' [message]\n");
    text.append("       ");
    text.append(program_name);
    text.append(" edit [message id] [message]\n");
    text.append("       ");
    text.append(program_name);
    text.append(" rm [message id]\n");
    text.append("       ");
    text.append(program_name);
    text.append(" render\n");
    text.append("\n");
    text.append("Environment: VENT_TXT_CSV    Vent database location\n");
    text.append("                             (default: 'vent.csv')\n");
    text.append("             VENT_TXT_HBS    Render template\n");
    text.append("                             (default: 'template/vent.hbs')\n");
    text
}

} // verus!
