//! The commands that members write in a channel.

use crate::text::{find_char, first_index_of, lemma_first_index_of, same_text};
use vstd::prelude::*;
use vstd::string::*;

verus! {

/// What a message asks for.
#[derive(Clone, Debug, PartialEq, Eq)]
pub enum Command {
    /// `!ping`: the bot answers that it is there.
    Ping,
    /// `!track <handle>`: follow the player of that handle.
    Track { handle: String },
    /// `!untrack`: stop following the member.
    Untrack,
    /// Anything else: the message is none of the bot's business.
    Other,
}

/// A command as contracts see it.
pub enum CommandModel {
    Ping,
    Track { handle: Seq<char> },
    Untrack,
    Other,
}

impl View for Command {
    type V = CommandModel;

    open spec fn view(&self) -> CommandModel {
        match self {
            Command::Ping => CommandModel::Ping,
            Command::Track { handle } => CommandModel::Track { handle: handle@ },
            Command::Untrack => CommandModel::Untrack,
            Command::Other => CommandModel::Other,
        }
    }
}

/// The first word of a message: what stands before its first space, or the
/// whole message where it has no space.
pub open spec fn command_word(content: Seq<char>) -> Seq<char> {
    content.take(first_index_of(content, ' '))
}

/// What follows the first space of a message; nothing where it has none.
pub open spec fn command_argument(content: Seq<char>) -> Seq<char> {
    let at = first_index_of(content, ' ');
    if at < content.len() {
        content.skip(at + 1)
    } else {
        Seq::empty()
    }
}

/// The command that a message holds. The first word decides; the handle of
/// `!track` is all that follows the first space, spaces included.
pub open spec fn command_of(content: Seq<char>) -> CommandModel {
    let word = command_word(content);
    if word == "!ping"@ {
        CommandModel::Ping
    } else if word == "!track"@ {
        CommandModel::Track { handle: command_argument(content) }
    } else if word == "!untrack"@ {
        CommandModel::Untrack
    } else {
        CommandModel::Other
    }
}

/// Reads the command out of a message.
pub fn parse_command(content: &str) -> (command: Command)
    ensures
        command@ == command_of(content@),
{
    proof {
        lemma_first_index_of(content@, ' ');
    }
    let n: usize = content.unicode_len();
    let at: usize = find_char(content, ' ');
    let word = content.substring_char(0, at);
    if same_text(word, "!ping") {
        Command::Ping
    } else if same_text(word, "!track") {
        let handle: String = if at < n {
            content.substring_char(at + 1, n).to_owned()
        } else {
            String::new()
        };
        Command::Track { handle }
    } else if same_text(word, "!untrack") {
        Command::Untrack
    } else {
        Command::Other
    }
}

} // verus!
