use vstd::prelude::*;
use crate::text::same_text;

verus! {

/// What the program was asked to do.
#[derive(Debug)]
pub enum Command {
    /// Open the project of this name, or one to be picked.
    Open(Option<String>),
    /// Add the current directory as a project.
    Add,
    /// Remove a project to be picked.
    Remove,
    /// Set the editor of a project to be picked.
    SetEditor,
    /// A word that is no command.
    Unknown(String),
}

/// What a command is, over the views of its parts.
pub enum CommandView {
    Open(Option<Seq<char>>),
    Add,
    Remove,
    SetEditor,
    Unknown(Seq<char>),
}

/// The view of a string that may be absent.
pub open spec fn optional_text(text: Option<String>) -> Option<Seq<char>> {
    match text {
        Some(t) => Some(t@),
        None => None,
    }
}

impl View for Command {
    type V = CommandView;

    open spec fn view(&self) -> CommandView {
        match self {
            Command::Open(name) => CommandView::Open(optional_text(*name)),
            Command::Add => CommandView::Add,
            Command::Remove => CommandView::Remove,
            Command::SetEditor => CommandView::SetEditor,
            Command::Unknown(word) => CommandView::Unknown(word@),
        }
    }
}

/// The command that a first word and an argument stand for. No word at
/// all, `open` and `o` open a project; `add` and `save` add one; `remove`
/// and `seteditor` do what they say. Every other word is unknown. The
/// argument counts for opening only.
pub open spec fn command_of(word: Option<Seq<char>>, argument: Option<Seq<char>>) -> CommandView {
    match word {
        None => CommandView::Open(argument),
        Some(w) => if w == "open"@ || w == "o"@ {
            CommandView::Open(argument)
        } else if w == "add"@ || w == "save"@ {
            CommandView::Add
        } else if w == "remove"@ {
            CommandView::Remove
        } else if w == "seteditor"@ {
            CommandView::SetEditor
        } else {
            CommandView::Unknown(w)
        },
    }
}

/// Tells which command a first word and an argument stand for.
pub fn dispatch(word: Option<String>, argument: Option<String>) -> (command: Command)
    ensures
        command@ == command_of(optional_text(word), optional_text(argument)),
{
    match word {
        None => Command::Open(argument),
        Some(w) => {
            let text = w.as_str();
            if same_text(text, "open") || same_text(text, "o") {
                Command::Open(argument)
            } else if same_text(text, "add") || same_text(text, "save") {
                Command::Add
            } else if same_text(text, "remove") {
                Command::Remove
            } else if same_text(text, "seteditor") {
                Command::SetEditor
            } else {
                Command::Unknown(w)
            }
        },
    }
}

/// The summary of the commands.
pub const HELP_TEXT: &'static str = "\nUsage: pm <command>\n\n\
Options:\n  \
-V, --version                output the version number\n  \
-h, --help                   output usage information\n\n\
Commands:\n  \
open|o [projectName]         Open one of your saved projects\n  \
add|save [projectDirectory]  Save current directory as a project\n  \
remove [projectName]         Remove the project\n  \
seteditor [commandToOpen]    Set text editor to use\n  \
edit                         Edit settings.json\n";

/// The summary of the commands, as it is shown on request and after an
/// unknown word.
pub fn help() -> (text: &'static str)
    ensures
        text@ == HELP_TEXT@,
{
    HELP_TEXT
}

} // verus!
