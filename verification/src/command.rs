//! The command line of command mode: tokens separated by white space, the
//! first of which names the command, and what each command does to the
//! session.

use vstd::prelude::*;
use crate::app::{App, Mode, Status};
use crate::autofix::{autofix_transcripts, autofix_transcripts_post};
use crate::effects::Effect;
use crate::error::Error;
use crate::text::{same_text, split_words, texts, words};

verus! {

/// A parsed command line.
#[derive(Debug)]
pub enum Command {
    /// An empty line.
    Empty,
    /// `w`, with the path where one is given.
    Write(Option<String>),
    /// `export`, with the file name where one is given.
    Export(Option<String>),
    /// `q` or `q!`.
    Quit,
    /// `help`.
    Help,
    /// `lasterror`.
    LastError,
    /// `autofix`.
    Autofix,
}

/// Whether `argument` is the second of `tokens`, or absent as that is.
pub open spec fn is_argument(argument: Option<String>, tokens: Seq<Seq<char>>) -> bool {
    if tokens.len() > 1 {
        argument matches Some(a) && a@ == tokens[1]
    } else {
        argument is None
    }
}

/// Whether `parsed` is what the tokens `tokens` of a line say: the
/// command that the first token names, or the error that it names none.
pub open spec fn denotes(parsed: Result<Command, Error>, tokens: Seq<Seq<char>>) -> bool {
    if tokens.len() == 0 {
        parsed matches Ok(Command::Empty)
    } else if tokens[0] == "w"@ {
        parsed matches Ok(Command::Write(path)) && is_argument(path, tokens)
    } else if tokens[0] == "export"@ {
        parsed matches Ok(Command::Export(filename)) && is_argument(filename, tokens)
    } else if tokens[0] == "q"@ || tokens[0] == "q!"@ {
        parsed matches Ok(Command::Quit)
    } else if tokens[0] == "help"@ {
        parsed matches Ok(Command::Help)
    } else if tokens[0] == "lasterror"@ {
        parsed matches Ok(Command::LastError)
    } else if tokens[0] == "autofix"@ {
        parsed matches Ok(Command::Autofix)
    } else {
        parsed matches Err(Error::UnknownCommand)
    }
}

/// The second token, where there is one.
fn argument_of(tokens: &Vec<String>) -> (argument: Option<String>)
    ensures
        is_argument(argument, texts(tokens@)),
{
    if tokens.len() > 1 {
        Some(tokens[1].clone())
    } else {
        None
    }
}

/// Parses a command line. A first token that names no command is an
/// error.
pub fn parse_command(line: &str) -> (parsed: Result<Command, Error>)
    ensures
        denotes(parsed, words(line@)),
{
    let tokens = split_words(line);
    assert(texts(tokens@).len() == tokens@.len());
    if tokens.len() == 0 {
        return Ok(Command::Empty);
    }
    assert(texts(tokens@)[0] == tokens@[0]@);
    let name = tokens[0].as_str();
    if same_text(name, "w") {
        Ok(Command::Write(argument_of(&tokens)))
    } else if same_text(name, "export") {
        Ok(Command::Export(argument_of(&tokens)))
    } else if same_text(name, "q") || same_text(name, "q!") {
        Ok(Command::Quit)
    } else if same_text(name, "help") {
        Ok(Command::Help)
    } else if same_text(name, "lasterror") {
        Ok(Command::LastError)
    } else if same_text(name, "autofix") {
        Ok(Command::Autofix)
    } else {
        Err(Error::UnknownCommand)
    }
}

/// The second of the tokens `tokens`, where there is one.
pub open spec fn argument(tokens: Seq<Seq<char>>) -> Option<Seq<char>> {
    if tokens.len() > 1 {
        Some(tokens[1])
    } else {
        None
    }
}

/// What `w` makes of the session `pre`, with the path `given` where the
/// line has one: the path given becomes the project's path; the project is
/// to be saved to its path; a project without a path reports that.
pub open spec fn save_project_post(
    pre: App,
    given: Option<Seq<char>>,
    post: App,
    effect: Effect,
) -> bool {
    match given {
        Some(p) => {
            &&& post == (App { project_path: post.project_path, status: post.status, ..pre })
            &&& post.project_path matches Some(kept) && kept@ == p
            &&& post.status matches Status::Saving(shown) && shown@ == p
            &&& effect matches Effect::SaveProject { path } && path@ == p
        },
        None => match pre.project_path {
            Some(kept) => {
                &&& post == (App { status: post.status, ..pre })
                &&& post.status matches Status::Saving(shown) && shown@ == kept@
                &&& effect matches Effect::SaveProject { path } && path@ == kept@
            },
            None => {
                &&& post == (App { status: Status::NoProjectFile, ..pre })
                &&& effect is Nothing
            },
        },
    }
}

/// What `export` makes of the session `pre`, with the file name `given`
/// where the line has one.
pub open spec fn export_post(pre: App, given: Option<Seq<char>>, post: App, effect: Effect) -> bool {
    match given {
        Some(f) => {
            &&& post == (App { status: post.status, ..pre })
            &&& post.status matches Status::Exporting(shown) && shown@ == f
            &&& effect matches Effect::Export { filename } && filename@ == f
        },
        None => {
            &&& post == (App { status: Status::ExportNeedsFilename, ..pre })
            &&& effect is Nothing
        },
    }
}

/// What `lasterror` makes of the session `pre`.
pub open spec fn last_error_post(pre: App, post: App, effect: Effect) -> bool {
    match pre.last_error {
        Some(e) => {
            &&& post == (App { status: Status::CopyingLastError, ..pre })
            &&& effect matches Effect::CopyToClipboard { text } && text@ == e@
        },
        None => {
            &&& post == (App { status: Status::NoLastError, ..pre })
            &&& effect is Nothing
        },
    }
}

/// What submitting the command line makes of the session `pre`. In every
/// case the line buffer is empty and the mode is normal afterwards; the
/// rest goes by the first token of the line.
pub open spec fn process_command_post(pre: App, post: App, effect: Effect) -> bool {
    let tokens = words(pre.command_input@);
    let taken = App { command_input: post.command_input, mode: Mode::Normal, ..pre };
    &&& post.command_input@.len() == 0
    &&& if tokens.len() == 0 {
        post == taken && effect is Nothing
    } else if tokens[0] == "w"@ {
        save_project_post(taken, argument(tokens), post, effect)
    } else if tokens[0] == "export"@ {
        export_post(taken, argument(tokens), post, effect)
    } else if tokens[0] == "q"@ || tokens[0] == "q!"@ {
        post == (App { should_quit: true, ..taken }) && effect is Nothing
    } else if tokens[0] == "help"@ {
        post == (App { status: Status::Help, ..taken }) && effect is Nothing
    } else if tokens[0] == "lasterror"@ {
        last_error_post(taken, post, effect)
    } else if tokens[0] == "autofix"@ {
        autofix_transcripts_post(taken, post) && effect is Nothing
    } else {
        &&& post == (App { status: post.status, ..taken })
        &&& post.status matches Status::UnknownCommand(line) && line@ == pre.command_input@
        &&& effect is Nothing
    }
}

impl App {
    /// Saves the project to `new_path`, which then is its path, or to the
    /// path it has: the effect asks for the writing.
    fn save_project(&mut self, new_path: Option<String>) -> (effect: Effect)
        ensures
            save_project_post(
                *old(self),
                match new_path {
                    Some(p) => Some(p@),
                    None => None,
                },
                *final(self),
                effect,
            ),
    {
        let path = match new_path {
            Some(p) => {
                self.project_path = Some(p.clone());
                p
            },
            None => match &self.project_path {
                Some(kept) => kept.clone(),
                None => {
                    self.status = Status::NoProjectFile;
                    return Effect::Nothing;
                },
            },
        };
        self.status = Status::Saving(path.clone());
        Effect::SaveProject { path }
    }

    /// Parses the command line and dispatches the command. What needs the
    /// outside (saving, exporting, the clipboard) comes back as the effect.
    pub fn process_command(&mut self) -> (effect: Effect)
        ensures
            process_command_post(*old(self), *final(self), effect),
    {
        let parsed = parse_command(self.command_input.as_str());
        let mut line = String::new();
        std::mem::swap(&mut self.command_input, &mut line);
        self.mode = Mode::Normal;
        let command = match parsed {
            Ok(command) => command,
            Err(_) => {
                self.status = Status::UnknownCommand(line);
                return Effect::Nothing;
            },
        };
        match command {
            Command::Empty => Effect::Nothing,
            Command::Write(path) => self.save_project(path),
            Command::Export(Some(filename)) => {
                self.status = Status::Exporting(filename.clone());
                Effect::Export { filename }
            },
            Command::Export(None) => {
                self.status = Status::ExportNeedsFilename;
                Effect::Nothing
            },
            Command::Quit => {
                self.should_quit = true;
                Effect::Nothing
            },
            Command::Help => {
                self.status = Status::Help;
                Effect::Nothing
            },
            Command::LastError => match &self.last_error {
                Some(e) => {
                    let text = e.clone();
                    self.status = Status::CopyingLastError;
                    Effect::CopyToClipboard { text }
                },
                None => {
                    self.status = Status::NoLastError;
                    Effect::Nothing
                },
            },
            Command::Autofix => {
                autofix_transcripts(self);
                Effect::Nothing
            },
        }
    }
}

} // verus!
