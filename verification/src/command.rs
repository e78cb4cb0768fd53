//! What the user configured, what resolution found, and the command the host
//! is asked to spawn.

use vstd::prelude::*;
use crate::text::{opt_text, opt_texts, texts};

verus! {

/// The user's settings for the language server's binary.
#[derive(Debug, PartialEq, Eq)]
pub struct CommandSettings {
    /// Where the binary lies, if the user said so.
    pub path: Option<String>,
    /// The arguments to pass in place of none.
    pub arguments: Option<Vec<String>>,
}

pub struct CommandSettingsModel {
    pub path: Option<Seq<char>>,
    pub arguments: Option<Seq<Seq<char>>>,
}

impl View for CommandSettings {
    type V = CommandSettingsModel;

    open spec fn view(&self) -> CommandSettingsModel {
        CommandSettingsModel { path: opt_text(self.path), arguments: opt_texts(self.arguments) }
    }
}

/// A binary that resolution settled on, with the arguments from the settings.
#[derive(Debug, PartialEq, Eq)]
pub struct PackageSwiftBinary {
    pub path: String,
    pub args: Option<Vec<String>>,
}

pub struct BinaryModel {
    pub path: Seq<char>,
    pub args: Option<Seq<Seq<char>>>,
}

impl View for PackageSwiftBinary {
    type V = BinaryModel;

    open spec fn view(&self) -> BinaryModel {
        BinaryModel { path: self.path@, args: opt_texts(self.args) }
    }
}

/// A command for the host to spawn.
#[derive(Debug, PartialEq, Eq)]
pub struct Command {
    pub command: String,
    pub args: Vec<String>,
    pub env: Vec<(String, String)>,
}

pub struct CommandModel {
    pub command: Seq<char>,
    pub args: Seq<Seq<char>>,
    pub env: Seq<(Seq<char>, Seq<char>)>,
}

/// The contents of a list of environment variables.
pub open spec fn env_texts(env: Seq<(String, String)>) -> Seq<(Seq<char>, Seq<char>)> {
    Seq::new(env.len(), |i: int| (env[i].0@, env[i].1@))
}

impl View for Command {
    type V = CommandModel;

    open spec fn view(&self) -> CommandModel {
        CommandModel { command: self.command@, args: texts(self.args@), env: env_texts(self.env@) }
    }
}

/// The command that launches a resolved binary: its path, the configured
/// arguments or none, and an empty environment.
pub open spec fn launch_command(path: Seq<char>, args: Option<Seq<Seq<char>>>) -> CommandModel {
    CommandModel {
        command: path,
        args: match args {
            Some(list) => list,
            None => Seq::empty(),
        },
        env: Seq::empty(),
    }
}

impl PackageSwiftBinary {
    /// The command that launches this binary.
    pub fn into_command(self) -> (command: Command)
        ensures
            command@ == launch_command(self@.path, self@.args),
    {
        let args = match self.args {
            Some(list) => list,
            None => Vec::new(),
        };
        let env: Vec<(String, String)> = Vec::new();
        let command = Command { command: self.path, args, env };
        assert(command@.args =~= launch_command(self@.path, self@.args).args);
        assert(command@.env =~= Seq::empty());
        command
    }
}

} // verus!
