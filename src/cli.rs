use vstd::prelude::*;

use crate::text::text_eq;

verus! {

/// Names of the accepted sub-commands.
#[derive(Debug)]
pub struct SubCommandName;

impl SubCommandName {
    /// Lists all the current session files.
    pub const LIST: &'static str = "list";
    /// Opens a session.
    pub const OPEN: &'static str = "open";
    /// Removes sessions.
    pub const REMOVE: &'static str = "remove";
    /// Changes the preferred editor variant.
    pub const VARIANT: &'static str = "variant";
}

/// Names of the global options, given before the sub-command.
#[derive(Debug)]
pub struct OptionalCommandName;

impl OptionalCommandName {
    /// Raises log verbosity; a boolean flag.
    pub const DEBUG: &'static str = "debug";
}

/// `s` names one of the four sub-commands.
pub open spec fn is_subcommand_name(s: Seq<char>) -> bool {
    s == "list"@ || s == "open"@ || s == "remove"@ || s == "variant"@
}

/// The value and name of a sub-command's argument. No sub-command takes one
/// yet, so both are normally absent.
#[derive(Debug, Clone)]
pub struct Argument {
    /// The value of the argument.
    pub value: Option<String>,
    /// The name of the argument.
    pub name: Option<String>,
}

impl Argument {
    /// The value of the argument.
    pub fn value(&self) -> (r: &Option<String>)
        ensures
            r == &self.value,
    {
        &self.value
    }

    /// The name of the argument.
    pub fn name(&self) -> (r: &Option<String>)
        ensures
            r == &self.name,
    {
        &self.name
    }
}

impl Default for Argument {
    /// An argument with neither name nor value.
    fn default() -> (r: Self)
        ensures
            r.value is None,
            r.name is None,
    {
        Argument { value: None, name: None }
    }
}

/// The sub-command the user asked for, with its argument.
#[derive(Debug)]
pub struct ActiveCommand {
    /// Sub-command name.
    pub command: String,
    /// Argument of the sub-command.
    pub arg: Argument,
}

impl ActiveCommand {
    /// Builds the active command from a sub-command name and its argument.
    pub fn new(command: &str, arg: Argument) -> (r: Self)
        ensures
            r.command@ == command@,
            r.arg == arg,
    {
        ActiveCommand { command: command.to_owned(), arg }
    }

    /// The sub-command name.
    pub fn command(&self) -> (r: &String)
        ensures
            r@ == self.command@,
    {
        &self.command
    }

    /// The argument of the sub-command.
    pub fn arg(&self) -> (r: &Argument)
        ensures
            r == &self.arg,
    {
        &self.arg
    }
}

/// What was asked on the command line: one sub-command and the debug flag.
#[derive(Debug)]
pub struct Cli {
    /// The requested sub-command.
    pub active_command: ActiveCommand,
    /// Whether debug messages are shown.
    pub debug_mode: bool,
}

impl Cli {
    /// Builds the command-line request from the parsed sub-command name and
    /// debug flag; the name is one of the four sub-commands.
    pub fn build_active_command(subcommand: &str, debug_mode: bool) -> (r: Self)
        requires
            is_subcommand_name(subcommand@),
        ensures
            r.active_command.command@ == subcommand@,
            r.active_command.arg.value is None,
            r.active_command.arg.name is None,
            r.debug_mode == debug_mode,
    {
        Cli { active_command: ActiveCommand::new(subcommand, Argument::default()), debug_mode }
    }

    /// The requested sub-command.
    pub fn active_command(&self) -> (r: &ActiveCommand)
        ensures
            r.command@ == self.active_command.command@,
    {
        &self.active_command
    }

    /// Whether debug messages are shown.
    pub fn debug_mode(&self) -> (r: bool)
        ensures
            r == self.debug_mode,
    {
        self.debug_mode
    }

    /// The sub-command is `list`.
    pub fn list(&self) -> (r: bool)
        ensures
            r == (self.active_command.command@ == "list"@),
    {
        text_eq(self.active_command.command.as_str(), SubCommandName::LIST)
    }

    /// The sub-command is `open`.
    pub fn open(&self) -> (r: bool)
        ensures
            r == (self.active_command.command@ == "open"@),
    {
        text_eq(self.active_command.command.as_str(), SubCommandName::OPEN)
    }

    /// The sub-command is `remove`.
    pub fn remove(&self) -> (r: bool)
        ensures
            r == (self.active_command.command@ == "remove"@),
    {
        text_eq(self.active_command.command.as_str(), SubCommandName::REMOVE)
    }

    /// The sub-command is `variant`.
    pub fn variant(&self) -> (r: bool)
        ensures
            r == (self.active_command.command@ == "variant"@),
    {
        text_eq(self.active_command.command.as_str(), SubCommandName::VARIANT)
    }
}

} // verus!
