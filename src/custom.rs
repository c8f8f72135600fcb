//! The custom-command panel: a shell command run once or on an interval,
//! whose trimmed output is shown.
use vstd::prelude::*;
use crate::text::{decode_lossy, lossy_utf8, trim_text, trimmed};
use crate::trigger::TriggerOrOnce;

verus! {

/// Why a panel's configuration cannot make a panel.
#[derive(Clone, Copy, Debug, PartialEq, Eq, Structural)]
pub enum ConfigError {
    /// The custom-command panel was given no command.
    MissingCommand,
}

/// Runs a shell command, either once or every `interval_secs` seconds.
#[derive(Debug)]
pub struct Custom {
    pub command_str: String,
    pub interval_secs: Option<u64>,
}

/// The text that the panel shows for a command's standard output.
pub open spec fn output_text(stdout: Seq<u8>) -> Seq<char> {
    trimmed(lossy_utf8(stdout))
}

impl Custom {
    /// The panel for `command`, run every `interval_secs` seconds, or once
    /// when no interval is given. Without a command there is no panel.
    pub fn new(command: Option<String>, interval_secs: Option<u64>) -> (r: Result<
        Custom,
        ConfigError,
    >)
        ensures
            command.is_none() <==> r == Err::<Custom, ConfigError>(ConfigError::MissingCommand),
            r is Ok ==> r->Ok_0.command_str == command.unwrap() && r->Ok_0.interval_secs
                == interval_secs,
    {
        match command {
            Some(command_str) => Ok(Custom { command_str, interval_secs }),
            None => Err(ConfigError::MissingCommand),
        }
    }

    /// The program that runs the command.
    pub fn shell_program() -> (r: String)
        ensures
            r@ == "sh"@,
    {
        String::from_str("sh")
    }

    /// The arguments handed to the shell: `-c` and the command.
    pub fn shell_args(&self) -> (r: Vec<String>)
        ensures
            r@.len() == 2,
            r@[0]@ == "-c"@,
            r@[1] == self.command_str,
    {
        let mut args: Vec<String> = Vec::new();
        args.push(String::from_str("-c"));
        args.push(self.command_str.clone());
        args
    }

    /// The adapter that says when to run the command.
    pub fn trigger(&self) -> (r: TriggerOrOnce)
        ensures
            r.interval_secs == self.interval_secs,
            !r.fired,
    {
        TriggerOrOnce::new(self.interval_secs)
    }

    /// The text shown for the command's standard output: decoded, with
    /// invalid UTF-8 replaced, and trimmed.
    pub fn text_of_output(stdout: &[u8]) -> (r: String)
        ensures
            r@ == output_text(stdout@),
    {
        let decoded = decode_lossy(stdout);
        trim_text(decoded.as_str())
    }
}

} // verus!
