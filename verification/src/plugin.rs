//! The interface a plugin author implements.

use vstd::prelude::*;
use vstd::string::StringExecFns;
use crate::env::{IoEnv, Stream};
use crate::outcome::PluginError;

verus! {

/// The line that tells a plugin's name and version.
pub open spec fn spec_version_line(name: Seq<char>, version: Seq<char>) -> Seq<char> {
    name + " I/O plugin version "@ + version
}

/// Builds the line that tells a plugin's name and version.
pub fn version_line(name: &str, version: &str) -> (line: String)
    ensures
        line@ == spec_version_line(name@, version@),
{
    String::from_str(name).concat(" I/O plugin version ").concat(version)
}

/// The operations of a sudo I/O plugin. An instance is made by `open`,
/// shown the command's streams by the `log_` methods, and given up to
/// `close`.
pub trait IoPlugin: Sized {
    /// The name of the plugin, used when its version is shown.
    const NAME: &'static str;

    /// The version of the plugin. Defaults to the version of this
    /// library.
    const VERSION: &'static str = "0.1.0";

    /// The host hints, stream by stream, whether the policy asked for
    /// logging, and a stream that was not asked for is not shown to the
    /// plugin. A plugin that sets this to `true` is shown every stream.
    const IGNORE_IOLOG_HINTS: bool = false;

    /// Whether the plugin brings a `show_version` of its own. Where it
    /// brings none, the text is the line of its name and version.
    open spec fn has_own_show_version() -> bool {
        false
    }

    /// Whether the plugin brings a `log_` method of its own for a stream.
    /// Where it brings none, it has no opinion on the stream: the method
    /// answers `Ok` and leaves the instance as it was.
    open spec fn has_own_log(stream: Stream) -> bool {
        false
    }

    /// Returns the text that tells the name and version of the plugin.
    fn show_version(env: &IoEnv, _verbose: bool) -> (text: String)
        requires
            env.wf(),
        ensures
            !Self::has_own_show_version() ==> text@ == spec_version_line(
                Self::NAME@,
                Self::VERSION@,
            ),
    {
        version_line(Self::NAME, Self::VERSION)
    }

    /// Makes the instance for one command run, before any stream is
    /// shown. If this fails the command does not start.
    fn open(env: &IoEnv) -> Result<Self, PluginError>
        requires
            env.wf(),
    ;

    /// Called when the command has finished; the instance is given up.
    fn close(self, _exit_status: i32, _error: i32) {
    }

    /// Shown what the user typed, before the command gets it. Answering
    /// `Unauthorized` ends the command.
    fn log_ttyin(&mut self, _log: &[u8]) -> (answer: Result<(), PluginError>)
        ensures
            !Self::has_own_log(Stream::TtyIn) ==> answer is Ok && *final(self) == *old(self),
    {
        Ok(())
    }

    /// Shown what the command wrote to the terminal, before the user
    /// sees it. Answering `Unauthorized` ends the command.
    fn log_ttyout(&mut self, _log: &[u8]) -> (answer: Result<(), PluginError>)
        ensures
            !Self::has_own_log(Stream::TtyOut) ==> answer is Ok && *final(self) == *old(self),
    {
        Ok(())
    }

    /// Shown the command's standard input where that is no terminal.
    /// Answering `Unauthorized` ends the command.
    fn log_stdin(&mut self, _log: &[u8]) -> (answer: Result<(), PluginError>)
        ensures
            !Self::has_own_log(Stream::Stdin) ==> answer is Ok && *final(self) == *old(self),
    {
        Ok(())
    }

    /// Shown the command's standard output where that is no terminal.
    /// Answering `Unauthorized` ends the command.
    fn log_stdout(&mut self, _log: &[u8]) -> (answer: Result<(), PluginError>)
        ensures
            !Self::has_own_log(Stream::Stdout) ==> answer is Ok && *final(self) == *old(self),
    {
        Ok(())
    }

    /// Shown the command's standard error where that is no terminal.
    /// Answering `Unauthorized` ends the command.
    fn log_stderr(&mut self, _log: &[u8]) -> (answer: Result<(), PluginError>)
        ensures
            !Self::has_own_log(Stream::Stderr) ==> answer is Ok && *final(self) == *old(self),
    {
        Ok(())
    }
}

} // verus!
