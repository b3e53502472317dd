//! The environment of one command run, as the host hands it to `open`.

use vstd::prelude::*;
use crate::abi::{
    check_version, spec_version_compatible, spec_version_major, spec_version_minor,
    SUDO_API_VERSION_MAJOR,
};
use crate::options::{OptionMap, spec_parse, views, bytes_eq};

verus! {

/// The streams of a command that a plugin can be shown.
#[derive(Clone, Copy, Debug, PartialEq, Eq, Structural)]
pub enum Stream {
    /// What the user types at the terminal.
    TtyIn,
    /// What the command writes to the terminal.
    TtyOut,
    /// The command's standard input, where it is no terminal.
    Stdin,
    /// The command's standard output, where it is no terminal.
    Stdout,
    /// The command's standard error, where it is no terminal.
    Stderr,
}

/// How a host can break the rules of the interface when it opens a
/// plugin.
#[derive(Clone, Copy, Debug, PartialEq, Eq, Structural)]
pub enum HostViolation {
    /// The host speaks a version of the interface that this library does
    /// not.
    UnsupportedVersion,
    /// The argument count that the host gave is not the number of
    /// arguments that it passed.
    ArgumentCountMismatch,
}

/// The key under which the command information tells whether the policy
/// asked for a stream to be logged: `iolog_ttyin`, `iolog_ttyout`,
/// `iolog_stdin`, `iolog_stdout` or `iolog_stderr`.
pub open spec fn spec_hint_key(stream: Stream) -> Seq<u8> {
    match stream {
        Stream::TtyIn => seq![105u8, 111u8, 108u8, 111u8, 103u8, 95u8, 116u8, 116u8, 121u8, 105u8, 110u8],
        Stream::TtyOut => seq![
            105u8, 111u8, 108u8, 111u8, 103u8, 95u8, 116u8, 116u8, 121u8, 111u8, 117u8, 116u8,
        ],
        Stream::Stdin => seq![105u8, 111u8, 108u8, 111u8, 103u8, 95u8, 115u8, 116u8, 100u8, 105u8, 110u8],
        Stream::Stdout => seq![
            105u8, 111u8, 108u8, 111u8, 103u8, 95u8, 115u8, 116u8, 100u8, 111u8, 117u8, 116u8,
        ],
        Stream::Stderr => seq![
            105u8, 111u8, 108u8, 111u8, 103u8, 95u8, 115u8, 116u8, 100u8, 101u8, 114u8, 114u8,
        ],
    }
}

/// The value `true` of a hint.
pub open spec fn spec_true() -> Seq<u8> {
    seq![116u8, 114u8, 117u8, 101u8]
}

/// Whether the command information asks for a stream to be logged: it
/// binds the stream's key to `true`.
pub open spec fn spec_hint(command_info: Map<Seq<u8>, Seq<u8>>, stream: Stream) -> bool {
    command_info.dom().contains(spec_hint_key(stream)) && command_info[spec_hint_key(stream)]
        == spec_true()
}

/// What is wrong with the way the host opens a plugin, if anything: its
/// version is checked first, then its argument count.
pub open spec fn spec_check_host(version: u32, argc: i32, argv: Seq<Vec<u8>>) -> Option<
    HostViolation,
> {
    if !spec_version_compatible(spec_version_major(version), spec_version_minor(version)) {
        Some(HostViolation::UnsupportedVersion)
    } else if argc as int != argv.len() {
        Some(HostViolation::ArgumentCountMismatch)
    } else {
        None
    }
}

/// A host whose major version is not this library's is refused for its
/// version, whatever else it hands over.
pub proof fn other_major_is_refused(version: u32, argc: i32, argv: Seq<Vec<u8>>)
    requires
        spec_version_major(version) != SUDO_API_VERSION_MAJOR,
    ensures
        spec_check_host(version, argc, argv) == Some(HostViolation::UnsupportedVersion),
{
}

/// The key of a stream's hint.
pub fn hint_key(stream: Stream) -> (key: Vec<u8>)
    ensures
        key@ == spec_hint_key(stream),
{
    let key = match stream {
        Stream::TtyIn => vec![105u8, 111u8, 108u8, 111u8, 103u8, 95u8, 116u8, 116u8, 121u8, 105u8, 110u8],
        Stream::TtyOut => vec![
            105u8, 111u8, 108u8, 111u8, 103u8, 95u8, 116u8, 116u8, 121u8, 111u8, 117u8, 116u8,
        ],
        Stream::Stdin => vec![105u8, 111u8, 108u8, 111u8, 103u8, 95u8, 115u8, 116u8, 100u8, 105u8, 110u8],
        Stream::Stdout => vec![
            105u8, 111u8, 108u8, 111u8, 103u8, 95u8, 115u8, 116u8, 100u8, 111u8, 117u8, 116u8,
        ],
        Stream::Stderr => vec![
            105u8, 111u8, 108u8, 111u8, 103u8, 95u8, 115u8, 116u8, 100u8, 101u8, 114u8, 114u8,
        ],
    };
    assert(key@ =~= spec_hint_key(stream));
    key
}

/// Reads a stream's hint from the command information.
pub fn hint_in(command_info: &OptionMap, stream: Stream) -> (asked: bool)
    requires
        command_info.wf(),
    ensures
        asked == spec_hint(command_info@, stream),
{
    let key = hint_key(stream);
    match command_info.get(key.as_slice()) {
        Some(value) => {
            let yes: Vec<u8> = vec![116u8, 114u8, 117u8, 101u8];
            assert(yes@ =~= spec_true());
            bytes_eq(value.as_slice(), yes.as_slice())
        },
        None => false,
    }
}

/// The environment of one command run: the version the host speaks, the
/// four lookup tables, the command's arguments and the user's
/// environment.
#[derive(Debug)]
pub struct IoEnv {
    pub version: u32,
    pub settings: OptionMap,
    pub user_info: OptionMap,
    pub command_info: OptionMap,
    pub plugin_options: OptionMap,
    pub argv: Vec<Vec<u8>>,
    pub user_env: Vec<Vec<u8>>,
}

impl IoEnv {
    /// The tables are well formed and the host's version is one this
    /// library speaks.
    pub open spec fn wf(&self) -> bool {
        &&& self.settings.wf()
        &&& self.user_info.wf()
        &&& self.command_info.wf()
        &&& self.plugin_options.wf()
        &&& spec_version_compatible(
            spec_version_major(self.version),
            spec_version_minor(self.version),
        )
    }

    /// The environment holds what the host handed over: the tables are
    /// those that the four string arrays stand for, the arguments and the
    /// user's environment are the host's.
    pub open spec fn holds(
        &self,
        version: u32,
        settings: Seq<Vec<u8>>,
        user_info: Seq<Vec<u8>>,
        command_info: Seq<Vec<u8>>,
        argv: Vec<Vec<u8>>,
        user_env: Vec<Vec<u8>>,
        plugin_options: Seq<Vec<u8>>,
    ) -> bool {
        &&& self.version == version
        &&& self.settings@ == spec_parse(views(settings))
        &&& self.user_info@ == spec_parse(views(user_info))
        &&& self.command_info@ == spec_parse(views(command_info))
        &&& self.plugin_options@ == spec_parse(views(plugin_options))
        &&& self.argv == argv
        &&& self.user_env == user_env
    }

    /// Builds the environment from what the host hands to `open`. The
    /// host's version must be one this library speaks, and `argc` must be
    /// the number of arguments in `argv`; otherwise the violation is
    /// returned, the version's first.
    pub fn new(
        version: u32,
        settings: &Vec<Vec<u8>>,
        user_info: &Vec<Vec<u8>>,
        command_info: &Vec<Vec<u8>>,
        argc: i32,
        argv: Vec<Vec<u8>>,
        user_env: Vec<Vec<u8>>,
        plugin_options: &Vec<Vec<u8>>,
    ) -> (made: Result<IoEnv, HostViolation>)
        ensures
            match made {
                Ok(env) => spec_check_host(version, argc, argv@) is None && env.wf() && env.holds(
                    version,
                    settings@,
                    user_info@,
                    command_info@,
                    argv,
                    user_env,
                    plugin_options@,
                ),
                Err(violation) => spec_check_host(version, argc, argv@) == Some(violation),
            },
    {
        if !check_version(version) {
            return Err(HostViolation::UnsupportedVersion);
        }
        if argc < 0 || argc as usize != argv.len() {
            return Err(HostViolation::ArgumentCountMismatch);
        }
        Ok(
            IoEnv {
                version,
                settings: OptionMap::parse(settings),
                user_info: OptionMap::parse(user_info),
                command_info: OptionMap::parse(command_info),
                plugin_options: OptionMap::parse(plugin_options),
                argv,
                user_env,
            },
        )
    }

    /// Whether the policy asked for a stream to be logged.
    pub fn hint(&self, stream: Stream) -> (asked: bool)
        requires
            self.wf(),
        ensures
            asked == spec_hint(self.command_info@, stream),
    {
        hint_in(&self.command_info, stream)
    }
}

} // verus!
