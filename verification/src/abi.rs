//! Version numbers, type tags and status codes of sudo's plugin interface.

use vstd::prelude::*;
use libc::{c_int, c_uint};

verus! {

/// The major number of the interface version this library speaks.
pub const SUDO_API_VERSION_MAJOR: c_uint = 1;

/// The minor number of the interface version this library speaks.
pub const SUDO_API_VERSION_MINOR: c_uint = 9;

/// The packed interface version: the major number in the upper sixteen
/// bits, the minor number in the lower sixteen.
pub const SUDO_API_VERSION: c_uint = 65545;

/// The type tag that marks a function table as an I/O plugin.
pub const SUDO_IO_PLUGIN: c_uint = 2;

/// Conversation message kind: an error message.
pub const SUDO_CONV_ERROR_MSG: c_int = 3;

/// Conversation message kind: an informational message.
pub const SUDO_CONV_INFO_MSG: c_int = 4;

/// Which entry points a function table fills in. An entry that is not
/// filled in is left empty, so that the host passes over it.
#[derive(Clone, Copy, Debug, PartialEq, Eq, Structural)]
pub struct Capabilities {
    pub open: bool,
    pub close: bool,
    pub show_version: bool,
    pub log_ttyin: bool,
    pub log_ttyout: bool,
    pub log_stdin: bool,
    pub log_stdout: bool,
    pub log_stderr: bool,
    pub register_hooks: bool,
    pub deregister_hooks: bool,
}

/// What the function table of a plugin holds besides its functions' own
/// addresses: the type tag, the interface version, and which entries are
/// filled in, in the order of the table.
#[derive(Clone, Copy, Debug, PartialEq, Eq, Structural)]
pub struct Descriptor {
    pub type_tag: u32,
    pub version: u32,
    pub entries: Capabilities,
}

/// The descriptor of an I/O plugin: every entry point of the life cycle
/// is filled in, the two for hooks only where the plugin has hooks.
pub open spec fn spec_descriptor(hooks: bool) -> Descriptor {
    Descriptor {
        type_tag: SUDO_IO_PLUGIN,
        version: SUDO_API_VERSION,
        entries: Capabilities {
            open: true,
            close: true,
            show_version: true,
            log_ttyin: true,
            log_ttyout: true,
            log_stdin: true,
            log_stdout: true,
            log_stderr: true,
            register_hooks: hooks,
            deregister_hooks: hooks,
        },
    }
}

/// Builds the descriptor of an I/O plugin, with or without hooks.
pub fn descriptor(hooks: bool) -> (made: Descriptor)
    ensures
        made == spec_descriptor(hooks),
{
    Descriptor {
        type_tag: SUDO_IO_PLUGIN,
        version: SUDO_API_VERSION,
        entries: Capabilities {
            open: true,
            close: true,
            show_version: true,
            log_ttyin: true,
            log_ttyout: true,
            log_stdin: true,
            log_stdout: true,
            log_stderr: true,
            register_hooks: hooks,
            deregister_hooks: hooks,
        },
    }
}

/// The major number packed into `version`.
pub open spec fn spec_version_major(version: u32) -> u32 {
    version >> 16
}

/// The minor number packed into `version`.
pub open spec fn spec_version_minor(version: u32) -> u32 {
    version & 0xffff
}

/// The packed version for a major and a minor number.
pub open spec fn spec_pack_version(major: u32, minor: u32) -> u32 {
    (major << 16) | minor
}

/// A host version is compatible when its major number is the one this
/// library speaks and its minor number is no older than this library's.
pub open spec fn spec_version_compatible(host_major: u32, host_minor: u32) -> bool {
    host_major == SUDO_API_VERSION_MAJOR && host_minor >= SUDO_API_VERSION_MINOR
}

/// Extracts the major number of a packed version.
pub fn version_major(version: u32) -> (major: u32)
    ensures
        major == spec_version_major(version),
        major <= 0xffff,
{
    assert(version >> 16 <= 0xffff) by (bit_vector);
    version >> 16
}

/// Extracts the minor number of a packed version.
pub fn version_minor(version: u32) -> (minor: u32)
    ensures
        minor == spec_version_minor(version),
        minor <= 0xffff,
{
    assert(version & 0xffff <= 0xffff) by (bit_vector);
    version & 0xffff
}

/// Packs a major and a minor number, each of at most sixteen bits, into
/// one version.
pub fn pack_version(major: u32, minor: u32) -> (version: u32)
    requires
        major <= 0xffff,
        minor <= 0xffff,
    ensures
        version == spec_pack_version(major, minor),
        spec_version_major(version) == major,
        spec_version_minor(version) == minor,
{
    assert(major <= 0xffff && minor <= 0xffff ==> ((major << 16) | minor) >> 16 == major
        && ((major << 16) | minor) & 0xffff == minor) by (bit_vector);
    (major << 16) | minor
}

/// Decides whether a host that announces `host_major.host_minor` can
/// drive a plugin built on this library.
pub fn version_compatible(host_major: u32, host_minor: u32) -> (ok: bool)
    ensures
        ok == spec_version_compatible(host_major, host_minor),
{
    host_major == SUDO_API_VERSION_MAJOR && host_minor >= SUDO_API_VERSION_MINOR
}

/// Decides whether a host that announces the packed `version` can drive a
/// plugin built on this library.
pub fn check_version(version: u32) -> (ok: bool)
    ensures
        ok == spec_version_compatible(spec_version_major(version), spec_version_minor(version)),
{
    version_compatible(version_major(version), version_minor(version))
}

/// The packed version this library speaks is the pair of its major and
/// minor numbers, and is compatible with itself.
pub proof fn own_version_is_compatible()
    ensures
        SUDO_API_VERSION == spec_pack_version(SUDO_API_VERSION_MAJOR, SUDO_API_VERSION_MINOR),
        spec_version_major(SUDO_API_VERSION) == SUDO_API_VERSION_MAJOR,
        spec_version_minor(SUDO_API_VERSION) == SUDO_API_VERSION_MINOR,
        spec_version_compatible(
            spec_version_major(SUDO_API_VERSION),
            spec_version_minor(SUDO_API_VERSION),
        ),
{
    assert(65545u32 == (1u32 << 16) | 9u32) by (bit_vector);
    assert(65545u32 >> 16 == 1u32) by (bit_vector);
    assert(65545u32 & 0xffff == 9u32) by (bit_vector);
}

/// A host whose major number differs from this library's is never
/// compatible, whatever its minor number.
pub proof fn other_major_is_incompatible(version: u32)
    requires
        spec_version_major(version) != SUDO_API_VERSION_MAJOR,
    ensures
        !spec_version_compatible(spec_version_major(version), spec_version_minor(version)),
{
}

} // verus!
