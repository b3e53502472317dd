use sudo_plugin::abi::SUDO_API_VERSION;
use sudo_plugin::env::{hint_in, hint_key, HostViolation, IoEnv, Stream};
use sudo_plugin::options::OptionMap;

fn strings(items: &[&str]) -> Vec<Vec<u8>> {
    items.iter().map(|s| s.as_bytes().to_vec()).collect()
}

fn env_with(command_info: &[&str]) -> IoEnv {
    IoEnv::new(
        SUDO_API_VERSION,
        &strings(&["progname=foo", "runas_user=root"]),
        &strings(&["user=alice"]),
        &strings(command_info),
        2,
        strings(&["ls", "-l"]),
        strings(&["HOME=/home/alice"]),
        &strings(&["mode=strict"]),
    )
    .unwrap()
}

#[test]
fn hint_keys_are_the_iolog_names() {
    assert_eq!(hint_key(Stream::TtyIn), b"iolog_ttyin".to_vec());
    assert_eq!(hint_key(Stream::TtyOut), b"iolog_ttyout".to_vec());
    assert_eq!(hint_key(Stream::Stdin), b"iolog_stdin".to_vec());
    assert_eq!(hint_key(Stream::Stdout), b"iolog_stdout".to_vec());
    assert_eq!(hint_key(Stream::Stderr), b"iolog_stderr".to_vec());
}

#[test]
fn hint_is_set_only_by_true() {
    let table = OptionMap::parse(&strings(&[
        "iolog_ttyin=true",
        "iolog_ttyout=false",
        "iolog_stdin=TRUE",
        "iolog_stdout=",
    ]));
    assert!(hint_in(&table, Stream::TtyIn));
    assert!(!hint_in(&table, Stream::TtyOut));
    assert!(!hint_in(&table, Stream::Stdin));
    assert!(!hint_in(&table, Stream::Stdout));
    assert!(!hint_in(&table, Stream::Stderr));
}

#[test]
fn hint_follows_the_last_entry() {
    let table = OptionMap::parse(&strings(&["iolog_stderr=true", "iolog_stderr=false"]));
    assert!(!hint_in(&table, Stream::Stderr));
    let table = OptionMap::parse(&strings(&["iolog_stderr=false", "iolog_stderr=true"]));
    assert!(hint_in(&table, Stream::Stderr));
}

#[test]
fn env_holds_what_the_host_gave() {
    let env = env_with(&["command=/bin/ls", "iolog_ttyout=true"]);
    assert_eq!(env.version, SUDO_API_VERSION);
    assert_eq!(env.settings.get(b"progname"), Some(&b"foo".to_vec()));
    assert_eq!(env.settings.get(b"runas_user"), Some(&b"root".to_vec()));
    assert_eq!(env.settings.get(b"user_command"), None);
    assert_eq!(env.user_info.get(b"user"), Some(&b"alice".to_vec()));
    assert_eq!(env.command_info.get(b"command"), Some(&b"/bin/ls".to_vec()));
    assert_eq!(env.plugin_options.get(b"mode"), Some(&b"strict".to_vec()));
    assert_eq!(env.argv, strings(&["ls", "-l"]));
    assert_eq!(env.user_env, strings(&["HOME=/home/alice"]));
    assert!(env.hint(Stream::TtyOut));
    assert!(!env.hint(Stream::TtyIn));
}

#[test]
fn env_refuses_another_major_version() {
    let made = IoEnv::new(
        (2 << 16) | 9,
        &Vec::new(),
        &Vec::new(),
        &Vec::new(),
        0,
        Vec::new(),
        Vec::new(),
        &Vec::new(),
    );
    assert_eq!(made.err(), Some(HostViolation::UnsupportedVersion));
}

#[test]
fn env_refuses_an_older_minor_version() {
    let made = IoEnv::new(
        (1 << 16) | 8,
        &Vec::new(),
        &Vec::new(),
        &Vec::new(),
        0,
        Vec::new(),
        Vec::new(),
        &Vec::new(),
    );
    assert_eq!(made.err(), Some(HostViolation::UnsupportedVersion));
}

#[test]
fn env_accepts_a_newer_minor_version() {
    let made = IoEnv::new(
        (1 << 16) | 22,
        &Vec::new(),
        &Vec::new(),
        &Vec::new(),
        0,
        Vec::new(),
        Vec::new(),
        &Vec::new(),
    );
    assert_eq!(made.unwrap().version, (1 << 16) | 22);
}

#[test]
fn env_refuses_a_wrong_argument_count() {
    for argc in [-1, 0, 1, 3, i32::MAX, i32::MIN] {
        let made = IoEnv::new(
            SUDO_API_VERSION,
            &Vec::new(),
            &Vec::new(),
            &Vec::new(),
            argc,
            strings(&["ls", "-l"]),
            Vec::new(),
            &Vec::new(),
        );
        assert_eq!(made.err(), Some(HostViolation::ArgumentCountMismatch));
    }
}

#[test]
fn env_reports_the_version_before_the_count() {
    let made = IoEnv::new(
        7,
        &Vec::new(),
        &Vec::new(),
        &Vec::new(),
        5,
        Vec::new(),
        Vec::new(),
        &Vec::new(),
    );
    assert_eq!(made.err(), Some(HostViolation::UnsupportedVersion));
}
