use sudo_plugin::abi::{
    check_version, pack_version, version_compatible, version_major, version_minor,
    SUDO_API_VERSION, SUDO_API_VERSION_MAJOR, SUDO_API_VERSION_MINOR, SUDO_CONV_ERROR_MSG,
    SUDO_CONV_INFO_MSG, SUDO_IO_PLUGIN,
};
use sudo_plugin::outcome::{
    fault_code, is_fatal, optional_status_code, outcome_of, report, status_code, Outcome,
    PluginError, SUDO_PLUGIN_ERROR, SUDO_PLUGIN_OK, SUDO_PLUGIN_REJECT, SUDO_PLUGIN_USAGE_ERROR,
};

#[test]
fn constants_have_the_interface_values() {
    assert_eq!(SUDO_API_VERSION_MAJOR, 1);
    assert_eq!(SUDO_API_VERSION_MINOR, 9);
    assert_eq!(SUDO_API_VERSION, (1 << 16) | 9);
    assert_eq!(SUDO_IO_PLUGIN, 2);
    assert_eq!(SUDO_CONV_ERROR_MSG, 3);
    assert_eq!(SUDO_CONV_INFO_MSG, 4);
}

#[test]
fn version_parts_round_trip() {
    assert_eq!(version_major(SUDO_API_VERSION), 1);
    assert_eq!(version_minor(SUDO_API_VERSION), 9);
    assert_eq!(pack_version(1, 9), SUDO_API_VERSION);
    assert_eq!(pack_version(2, 17), 0x0002_0011);
    assert_eq!(version_major(0xffff_0000), 0xffff);
    assert_eq!(version_minor(0x0001_ffff), 0xffff);
    assert_eq!(version_major(0), 0);
    assert_eq!(version_minor(0), 0);
}

#[test]
fn version_needs_same_major_and_no_older_minor() {
    assert!(version_compatible(1, 9));
    assert!(version_compatible(1, 10));
    assert!(version_compatible(1, 0xffff));
    assert!(!version_compatible(1, 8));
    assert!(!version_compatible(1, 0));
    assert!(!version_compatible(2, 9));
    assert!(!version_compatible(0, 9));
    assert!(!version_compatible(2, 20));
}

#[test]
fn check_version_unpacks_and_decides() {
    assert!(check_version(SUDO_API_VERSION));
    assert!(check_version((1 << 16) | 21));
    assert!(!check_version((1 << 16) | 8));
    assert!(!check_version((2 << 16) | 9));
    assert!(!check_version(9));
}

#[test]
fn status_codes_have_the_host_values() {
    assert_eq!(SUDO_PLUGIN_OK, 1);
    assert_eq!(SUDO_PLUGIN_REJECT, 0);
    assert_eq!(SUDO_PLUGIN_ERROR, -1);
    assert_eq!(SUDO_PLUGIN_USAGE_ERROR, -2);
}

#[test]
fn each_outcome_has_its_code() {
    assert_eq!(status_code(&Outcome::Success), 1);
    assert_eq!(status_code(&Outcome::Unauthorized), 0);
    assert_eq!(status_code(&Outcome::Failure("disk full".to_string())), -1);
}

#[test]
fn only_unauthorized_is_fatal() {
    assert!(is_fatal(&Outcome::Unauthorized));
    assert!(!is_fatal(&Outcome::Success));
    assert!(!is_fatal(&Outcome::Failure("x".to_string())));
}

#[test]
fn no_opinion_lets_the_command_go_on() {
    assert_eq!(optional_status_code(None), 1);
    assert_eq!(optional_status_code(Some(&Outcome::Unauthorized)), 0);
    assert_eq!(optional_status_code(Some(&Outcome::Success)), 1);
    assert_eq!(optional_status_code(Some(&Outcome::Failure(String::new()))), -1);
}

#[test]
fn a_fault_becomes_the_reject_code() {
    assert_eq!(fault_code(), 0);
}

#[test]
fn answers_become_outcomes() {
    assert!(matches!(outcome_of(Ok(())), Outcome::Success));
    assert!(matches!(outcome_of(Err(PluginError::Unauthorized)), Outcome::Unauthorized));
    match outcome_of(Err(PluginError::Failure("why".to_string()))) {
        Outcome::Failure(reason) => assert_eq!(reason, "why"),
        _ => panic!("a failure stays a failure"),
    }
}

#[test]
fn report_carries_code_and_reason() {
    let ok = report(Outcome::Success);
    assert_eq!(ok.code, 1);
    assert_eq!(ok.message, None);
    let no = report(Outcome::Unauthorized);
    assert_eq!(no.code, 0);
    assert_eq!(no.message, None);
    let bad = report(Outcome::Failure("disk full".to_string()));
    assert_eq!(bad.code, -1);
    assert_eq!(bad.message, Some("disk full".to_string()));
}
