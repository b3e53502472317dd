use sudo_plugin::abi::{descriptor, SUDO_API_VERSION, SUDO_IO_PLUGIN};
use sudo_plugin::conversation::{
    c_string, encode_message, encode_request, msg_type, on_resume, on_suspend, settle_replies,
    sink_for, sink_msg_type, ConvError, Message, MessageKind, Sink, Wait, FIELD_MAX, NUL,
};
use sudo_plugin::hooks::{HookRecord, HookTable};
use sudo_plugin::outcome::Report;

fn message(kind: MessageKind, timeout: Option<u32>, text: &str) -> Message {
    Message { kind, timeout, text: text.as_bytes().to_vec() }
}

#[test]
fn message_kinds_have_the_host_numbers() {
    assert_eq!(msg_type(MessageKind::Error), 3);
    assert_eq!(msg_type(MessageKind::Info), 4);
    assert_eq!(sink_msg_type(Sink::Error), 3);
    assert_eq!(sink_msg_type(Sink::Info), 4);
    assert_eq!(NUL, 0);
    assert_eq!(FIELD_MAX, i32::MAX as u32);
}

#[test]
fn c_string_appends_a_nul() {
    assert_eq!(c_string(b"hello"), Some(b"hello\0".to_vec()));
    assert_eq!(c_string(b""), Some(vec![0]));
}

#[test]
fn c_string_refuses_an_interior_nul() {
    assert_eq!(c_string(b"he\0llo"), None);
    assert_eq!(c_string(b"\0"), None);
    assert_eq!(c_string(b"hello\0"), None);
}

#[test]
fn encode_message_fills_the_host_fields() {
    let raw = encode_message(&message(MessageKind::Error, Some(30), "denied")).unwrap();
    assert_eq!(raw.msg_type, 3);
    assert_eq!(raw.timeout, 30);
    assert_eq!(raw.msg, b"denied\0".to_vec());
    let raw = encode_message(&message(MessageKind::Info, None, "")).unwrap();
    assert_eq!(raw.msg_type, 4);
    assert_eq!(raw.timeout, 0);
    assert_eq!(raw.msg, vec![0]);
    let raw = encode_message(&message(MessageKind::Info, Some(FIELD_MAX), "x")).unwrap();
    assert_eq!(raw.timeout, i32::MAX);
}

#[test]
fn encode_message_reports_what_cannot_be_handed_over() {
    assert_eq!(
        encode_message(&message(MessageKind::Info, None, "a\0b")).err(),
        Some(ConvError::InteriorNul)
    );
    assert_eq!(
        encode_message(&message(MessageKind::Info, Some(FIELD_MAX + 1), "ab")).err(),
        Some(ConvError::TimeoutTooLong)
    );
    assert_eq!(
        encode_message(&message(MessageKind::Info, Some(u32::MAX), "a\0")).err(),
        Some(ConvError::InteriorNul)
    );
}

#[test]
fn encode_request_keeps_the_order() {
    let raws = encode_request(&vec![
        message(MessageKind::Info, None, "first"),
        message(MessageKind::Error, Some(5), "second"),
        message(MessageKind::Info, Some(1), "third"),
    ])
    .unwrap();
    assert_eq!(raws.len(), 3);
    assert_eq!((raws[0].msg_type, raws[0].timeout), (4, 0));
    assert_eq!((raws[1].msg_type, raws[1].timeout), (3, 5));
    assert_eq!((raws[2].msg_type, raws[2].timeout), (4, 1));
    assert_eq!(raws[0].msg, b"first\0".to_vec());
    assert_eq!(raws[1].msg, b"second\0".to_vec());
    assert_eq!(raws[2].msg, b"third\0".to_vec());
}

#[test]
fn encode_request_needs_a_message() {
    assert_eq!(encode_request(&Vec::new()).err(), Some(ConvError::NoMessages));
}

#[test]
fn encode_request_reports_the_first_bad_message() {
    let made = encode_request(&vec![
        message(MessageKind::Info, None, "fine"),
        message(MessageKind::Info, Some(u32::MAX), "slow"),
        message(MessageKind::Info, None, "n\0l"),
    ]);
    assert_eq!(made.err(), Some(ConvError::TimeoutTooLong));
}

#[test]
fn settle_replies_hands_the_replies_on() {
    let replies = vec![Some(b"yes".to_vec()), None];
    assert_eq!(settle_replies(2, 0, replies.clone()), Ok(replies));
    assert_eq!(settle_replies(0, 0, Vec::new()), Ok(Vec::new()));
}

#[test]
fn settle_replies_reports_a_failed_host() {
    assert_eq!(settle_replies(1, -1, vec![None]), Err(ConvError::HostFailed));
    assert_eq!(settle_replies(1, 1, vec![None]), Err(ConvError::HostFailed));
    assert_eq!(settle_replies(2, -1, vec![None]), Err(ConvError::HostFailed));
}

#[test]
fn settle_replies_wants_one_reply_for_each_message() {
    assert_eq!(settle_replies(2, 0, vec![None]), Err(ConvError::ReplyCountMismatch));
    assert_eq!(settle_replies(0, 0, vec![None]), Err(ConvError::ReplyCountMismatch));
}

#[test]
fn a_suspended_wait_goes_on_after_resume() {
    let wait = Wait::Prompting;
    let wait = on_suspend(wait, 20);
    assert_eq!(wait, Wait::Suspended { signal: 20 });
    let wait = on_suspend(wait, 19);
    assert_eq!(wait, Wait::Suspended { signal: 19 });
    let wait = on_resume(wait);
    assert_eq!(wait, Wait::Prompting);
    assert_eq!(on_resume(wait), Wait::Prompting);
}

#[test]
fn report_text_goes_to_its_sink() {
    assert_eq!(sink_for(&Report { code: 1, message: None }), None);
    assert_eq!(sink_for(&Report { code: -1, message: None }), None);
    assert_eq!(sink_for(&Report { code: 1, message: Some("v1".to_string()) }), Some(Sink::Info));
    assert_eq!(sink_for(&Report { code: -1, message: Some("bad".to_string()) }), Some(Sink::Error));
    assert_eq!(sink_for(&Report { code: 0, message: Some("no".to_string()) }), Some(Sink::Error));
    assert_eq!(sink_for(&Report { code: -2, message: Some("no".to_string()) }), Some(Sink::Error));
}

#[test]
fn descriptor_fills_the_life_cycle_entries() {
    let plain = descriptor(false);
    assert_eq!(plain.type_tag, SUDO_IO_PLUGIN);
    assert_eq!(plain.version, SUDO_API_VERSION);
    let e = plain.entries;
    assert!(e.open && e.close && e.show_version);
    assert!(e.log_ttyin && e.log_ttyout && e.log_stdin && e.log_stdout && e.log_stderr);
    assert!(!e.register_hooks && !e.deregister_hooks);
    let hooked = descriptor(true);
    assert!(hooked.entries.register_hooks && hooked.entries.deregister_hooks);
    assert!(hooked.entries.open && hooked.entries.log_stderr);
    assert_eq!(hooked.type_tag, 2);
}

fn hook(n: usize) -> HookRecord {
    HookRecord { version: 1, hook_type: n as u32, handle: 100 + n }
}

#[test]
fn hooks_are_registered_in_order_and_given_back_in_reverse() {
    let mut table = HookTable::new();
    assert!(!table.is_registered());
    assert!(table.add(hook(1)));
    assert!(table.add(hook(2)));
    assert!(table.add(hook(3)));
    assert_eq!(table.register(), vec![hook(1), hook(2), hook(3)]);
    assert!(table.is_registered());
    assert_eq!(table.deregister(), vec![hook(3), hook(2), hook(1)]);
    assert!(!table.is_registered());
}

#[test]
fn hooks_are_not_registered_twice() {
    let mut table = HookTable::new();
    assert!(table.add(hook(7)));
    assert_eq!(table.register(), vec![hook(7)]);
    assert_eq!(table.register(), Vec::new());
    assert!(table.is_registered());
    assert_eq!(table.deregister(), vec![hook(7)]);
    assert_eq!(table.deregister(), Vec::new());
}

#[test]
fn hooks_do_not_change_while_registered() {
    let mut table = HookTable::new();
    assert!(table.add(hook(1)));
    assert_eq!(table.register(), vec![hook(1)]);
    assert!(!table.add(hook(2)));
    assert_eq!(table.deregister(), vec![hook(1)]);
    assert!(table.add(hook(2)));
    assert_eq!(table.register(), vec![hook(1), hook(2)]);
}

#[test]
fn hooks_of_an_empty_table() {
    let mut table = HookTable::new();
    assert_eq!(table.deregister(), Vec::new());
    assert_eq!(table.register(), Vec::new());
    assert!(table.is_registered());
    assert_eq!(table.deregister(), Vec::new());
}
