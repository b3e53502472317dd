//! Prompts shown to the user through the host, and the sinks for a
//! plugin's own output.

use vstd::prelude::*;
use crate::abi::{SUDO_CONV_ERROR_MSG, SUDO_CONV_INFO_MSG};
use crate::outcome::{Report, SUDO_PLUGIN_OK};

verus! {

/// The byte that ends a string handed to the host.
pub const NUL: u8 = 0;

/// The largest number the host's message count and timeout fields hold.
pub const FIELD_MAX: u32 = 0x7fff_ffff;

/// The kinds of message a plugin shows.
#[derive(Clone, Copy, Debug, PartialEq, Eq, Structural)]
pub enum MessageKind {
    /// An error message.
    Error,
    /// An informational message.
    Info,
}

/// One message of a conversation: its kind, how many seconds the host
/// may wait for the user, if that is limited, and its text.
#[derive(Debug)]
pub struct Message {
    pub kind: MessageKind,
    pub timeout: Option<u32>,
    pub text: Vec<u8>,
}

/// A message as the host takes it: the kind's number, the timeout in
/// seconds with 0 for none, and the text ended by a NUL byte.
#[derive(Debug)]
pub struct RawMessage {
    pub msg_type: i32,
    pub timeout: i32,
    pub msg: Vec<u8>,
}

/// Why a conversation could not be held.
#[derive(Clone, Copy, Debug, PartialEq, Eq, Structural)]
pub enum ConvError {
    /// There is no message to show.
    NoMessages,
    /// There are more messages than the host's count field holds.
    TooManyMessages,
    /// A text holds a NUL byte, which would cut it short.
    InteriorNul,
    /// A timeout is longer than the host's field holds.
    TimeoutTooLong,
    /// The host reported that the conversation failed.
    HostFailed,
    /// The host did not answer each message with one reply.
    ReplyCountMismatch,
}

/// The number that tells the host a message's kind.
pub open spec fn spec_msg_type(kind: MessageKind) -> i32 {
    match kind {
        MessageKind::Error => SUDO_CONV_ERROR_MSG,
        MessageKind::Info => SUDO_CONV_INFO_MSG,
    }
}

/// Whether a text holds a NUL byte.
pub open spec fn has_nul(text: Seq<u8>) -> bool {
    exists|i: int| 0 <= i < text.len() && text[i] == NUL
}

/// What stops a message from being handed to the host, if anything: a
/// NUL byte in its text, or else a timeout that is too long.
pub open spec fn spec_message_error(message: Message) -> Option<ConvError> {
    if has_nul(message.text@) {
        Some(ConvError::InteriorNul)
    } else if message.timeout matches Some(t) && t > FIELD_MAX {
        Some(ConvError::TimeoutTooLong)
    } else {
        None
    }
}

/// `raw` is `message` as the host takes it.
pub open spec fn encodes(raw: RawMessage, message: Message) -> bool {
    &&& raw.msg_type == spec_msg_type(message.kind)
    &&& raw.timeout == match message.timeout {
        Some(t) => t as int,
        None => 0,
    }
    &&& raw.msg@ == message.text@.push(NUL)
}

/// `i` is the first message of `messages` that cannot be handed over,
/// and `error` is why.
pub open spec fn first_error_at(messages: Seq<Message>, i: int, error: ConvError) -> bool {
    &&& 0 <= i < messages.len()
    &&& spec_message_error(messages[i]) == Some(error)
    &&& forall|j: int| 0 <= j < i ==> spec_message_error(#[trigger] messages[j]) is None
}

/// The number that tells the host a message's kind.
pub fn msg_type(kind: MessageKind) -> (number: i32)
    ensures
        number == spec_msg_type(kind),
{
    match kind {
        MessageKind::Error => SUDO_CONV_ERROR_MSG,
        MessageKind::Info => SUDO_CONV_INFO_MSG,
    }
}

/// Copies a text and ends it with a NUL byte. A text that holds a NUL
/// byte itself gives `None`.
pub fn c_string(text: &[u8]) -> (ended: Option<Vec<u8>>)
    ensures
        match ended {
            Some(bytes) => !has_nul(text@) && bytes@ == text@.push(NUL),
            None => has_nul(text@),
        },
{
    let mut bytes: Vec<u8> = Vec::new();
    let mut i: usize = 0;
    while i < text.len()
        invariant
            i <= text@.len(),
            bytes@ == text@.take(i as int),
            forall|j: int| 0 <= j < i ==> text@[j] != NUL,
        decreases text@.len() - i,
    {
        if text[i] == NUL {
            return None;
        }
        bytes.push(text[i]);
        assert(bytes@ =~= text@.take(i + 1));
        i += 1;
    }
    assert(text@.take(i as int) =~= text@);
    bytes.push(NUL);
    Some(bytes)
}

/// Puts one message into the form the host takes.
pub fn encode_message(message: &Message) -> (made: Result<RawMessage, ConvError>)
    ensures
        match made {
            Ok(raw) => spec_message_error(*message) is None && encodes(raw, *message),
            Err(error) => spec_message_error(*message) == Some(error),
        },
{
    let msg = match c_string(message.text.as_slice()) {
        Some(bytes) => bytes,
        None => {
            return Err(ConvError::InteriorNul);
        },
    };
    let timeout: i32 = match message.timeout {
        Some(t) => {
            if t > FIELD_MAX {
                return Err(ConvError::TimeoutTooLong);
            }
            t as i32
        },
        None => 0,
    };
    Ok(RawMessage { msg_type: msg_type(message.kind), timeout, msg })
}

/// Puts the messages of one conversation into the form the host takes,
/// in their order. There must be at least one message and no more than
/// the host's count field holds; otherwise the error is that of the
/// first message that cannot be handed over.
pub fn encode_request(messages: &Vec<Message>) -> (made: Result<Vec<RawMessage>, ConvError>)
    ensures
        match made {
            Ok(raws) => {
                &&& 0 < messages@.len() <= FIELD_MAX
                &&& raws@.len() == messages@.len()
                &&& forall|i: int|
                    0 <= i < messages@.len() ==> spec_message_error(#[trigger] messages@[i])
                        is None && encodes(raws@[i], messages@[i])
            },
            Err(error) => if messages@.len() == 0 {
                error == ConvError::NoMessages
            } else if messages@.len() > FIELD_MAX {
                error == ConvError::TooManyMessages
            } else {
                exists|i: int| first_error_at(messages@, i, error)
            },
        },
{
    if messages.len() == 0 {
        return Err(ConvError::NoMessages);
    }
    if messages.len() > 0x7fff_ffff {
        return Err(ConvError::TooManyMessages);
    }
    let mut raws: Vec<RawMessage> = Vec::new();
    let mut i: usize = 0;
    while i < messages.len()
        invariant
            0 < messages@.len() <= FIELD_MAX,
            i <= messages@.len(),
            raws@.len() == i,
            forall|j: int|
                0 <= j < i ==> spec_message_error(#[trigger] messages@[j]) is None && encodes(
                    raws@[j],
                    messages@[j],
                ),
        decreases messages@.len() - i,
    {
        match encode_message(&messages[i]) {
            Ok(raw) => {
                raws.push(raw);
            },
            Err(error) => {
                assert(first_error_at(messages@, i as int, error));
                return Err(error);
            },
        }
        i += 1;
    }
    Ok(raws)
}

/// Takes the host's answer to a conversation of `asked` messages: its
/// return code, which is 0 for success, and the replies it filled in.
/// The replies are handed on when the host succeeded and gave one reply
/// for each message.
pub fn settle_replies(asked: usize, code: i32, replies: Vec<Option<Vec<u8>>>) -> (answer: Result<
    Vec<Option<Vec<u8>>>,
    ConvError,
>)
    ensures
        answer == if code != 0 {
            Err::<Vec<Option<Vec<u8>>>, ConvError>(ConvError::HostFailed)
        } else if replies@.len() != asked {
            Err(ConvError::ReplyCountMismatch)
        } else {
            Ok(replies)
        },
{
    if code != 0 {
        Err(ConvError::HostFailed)
    } else if replies.len() != asked {
        Err(ConvError::ReplyCountMismatch)
    } else {
        Ok(replies)
    }
}

/// Whether the wait for the user's reply is going on or is held up
/// because the command was suspended.
#[derive(Clone, Copy, Debug, PartialEq, Eq, Structural)]
pub enum Wait {
    /// The host is waiting for the user.
    Prompting,
    /// The command was suspended by the signal given; the wait goes on
    /// when it is resumed.
    Suspended { signal: i32 },
}

/// The wait after the host tells that the command was suspended by
/// `signal`: it is held up, and remembers the latest signal.
pub fn on_suspend(_wait: Wait, signal: i32) -> (next: Wait)
    ensures
        next == (Wait::Suspended { signal }),
{
    Wait::Suspended { signal }
}

/// The wait after the host tells that the command was resumed: it goes
/// on.
pub fn on_resume(_wait: Wait) -> (next: Wait)
    ensures
        next == Wait::Prompting,
{
    Wait::Prompting
}

/// The two sinks for a plugin's output.
#[derive(Clone, Copy, Debug, PartialEq, Eq, Structural)]
pub enum Sink {
    /// Ordinary output.
    Info,
    /// Error output.
    Error,
}

/// The message kind under which text for a sink is written.
pub open spec fn spec_sink_kind(sink: Sink) -> MessageKind {
    match sink {
        Sink::Info => MessageKind::Info,
        Sink::Error => MessageKind::Error,
    }
}

/// The sink that a report's text goes to: none without a text, the
/// ordinary sink with the ok code, the error sink otherwise.
pub open spec fn spec_sink_for(report: Report) -> Option<Sink> {
    if report.message is None {
        None
    } else if report.code == SUDO_PLUGIN_OK {
        Some(Sink::Info)
    } else {
        Some(Sink::Error)
    }
}

/// The number that tells the host's write function which sink is meant.
pub fn sink_msg_type(sink: Sink) -> (number: i32)
    ensures
        number == spec_msg_type(spec_sink_kind(sink)),
{
    match sink {
        Sink::Info => SUDO_CONV_INFO_MSG,
        Sink::Error => SUDO_CONV_ERROR_MSG,
    }
}

/// The sink that a report's text goes to.
pub fn sink_for(report: &Report) -> (sink: Option<Sink>)
    ensures
        sink == spec_sink_for(*report),
{
    if report.message.is_none() {
        None
    } else if report.code == SUDO_PLUGIN_OK {
        Some(Sink::Info)
    } else {
        Some(Sink::Error)
    }
}

} // verus!
