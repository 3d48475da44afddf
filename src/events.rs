//! Progress events, their server-sent-event framing, and the broadcast bus that
//! carries them to observers.
use vstd::prelude::*;
use vstd::string::*;
use crate::text::{digit_char, tenths, tenths_text};
use tokio::sync::broadcast;

verus! {

/// The stage of the pipeline that an event reports.
#[derive(Clone, Copy, Debug, PartialEq, Eq, Structural)]
pub enum EventKind {
    Start,
    Downloading,
    Uploading,
    Downloaded,
    Uploaded,
    Extracting,
    Extracted,
    Cleanup,
    Complete,
    Transition,
    Error,
}

/// The wire name of an event kind.
pub open spec fn kind_name(k: EventKind) -> Seq<char> {
    match k {
        EventKind::Start => "start"@,
        EventKind::Downloading => "downloading"@,
        EventKind::Uploading => "uploading"@,
        EventKind::Downloaded => "downloaded"@,
        EventKind::Uploaded => "uploaded"@,
        EventKind::Extracting => "extracting"@,
        EventKind::Extracted => "extracted"@,
        EventKind::Cleanup => "cleanup"@,
        EventKind::Complete => "complete"@,
        EventKind::Transition => "transition"@,
        EventKind::Error => "error"@,
    }
}

impl EventKind {
    /// The wire name of this kind, as it appears in the `event_type` field.
    pub fn name(&self) -> (r: &'static str)
        ensures
            r@ == kind_name(*self),
    {
        match self {
            EventKind::Start => "start",
            EventKind::Downloading => "downloading",
            EventKind::Uploading => "uploading",
            EventKind::Downloaded => "downloaded",
            EventKind::Uploaded => "uploaded",
            EventKind::Extracting => "extracting",
            EventKind::Extracted => "extracted",
            EventKind::Cleanup => "cleanup",
            EventKind::Complete => "complete",
            EventKind::Transition => "transition",
            EventKind::Error => "error",
        }
    }
}

/// The largest progress value: 100.0 percent, counted in tenths.
pub const FULL_PROGRESS: u32 = 1000;

/// One report of pipeline state. `progress` is in tenths of a percent
/// (`325` is 32.5 %), at most `FULL_PROGRESS`.
#[derive(Clone, Debug, PartialEq, Eq)]
pub struct ProgressEvent {
    pub kind: EventKind,
    pub message: String,
    pub progress: Option<u32>,
}

/// A progress value, if present, lies in 0 ..= 100 percent.
pub open spec fn progress_in_range(p: Option<u32>) -> bool {
    match p {
        Some(v) => v <= FULL_PROGRESS,
        None => true,
    }
}

impl ProgressEvent {
    pub open spec fn wf(&self) -> bool {
        progress_in_range(self.progress)
    }

    pub fn new(kind: EventKind, message: &str, progress: Option<u32>) -> (r: Self)
        requires
            progress_in_range(progress),
        ensures
            r.kind == kind,
            r.message@ == message@,
            r.progress == progress,
            r.wf(),
    {
        ProgressEvent { kind, message: message.to_owned(), progress }
    }

    /// The event as one server-sent-event frame: `data: <json>` and a blank line.
    pub fn to_sse_format(&self) -> (r: String)
        ensures
            r@ == sse_frame_text(self.kind, json_string_text(self.message@), self.progress),
    {
        let m = json_string(self.message.as_str());
        sse_frame(self.kind, m.as_str(), self.progress)
    }
}

/// A lowercase hexadecimal digit.
pub open spec fn hex_digit(d: nat) -> char {
    if d < 10 {
        digit_char(d)
    } else if d == 10 {
        'a'
    } else if d == 11 {
        'b'
    } else if d == 12 {
        'c'
    } else if d == 13 {
        'd'
    } else if d == 14 {
        'e'
    } else {
        'f'
    }
}

/// How one character is written inside a JSON string: quote and backslash
/// escaped, the usual short escapes for backspace, tab, line feed, form feed
/// and carriage return, `\u00XX` for the other control characters below
/// U+0020, and every other character as it is.
pub open spec fn json_char(c: char) -> Seq<char> {
    let n = c as u32;
    if c == '"' {
        seq!['\\', '"']
    } else if c == '\\' {
        seq!['\\', '\\']
    } else if n == 8 {
        seq!['\\', 'b']
    } else if n == 9 {
        seq!['\\', 't']
    } else if n == 10 {
        seq!['\\', 'n']
    } else if n == 12 {
        seq!['\\', 'f']
    } else if n == 13 {
        seq!['\\', 'r']
    } else if n < 32 {
        seq!['\\', 'u', '0', '0', hex_digit((n / 16) as nat), hex_digit((n % 16) as nat)]
    } else {
        seq![c]
    }
}

/// The escaped characters of a text, in order.
pub open spec fn json_chars(s: Seq<char>) -> Seq<char>
    decreases s.len(),
{
    if s.len() == 0 {
        Seq::empty()
    } else {
        json_chars(s.drop_last()) + json_char(s.last())
    }
}

/// The JSON text of a string: its characters escaped, between quotes.
pub open spec fn json_string_text(s: Seq<char>) -> Seq<char> {
    seq!['"'] + json_chars(s) + seq!['"']
}

/// Relies on serde_json::to_string applied to a string slice: the characters
/// escaped as its escape table says, between quotes. For a string it cannot
/// fail: the only errors would come from its writer, a `Vec<u8>`.
#[verifier::external_body]
fn json_string(s: &str) -> (r: String)
    ensures
        r@ == json_string_text(s@),
{
    serde_json::to_string(s).unwrap_or_default()
}

/// The JSON text of a progress value: one decimal place, or `null`.
pub open spec fn progress_json(p: Option<u32>) -> Seq<char> {
    match p {
        Some(v) => tenths_text(v as nat),
        None => "null"@,
    }
}

/// The frame for an event whose message is already JSON text.
pub open spec fn sse_frame_text(kind: EventKind, message_json: Seq<char>, p: Option<u32>) -> Seq<char> {
    "data: {\"event_type\":\""@ + kind_name(kind) + "\",\"message\":"@ + message_json
        + ",\"progress\":"@ + progress_json(p) + "}\n\n"@
}

/// Frames an event whose message has already been encoded as JSON text.
pub fn sse_frame(kind: EventKind, message_json: &str, progress: Option<u32>) -> (r: String)
    ensures
        r@ == sse_frame_text(kind, message_json@, progress),
{
    let mut s = "data: {\"event_type\":\"".to_owned();
    s.append(kind.name());
    s.append("\",\"message\":");
    s.append(message_json);
    s.append(",\"progress\":");
    let p = match progress {
        Some(v) => tenths(v as u64),
        None => "null".to_owned(),
    };
    s.append(p.as_str());
    s.append("}\n\n");
    s
}

/// What a subscriber's stream is handed next.
pub enum StreamInput {
    /// The keep-alive interval elapsed.
    KeepAlive,
    /// An event arrived.
    Event(ProgressEvent),
    /// The subscriber fell behind and older events were dropped.
    Lagged,
    /// The bus is gone.
    Closed,
}

/// What a subscriber's stream does with its input.
pub enum StreamOutput {
    Send(String),
    Skip,
    End,
}

/// The comment-only frame that keeps an idle stream open.
pub open spec fn keep_alive_text() -> Seq<char> {
    ":\n\n"@
}

/// Decides what a subscriber's stream writes for one input: a comment for a
/// keep-alive, a frame for an event, nothing when events were dropped, and the
/// end of the stream when the bus is gone.
pub fn stream_step(input: StreamInput) -> (r: StreamOutput)
    ensures
        input is KeepAlive ==> (r matches StreamOutput::Send(t) && t@ == keep_alive_text()),
        input matches StreamInput::Event(e) ==> (r matches StreamOutput::Send(t) && t@
            == sse_frame_text(e.kind, json_string_text(e.message@), e.progress)),
        input is Lagged ==> r is Skip,
        input is Closed ==> r is End,
{
    match input {
        StreamInput::KeepAlive => StreamOutput::Send(":\n\n".to_owned()),
        StreamInput::Event(e) => StreamOutput::Send(e.to_sse_format()),
        StreamInput::Lagged => StreamOutput::Skip,
        StreamInput::Closed => StreamOutput::End,
    }
}

#[verifier::external_type_specification]
#[verifier::external_body]
#[verifier::reject_recursive_types(T)]
pub struct ExBroadcastSender<T>(broadcast::Sender<T>);

#[verifier::external_type_specification]
#[verifier::external_body]
#[verifier::reject_recursive_types(T)]
pub struct ExBroadcastReceiver<T>(broadcast::Receiver<T>);

/// Relies on tokio::sync::broadcast::channel, which panics on a capacity of zero
/// or above `usize::MAX / 2`. The first receiver is dropped at once.
#[verifier::external_body]
fn open_channel(capacity: usize) -> (r: broadcast::Sender<ProgressEvent>)
    requires
        0 < capacity <= usize::MAX / 2,
{
    broadcast::channel(capacity).0
}

/// Relies on tokio::sync::broadcast::Sender::send, which does not block; its
/// result only says whether any receiver was live.
#[verifier::external_body]
fn send_event(sender: &broadcast::Sender<ProgressEvent>, event: ProgressEvent) -> (r: bool) {
    sender.send(event).is_ok()
}

/// Relies on tokio::sync::broadcast::Sender::subscribe: a receiver of the values
/// sent after this call.
#[verifier::external_body]
fn new_receiver(sender: &broadcast::Sender<ProgressEvent>) -> (r: broadcast::Receiver<
    ProgressEvent,
>) {
    sender.subscribe()
}

/// A publish/subscribe channel of progress events. Each subscriber has its own
/// bounded queue; one that falls behind loses its oldest events.
pub struct ProgressBus {
    sender: broadcast::Sender<ProgressEvent>,
}

impl ProgressBus {
    pub fn new(capacity: usize) -> (r: Self)
        requires
            0 < capacity <= usize::MAX / 2,
    {
        ProgressBus { sender: open_channel(capacity) }
    }

    /// Hands an event to every current subscriber. Never blocks and never
    /// fails, whether or not anyone listens; returns whether anyone did.
    pub fn publish(&self, event: ProgressEvent) -> (r: bool) {
        send_event(&self.sender, event)
    }

    /// A receiver of the events published from now on.
    pub fn subscribe(&self) -> (r: broadcast::Receiver<ProgressEvent>) {
        new_receiver(&self.sender)
    }
}

} // verus!
