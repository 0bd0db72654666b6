//! What the worker writes: its standard output read as JSON events, one per line,
//! its standard error forwarded to the log, and the end of its output.

use vstd::prelude::*;
use vstd::utf8::{decode_utf8, valid_utf8};
use crate::session::RecordingSession;
use crate::text::{trim, trim_ws};

verus! {

#[verifier::external_type_specification]
#[verifier::external_body]
pub struct ExJsonValue(serde_json::Value);

/// The text of `bytes` with each ill-formed UTF-8 sequence replaced by U+FFFD.
pub uninterp spec fn utf8_lossy(bytes: Seq<u8>) -> Seq<char>;

/// Whether `text` is one JSON document.
pub uninterp spec fn json_parses(text: Seq<char>) -> bool;

/// The member `key` of the JSON document `text`, where that document is an object and
/// the member is a string.
pub uninterp spec fn json_str_member(text: Seq<char>, key: Seq<char>) -> Option<Seq<char>>;

/// Relies on `str::from_utf8`: `Ok` exactly for well-formed UTF-8.
#[verifier::external_body]
fn is_utf8(bytes: &Vec<u8>) -> (r: bool)
    ensures
        r == valid_utf8(bytes@),
{
    std::str::from_utf8(bytes).is_ok()
}

/// Relies on `String::from_utf8_lossy`: well-formed input is decoded as it is.
#[verifier::external_body]
fn decode_lossy(bytes: &Vec<u8>) -> (r: String)
    ensures
        r@ == utf8_lossy(bytes@),
        valid_utf8(bytes@) ==> r@ == decode_utf8(bytes@),
{
    String::from_utf8_lossy(bytes).into_owned()
}

/// A parsed line of the worker's output.
pub struct InboundEvent {
    /// The whole JSON document, handed on unchanged.
    pub payload: serde_json::Value,
    /// Its `event` member, where that is a string.
    pub event: Option<String>,
    /// Its `text` member, where that is a string.
    pub text: Option<String>,
}

pub open spec fn opt_view(o: Option<String>) -> Option<Seq<char>> {
    match o {
        Some(s) => Some(s@),
        None => None,
    }
}

/// Relies on `serde_json::from_str::<Value>` to parse `text`, and on `Value::get` with
/// `Value::as_str` for its string members `event` and `text`.
#[verifier::external_body]
fn parse_event(text: &str) -> (r: Option<InboundEvent>)
    ensures
        r.is_some() == json_parses(text@),
        r matches Some(e) ==> opt_view(e.event) == json_str_member(text@, "event"@) && opt_view(
            e.text,
        ) == json_str_member(text@, "text"@),
{
    let payload: serde_json::Value = serde_json::from_str(text).ok()?;
    let event = payload.get("event").and_then(serde_json::Value::as_str).map(str::to_string);
    let text = payload.get("text").and_then(serde_json::Value::as_str).map(str::to_string);
    Some(InboundEvent { payload, event, text })
}

/// `bytes` without the line feeds and carriage returns at its end.
pub open spec fn strip_line_end(bytes: Seq<u8>) -> Seq<u8>
    decreases bytes.len(),
{
    if bytes.len() > 0 && (bytes.last() == 10u8 || bytes.last() == 13u8) {
        strip_line_end(bytes.drop_last())
    } else {
        bytes
    }
}

/// The text of a line as read, line end removed.
pub open spec fn line_text(raw: Seq<u8>) -> Seq<char> {
    utf8_lossy(strip_line_end(raw))
}

#[derive(Clone, Copy, Debug, PartialEq, Eq, Structural)]
pub enum LineKind {
    Blank,
    Malformed,
    Event,
}

/// How a line of the worker's output is treated.
pub open spec fn line_kind(raw: Seq<u8>) -> LineKind {
    if strip_line_end(raw).len() == 0 {
        LineKind::Blank
    } else if !json_parses(line_text(raw)) {
        LineKind::Malformed
    } else {
        LineKind::Event
    }
}

/// The text to put on the clipboard for the event `text`: the `text` member of a
/// `final_transcript` event.
pub open spec fn clipboard_text(text: Seq<char>) -> Option<Seq<char>> {
    if json_str_member(text, "event"@) == Some("final_transcript"@) {
        json_str_member(text, "text"@)
    } else {
        None
    }
}

/// An event to hand on to the UI, with the side effects it asks for.
pub struct Delivery {
    /// The event as the worker wrote it.
    pub payload: serde_json::Value,
    /// The transcript to copy to the clipboard.
    pub clipboard: Option<String>,
    /// Whether this is the worker's `ready` event.
    pub ready: bool,
}

pub enum LineAction {
    /// An empty line: nothing to do.
    Skip,
    /// Not JSON: to be logged with its text, and otherwise ignored.
    Malformed(String),
    /// An event for the UI.
    Deliver(Delivery),
}

pub open spec fn action_kind(a: LineAction) -> LineKind {
    match a {
        LineAction::Skip => LineKind::Blank,
        LineAction::Malformed(_) => LineKind::Malformed,
        LineAction::Deliver(_) => LineKind::Event,
    }
}

/// What to do with one line of the worker's output.
pub struct StdoutLine {
    /// The line was not well-formed UTF-8 and was decoded with replacements.
    pub lossy: bool,
    pub action: LineAction,
}

/// The reader of the worker's output; open until the output ends.
pub struct StdoutReader {
    open: bool,
}

impl View for StdoutReader {
    type V = bool;

    closed spec fn view(&self) -> bool {
        self.open
    }
}

/// Whether the reader is open after `reads` (`None` for the end of the output).
pub open spec fn reader_open_after(open: bool, reads: Seq<Option<Seq<u8>>>) -> bool
    decreases reads.len(),
{
    if reads.len() == 0 {
        open
    } else {
        match reads.last() {
            Some(_) => reader_open_after(open, reads.drop_last()),
            None => false,
        }
    }
}

/// How many disconnect notices `reads` give.
pub open spec fn disconnect_notices(open: bool, reads: Seq<Option<Seq<u8>>>) -> nat
    decreases reads.len(),
{
    if reads.len() == 0 {
        0
    } else {
        let before = reader_open_after(open, reads.drop_last());
        disconnect_notices(open, reads.drop_last()) + if reads.last() is None && before {
            1nat
        } else {
            0nat
        }
    }
}

/// The texts of the events that `reads` hand on to the UI, in order.
pub open spec fn delivered(open: bool, reads: Seq<Option<Seq<u8>>>) -> Seq<Seq<char>>
    decreases reads.len(),
{
    if reads.len() == 0 {
        Seq::empty()
    } else {
        let prior = delivered(open, reads.drop_last());
        match reads.last() {
            Some(raw) => if reader_open_after(open, reads.drop_last()) && line_kind(raw)
                == LineKind::Event {
                prior.push(line_text(raw))
            } else {
                prior
            },
            None => prior,
        }
    }
}

/// The texts of the lines among `lines` that are JSON, in order.
pub open spec fn json_lines(lines: Seq<Seq<u8>>) -> Seq<Seq<char>>
    decreases lines.len(),
{
    if lines.len() == 0 {
        Seq::empty()
    } else if line_kind(lines.last()) == LineKind::Event {
        json_lines(lines.drop_last()).push(line_text(lines.last()))
    } else {
        json_lines(lines.drop_last())
    }
}

/// Lines never close the reader: a line that is not JSON is passed over, and every
/// JSON line, before or after it, is handed on to the UI, in order.
pub proof fn lemma_lines_keep_reading(lines: Seq<Seq<u8>>)
    ensures
        reader_open_after(true, lines.map_values(|l: Seq<u8>| Some(l))),
        disconnect_notices(true, lines.map_values(|l: Seq<u8>| Some(l))) == 0,
        delivered(true, lines.map_values(|l: Seq<u8>| Some(l))) == json_lines(lines),
    decreases lines.len(),
{
    if lines.len() > 0 {
        let reads = lines.map_values(|l: Seq<u8>| Some(l));
        assert(reads.drop_last() =~= lines.drop_last().map_values(|l: Seq<u8>| Some(l)));
        lemma_lines_keep_reading(lines.drop_last());
    }
}

/// Once the output has ended the reader is closed, and the disconnect is announced
/// exactly once, whatever comes before and however often the end is reported.
pub proof fn lemma_end_announced_once(reads: Seq<Option<Seq<u8>>>)
    requires
        exists|i: int| 0 <= i < reads.len() && reads[i] is None,
    ensures
        !reader_open_after(true, reads),
        disconnect_notices(true, reads) == 1,
    decreases reads.len(),
{
    let prior = reads.drop_last();
    if reads.last() is None {
        if exists|i: int| 0 <= i < prior.len() && prior[i] is None {
            lemma_end_announced_once(prior);
        } else {
            lemma_no_end_stays_open(prior);
        }
    } else {
        let i = choose|i: int| 0 <= i < reads.len() && reads[i] is None;
        assert(prior[i] is None);
        lemma_end_announced_once(prior);
    }
}

proof fn lemma_no_end_stays_open(reads: Seq<Option<Seq<u8>>>)
    requires
        forall|i: int| 0 <= i < reads.len() ==> !(#[trigger] reads[i] is None),
    ensures
        reader_open_after(true, reads),
        disconnect_notices(true, reads) == 0,
    decreases reads.len(),
{
    if reads.len() > 0 {
        let prior = reads.drop_last();
        assert forall|i: int| 0 <= i < prior.len() implies !(#[trigger] prior[i] is None) by {
            assert(prior[i] == reads[i]);
        }
        assert(!(reads[reads.len() - 1] is None));
        lemma_no_end_stays_open(prior);
    }
}

pub open spec fn disconnect_message() -> Seq<char> {
    "ASR sidecar disconnected. It will restart on next action."@
}

/// `raw` without the line feeds and carriage returns at its end.
fn strip_line_end_exec(raw: &Vec<u8>) -> (r: Vec<u8>)
    ensures
        r@ == strip_line_end(raw@),
{
    let mut n: usize = raw.len();
    assert(raw@.take(n as int) =~= raw@);
    while n > 0 && (raw[n - 1] == 10u8 || raw[n - 1] == 13u8)
        invariant
            n <= raw.len(),
            strip_line_end(raw@.take(n as int)) == strip_line_end(raw@),
        decreases n,
    {
        assert(raw@.take(n as int).drop_last() =~= raw@.take(n - 1));
        n = n - 1;
    }
    assert(strip_line_end(raw@.take(n as int)) == raw@.take(n as int));
    let mut out: Vec<u8> = Vec::new();
    let mut i: usize = 0;
    while i < n
        invariant
            n <= raw.len(),
            i <= n,
            out@ == raw@.take(i as int),
        decreases n - i,
    {
        out.push(raw[i]);
        assert(raw@.take(i + 1) =~= raw@.take(i as int).push(raw@[i as int]));
        i = i + 1;
    }
    out
}

impl StdoutReader {
    /// A reader of a worker that has just been started.
    pub fn new() -> (r: Self)
        ensures
            r@ == true,
    {
        StdoutReader { open: true }
    }

    pub fn is_open(&self) -> (r: bool)
        ensures
            r == self@,
    {
        self.open
    }

    /// One line as read, line end included. The reader stays as it was: no line, JSON
    /// or not, ends the reading.
    pub fn on_line(&mut self, raw: &Vec<u8>) -> (r: StdoutLine)
        ensures
            final(self)@ == old(self)@,
            action_kind(r.action) == line_kind(raw@),
            r.lossy == (strip_line_end(raw@).len() > 0 && !valid_utf8(strip_line_end(raw@))),
            r.action matches LineAction::Malformed(t) ==> t@ == line_text(raw@),
            r.action matches LineAction::Deliver(d) ==> opt_view(d.clipboard) == clipboard_text(
                line_text(raw@),
            ) && d.ready == (json_str_member(line_text(raw@), "event"@) == Some("ready"@)),
    {
        let bytes = strip_line_end_exec(raw);
        if bytes.len() == 0 {
            return StdoutLine { lossy: false, action: LineAction::Skip };
        }
        let lossy = !is_utf8(&bytes);
        let text = decode_lossy(&bytes);
        match parse_event(text.as_str()) {
            None => StdoutLine { lossy, action: LineAction::Malformed(text) },
            Some(e) => {
                let final_transcript = String::from_str("final_transcript");
                let ready_name = String::from_str("ready");
                let (is_final, ready) = match &e.event {
                    Some(name) => (*name == final_transcript, *name == ready_name),
                    None => (false, false),
                };
                let clipboard = if is_final {
                    e.text
                } else {
                    None
                };
                StdoutLine {
                    lossy,
                    action: LineAction::Deliver(Delivery { payload: e.payload, clipboard, ready }),
                }
            },
        }
    }

    /// The worker's output ended (or could no longer be read): the reader closes, the
    /// session closes, and the first such report gives the disconnect notice.
    pub fn on_end(&mut self, session: &mut RecordingSession) -> (r: Option<String>)
        ensures
            final(self)@ == false,
            final(session)@ == false,
            r.is_some() == old(self)@,
            r matches Some(m) ==> m@ == disconnect_message(),
    {
        session.reset();
        if self.open {
            self.open = false;
            Some(String::from_str("ASR sidecar disconnected. It will restart on next action."))
        } else {
            None
        }
    }
}

/// The log entry for a line of the worker's error output; blank lines give none.
pub fn stderr_log_entry(raw: &str) -> (r: Option<String>)
    ensures
        r.is_some() == (trim_ws(raw@).len() > 0),
        r matches Some(m) ==> m@ == "sidecar stderr: "@ + raw@,
{
    if trim(raw).unicode_len() == 0 {
        None
    } else {
        let mut m = String::from_str("sidecar stderr: ");
        m.append(raw);
        Some(m)
    }
}

/// The size past which the application log is rotated.
pub const LOG_ROTATE_SIZE_BYTES: u64 = 2 * 1024 * 1024;

/// Whether a log of `len` bytes is moved aside before the next entry.
pub fn log_needs_rotation(len: u64) -> (r: bool)
    ensures
        r == (len > 2 * 1024 * 1024),
{
    len > LOG_ROTATE_SIZE_BYTES
}

} // verus!
