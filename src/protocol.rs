//! Commands sent to the worker, one JSON object per line on its standard input.

use vstd::prelude::*;
use crate::text::{decimal, digit_char, json_escape, json_escape_all, json_quote, json_string_literal, u64_to_decimal};

verus! {

/// An outbound intent for the worker.
#[derive(Debug)]
pub enum Command {
    Init,
    StartRecording,
    StopAndTranscribe,
    CancelCurrent,
    SetConfig { language_mode: String, popup_timeout_sec: u64 },
    Healthcheck,
    Shutdown,
}

/// The `command` field of each command that carries no payload.
pub open spec fn plain_name(c: Command) -> Seq<char> {
    match c {
        Command::Init => "init"@,
        Command::StartRecording => "start_recording"@,
        Command::StopAndTranscribe => "stop_and_transcribe"@,
        Command::CancelCurrent => "cancel_current"@,
        Command::Healthcheck => "healthcheck"@,
        Command::Shutdown => "shutdown"@,
        Command::SetConfig { .. } => "set_config"@,
    }
}

/// The JSON object that stands for `c`, keys in sorted order, without white space.
pub open spec fn command_json(c: Command) -> Seq<char> {
    match c {
        Command::SetConfig { language_mode, popup_timeout_sec } => "{\"command\":\"set_config\",\"config\":{\"language_mode\":"@
            + json_string_literal(language_mode@) + ",\"popup_timeout_sec\":"@ + decimal(
            popup_timeout_sec as nat,
        ) + "}}"@,
        _ => "{\"command\":\""@ + plain_name(c) + "\"}"@,
    }
}

/// What is written to the worker for `c`: its JSON object and a line feed.
pub open spec fn command_line(c: Command) -> Seq<char> {
    command_json(c).push('\n')
}

/// The bytes that dispatching `cs` in order leaves on the worker's input.
pub open spec fn wire(cs: Seq<Command>) -> Seq<char>
    decreases cs.len(),
{
    if cs.len() == 0 {
        Seq::empty()
    } else {
        command_line(cs[0]) + wire(cs.drop_first())
    }
}

pub open spec fn no_newline(s: Seq<char>) -> bool {
    forall|i: int| 0 <= i < s.len() ==> s[i] != '\n'
}

/// The position of the first line feed of `s`, or its length where there is none.
pub open spec fn newline_index(s: Seq<char>) -> nat
    decreases s.len(),
{
    if s.len() == 0 {
        0
    } else if s[0] == '\n' {
        0
    } else {
        1 + newline_index(s.drop_first())
    }
}

/// The lines of `s`, each without its line feed; a last line without one counts too.
pub open spec fn split_lines(s: Seq<char>) -> Seq<Seq<char>>
    decreases s.len(),
{
    if s.len() == 0 {
        Seq::empty()
    } else {
        let i = newline_index(s);
        if i < s.len() {
            seq![s.take(i as int)] + split_lines(s.skip(i + 1 as int))
        } else {
            seq![s]
        }
    }
}

proof fn lemma_newline_after(t: Seq<char>, rest: Seq<char>)
    requires
        no_newline(t),
    ensures
        newline_index(t.push('\n') + rest) == t.len(),
    decreases t.len(),
{
    let s = t.push('\n') + rest;
    if t.len() > 0 {
        assert(s[0] == t[0]);
        assert(s.drop_first() =~= t.drop_first().push('\n') + rest);
        lemma_newline_after(t.drop_first(), rest);
    } else {
        assert(s[0] == '\n');
    }
}

proof fn lemma_concat_no_newline(a: Seq<char>, b: Seq<char>)
    requires
        no_newline(a),
        no_newline(b),
    ensures
        no_newline(a + b),
{
    assert forall|i: int| 0 <= i < (a + b).len() implies (a + b)[i] != '\n' by {
        if i < a.len() {
            assert((a + b)[i] == a[i]);
        } else {
            assert((a + b)[i] == b[i - a.len()]);
        }
    }
}

proof fn lemma_escape_no_newline(s: Seq<char>)
    ensures
        no_newline(json_escape_all(s)),
    decreases s.len(),
{
    if s.len() > 0 {
        lemma_escape_no_newline(s.drop_last());
        let c = s.last();
        assert(no_newline(json_escape(c)));
        lemma_concat_no_newline(json_escape_all(s.drop_last()), json_escape(c));
    }
}

proof fn lemma_decimal_no_newline(n: nat)
    ensures
        no_newline(decimal(n)),
    decreases n,
{
    if n >= 10 {
        lemma_decimal_no_newline(n / 10);
        assert(digit_char(n % 10) != '\n');
        assert(decimal(n) =~= decimal(n / 10) + seq![digit_char(n % 10)]);
        lemma_concat_no_newline(decimal(n / 10), seq![digit_char(n % 10)]);
    }
}

proof fn lemma_command_json_one_line(c: Command)
    ensures
        no_newline(command_json(c)),
{
    reveal_strlit("{\"command\":\"set_config\",\"config\":{\"language_mode\":");
    reveal_strlit(",\"popup_timeout_sec\":");
    reveal_strlit("}}");
    reveal_strlit("{\"command\":\"");
    reveal_strlit("\"}");
    reveal_strlit("init");
    reveal_strlit("start_recording");
    reveal_strlit("stop_and_transcribe");
    reveal_strlit("cancel_current");
    reveal_strlit("healthcheck");
    reveal_strlit("shutdown");
    reveal_strlit("set_config");
    match c {
        Command::SetConfig { language_mode, popup_timeout_sec } => {
            let q = json_string_literal(language_mode@);
            lemma_escape_no_newline(language_mode@);
            lemma_concat_no_newline(seq!['"'], json_escape_all(language_mode@));
            lemma_concat_no_newline(seq!['"'] + json_escape_all(language_mode@), seq!['"']);
            lemma_decimal_no_newline(popup_timeout_sec as nat);
            let a = "{\"command\":\"set_config\",\"config\":{\"language_mode\":"@;
            let b = ",\"popup_timeout_sec\":"@;
            let d = "}}"@;
            lemma_concat_no_newline(a, q);
            lemma_concat_no_newline(a + q, b);
            lemma_concat_no_newline(a + q + b, decimal(popup_timeout_sec as nat));
            lemma_concat_no_newline(a + q + b + decimal(popup_timeout_sec as nat), d);
        },
        _ => {
            let a = "{\"command\":\""@;
            let d = "\"}"@;
            lemma_concat_no_newline(a, plain_name(c));
            lemma_concat_no_newline(a + plain_name(c), d);
        },
    }
}

/// Dispatching commands one after another puts exactly one line per command on the
/// worker's input, in dispatch order, and each line is that command's JSON object.
pub proof fn lemma_dispatch_order(cs: Seq<Command>)
    ensures
        split_lines(wire(cs)) == cs.map_values(|c: Command| command_json(c)),
    decreases cs.len(),
{
    if cs.len() == 0 {
        assert(cs.map_values(|c: Command| command_json(c)) =~= Seq::<Seq<char>>::empty());
    } else {
        let j = command_json(cs[0]);
        let rest = wire(cs.drop_first());
        lemma_command_json_one_line(cs[0]);
        lemma_newline_after(j, rest);
        let s = j.push('\n') + rest;
        assert(s == wire(cs));
        assert(s.take(j.len() as int) =~= j);
        assert(s.skip(j.len() + 1 as int) =~= rest);
        lemma_dispatch_order(cs.drop_first());
        assert(cs.map_values(|c: Command| command_json(c)) =~= seq![j] + cs.drop_first().map_values(
            |c: Command| command_json(c),
        ));
    }
}

/// The line that dispatches `command`.
pub fn encode_command(command: &Command) -> (r: String)
    ensures
        r@ == command_line(*command),
{
    let mut out = match command {
        Command::SetConfig { language_mode, popup_timeout_sec } => {
            let mut s = String::from_str("{\"command\":\"set_config\",\"config\":{\"language_mode\":");
            s.append(json_quote(language_mode.as_str()).as_str());
            s.append(",\"popup_timeout_sec\":");
            s.append(u64_to_decimal(*popup_timeout_sec).as_str());
            s.append("}}");
            s
        },
        _ => {
            let name = match command {
                Command::Init => "init",
                Command::StartRecording => "start_recording",
                Command::StopAndTranscribe => "stop_and_transcribe",
                Command::CancelCurrent => "cancel_current",
                Command::Healthcheck => "healthcheck",
                Command::Shutdown => "shutdown",
                Command::SetConfig { .. } => "set_config",
            };
            let mut s = String::from_str("{\"command\":\"");
            s.append(name);
            s.append("\"}");
            s
        },
    };
    out.append("\n");
    proof {
        reveal_strlit("\n");
        assert(out@ =~= command_line(*command));
    }
    out
}

} // verus!
