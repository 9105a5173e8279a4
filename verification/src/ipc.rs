//! The line protocol that clients speak: reading bounded lines, deciding what a line gets, and
//! admitting clients.

use crate::json::{json_member, json_unsigned, opt_json, parsed_json, Json, JsonNum, JsonValue};
use crate::response::{err_response, Response, ResponseModel};
use crate::security::{allows, peer_allows_command, PeerClass};
use crate::text::{decimal, decimal_text, join3, trim_text, trimmed};
use vstd::prelude::*;
use vstd::utf8::{decode_utf8, valid_utf8};

verus! {

/// The longest command line, with its line break.
pub const MAX_IPC_COMMAND_BYTES: usize = 65536;

/// How long a client may stay silent.
pub const IPC_CLIENT_IDLE_TIMEOUT_SECS: u64 = 5;

/// How many clients are served at once.
pub const MAX_IPC_CLIENTS: usize = 64;

/// What a read gave.
#[derive(Debug)]
pub enum IpcLine {
    Eof,
    Empty,
    TooLarge,
    InvalidUtf8,
    Line(String),
}

/// What an `IpcLine` stands for.
pub enum LineModel {
    Eof,
    Empty,
    TooLarge,
    InvalidUtf8,
    Line(Seq<char>),
}

impl View for IpcLine {
    type V = LineModel;

    open spec fn view(&self) -> LineModel {
        match *self {
            IpcLine::Eof => LineModel::Eof,
            IpcLine::Empty => LineModel::Empty,
            IpcLine::TooLarge => LineModel::TooLarge,
            IpcLine::InvalidUtf8 => LineModel::InvalidUtf8,
            IpcLine::Line(text) => LineModel::Line(text@),
        }
    }
}

/// The bytes without the line breaks at their end.
pub open spec fn without_breaks(bytes: Seq<u8>) -> Seq<u8>
    decreases bytes.len(),
{
    if bytes.len() > 0 && (bytes.last() == 10 || bytes.last() == 13) {
        without_breaks(bytes.drop_last())
    } else {
        bytes
    }
}

/// What the bytes of a whole line stand for.
pub open spec fn line_of(bytes: Seq<u8>) -> LineModel {
    let body = without_breaks(bytes);
    if !valid_utf8(body) {
        LineModel::InvalidUtf8
    } else if trimmed(decode_utf8(body)).len() == 0 {
        LineModel::Empty
    } else {
        LineModel::Line(trimmed(decode_utf8(body)))
    }
}

/// The first position from `from` on that holds a line feed, or the length.
pub open spec fn line_end(bytes: Seq<u8>, from: int) -> int
    decreases bytes.len() - from,
{
    if from >= bytes.len() || bytes[from] == 10 {
        from
    } else {
        line_end(bytes, from + 1)
    }
}

/// How many bytes belong to the line: those up to its line feed, or all.
pub open spec fn line_share(available: Seq<u8>) -> int {
    let end = line_end(available, 0);
    if end < available.len() {
        end + 1
    } else {
        end
    }
}

/// What a chunk of bytes does to a line that is being read: the bytes so far, how many bytes of the
/// chunk are used up, and the line once it is known. An empty chunk is the end of the stream.
pub open spec fn line_step(buffer: Seq<u8>, available: Seq<u8>) -> (Seq<u8>, int, Option<LineModel>) {
    let share = line_share(available);
    if available.len() == 0 {
        if buffer.len() == 0 {
            (buffer, 0, Some(LineModel::Eof))
        } else {
            (buffer, 0, Some(line_of(buffer)))
        }
    } else if buffer.len() + share > MAX_IPC_COMMAND_BYTES {
        (buffer, share, Some(LineModel::TooLarge))
    } else {
        let grown = buffer + available.take(share);
        if grown.last() == 10 {
            (grown, share, Some(line_of(grown)))
        } else {
            (grown, share, None)
        }
    }
}

/// Calls `std::str::from_utf8`: the text that the bytes encode, where they are valid UTF-8.
#[verifier::external_body]
fn text_from_utf8(bytes: &Vec<u8>) -> (r: Option<String>)
    ensures
        match r {
            Some(text) => valid_utf8(bytes@) && text@ == decode_utf8(bytes@),
            None => !valid_utf8(bytes@),
        },
{
    match std::str::from_utf8(bytes) {
        Ok(text) => Some(text.to_string()),
        Err(_) => None,
    }
}

fn find_share(available: &[u8]) -> (r: usize)
    ensures
        r == line_share(available@),
        r <= available@.len(),
        available@.len() > 0 ==> r > 0,
{
    let mut i: usize = 0;
    while i < available.len()
        invariant
            i <= available@.len(),
            line_end(available@, 0) == line_end(available@, i as int),
        decreases available@.len() - i,
    {
        if available[i] == 10 {
            return i + 1;
        }
        i = i + 1;
    }
    i
}

/// A line being read.
#[derive(Debug)]
pub struct LineReader {
    pub buffer: Vec<u8>,
}

impl LineReader {
    /// A reader at the start of a line.
    pub fn new() -> (r: LineReader)
        ensures
            r.buffer@.len() == 0,
    {
        LineReader { buffer: Vec::new() }
    }

    fn finish(&self) -> (r: IpcLine)
        ensures
            r@ == line_of(self.buffer@),
    {
        let mut body: Vec<u8> = Vec::new();
        body.extend_from_slice(self.buffer.as_slice());
        proof {
            assert(body@ =~= self.buffer@);
        }
        while body.len() > 0 && (body[body.len() - 1] == 10 || body[body.len() - 1] == 13)
            invariant
                without_breaks(body@) == without_breaks(self.buffer@),
            decreases body@.len(),
        {
            body.pop();
        }
        match text_from_utf8(&body) {
            None => IpcLine::InvalidUtf8,
            Some(text) => {
                let line = trim_text(text.as_str());
                if line.as_str().unicode_len() == 0 {
                    IpcLine::Empty
                } else {
                    IpcLine::Line(line)
                }
            },
        }
    }

    /// Takes a chunk of the stream, empty at its end. Returns how many bytes are used up, and the
    /// line once it is known, after which the reader is at the start of the next line.
    pub fn feed(&mut self, available: &[u8]) -> (r: (usize, Option<IpcLine>))
        requires
            old(self).buffer@.len() <= MAX_IPC_COMMAND_BYTES,
        ensures
            final(self).buffer@.len() <= MAX_IPC_COMMAND_BYTES,
            ({
                let step = line_step(old(self).buffer@, available@);
                &&& r.0 == step.1
                &&& match r.1 {
                    Some(line) => step.2 == Some(line@) && final(self).buffer@.len() == 0,
                    None => step.2 is None && final(self).buffer@ == step.0,
                }
            }),
    {
        if available.len() == 0 {
            if self.buffer.len() == 0 {
                return (0, Some(IpcLine::Eof));
            }
            let line = self.finish();
            self.buffer.clear();
            return (0, Some(line));
        }
        let share: usize = find_share(available);
        if share > MAX_IPC_COMMAND_BYTES - self.buffer.len() {
            self.buffer.clear();
            return (share, Some(IpcLine::TooLarge));
        }
        let ghost before = self.buffer@;
        let mut i: usize = 0;
        while i < share
            invariant
                i <= share <= available@.len(),
                self.buffer@ =~= before + available@.take(i as int),
            decreases share - i,
        {
            self.buffer.push(available[i]);
            i = i + 1;
        }
        proof {
            assert(self.buffer@ == before + available@.take(share as int));
            assert(self.buffer@.len() > 0);
        }
        if self.buffer[self.buffer.len() - 1] == 10 {
            let line = self.finish();
            self.buffer.clear();
            (share, Some(line))
        } else {
            (share, None)
        }
    }
}

/// What the rest of a stream comes to for the line being read, whatever the chunks: the line ends
/// at its line feed or with the stream, and is too large where it is longer than the limit.
pub open spec fn stream_line(buffer: Seq<u8>, rest: Seq<u8>) -> LineModel {
    let share = line_share(rest);
    let whole = buffer + rest.take(share);
    if whole.len() > MAX_IPC_COMMAND_BYTES {
        LineModel::TooLarge
    } else if whole.len() == 0 {
        LineModel::Eof
    } else {
        line_of(whole)
    }
}

proof fn lemma_line_end(bytes: Seq<u8>, from: int)
    requires
        0 <= from <= bytes.len(),
    ensures
        from <= line_end(bytes, from) <= bytes.len(),
        forall|k: int| from <= k < line_end(bytes, from) ==> bytes[k] != 10,
        line_end(bytes, from) < bytes.len() ==> bytes[line_end(bytes, from)] == 10,
    decreases bytes.len() - from,
{
    if from < bytes.len() && bytes[from] != 10 {
        lemma_line_end(bytes, from + 1);
    }
}

proof fn lemma_line_end_is(bytes: Seq<u8>, from: int, end: int)
    requires
        0 <= from <= end <= bytes.len(),
        forall|k: int| from <= k < end ==> bytes[k] != 10,
        end < bytes.len() ==> bytes[end] == 10,
    ensures
        line_end(bytes, from) == end,
    decreases end - from,
{
    if from < end {
        lemma_line_end_is(bytes, from + 1, end);
    }
}

/// How a stream is cut into chunks has no part in what a line comes to: a chunk that leaves the
/// line open leads to the same line from there, and a chunk that decides it decides it that way.
pub proof fn chunks_do_not_matter(buffer: Seq<u8>, chunk: Seq<u8>, rest: Seq<u8>)
    requires
        chunk.len() > 0,
        buffer.len() <= MAX_IPC_COMMAND_BYTES,
        buffer.len() > 0 ==> buffer.last() != 10,
    ensures
        ({
            let step = line_step(buffer, chunk);
            match step.2 {
                Some(line) => line == stream_line(buffer, chunk + rest),
                None => step.1 == chunk.len() && stream_line(step.0, rest) == stream_line(
                    buffer,
                    chunk + rest,
                ),
            }
        }),
{
    let all = chunk + rest;
    let end = line_end(chunk, 0);
    lemma_line_end(chunk, 0);
    lemma_line_end(rest, 0);
    if end < chunk.len() {
        lemma_line_end_is(all, 0, end);
        assert(all.take(end + 1) =~= chunk.take(end + 1));
    } else {
        let tail = line_end(rest, 0);
        lemma_line_end_is(all, 0, chunk.len() + tail);
        assert(chunk.take(end) =~= chunk);
        let share = line_share(rest);
        assert(line_share(all) == chunk.len() + share);
        assert(all.take(chunk.len() + share) =~= chunk + rest.take(share));
        assert(buffer + all.take(chunk.len() + share) =~= (buffer + chunk) + rest.take(share));
        assert((buffer + chunk).last() == chunk.last());
    }
}

/// What a client session does next.
#[derive(Debug)]
pub enum SessionStep {
    /// Read on.
    Skip,
    /// Close the connection.
    Close,
    /// Answer, and close the connection if told to.
    Reply { response: Response, close: bool },
    /// Carry out a command.
    Execute(String),
}

/// What a `SessionStep` stands for.
pub enum SessionAct {
    Skip,
    Close,
    Reply { response: ResponseModel, close: bool },
    Execute(Seq<char>),
}

impl View for SessionStep {
    type V = SessionAct;

    open spec fn view(&self) -> SessionAct {
        match *self {
            SessionStep::Skip => SessionAct::Skip,
            SessionStep::Close => SessionAct::Close,
            SessionStep::Reply { response, close } => SessionAct::Reply { response: response@, close },
            SessionStep::Execute(text) => SessionAct::Execute(text@),
        }
    }
}

/// What a line gets: the end of the stream closes the session, an empty line is skipped, and a line
/// that is too large is answered and closes the session, since the rest of it cannot be told from
/// commands.
pub open spec fn session_act(line: LineModel) -> SessionAct {
    match line {
        LineModel::Eof => SessionAct::Close,
        LineModel::Empty => SessionAct::Skip,
        LineModel::TooLarge => SessionAct::Reply {
            response: err_response("Request too large"@),
            close: true,
        },
        LineModel::InvalidUtf8 => SessionAct::Reply {
            response: err_response("Invalid UTF-8 in command"@),
            close: false,
        },
        LineModel::Line(text) => SessionAct::Execute(text),
    }
}

/// What a line gets.
pub fn session_step(line: IpcLine) -> (r: SessionStep)
    ensures
        r@ == session_act(line@),
{
    match line {
        IpcLine::Eof => SessionStep::Close,
        IpcLine::Empty => SessionStep::Skip,
        IpcLine::TooLarge => SessionStep::Reply {
            response: Response::err("Request too large".to_owned()),
            close: true,
        },
        IpcLine::InvalidUtf8 => SessionStep::Reply {
            response: Response::err("Invalid UTF-8 in command".to_owned()),
            close: false,
        },
        IpcLine::Line(text) => SessionStep::Execute(text),
    }
}

/// The generation that a command was based on: the member of that name, where the command is JSON
/// and the member is an unsigned integer.
pub open spec fn base_generation_in(command: Option<Json>) -> Option<u64> {
    match command {
        Some(value) => match json_member(value, "base_generation"@) {
            Some(member) => json_unsigned(member),
            None => None,
        },
        None => None,
    }
}

/// The generation that a decoded command was based on.
pub fn base_generation_of_value(command: &Option<JsonValue>) -> (r: Option<u64>)
    ensures
        r == base_generation_in(opt_json(*command)),
{
    match command {
        Some(value) => match value.member("base_generation") {
            Some(member) => member.as_unsigned(),
            None => None,
        },
        None => None,
    }
}

/// The generation that a command line was based on.
pub fn base_generation(line: &str) -> (r: Option<u64>)
    ensures
        r == base_generation_in(parsed_json(line@)),
{
    let value = JsonValue::parse(line);
    base_generation_of_value(&value)
}

/// The answer to a command that the peer may not invoke.
pub open spec fn not_permitted_text(command: Seq<char>) -> Seq<char> {
    "Command '"@ + command + "' not permitted for this peer"@
}

/// The refusal of a command that the peer may not invoke.
pub fn refuse_command(class: PeerClass, command: &str) -> (r: Option<Response>)
    ensures
        match r {
            None => allows(class, command@),
            Some(response) => !allows(class, command@) && response@ == err_response(
                not_permitted_text(command@),
            ),
        },
{
    if peer_allows_command(class, command) {
        None
    } else {
        Some(Response::err(join3("Command '", command, "' not permitted for this peer")))
    }
}

/// The complaint about an intent that was based on an outdated state.
pub open spec fn conflict_text(lead: Seq<char>, base: u64, current: u64, advice: Seq<char>) -> Seq<char> {
    lead + decimal(base as nat) + ", current generation is "@ + decimal(current as nat) + advice
}

/// The refusal of an intent that was based on an outdated state, in the words of its kind.
pub fn refuse_outdated(lead: &str, base_generation: Option<u64>, current: u64, advice: &str) -> (r: Option<
    Response,
>)
    ensures
        match base_generation {
            Some(base) => if base != current {
                r is Some && r->0@ == err_response(conflict_text(lead@, base, current, advice@))
            } else {
                r is None
            },
            None => r is None,
        },
{
    match base_generation {
        Some(base) => {
            if base == current {
                return None;
            }
            let based = decimal_text(base);
            let now = decimal_text(current);
            let head = join3(lead, based.as_str(), ", current generation is ");
            Some(Response::err(join3(head.as_str(), now.as_str(), advice)))
        },
        None => None,
    }
}

/// The number of clients after another one is admitted, where there is room for it.
pub fn try_acquire_client_slot(active: usize) -> (r: Option<usize>)
    ensures
        r == if active >= MAX_IPC_CLIENTS {
            None::<usize>
        } else {
            Some((active + 1) as usize)
        },
{
    if active >= MAX_IPC_CLIENTS {
        None
    } else {
        Some(active + 1)
    }
}

/// A line is executed as it was sent, without white space around it. A line that is too long ends the
/// session after an answer, one that is no text is answered, an empty one is passed over, and the end
/// of the stream ends the session without an answer.
pub proof fn sessions_execute_what_was_sent(line: LineModel)
    ensures
        session_act(line) is Execute <==> line is Line,
        line matches LineModel::Line(text) ==> session_act(line) == SessionAct::Execute(text),
        session_act(line) is Close <==> line is Eof,
        session_act(line) is Skip <==> line is Empty,
        line is TooLarge ==> (session_act(line) matches SessionAct::Reply { response, close } && close
            && !response.success && response.error == Some("Request too large"@)),
        line is InvalidUtf8 ==> (session_act(line) matches SessionAct::Reply { response, close } && !close
            && !response.success && response.error == Some("Invalid UTF-8 in command"@)),
{
}

/// A complete line within the limit is what its bytes say, whatever ends it: the text before the line
/// break, without white space around it.
pub proof fn lines_are_what_their_bytes_say(body: Seq<u8>)
    requires
        body.len() < 65_536,
        forall|i: int| 0 <= i < body.len() ==> body[i] != 10,
        body.len() > 0 ==> body.last() != 13,
    ensures
        ({
            let step = line_step(Seq::empty(), body.push(10));
            &&& step.1 == body.len() + 1
            &&& step.2 is Some
            &&& !valid_utf8(body) ==> step.2->0 is InvalidUtf8
            &&& valid_utf8(body) && trimmed(decode_utf8(body)).len() == 0 ==> step.2->0 is Empty
            &&& valid_utf8(body) && trimmed(decode_utf8(body)).len() > 0 ==> step.2->0
                == LineModel::Line(trimmed(decode_utf8(body)))
        }),
{
    let sent = body.push(10);
    lemma_line_end_at(sent, 0, body.len() as int);
    assert(Seq::<u8>::empty() + sent.take(sent.len() as int) =~= sent);
    assert(sent.drop_last() =~= body);
    reveal_with_fuel(without_breaks, 2);
}

proof fn lemma_line_end_at(bytes: Seq<u8>, from: int, end: int)
    requires
        0 <= from <= end < bytes.len(),
        bytes[end] == 10,
        forall|i: int| from <= i < end ==> bytes[i] != 10,
    ensures
        line_end(bytes, from) == end,
    decreases end - from,
{
    if from < end {
        lemma_line_end_at(bytes, from + 1, end);
    }
}

/// A line longer than the limit is never executed.
pub proof fn oversized_lines_are_refused(buffer: Seq<u8>, available: Seq<u8>)
    requires
        available.len() > 0,
        buffer.len() + line_share(available) > 65_536,
    ensures
        line_step(buffer, available).2 == Some(LineModel::TooLarge),
{
}

/// The generation that a command is based on is the unsigned number under that name, and none where it
/// is missing or something else.
pub proof fn generations_are_read_from_their_member(command: Json)
    ensures
        json_member(command, "base_generation"@) matches Some(Json::Number(JsonNum::Unsigned(n)))
            ==> base_generation_in(Some(command)) == Some(n),
        json_member(command, "base_generation"@) is None ==> base_generation_in(Some(command)) is None,
        json_member(command, "base_generation"@) matches Some(Json::Text(_)) ==> base_generation_in(
            Some(command),
        ) is None,
        base_generation_in(None) is None,
{
}

/// A command is refused exactly where its peer may not give it, and the refusal names the command.
pub proof fn forbidden_commands_are_named(class: PeerClass, command: &str, refusal: Option<Response>)
    requires
        call_ensures(refuse_command, (class, command), refusal),
    ensures
        class == PeerClass::Owner ==> refusal is None,
        refusal is Some <==> !allows(class, command@),
        refusal matches Some(response) ==> !response@.success && response@.error == Some(
            "Command '"@ + command@ + "' not permitted for this peer"@,
        ),
{
}

/// What is based on an older generation is refused, and names both generations.
pub proof fn outdated_requests_name_both_generations(
    lead: &str,
    base: Option<u64>,
    current: u64,
    advice: &str,
    refusal: Option<Response>,
)
    requires
        call_ensures(refuse_outdated, (lead, base, current, advice), refusal),
    ensures
        refusal is Some <==> base is Some && base->0 != current,
        refusal matches Some(response) ==> !response@.success && response@.error == Some(
            lead@ + decimal(base->0 as nat) + ", current generation is "@ + decimal(current as nat)
                + advice@,
        ),
{
}

/// At most 64 clients are served at a time, and each takes one slot.
pub proof fn clients_take_one_slot_each(active: usize, slot: Option<usize>)
    requires
        call_ensures(try_acquire_client_slot, (active,), slot),
    ensures
        slot is Some <==> active < 64,
        slot matches Some(now) ==> now == active + 1,
{
}

} // verus!
