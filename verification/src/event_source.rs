//! Push notifications over an event-source stream (RFC 8620 §7.3): the
//! splitting of the byte stream into lines, the reading of lines into
//! events, and the decision taken on each event.
use vstd::prelude::*;
use vstd::string::*;

use crate::assoc::{get_named, names_distinct, names_of, position_named};
use crate::jmap_core::transport::TransportError;
use crate::text::{str_eq, to_owned};
use crate::{CalendarAlert, DataType, Error};

verus! {

// ---- Lines ----

/// `p` is the position of the first line feed of `b`.
pub open spec fn first_newline(b: Seq<u8>, p: int) -> bool {
    &&& 0 <= p < b.len()
    &&& b[p] == 10u8
    &&& forall|k: int| 0 <= k < p ==> b[k] != 10u8
}

/// A line without the carriage return that may end it.
pub open spec fn strip_cr(l: Seq<u8>) -> Seq<u8> {
    if l.len() > 0 && l.last() == 13u8 {
        l.drop_last()
    } else {
        l
    }
}

/// Takes the first complete line (up to a line feed, without a carriage
/// return before it) out of the front of a byte buffer; `None`, with the
/// buffer unchanged, where no line is complete yet.
pub fn take_line(buf: &mut Vec<u8>) -> (r: Option<Vec<u8>>)
    ensures
        (exists|p: int| first_newline(old(buf)@, p)) <==> r is Some,
        r is None ==> final(buf)@ == old(buf)@,
        forall|p: int|
            first_newline(old(buf)@, p) ==> (r matches Some(line) && line@ == strip_cr(old(buf)@.subrange(0, p))
                && final(buf)@ == old(buf)@.subrange(p + 1, old(buf)@.len() as int)),
{
    let n = buf.len();
    let mut i: usize = 0;
    while i < n && buf[i] != 10u8
        invariant
            n == buf@.len(),
            i <= n,
            forall|k: int| 0 <= k < i ==> buf@[k] != 10u8,
        decreases n - i,
    {
        i = i + 1;
    }
    if i == n {
        assert forall|p: int| !first_newline(buf@, p) by {
            if 0 <= p < buf@.len() && buf@[p] == 10u8 {
                assert(buf@[p] != 10u8);
            }
        }
        return None;
    }
    let ghost all = buf@;
    assert(first_newline(all, i as int));
    assert forall|p: int| first_newline(all, p) implies p == i by {
        if p < i {
            assert(all[p] != 10u8);
        } else if p > i {
            assert(all[i as int] != 10u8);
        }
    }
    let mut rest = buf.split_off(i + 1);
    assert(buf@ =~= all.subrange(0, i + 1));
    assert(rest@ =~= all.subrange(i + 1, n as int));
    buf.truncate(i);
    assert(buf@ =~= all.subrange(0, i as int));
    if i > 0 && buf[i - 1] == 13u8 {
        buf.truncate(i - 1);
        assert(buf@ =~= all.subrange(0, i as int).drop_last());
    }
    std::mem::swap(buf, &mut rest);
    Some(rest)
}

// ---- Events ----

/// `p` is the position of the first colon of a line.
pub open spec fn first_colon(line: Seq<char>, p: int) -> bool {
    &&& 0 <= p < line.len()
    &&& line[p] == ':'
    &&& forall|k: int| 0 <= k < p ==> line[k] != ':'
}

/// The line has a colon.
pub open spec fn has_colon(line: Seq<char>) -> bool {
    exists|p: int| first_colon(line, p)
}

/// The position of the first colon of a line that has one.
pub open spec fn colon_at(line: Seq<char>) -> int {
    choose|p: int| first_colon(line, p)
}

/// A value without the one space that may start it.
pub open spec fn drop_space(v: Seq<char>) -> Seq<char> {
    if v.len() > 0 && v[0] == ' ' {
        v.drop_first()
    } else {
        v
    }
}

/// The field name of a line: what comes before its first colon, or the
/// whole line.
pub open spec fn field_name(line: Seq<char>) -> Seq<char> {
    if has_colon(line) {
        line.subrange(0, colon_at(line))
    } else {
        line
    }
}

/// The field value of a line: what comes after its first colon, without
/// one leading space; empty where there is no colon.
pub open spec fn field_value(line: Seq<char>) -> Seq<char> {
    if has_colon(line) {
        drop_space(line.subrange(colon_at(line) + 1, line.len() as int))
    } else {
        Seq::empty()
    }
}

/// An event read from the stream: its type name, its id and its data (the
/// data lines joined by line feeds).
#[derive(Debug, Clone)]
pub struct SseEvent {
    pub event: String,
    pub id: String,
    pub data: String,
}

/// The reader of lines into events: the type name and data of the event
/// being read, whether it has data, and the last event id seen.
#[derive(Debug, Clone)]
pub struct SseParser {
    pub event: String,
    pub data: String,
    pub id: String,
    pub has_data: bool,
}

/// The state of a reader: type name, data, last id, whether there is data.
pub type ParserState = (Seq<char>, Seq<char>, Seq<char>, bool);

/// The state of a reader after one more line. An empty line ends the event
/// (the last id stays); a line starting with a colon is a comment; the
/// fields `event`, `data` and `id` set the type name, add a data line and
/// set the id; other fields are ignored.
pub open spec fn next_state(st: ParserState, line: Seq<char>) -> ParserState {
    if line.len() == 0 {
        (Seq::empty(), Seq::empty(), st.2, false)
    } else if line[0] == ':' {
        st
    } else if field_name(line) == "event"@ {
        (field_value(line), st.1, st.2, st.3)
    } else if field_name(line) == "data"@ {
        (st.0, if st.3 { st.1 + "\n"@ + field_value(line) } else { field_value(line) }, st.2, true)
    } else if field_name(line) == "id"@ {
        (st.0, st.1, field_value(line), st.3)
    } else {
        st
    }
}

/// The event that a line completes, where it completes one: an empty line
/// after at least one data line gives the type name, the id and the data.
pub open spec fn dispatched(st: ParserState, line: Seq<char>) -> Option<(Seq<char>, Seq<char>, Seq<char>)> {
    if line.len() == 0 && st.3 {
        Some((st.0, st.2, st.1))
    } else {
        None
    }
}

impl SseParser {
    pub open spec fn state(&self) -> ParserState {
        (self.event@, self.data@, self.id@, self.has_data)
    }

    /// A reader at the start of a stream.
    pub fn new() -> (r: SseParser)
        ensures
            r.state() == (Seq::<char>::empty(), Seq::<char>::empty(), Seq::<char>::empty(), false),
    {
        SseParser { event: String::new(), data: String::new(), id: String::new(), has_data: false }
    }

    /// Reads one line (without its line ending); returns the event that it
    /// completes, if any.
    pub fn feed_line(&mut self, line: &str) -> (r: Option<SseEvent>)
        ensures
            final(self).state() == next_state(old(self).state(), line@),
            match dispatched(old(self).state(), line@) {
                Some(e) => r matches Some(ev) && ev.event@ == e.0 && ev.id@ == e.1 && ev.data@ == e.2,
                None => r is None,
            },
    {
        proof {
            reveal_strlit("event");
            reveal_strlit("data");
            reveal_strlit("id");
            reveal_strlit("\n");
        }
        let n = line.unicode_len();
        if n == 0 {
            let mut event = String::new();
            let mut data = String::new();
            std::mem::swap(&mut event, &mut self.event);
            std::mem::swap(&mut data, &mut self.data);
            let had = self.has_data;
            self.has_data = false;
            if had {
                return Some(SseEvent { event, id: to_owned(self.id.as_str()), data });
            }
            return None;
        }
        if line.get_char(0) == ':' {
            return None;
        }
        let mut i: usize = 0;
        while i < n && line.get_char(i) != ':'
            invariant
                n == line@.len(),
                i <= n,
                forall|k: int| 0 <= k < i ==> line@[k] != ':',
            decreases n - i,
        {
            i = i + 1;
        }
        let name: &str;
        let value: &str;
        if i == n {
            assert(!has_colon(line@)) by {
                if has_colon(line@) {
                    let p = choose|p: int| first_colon(line@, p);
                    assert(line@[p] != ':');
                }
            }
            name = line;
            value = "";
            proof {
                reveal_strlit("");
            }
        } else {
            assert(first_colon(line@, i as int));
            assert(colon_at(line@) == i) by {
                let q = colon_at(line@);
                assert(first_colon(line@, q));
                if q < i {
                    assert(line@[q] != ':');
                } else if q > i {
                    assert(line@[i as int] != ':');
                }
            }
            name = line.substring_char(0, i);
            let v = line.substring_char(i + 1, n);
            if i + 1 < n && line.get_char(i + 1) == ' ' {
                value = line.substring_char(i + 2, n);
                assert(value@ =~= v@.drop_first());
            } else {
                value = v;
            }
        }
        assert(name@ == field_name(line@));
        assert(value@ == field_value(line@));
        if str_eq(name, "event") {
            self.event = to_owned(value);
        } else if str_eq(name, "data") {
            if self.has_data {
                self.data.append("\n");
                self.data.append(value);
            } else {
                self.data = to_owned(value);
            }
            self.has_data = true;
        } else if str_eq(name, "id") {
            self.id = to_owned(value);
        }
        None
    }
}

// ---- Push notifications ----

/// The kinds of events that carry push data.
#[derive(Debug, Clone, Copy, PartialEq, Eq)]
pub enum EventType {
    Ping,
    State,
    CalendarAlert,
}

/// The kind of event that a type name names, where it names one.
pub open spec fn event_kind_of(name: Seq<char>) -> Option<EventType> {
    if name == "state"@ {
        Some(EventType::State)
    } else if name == "ping"@ {
        Some(EventType::Ping)
    } else if name == "calendarAlert"@ {
        Some(EventType::CalendarAlert)
    } else {
        None
    }
}

/// The kind of event that a type name names, where it names one that
/// carries push data: `state` and `ping` (RFC 8620 §7.3), and
/// `calendarAlert` for the alerts of the calendars extension.
pub fn event_type_of(name: &str) -> (r: Option<EventType>)
    ensures
        r == event_kind_of(name@),
        r == if name@ == "state"@ {
            Some(EventType::State)
        } else if name@ == "ping"@ {
            Some(EventType::Ping)
        } else if name@ == "calendarAlert"@ {
            Some(EventType::CalendarAlert)
        } else {
            None::<EventType>
        },
{
    if str_eq(name, "state") {
        Some(EventType::State)
    } else if str_eq(name, "ping") {
        Some(EventType::Ping)
    } else if str_eq(name, "calendarAlert") {
        Some(EventType::CalendarAlert)
    } else {
        None
    }
}

/// The changes of a state event: the event id (none where it was empty)
/// and, by account id, the new state of each data type that changed.
#[derive(Debug, Clone)]
pub struct Changes {
    pub id: Option<String>,
    pub changed: Vec<(String, Vec<(DataType, String)>)>,
}

impl Changes {
    /// Each account occurs once, as in the JSON object it comes from.
    pub open spec fn wf(&self) -> bool {
        names_distinct(self.changed@)
    }

    pub fn new(id: Option<String>, changed: Vec<(String, Vec<(DataType, String)>)>) -> (r: Changes)
        ensures
            r.id == id,
            r.changed == changed,
    {
        Changes { id, changed }
    }

    /// The event id.
    pub fn id(&self) -> (r: Option<&str>)
        ensures
            match self.id {
                Some(s) => r matches Some(t) && t@ == s@,
                None => r is None,
            },
    {
        match &self.id {
            Some(s) => Some(s.as_str()),
            None => None,
        }
    }

    /// The changed data types of an account, with their new states.
    pub fn changes(&self, account_id: &str) -> (r: Option<&Vec<(DataType, String)>>)
        ensures
            names_of(self.changed@).contains(account_id@) ==> r == Some(
                &self.changed@[position_named(self.changed@, account_id@)].1,
            ),
            !names_of(self.changed@).contains(account_id@) ==> r is None,
    {
        get_named(&self.changed, account_id)
    }
}

/// A push notification delivered to the user.
#[derive(Debug, Clone)]
pub enum PushNotification {
    StateChange(Changes),
    CalendarAlert(CalendarAlert),
}

/// What the data of an event reads as: a state change (by account, the
/// changed types and their states), a calendar alert, another push object,
/// or nothing that reads, with the reader's message.
#[derive(Debug, Clone)]
pub enum PushData {
    StateChange(Vec<(String, Vec<(DataType, String)>)>),
    CalendarAlert(CalendarAlert),
    OtherPush,
    Invalid(String),
}

/// What the stream does with an event: hand out a notification, go on to
/// the next event, or hand out an error and end.
#[derive(Debug)]
pub enum StreamAction {
    Emit(PushNotification),
    Skip,
    Stop(Error),
}

/// The action that `sse_step` takes on an event of kind `event` with id
/// `id` and data `data`.
pub open spec fn step_action(event: EventType, id: Seq<char>, data: PushData, a: StreamAction) -> bool {
    &&& event is Ping ==> a is Skip
    &&& event is State ==> match data {
        PushData::StateChange(c) => a matches StreamAction::Emit(PushNotification::StateChange(ch)) && ch.changed
            == c && (id.len() == 0 ==> ch.id is None) && (id.len() > 0 ==> (ch.id matches Some(s) && s@ == id)),
        PushData::Invalid(m) => a matches StreamAction::Stop(Error::Parse(t)) && t == m,
        _ => a is Skip,
    }
    &&& event is CalendarAlert ==> match data {
        PushData::CalendarAlert(alert) => a == StreamAction::Emit(PushNotification::CalendarAlert(alert)),
        PushData::Invalid(m) => a matches StreamAction::Stop(Error::Parse(t)) && t == m,
        _ => a is Skip,
    }
}

/// What an event leads to, by kind alone: a notification, nothing, or the
/// end of the stream with an error.
pub enum Outcome {
    Emit,
    Skip,
    Stop,
}

/// The outcome of an event of kind `event` whose data is `data`.
pub open spec fn outcome(event: EventType, data: PushData) -> Outcome {
    match event {
        EventType::Ping => Outcome::Skip,
        EventType::State => match data {
            PushData::StateChange(_) => Outcome::Emit,
            PushData::Invalid(_) => Outcome::Stop,
            _ => Outcome::Skip,
        },
        EventType::CalendarAlert => match data {
            PushData::CalendarAlert(_) => Outcome::Emit,
            PushData::Invalid(_) => Outcome::Stop,
            _ => Outcome::Skip,
        },
    }
}

/// The decision taken on one event, from its kind, its id and what its
/// data reads as. A state event hands out a state change (with the id,
/// none where it is empty) and skips other push objects; a calendar-alert
/// event hands out the alert; a ping is skipped; data that does not read
/// ends the stream with a parse error.
pub fn sse_step(event: EventType, id: &str, data: PushData) -> (a: StreamAction)
    ensures
        step_action(event, id@, data, a),
{
    match event {
        EventType::Ping => StreamAction::Skip,
        EventType::State => match data {
            PushData::StateChange(changed) => {
                let id = if id.unicode_len() == 0 {
                    None
                } else {
                    Some(to_owned(id))
                };
                StreamAction::Emit(PushNotification::StateChange(Changes::new(id, changed)))
            },
            PushData::Invalid(m) => StreamAction::Stop(Error::Parse(m)),
            _ => StreamAction::Skip,
        },
        EventType::CalendarAlert => match data {
            PushData::CalendarAlert(alert) => StreamAction::Emit(PushNotification::CalendarAlert(alert)),
            PushData::Invalid(m) => StreamAction::Stop(Error::Parse(m)),
            _ => StreamAction::Skip,
        },
    }
}

/// The decision taken when reading the byte stream fails: hand out the
/// transport error and end.
pub fn on_chunk_error(e: TransportError) -> (a: StreamAction)
    ensures
        a == StreamAction::Stop(Error::Transport(e)),
{
    StreamAction::Stop(Error::Transport(e))
}

// ---- The stream ----

/// What the stream is handed next: an event (its kind, its id and what its
/// data reads as), a failure of the byte stream, or the end of the bytes.
pub enum StreamInput {
    Event(EventType, String, PushData),
    ChunkError(TransportError),
    End,
}

/// Whether the stream has ended, and what a step hands out, by kind alone
/// (`Some(true)` a notification, `Some(false)` an error, `None` nothing),
/// for a stream that had ended (`done`) or not.
pub open spec fn step_kind(done: bool, input: StreamInput) -> (bool, Option<bool>) {
    if done {
        (true, None)
    } else {
        match input {
            StreamInput::Event(k, _, d) => match outcome(k, d) {
                Outcome::Emit => (false, Some(true)),
                Outcome::Skip => (false, None),
                Outcome::Stop => (true, Some(false)),
            },
            StreamInput::ChunkError(_) => (true, Some(false)),
            StreamInput::End => (true, None),
        }
    }
}

/// What a sequence of inputs makes the stream hand out, by kind, from a
/// stream that had ended (`done`) or not.
pub open spec fn yields(done: bool, inputs: Seq<StreamInput>) -> Seq<bool>
    decreases inputs.len(),
{
    if inputs.len() == 0 {
        Seq::empty()
    } else {
        let (next, out) = step_kind(done, inputs[0]);
        let rest = yields(next, inputs.drop_first());
        match out {
            Some(b) => seq![b] + rest,
            None => rest,
        }
    }
}

/// The kind of what a step handed out.
pub open spec fn yielded_kind(r: Option<Result<PushNotification, Error>>) -> Option<bool> {
    match r {
        Some(Ok(_)) => Some(true),
        Some(Err(_)) => Some(false),
        None => None,
    }
}

/// The state of a push stream: whether it has ended.
#[derive(Debug)]
pub struct PushStreamState {
    pub done: bool,
}

impl PushStreamState {
    /// A stream that has not ended.
    pub fn new() -> (r: PushStreamState)
        ensures
            !r.done,
    {
        PushStreamState { done: false }
    }

    /// One step of the stream: an event is decided by `sse_step`; a failure
    /// of the byte stream is handed out as a transport error and ends the
    /// stream; the end of the bytes ends it; once ended, nothing more is
    /// handed out.
    pub fn step(&mut self, input: StreamInput) -> (r: Option<Result<PushNotification, Error>>)
        ensures
            final(self).done == step_kind(old(self).done, input).0,
            yielded_kind(r) == step_kind(old(self).done, input).1,
            !old(self).done ==> match input {
                StreamInput::Event(k, id, d) => exists|a: StreamAction| #[trigger] step_action(k, id@, d, a) && match a {
                    StreamAction::Emit(n) => r == Some(Ok::<PushNotification, Error>(n)),
                    StreamAction::Skip => r is None,
                    StreamAction::Stop(e) => r == Some(Err::<PushNotification, Error>(e)),
                },
                StreamInput::ChunkError(e) => r == Some(Err::<PushNotification, Error>(Error::Transport(e))),
                StreamInput::End => r is None,
            },
    {
        if self.done {
            return None;
        }
        match input {
            StreamInput::Event(k, id, d) => {
                let a = sse_step(k, id.as_str(), d);
                assert(step_action(k, id@, d, a));
                match a {
                    StreamAction::Emit(n) => Some(Ok(n)),
                    StreamAction::Skip => None,
                    StreamAction::Stop(e) => {
                        self.done = true;
                        Some(Err(e))
                    },
                }
            },
            StreamInput::ChunkError(e) => {
                self.done = true;
                match on_chunk_error(e) {
                    StreamAction::Stop(err) => Some(Err(err)),
                    _ => None,
                }
            },
            StreamInput::End => {
                self.done = true;
                None
            },
        }
    }
}

/// A stream that has ended hands out nothing more.
pub proof fn lemma_ended_yields_nothing(inputs: Seq<StreamInput>)
    ensures
        yields(true, inputs) == Seq::<bool>::empty(),
    decreases inputs.len(),
{
    if inputs.len() > 0 {
        lemma_ended_yields_nothing(inputs.drop_first());
    }
}

/// Law: whatever the stream is handed, an error is the last thing it hands
/// out: every item before the last is a notification.
pub proof fn law_stream_error_is_last(done: bool, inputs: Seq<StreamInput>)
    ensures
        forall|i: int| 0 <= i < yields(done, inputs).len() - 1 ==> #[trigger] yields(done, inputs)[i],
    decreases inputs.len(),
{
    if inputs.len() > 0 {
        let (next, out) = step_kind(done, inputs[0]);
        let rest = inputs.drop_first();
        law_stream_error_is_last(next, rest);
        if out == Some(false) {
            lemma_ended_yields_nothing(rest);
            assert(yields(done, inputs) =~= seq![false]);
        } else if out == Some(true) {
            let y = yields(done, inputs);
            assert(y =~= seq![true] + yields(next, rest));
            assert forall|i: int| 0 <= i < y.len() - 1 implies #[trigger] y[i] by {
                if i > 0 {
                    assert(y[i] == yields(next, rest)[i - 1]);
                }
            }
        }
    }
}

/// Law: the stream ends with the byte stream: after the end of the bytes
/// nothing more is handed out.
pub proof fn law_stream_ends_with_the_bytes(done: bool, before: Seq<StreamInput>, after: Seq<StreamInput>)
    ensures
        yields(done, before.push(StreamInput::End) + after) == yields(done, before.push(StreamInput::End)),
    decreases before.len(),
{
    let s = before.push(StreamInput::End) + after;
    if before.len() == 0 {
        assert(s[0] == StreamInput::End);
        assert(s.drop_first() =~= after);
        assert(before.push(StreamInput::End).drop_first() =~= Seq::<StreamInput>::empty());
        lemma_ended_yields_nothing(after);
        lemma_ended_yields_nothing(Seq::<StreamInput>::empty());
    } else {
        let (next, out) = step_kind(done, before[0]);
        assert(s[0] == before[0]);
        assert(s.drop_first() =~= before.drop_first().push(StreamInput::End) + after);
        assert(before.push(StreamInput::End)[0] == before[0]);
        assert(before.push(StreamInput::End).drop_first() =~= before.drop_first().push(StreamInput::End));
        law_stream_ends_with_the_bytes(next, before.drop_first(), after);
    }
}

/// Law: a failure of the byte stream, on a stream that has not ended, is
/// handed out as an error and ends the stream.
pub proof fn law_chunk_error_ends_the_stream(e: TransportError, after: Seq<StreamInput>)
    ensures
        yields(false, seq![StreamInput::ChunkError(e)] + after) == seq![false],
{
    let s = seq![StreamInput::ChunkError(e)] + after;
    assert(s[0] == StreamInput::ChunkError(e));
    assert(s.drop_first() =~= after);
    lemma_ended_yields_nothing(after);
    assert(yields(false, s) =~= seq![false] + Seq::<bool>::empty());
}

} // verus!
