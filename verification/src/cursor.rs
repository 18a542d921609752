use crate::clock::now_millis;
use crate::text::{chars_are_blank, chars_of, is_blank};
use crate::types::{
    optional_text, ActivityEntry, ActivityKind, ContextHealth, EntryView, KindView,
};
use serde_json::Value;
use vstd::prelude::*;
use vstd::string::StringExecFns;

verus! {

/// The members of one line of agent output that the classifier reads, each
/// present only where the line is a JSON object that has the member with the
/// type in question: `type`, `path`, `command` and `message` as strings,
/// `lines` and `bytes` as non-negative integers, `exit_code` as an integer.
#[derive(Debug, PartialEq, Eq)]
pub struct AgentRecord {
    pub kind: Option<String>,
    pub path: Option<String>,
    pub lines: Option<u64>,
    pub bytes: Option<u64>,
    pub command: Option<String>,
    pub exit_code: Option<i64>,
    pub message: Option<String>,
}

/// A record with its texts as character sequences.
pub struct RecordView {
    pub kind: Option<Seq<char>>,
    pub path: Option<Seq<char>>,
    pub lines: Option<u64>,
    pub bytes: Option<u64>,
    pub command: Option<Seq<char>>,
    pub exit_code: Option<i64>,
    pub message: Option<Seq<char>>,
}

impl View for AgentRecord {
    type V = RecordView;

    open spec fn view(&self) -> RecordView {
        RecordView {
            kind: optional_text(self.kind),
            path: optional_text(self.path),
            lines: self.lines,
            bytes: self.bytes,
            command: optional_text(self.command),
            exit_code: self.exit_code,
            message: optional_text(self.message),
        }
    }
}

/// The view of an optional record.
pub open spec fn optional_record(record: Option<AgentRecord>) -> Option<RecordView> {
    match record {
        Some(record) => Some(record@),
        None => None,
    }
}

/// The member of the given name, if there is one.
pub open spec fn member<V>(members: Map<Seq<char>, V>, name: Seq<char>) -> Option<V> {
    if members.contains_key(name) {
        Some(members[name])
    } else {
        None
    }
}

/// What the classifier can read of a JSON value: its members that are
/// strings, those that are non-negative integers, and those that are
/// integers, each by name.
pub struct JsonMembers {
    pub text: Map<Seq<char>, Seq<char>>,
    pub unsigned: Map<Seq<char>, u64>,
    pub signed: Map<Seq<char>, i64>,
}

/// A JSON value as `serde_json` holds it.
#[verifier::external_type_specification]
#[verifier::external_body]
pub struct ExJsonValue(serde_json::Value);

/// The members of a JSON value that are strings, by name. A value that is no
/// object has none.
pub uninterp spec fn text_members(json: Value) -> Map<Seq<char>, Seq<char>>;

/// The members of a JSON value that are integers from 0 to the largest
/// 64-bit number, by name.
pub uninterp spec fn unsigned_members(json: Value) -> Map<Seq<char>, u64>;

/// The members of a JSON value that are integers within the signed 64-bit
/// numbers, by name.
pub uninterp spec fn signed_members(json: Value) -> Map<Seq<char>, i64>;

/// What the classifier can read of a JSON value.
pub open spec fn members_of(json: Value) -> JsonMembers {
    JsonMembers {
        text: text_members(json),
        unsigned: unsigned_members(json),
        signed: signed_members(json),
    }
}

/// What the classifier can read of the JSON value that a line writes, or
/// nothing where the line is not JSON.
pub uninterp spec fn parsed_members(line: Seq<char>) -> Option<JsonMembers>;

/// Reads `line` as a JSON value with `serde_json::from_str`; `None` where
/// that fails. The value depends on the line alone: the contract names what
/// can be read of it and claims nothing more.
#[verifier::external_body]
fn parse_json(line: &str) -> (json: Option<Value>)
    ensures
        match json {
            Some(json) => parsed_members(line@) == Some(members_of(json)),
            None => parsed_members(line@) is None,
        },
{
    serde_json::from_str::<Value>(line).ok()
}

/// The member of the given name as a string, by `Value::get` and
/// `Value::as_str`: there is none where the value is no object, has no such
/// member, or the member is no string.
#[verifier::external_body]
fn text_member(json: &Value, name: &str) -> (text: Option<String>)
    ensures
        optional_text(text) == member(text_members(*json), name@),
{
    json.get(name).and_then(Value::as_str).map(str::to_owned)
}

/// The member of the given name as a non-negative integer, by `Value::get`
/// and `Value::as_u64`: there is none where the value is no object, has no
/// such member, or the member is no integer from 0 to the largest 64-bit
/// number.
#[verifier::external_body]
fn unsigned_member(json: &Value, name: &str) -> (number: Option<u64>)
    ensures
        number == member(unsigned_members(*json), name@),
{
    json.get(name).and_then(Value::as_u64)
}

/// The member of the given name as an integer, by `Value::get` and
/// `Value::as_i64`: there is none where the value is no object, has no such
/// member, or the member is no integer within the signed 64-bit numbers.
#[verifier::external_body]
fn signed_member(json: &Value, name: &str) -> (number: Option<i64>)
    ensures
        number == member(signed_members(*json), name@),
{
    json.get(name).and_then(Value::as_i64)
}

/// The record that the classifier reads out of a JSON value: `type`, `path`,
/// `command` and `message` as strings, `lines` and `bytes` as non-negative
/// integers, `exit_code` as an integer.
pub open spec fn record_in(members: JsonMembers) -> RecordView {
    RecordView {
        kind: member(members.text, "type"@),
        path: member(members.text, "path"@),
        lines: member(members.unsigned, "lines"@),
        bytes: member(members.unsigned, "bytes"@),
        command: member(members.text, "command"@),
        exit_code: member(members.signed, "exit_code"@),
        message: member(members.text, "message"@),
    }
}

/// What a line of agent output gives the classifier to read: the record of
/// its members, or nothing where the line is not JSON.
pub open spec fn decoded_line(line: Seq<char>) -> Option<RecordView> {
    match parsed_members(line) {
        Some(members) => Some(record_in(members)),
        None => None,
    }
}

fn record_of(json: &Value) -> (record: AgentRecord)
    ensures
        record@ == record_in(members_of(*json)),
{
    AgentRecord {
        kind: text_member(json, "type"),
        path: text_member(json, "path"),
        lines: unsigned_member(json, "lines"),
        bytes: unsigned_member(json, "bytes"),
        command: text_member(json, "command"),
        exit_code: signed_member(json, "exit_code"),
        message: text_member(json, "message"),
    }
}

/// Reads out of a line of agent output what the classifier reads.
pub fn decode_line(line: &str) -> (record: Option<AgentRecord>)
    ensures
        optional_record(record) == decoded_line(line@),
{
    match parse_json(line) {
        Some(json) => Some(record_of(&json)),
        None => None,
    }
}

/// The low 32 bits of a count.
pub open spec fn low_u32(n: u64) -> u32 {
    (n % 0x1_0000_0000) as u32
}

/// The low 32 bits of an exit code, read as a signed number.
pub open spec fn low_i32(n: i64) -> i32 {
    let low = n as int % 0x1_0000_0000;
    if low >= 0x8000_0000 {
        (low - 0x1_0000_0000) as i32
    } else {
        low as i32
    }
}

fn narrow_count(n: u64) -> (low: u32)
    ensures
        low == low_u32(n),
{
    (n % 0x1_0000_0000) as u32
}

fn narrow_code(n: i64) -> (low: i32)
    ensures
        low == low_i32(n),
{
    let low: i64 = if n >= 0 {
        n % 0x1_0000_0000
    } else {
        let below: i64 = -(n + 1);
        let rest: i64 = below % 0x1_0000_0000;
        let low: i64 = 0xFFFF_FFFF - rest;
        assert(low == n as int % 0x1_0000_0000) by (nonlinear_arith)
            requires
                n < 0,
                below == -(n + 1),
                rest == below % 0x1_0000_0000,
                low == 0xFFFF_FFFF - rest,
        ;
        low
    };
    if low >= 0x8000_0000 {
        (low - 0x1_0000_0000) as i32
    } else {
        low as i32
    }
}

/// The activity that a record stands for. A record is an activity only if
/// its `type` is one of `read`, `write`, `shell` and `error` and every member
/// that the type asks for is there; counts and exit codes keep their low 32
/// bits. Every other record is dropped.
pub open spec fn classified(record: RecordView) -> Option<KindView> {
    if record.kind == Some("read"@) {
        if record.path is Some && record.lines is Some && record.bytes is Some {
            Some(
                KindView::Read {
                    path: record.path->0,
                    lines: low_u32(record.lines->0),
                    bytes: low_u32(record.bytes->0),
                },
            )
        } else {
            None
        }
    } else if record.kind == Some("write"@) {
        if record.path is Some && record.lines is Some && record.bytes is Some {
            Some(
                KindView::Write {
                    path: record.path->0,
                    lines: low_u32(record.lines->0),
                    bytes: low_u32(record.bytes->0),
                },
            )
        } else {
            None
        }
    } else if record.kind == Some("shell"@) {
        if record.command is Some && record.exit_code is Some {
            Some(
                KindView::Shell {
                    command: record.command->0,
                    exit_code: low_i32(record.exit_code->0),
                },
            )
        } else {
            None
        }
    } else if record.kind == Some("error"@) {
        if record.message is Some {
            Some(KindView::Error(record.message->0))
        } else {
            None
        }
    } else {
        None
    }
}

/// The view of an optional activity.
pub open spec fn optional_kind(kind: Option<ActivityKind>) -> Option<KindView> {
    match kind {
        Some(kind) => Some(kind@),
        None => None,
    }
}

/// The view of an optional entry.
pub open spec fn optional_entry(entry: Option<ActivityEntry>) -> Option<EntryView> {
    match entry {
        Some(entry) => Some(entry@),
        None => None,
    }
}

fn same_text(a: &String, b: &str) -> (same: bool)
    ensures
        same == (a@ == b@),
{
    let other = b.to_owned();
    *a == other
}

/// Turns one record of agent output into a typed activity, or drops it.
pub fn classify(record: &AgentRecord) -> (kind: Option<ActivityKind>)
    ensures
        optional_kind(kind) == classified(record@),
{
    let tag = match &record.kind {
        Some(tag) => tag,
        None => {
            return None;
        },
    };
    if same_text(tag, "read") {
        match (&record.path, record.lines, record.bytes) {
            (Some(path), Some(lines), Some(bytes)) => Some(
                ActivityKind::Read {
                    path: path.clone(),
                    lines: narrow_count(lines),
                    bytes: narrow_count(bytes),
                },
            ),
            _ => None,
        }
    } else if same_text(tag, "write") {
        match (&record.path, record.lines, record.bytes) {
            (Some(path), Some(lines), Some(bytes)) => Some(
                ActivityKind::Write {
                    path: path.clone(),
                    lines: narrow_count(lines),
                    bytes: narrow_count(bytes),
                },
            ),
            _ => None,
        }
    } else if same_text(tag, "shell") {
        match (&record.command, record.exit_code) {
            (Some(command), Some(exit_code)) => Some(
                ActivityKind::Shell { command: command.clone(), exit_code: narrow_code(exit_code) },
            ),
            _ => None,
        }
    } else if same_text(tag, "error") {
        match &record.message {
            Some(message) => Some(ActivityKind::Error(message.clone())),
            None => None,
        }
    } else {
        None
    }
}

/// What one line of agent output turned out to be.
#[derive(Debug, PartialEq, Eq)]
pub enum LineReading {
    /// Nothing but white space.
    Blank,
    /// Not JSON.
    Noise,
    /// JSON, but no activity that is known and complete.
    Dropped,
    /// An activity.
    Activity(ActivityKind),
}

/// A line reading with its texts as character sequences.
pub enum ReadingView {
    Blank,
    Noise,
    Dropped,
    Activity(KindView),
}

impl View for LineReading {
    type V = ReadingView;

    open spec fn view(&self) -> ReadingView {
        match *self {
            LineReading::Blank => ReadingView::Blank,
            LineReading::Noise => ReadingView::Noise,
            LineReading::Dropped => ReadingView::Dropped,
            LineReading::Activity(kind) => ReadingView::Activity(kind@),
        }
    }
}

/// What a line is, given what the JSON reader made of it.
pub open spec fn reading_of(line: Seq<char>, decoded: Option<RecordView>) -> ReadingView {
    if is_blank(line) {
        ReadingView::Blank
    } else {
        match decoded {
            None => ReadingView::Noise,
            Some(record) => match classified(record) {
                None => ReadingView::Dropped,
                Some(kind) => ReadingView::Activity(kind),
            },
        }
    }
}

/// Judges a line from what the JSON reader made of it: a blank line stays
/// blank whatever the reader says, a line that is not JSON is noise, and a
/// record is an activity or is dropped.
pub fn read_decoded_line(line: &str, decoded: Option<AgentRecord>) -> (reading: LineReading)
    ensures
        reading@ == reading_of(line@, optional_record(decoded)),
{
    let chars = chars_of(line);
    if chars_are_blank(&chars) {
        return LineReading::Blank;
    }
    match decoded {
        None => LineReading::Noise,
        Some(record) => match classify(&record) {
            None => LineReading::Dropped,
            Some(kind) => LineReading::Activity(kind),
        },
    }
}

/// Judges one line of agent output.
pub fn read_line(line: &str) -> (reading: LineReading)
    ensures
        reading@ == reading_of(line@, decoded_line(line@)),
{
    let decoded = decode_line(line);
    read_decoded_line(line, decoded)
}

/// Runs the coding agent on one project with one model.
#[derive(Debug, PartialEq, Eq)]
pub struct CursorRunner {
    project_path: String,
    model: String,
}

impl CursorRunner {
    /// The directory the agent works in.
    pub closed spec fn spec_project_path(&self) -> Seq<char> {
        self.project_path@
    }

    /// The model the agent is asked to use.
    pub closed spec fn spec_model(&self) -> Seq<char> {
        self.model@
    }

    pub fn new(project_path: String, model: String) -> (runner: CursorRunner)
        ensures
            runner.spec_project_path() == project_path@,
            runner.spec_model() == model@,
    {
        CursorRunner { project_path, model }
    }

    /// The directory the agent works in.
    pub fn project_path(&self) -> (path: &str)
        ensures
            path@ == self.spec_project_path(),
    {
        self.project_path.as_str()
    }

    /// The model the agent is asked to use.
    pub fn model(&self) -> (model: &str)
        ensures
            model@ == self.spec_model(),
    {
        self.model.as_str()
    }

    /// The arguments the agent is started with for `prompt`: print mode,
    /// streamed JSON output, no confirmations, the model, then the prompt.
    pub fn arguments(&self, prompt: &str) -> (arguments: Vec<String>)
        ensures
            arguments@.len() == 7,
            arguments@[0]@ == "-p"@,
            arguments@[1]@ == "--output-format"@,
            arguments@[2]@ == "stream-json"@,
            arguments@[3]@ == "--force"@,
            arguments@[4]@ == "--model"@,
            arguments@[5]@ == self.spec_model(),
            arguments@[6]@ == prompt@,
    {
        let mut arguments: Vec<String> = Vec::new();
        arguments.push(String::from_str("-p"));
        arguments.push(String::from_str("--output-format"));
        arguments.push(String::from_str("stream-json"));
        arguments.push(String::from_str("--force"));
        arguments.push(String::from_str("--model"));
        arguments.push(self.model.clone());
        arguments.push(String::from_str(prompt));
        arguments
    }

    /// The entry for a record seen at time `now`, if the record is an
    /// activity. The iteration number is 0 and the health is `Healthy`: both
    /// are set later by whoever knows them.
    pub fn parse_activity_at(&self, record: &AgentRecord, now: u64) -> (entry: Option<
        ActivityEntry,
    >)
        ensures
            optional_entry(entry) == match classified(record@) {
                Some(kind) => Some(
                    EntryView { timestamp: now, iteration: 0, kind, health: ContextHealth::Healthy },
                ),
                None => None,
            },
    {
        match classify(record) {
            Some(kind) => Some(
                ActivityEntry { timestamp: now, iteration: 0, kind, health: ContextHealth::Healthy },
            ),
            None => None,
        }
    }

    /// The entry for a record seen now, by the system clock, if the record is
    /// an activity.
    pub fn parse_activity(&self, record: &AgentRecord) -> (entry: Option<ActivityEntry>)
        ensures
            match entry {
                Some(entry) => classified(record@) == Some(entry@.kind) && entry.iteration == 0
                    && entry.health == ContextHealth::Healthy,
                None => classified(record@) is None,
            },
    {
        let now = now_millis();
        self.parse_activity_at(record, now)
    }
}

/// The program that is run as the coding agent.
pub fn agent_program() -> (program: &'static str)
    ensures
        program@ == "cursor-agent"@,
{
    "cursor-agent"
}

} // verus!
