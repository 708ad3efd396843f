//! Non-authoritative operational metadata: caller-declared build labels and
//! run dispositions, the bounded operational event log and its codec, and the
//! lifecycle sequence status of a log.

use vstd::prelude::*;
use vstd::utf8::{encode_utf8, is_ascii_chars};
use crate::codec::{
    field_scan, key_seq, range_seq, scan_fields, slots_view, single_value, FieldScan, ScanError,
    pair_split, split_pair, lemma_record_fields, no_equals, record_lines, writable_record,
    is_pair_at, lemma_pair_scan, lemma_pair_slots_header_rows, lemma_pair_split_at, pair_line,
    pair_slots, lemma_record_ascii,
};
use crate::profile::no_repeats;
use crate::text::{
    decimal, joined_lines, lemma_ascii_byte_len, lemma_ascii_concat, lemma_decimal_u64,
    lemma_joined_lines_ascii, plain_line, line_ranges, lines, lemma_decimal_plain, lemma_joined_lines_concat,
    lemma_joined_lines_push, lemma_lines_of_joined, lemma_parse_decimal, line_spans, parse_bounded, parse_number, push_decimal, push_str,
    range_eq_str, str_to_chars,
};

verus! {

/// Versioned identity for caller-declared build labels on comparisons.
pub const SCRIPTED_AGENT_BUILD_ID_SCHEMA: &'static str = "m6-scripted-agent-build-id-v1";

/// Versioned identity for the non-authoritative operational event vocabulary.
pub const SCRIPTED_AGENT_OPERATIONAL_EVENT_SCHEMA: &'static str =
    "m6-scripted-agent-operational-event-v1";

/// Versioned identity for the bounded operational-log codec.
pub const SCRIPTED_AGENT_OPERATIONAL_LOG_SCHEMA: &'static str = "m6-scripted-agent-operational-log-v1";

/// Versioned identity for bounded operational-log sequence status.
pub const SCRIPTED_AGENT_OPERATIONAL_LOG_SEQUENCE_SCHEMA: &'static str =
    "m6-scripted-agent-operational-log-sequence-v1";

/// Stable identity for the required operational lifecycle sequence.
pub const SCRIPTED_AGENT_OPERATIONAL_LOG_SEQUENCE_RULE: &'static str =
    "m6-operational-start-chunk-finish-v1";

/// Maximum number of operational events retained in one in-memory log.
pub const MAX_SCRIPTED_AGENT_OPERATIONAL_EVENTS: usize = 16;

/// Maximum encoded size of one operational log.
pub const MAX_SCRIPTED_AGENT_OPERATIONAL_LOG_BYTES: usize = 4096;

/// Versioned identity for caller-declared bounded run dispositions.
pub const SCRIPTED_AGENT_RUN_DISPOSITION_SCHEMA: &'static str =
    "m6-scripted-agent-run-disposition-v1";

/// Maximum encoded run-disposition size before parsing or allocation.
pub const MAX_SCRIPTED_AGENT_RUN_DISPOSITION_BYTES: usize = 4096;

/// A caller-declared numeric label for one comparison build.
#[derive(Clone, Copy, Debug, PartialEq, Eq, Hash, Structural)]
pub struct ScriptedAgentBuildId(pub u32);

impl ScriptedAgentBuildId {
    pub fn new(value: u32) -> (r: Self)
        ensures
            r.0 == value,
    {
        ScriptedAgentBuildId(value)
    }

    pub fn schema(self) -> (r: &'static str)
        ensures
            r@ == SCRIPTED_AGENT_BUILD_ID_SCHEMA@,
    {
        SCRIPTED_AGENT_BUILD_ID_SCHEMA
    }

    pub fn value(self) -> (r: u32)
        ensures
            r == self.0,
    {
        self.0
    }
}

/// Bounded failures from a labeled frequency comparison.
#[derive(Clone, Copy, Debug, PartialEq, Eq, Hash, Structural)]
pub enum ScriptedAgentBuildComparisonError {
    MatchingBuildIds,
}

/// Closed caller-declared outcomes for one bounded experiment run.
#[derive(Clone, Copy, Debug, PartialEq, Eq, Hash, Structural)]
pub enum ScriptedAgentRunDisposition {
    Completed,
    Crashed,
    TimedOut,
    MissingBranch,
    Inconclusive,
}

/// The identity of a run disposition.
pub open spec fn disposition_id(d: ScriptedAgentRunDisposition) -> Seq<char> {
    match d {
        ScriptedAgentRunDisposition::Completed => "completed"@,
        ScriptedAgentRunDisposition::Crashed => "crashed"@,
        ScriptedAgentRunDisposition::TimedOut => "timed_out"@,
        ScriptedAgentRunDisposition::MissingBranch => "missing_branch"@,
        ScriptedAgentRunDisposition::Inconclusive => "inconclusive"@,
    }
}

/// The run disposition named by an identity.
pub open spec fn disposition_from_id(id: Seq<char>) -> Option<ScriptedAgentRunDisposition> {
    if id == "completed"@ {
        Some(ScriptedAgentRunDisposition::Completed)
    } else if id == "crashed"@ {
        Some(ScriptedAgentRunDisposition::Crashed)
    } else if id == "timed_out"@ {
        Some(ScriptedAgentRunDisposition::TimedOut)
    } else if id == "missing_branch"@ {
        Some(ScriptedAgentRunDisposition::MissingBranch)
    } else if id == "inconclusive"@ {
        Some(ScriptedAgentRunDisposition::Inconclusive)
    } else {
        None
    }
}

/// Reading a disposition's identity gives back the disposition.
pub proof fn lemma_disposition_id_round_trip(d: ScriptedAgentRunDisposition)
    ensures
        disposition_from_id(disposition_id(d)) == Some(d),
{
    reveal_strlit("completed");
    reveal_strlit("crashed");
    reveal_strlit("timed_out");
    reveal_strlit("missing_branch");
    reveal_strlit("inconclusive");
    assert("completed"@.len() != "crashed"@.len());
    assert("completed"@[0] != "timed_out"@[0]);
    assert("completed"@[0] != "missing_branch"@[0]);
    assert("completed"@[0] != "inconclusive"@[0]);
    assert("crashed"@.len() != "timed_out"@.len());
    assert("crashed"@.len() != "missing_branch"@.len());
    assert("crashed"@.len() != "inconclusive"@.len());
    assert("timed_out"@.len() != "missing_branch"@.len());
    assert("timed_out"@.len() != "inconclusive"@.len());
    assert("missing_branch"@.len() != "inconclusive"@.len());
}

impl ScriptedAgentRunDisposition {
    pub fn id(self) -> (r: &'static str)
        ensures
            r@ == disposition_id(self),
    {
        match self {
            ScriptedAgentRunDisposition::Completed => "completed",
            ScriptedAgentRunDisposition::Crashed => "crashed",
            ScriptedAgentRunDisposition::TimedOut => "timed_out",
            ScriptedAgentRunDisposition::MissingBranch => "missing_branch",
            ScriptedAgentRunDisposition::Inconclusive => "inconclusive",
        }
    }

    /// The disposition named by `s[a..b)`.
    pub fn parse_id_range(s: &Vec<char>, a: usize, b: usize) -> (r: Option<Self>)
        requires
            a <= b <= s@.len(),
        ensures
            r == disposition_from_id(s@.subrange(a as int, b as int)),
    {
        if range_eq_str(s, a, b, "completed") {
            Some(ScriptedAgentRunDisposition::Completed)
        } else if range_eq_str(s, a, b, "crashed") {
            Some(ScriptedAgentRunDisposition::Crashed)
        } else if range_eq_str(s, a, b, "timed_out") {
            Some(ScriptedAgentRunDisposition::TimedOut)
        } else if range_eq_str(s, a, b, "missing_branch") {
            Some(ScriptedAgentRunDisposition::MissingBranch)
        } else if range_eq_str(s, a, b, "inconclusive") {
            Some(ScriptedAgentRunDisposition::Inconclusive)
        } else {
            None
        }
    }
}

/// Bounded failures from the caller-declared run-disposition codec.
#[derive(Clone, Copy, Debug, PartialEq, Eq, Hash, Structural)]
pub enum ScriptedAgentRunDispositionCodecError {
    Oversized,
    UnexpectedLineCount { expected: usize, actual: usize },
    UnknownField,
    DuplicateField,
    MissingField,
    UnsupportedSchema,
    InvalidValue,
}

/// Reading back a written run-disposition record gives the same record.
pub proof fn lemma_disposition_round_trip(d: ScriptedAgentRunDisposition, byte_len: nat)
    requires
        byte_len <= MAX_SCRIPTED_AGENT_RUN_DISPOSITION_BYTES,
    ensures
        disposition_decode(disposition_text(d), byte_len) == Ok::<
            ScriptedAgentRunDispositionRecord,
            ScriptedAgentRunDispositionCodecError,
        >(ScriptedAgentRunDispositionRecord { disposition: d }),
{
    let keys = disposition_keys();
    let id = disposition_id(d);
    let vals = seq![SCRIPTED_AGENT_RUN_DISPOSITION_SCHEMA@, id];
    reveal_strlit("schema");
    reveal_strlit("disposition");
    reveal_strlit("schema=");
    reveal_strlit("\ndisposition=");
    reveal_strlit("\n");
    reveal_strlit("m6-scripted-agent-run-disposition-v1");
    reveal_strlit("completed");
    reveal_strlit("crashed");
    reveal_strlit("timed_out");
    reveal_strlit("missing_branch");
    reveal_strlit("inconclusive");
    assert(plain_line(id) && id.len() > 0) by {
        match d {
            ScriptedAgentRunDisposition::Completed => {},
            ScriptedAgentRunDisposition::Crashed => {},
            ScriptedAgentRunDisposition::TimedOut => {},
            ScriptedAgentRunDisposition::MissingBranch => {},
            ScriptedAgentRunDisposition::Inconclusive => {},
        }
    }
    assert(keys[0] != keys[1]) by {
        assert(keys[0].len() != keys[1].len());
    }
    assert(writable_record(keys, vals));
    let text = disposition_text(d);
    assert(text =~= joined_lines(record_lines(keys, vals))) by {
        reveal_with_fuel(joined_lines, 3);
        assert(record_lines(keys, vals).skip(1).skip(1).len() == 0);
    }
    lemma_record_fields(text, keys, vals, no_repeats(2));
    lemma_disposition_id_round_trip(d);
}

/// The text of a run-disposition record is ASCII, fits the size cap, and any
/// input holding it decodes back to that record.
pub proof fn lemma_disposition_text_reads_back(d: ScriptedAgentRunDisposition)
    ensures
        is_ascii_chars(disposition_text(d)),
        disposition_text(d).len() <= MAX_SCRIPTED_AGENT_RUN_DISPOSITION_BYTES,
        encode_utf8(disposition_text(d)).len() == disposition_text(d).len(),
        disposition_decode(disposition_text(d), encode_utf8(disposition_text(d)).len()) == Ok::<
            ScriptedAgentRunDispositionRecord,
            ScriptedAgentRunDispositionCodecError,
        >(ScriptedAgentRunDispositionRecord { disposition: d }),
{
    let keys = disposition_keys();
    let id = disposition_id(d);
    let vals = seq![SCRIPTED_AGENT_RUN_DISPOSITION_SCHEMA@, id];
    reveal_strlit("schema");
    reveal_strlit("disposition");
    reveal_strlit("schema=");
    reveal_strlit("\ndisposition=");
    reveal_strlit("\n");
    reveal_strlit("m6-scripted-agent-run-disposition-v1");
    assert(is_ascii_chars(id) && id.len() <= 14) by {
        reveal_strlit("completed");
        reveal_strlit("crashed");
        reveal_strlit("timed_out");
        reveal_strlit("missing_branch");
        reveal_strlit("inconclusive");
        match d {
            ScriptedAgentRunDisposition::Completed => {},
            ScriptedAgentRunDisposition::Crashed => {},
            ScriptedAgentRunDisposition::TimedOut => {},
            ScriptedAgentRunDisposition::MissingBranch => {},
            ScriptedAgentRunDisposition::Inconclusive => {},
        }
    }
    assert(is_ascii_chars(SCRIPTED_AGENT_RUN_DISPOSITION_SCHEMA@));
    assert forall|i: int| 0 <= i < 2 implies is_ascii_chars(#[trigger] keys[i]) && is_ascii_chars(
        vals[i],
    ) && keys[i].len() + 1 + vals[i].len() <= 44 by {}
    lemma_record_ascii(keys, vals, 44);
    let text = disposition_text(d);
    assert(text =~= joined_lines(record_lines(keys, vals))) by {
        reveal_with_fuel(joined_lines, 3);
        assert(record_lines(keys, vals).skip(1).skip(1).len() == 0);
    }
    lemma_ascii_byte_len(text);
    lemma_disposition_round_trip(d, text.len());
}

/// A payload-free, caller-declared status envelope for one bounded run.
#[derive(Clone, Copy, Debug, PartialEq, Eq, Hash, Structural)]
pub struct ScriptedAgentRunDispositionRecord {
    pub disposition: ScriptedAgentRunDisposition,
}

/// The canonical text of a run-disposition record.
pub open spec fn disposition_text(d: ScriptedAgentRunDisposition) -> Seq<char> {
    "schema="@ + SCRIPTED_AGENT_RUN_DISPOSITION_SCHEMA@ + "\ndisposition="@ + disposition_id(d)
        + "\n"@
}

/// The keys of a run-disposition record.
pub open spec fn disposition_keys() -> Seq<Seq<char>> {
    seq!["schema"@, "disposition"@]
}

/// The text of the single value of key `k`, if present.
pub open spec fn slot_text(s: Seq<char>, slots: Seq<Seq<(int, int)>>, k: int) -> Option<Seq<char>> {
    match single_value(slots, k) {
        Some(r) => Some(s.subrange(r.0, r.1)),
        None => None,
    }
}

/// What decoding a run-disposition text of `byte_len` bytes gives.
pub open spec fn disposition_decode(s: Seq<char>, byte_len: nat) -> Result<
    ScriptedAgentRunDispositionRecord,
    ScriptedAgentRunDispositionCodecError,
> {
    let lines = line_ranges(s);
    if byte_len > MAX_SCRIPTED_AGENT_RUN_DISPOSITION_BYTES {
        Err(ScriptedAgentRunDispositionCodecError::Oversized)
    } else if lines.len() > 2 {
        Err(
            ScriptedAgentRunDispositionCodecError::UnexpectedLineCount {
                expected: 2,
                actual: lines.len() as usize,
            },
        )
    } else {
        match field_scan(s, lines, disposition_keys(), no_repeats(2), lines.len()) {
            FieldScan::Invalid => Err(ScriptedAgentRunDispositionCodecError::InvalidValue),
            FieldScan::Unknown => Err(ScriptedAgentRunDispositionCodecError::UnknownField),
            FieldScan::Duplicate => Err(ScriptedAgentRunDispositionCodecError::DuplicateField),
            FieldScan::Fine(slots) => if slot_text(s, slots, 0) != Some(
                SCRIPTED_AGENT_RUN_DISPOSITION_SCHEMA@,
            ) {
                Err(ScriptedAgentRunDispositionCodecError::UnsupportedSchema)
            } else {
                match slot_text(s, slots, 1) {
                    None => Err(ScriptedAgentRunDispositionCodecError::MissingField),
                    Some(id) => match disposition_from_id(id) {
                        None => Err(ScriptedAgentRunDispositionCodecError::InvalidValue),
                        Some(d) => Ok(ScriptedAgentRunDispositionRecord { disposition: d }),
                    },
                }
            },
        }
    }
}

/// Whether the single value of key `k` spells `lit`.
pub fn slot_is(s: &Vec<char>, slots: &Vec<Vec<(usize, usize)>>, k: usize, lit: &str) -> (r: bool)
    requires
        k < slots@.len(),
        forall|m: int| 0 <= m < slots@[k as int]@.len() ==> (#[trigger] slots@[k as int]@[m]).0
            <= slots@[k as int]@[m].1 <= s@.len(),
    ensures
        r == (slot_text(s@, slots_view(slots@), k as int) == Some(lit@)),
{
    if slots[k].len() == 0 {
        return false;
    }
    let (a, b) = slots[k][0];
    assert(slots_view(slots@)[k as int][0] == (a as int, b as int));
    range_eq_str(s, a, b, lit)
}

impl ScriptedAgentRunDispositionRecord {
    pub fn new(disposition: ScriptedAgentRunDisposition) -> (r: Self)
        ensures
            r.disposition == disposition,
    {
        ScriptedAgentRunDispositionRecord { disposition }
    }

    pub fn schema(self) -> (r: &'static str)
        ensures
            r@ == SCRIPTED_AGENT_RUN_DISPOSITION_SCHEMA@,
    {
        SCRIPTED_AGENT_RUN_DISPOSITION_SCHEMA
    }

    pub fn disposition(self) -> (r: ScriptedAgentRunDisposition)
        ensures
            r == self.disposition,
    {
        self.disposition
    }

    /// Encode the caller-declared disposition as bounded line-oriented text.
    pub fn encode(self) -> (r: String)
        ensures
            r@ == disposition_text(self.disposition),
            is_ascii_chars(r@),
            r@.len() <= MAX_SCRIPTED_AGENT_RUN_DISPOSITION_BYTES,
    {
        proof {
            lemma_disposition_text_reads_back(self.disposition);
        }
        let mut out = String::new();
        push_str(&mut out, "schema=");
        push_str(&mut out, SCRIPTED_AGENT_RUN_DISPOSITION_SCHEMA);
        push_str(&mut out, "\ndisposition=");
        push_str(&mut out, self.disposition.id());
        push_str(&mut out, "\n");
        out
    }

    /// Decode a disposition without inspecting execution or process details.
    pub fn decode(input: &str) -> (r: Result<Self, ScriptedAgentRunDispositionCodecError>)
        ensures
            r == disposition_decode(input@, input.len() as nat),
    {
        if input.len() > MAX_SCRIPTED_AGENT_RUN_DISPOSITION_BYTES {
            return Err(ScriptedAgentRunDispositionCodecError::Oversized);
        }
        let s = str_to_chars(input);
        let lines = lines(&s);
        assert(range_seq(lines@) =~= line_ranges(s@));
        if lines.len() > 2 {
            return Err(
                ScriptedAgentRunDispositionCodecError::UnexpectedLineCount {
                    expected: 2,
                    actual: lines.len(),
                },
            );
        }
        let keys = ["schema", "disposition"];
        proof {
            reveal_strlit("schema");
            reveal_strlit("disposition");
            assert(key_seq(keys@) =~= disposition_keys());
            assert(disposition_keys()[0].len() != disposition_keys()[1].len());
        }
        let repeatable = [false, false];
        assert(repeatable@ =~= no_repeats(2));
        let slots = match scan_fields(&s, &lines, &keys, &repeatable) {
            Ok(slots) => slots,
            Err(ScanError::Invalid) => {
                return Err(ScriptedAgentRunDispositionCodecError::InvalidValue);
            },
            Err(ScanError::Unknown) => {
                return Err(ScriptedAgentRunDispositionCodecError::UnknownField);
            },
            Err(ScanError::Duplicate) => {
                return Err(ScriptedAgentRunDispositionCodecError::DuplicateField);
            },
        };
        if !slot_is(&s, &slots, 0, SCRIPTED_AGENT_RUN_DISPOSITION_SCHEMA) {
            return Err(ScriptedAgentRunDispositionCodecError::UnsupportedSchema);
        }
        if slots[1].len() == 0 {
            return Err(ScriptedAgentRunDispositionCodecError::MissingField);
        }
        let (a, b) = slots[1][0];
        assert(slots_view(slots@)[1][0] == (a as int, b as int));
        match ScriptedAgentRunDisposition::parse_id_range(&s, a, b) {
            Some(d) => Ok(Self::new(d)),
            None => Err(ScriptedAgentRunDispositionCodecError::InvalidValue),
        }
    }
}

/// Closed operational events kept separate from committed simulation history.
#[derive(Clone, Copy, Debug, PartialEq, Eq, Hash, Structural)]
pub enum ScriptedAgentOperationalEvent {
    BatchStarted,
    ChunkCompleted,
    CheckpointSaved,
    BatchResumed,
    BatchFinished,
}

/// The identity of an operational event.
pub open spec fn event_id(e: ScriptedAgentOperationalEvent) -> Seq<char> {
    match e {
        ScriptedAgentOperationalEvent::BatchStarted => "batch_started"@,
        ScriptedAgentOperationalEvent::ChunkCompleted => "chunk_completed"@,
        ScriptedAgentOperationalEvent::CheckpointSaved => "checkpoint_saved"@,
        ScriptedAgentOperationalEvent::BatchResumed => "batch_resumed"@,
        ScriptedAgentOperationalEvent::BatchFinished => "batch_finished"@,
    }
}

/// The operational event named by an identity.
pub open spec fn event_from_id(id: Seq<char>) -> Option<ScriptedAgentOperationalEvent> {
    if id == "batch_started"@ {
        Some(ScriptedAgentOperationalEvent::BatchStarted)
    } else if id == "chunk_completed"@ {
        Some(ScriptedAgentOperationalEvent::ChunkCompleted)
    } else if id == "checkpoint_saved"@ {
        Some(ScriptedAgentOperationalEvent::CheckpointSaved)
    } else if id == "batch_resumed"@ {
        Some(ScriptedAgentOperationalEvent::BatchResumed)
    } else if id == "batch_finished"@ {
        Some(ScriptedAgentOperationalEvent::BatchFinished)
    } else {
        None
    }
}

/// Reading an event's identity gives back the event.
pub proof fn lemma_event_id_round_trip(e: ScriptedAgentOperationalEvent)
    ensures
        event_from_id(event_id(e)) == Some(e),
{
    reveal_strlit("batch_started");
    reveal_strlit("chunk_completed");
    reveal_strlit("checkpoint_saved");
    reveal_strlit("batch_resumed");
    reveal_strlit("batch_finished");
    assert("batch_started"@.len() != "chunk_completed"@.len());
    assert("batch_started"@.len() != "checkpoint_saved"@.len());
    assert("batch_started"@[6] != "batch_resumed"@[6]);
    assert("batch_started"@.len() != "batch_finished"@.len());
    assert("chunk_completed"@.len() != "checkpoint_saved"@.len());
    assert("chunk_completed"@[0] != "batch_resumed"@[0]);
    assert("chunk_completed"@[0] != "batch_finished"@[0]);
    assert("checkpoint_saved"@[0] != "batch_resumed"@[0]);
    assert("checkpoint_saved"@[0] != "batch_finished"@[0]);
    assert("batch_resumed"@.len() != "batch_finished"@.len());
}

impl ScriptedAgentOperationalEvent {
    pub fn id(self) -> (r: &'static str)
        ensures
            r@ == event_id(self),
    {
        match self {
            ScriptedAgentOperationalEvent::BatchStarted => "batch_started",
            ScriptedAgentOperationalEvent::ChunkCompleted => "chunk_completed",
            ScriptedAgentOperationalEvent::CheckpointSaved => "checkpoint_saved",
            ScriptedAgentOperationalEvent::BatchResumed => "batch_resumed",
            ScriptedAgentOperationalEvent::BatchFinished => "batch_finished",
        }
    }

    /// The event named by `s[a..b)`.
    pub fn parse_id_range(s: &Vec<char>, a: usize, b: usize) -> (r: Option<Self>)
        requires
            a <= b <= s@.len(),
        ensures
            r == event_from_id(s@.subrange(a as int, b as int)),
    {
        if range_eq_str(s, a, b, "batch_started") {
            Some(ScriptedAgentOperationalEvent::BatchStarted)
        } else if range_eq_str(s, a, b, "chunk_completed") {
            Some(ScriptedAgentOperationalEvent::ChunkCompleted)
        } else if range_eq_str(s, a, b, "checkpoint_saved") {
            Some(ScriptedAgentOperationalEvent::CheckpointSaved)
        } else if range_eq_str(s, a, b, "batch_resumed") {
            Some(ScriptedAgentOperationalEvent::BatchResumed)
        } else if range_eq_str(s, a, b, "batch_finished") {
            Some(ScriptedAgentOperationalEvent::BatchFinished)
        } else {
            None
        }
    }
}

/// One payload-free event in a non-authoritative operational log.
#[derive(Clone, Copy, Debug, PartialEq, Eq, Hash, Structural)]
pub struct ScriptedAgentOperationalEventRecord {
    pub event: ScriptedAgentOperationalEvent,
}

impl ScriptedAgentOperationalEventRecord {
    pub fn new(event: ScriptedAgentOperationalEvent) -> (r: Self)
        ensures
            r.event == event,
    {
        ScriptedAgentOperationalEventRecord { event }
    }

    pub fn schema(self) -> (r: &'static str)
        ensures
            r@ == SCRIPTED_AGENT_OPERATIONAL_EVENT_SCHEMA@,
    {
        SCRIPTED_AGENT_OPERATIONAL_EVENT_SCHEMA
    }

    pub fn event(self) -> (r: ScriptedAgentOperationalEvent)
        ensures
            r == self.event,
    {
        self.event
    }
}

/// Bounded failures from the in-memory operational log container.
#[derive(Clone, Copy, Debug, PartialEq, Eq, Hash, Structural)]
pub enum ScriptedAgentOperationalLogError {
    CapacityExceeded { max: usize },
}

/// Bounded failures from operational-log encoding and decoding.
#[derive(Clone, Copy, Debug, PartialEq, Eq, Hash, Structural)]
pub enum ScriptedAgentOperationalLogCodecError {
    Oversized,
    UnexpectedLineCount { expected: usize, actual: usize },
    UnknownField,
    DuplicateField,
    MissingField,
    UnsupportedSchema,
    InvalidValue,
}

/// Ordered, non-authoritative operational metadata kept outside history.
#[derive(Debug, PartialEq, Eq, Hash)]
pub struct ScriptedAgentOperationalLog {
    entries: Vec<ScriptedAgentOperationalEventRecord>,
}

/// The events of a list of event records.
pub open spec fn events_of(entries: Seq<ScriptedAgentOperationalEventRecord>) -> Seq<
    ScriptedAgentOperationalEvent,
> {
    entries.map_values(|r: ScriptedAgentOperationalEventRecord| r.event)
}

impl View for ScriptedAgentOperationalLog {
    type V = Seq<ScriptedAgentOperationalEvent>;

    closed spec fn view(&self) -> Seq<ScriptedAgentOperationalEvent> {
        events_of(self.entries@)
    }
}

/// The canonical text of an event list.
pub open spec fn event_lines(events: Seq<ScriptedAgentOperationalEvent>) -> Seq<char>
    decreases events.len(),
{
    if events.len() == 0 {
        Seq::empty()
    } else {
        event_lines(events.drop_last()) + "event="@ + event_id(events.last()) + "\n"@
    }
}

/// The canonical text of an operational log.
pub open spec fn log_text(events: Seq<ScriptedAgentOperationalEvent>) -> Seq<char> {
    "schema="@ + SCRIPTED_AGENT_OPERATIONAL_LOG_SCHEMA@ + "\nentries="@ + decimal(events.len())
        + "\n"@ + event_lines(events)
}

/// The keys of an operational log record.
pub open spec fn log_keys() -> Seq<Seq<char>> {
    seq!["schema"@, "entries"@, "event"@]
}

/// The key text of line `i`.
pub open spec fn line_key(s: Seq<char>, lines: Seq<(int, int)>, i: int) -> Option<Seq<char>> {
    match pair_split(s, lines[i]) {
        Some(j) => Some(s.subrange(lines[i].0, j)),
        None => None,
    }
}

/// The events named by value ranges, if every one names an event.
pub open spec fn events_from_ranges(s: Seq<char>, ranges: Seq<(int, int)>) -> Option<
    Seq<ScriptedAgentOperationalEvent>,
>
    decreases ranges.len(),
{
    if ranges.len() == 0 {
        Some(Seq::empty())
    } else {
        match events_from_ranges(s, ranges.drop_last()) {
            None => None,
            Some(prefix) => match event_from_id(
                s.subrange(ranges.last().0, ranges.last().1),
            ) {
                None => None,
                Some(e) => Some(prefix.push(e)),
            },
        }
    }
}

/// What decoding an operational-log text of `byte_len` bytes gives.
pub open spec fn log_decode(s: Seq<char>, byte_len: nat) -> Result<
    Seq<ScriptedAgentOperationalEvent>,
    ScriptedAgentOperationalLogCodecError,
> {
    let lines = line_ranges(s);
    let max_lines = MAX_SCRIPTED_AGENT_OPERATIONAL_EVENTS + 2;
    if byte_len > MAX_SCRIPTED_AGENT_OPERATIONAL_LOG_BYTES {
        Err(ScriptedAgentOperationalLogCodecError::Oversized)
    } else if lines.len() > max_lines {
        Err(
            ScriptedAgentOperationalLogCodecError::UnexpectedLineCount {
                expected: max_lines as usize,
                actual: lines.len() as usize,
            },
        )
    } else {
        match field_scan(s, lines, log_keys(), seq![false, false, true], lines.len()) {
            FieldScan::Invalid => Err(ScriptedAgentOperationalLogCodecError::InvalidValue),
            FieldScan::Unknown => Err(ScriptedAgentOperationalLogCodecError::UnknownField),
            FieldScan::Duplicate => Err(ScriptedAgentOperationalLogCodecError::DuplicateField),
            FieldScan::Fine(slots) => if slot_text(s, slots, 0) != Some(
                SCRIPTED_AGENT_OPERATIONAL_LOG_SCHEMA@,
            ) {
                Err(ScriptedAgentOperationalLogCodecError::UnsupportedSchema)
            } else {
                match single_value(slots, 1) {
                    None => Err(ScriptedAgentOperationalLogCodecError::MissingField),
                    Some(r) => match parse_bounded(s, r.0, r.1, usize::MAX as nat) {
                        None => Err(ScriptedAgentOperationalLogCodecError::InvalidValue),
                        Some(count) => if count > MAX_SCRIPTED_AGENT_OPERATIONAL_EVENTS {
                            Err(ScriptedAgentOperationalLogCodecError::InvalidValue)
                        } else if lines.len() != 2 + count || slots[2].len() != count {
                            Err(
                                ScriptedAgentOperationalLogCodecError::UnexpectedLineCount {
                                    expected: (2 + count) as usize,
                                    actual: lines.len() as usize,
                                },
                            )
                        } else if line_key(s, lines, 0) != Some("schema"@) || line_key(s, lines, 1)
                            != Some("entries"@) || exists|i: int|
                            2 <= i < lines.len() && line_key(s, lines, i) != Some("event"@) {
                            Err(ScriptedAgentOperationalLogCodecError::InvalidValue)
                        } else {
                            match events_from_ranges(s, slots[2]) {
                                None => Err(ScriptedAgentOperationalLogCodecError::InvalidValue),
                                Some(events) => Ok(events),
                            }
                        }
                    },
                }
            },
        }
    }
}

/// The `event=` lines of an event list.
pub open spec fn event_record_lines(events: Seq<ScriptedAgentOperationalEvent>) -> Seq<Seq<char>> {
    events.map_values(|e: ScriptedAgentOperationalEvent| pair_line("event"@, event_id(e)))
}

/// The lines of an operational log: its two headers, then one line per event.
pub open spec fn log_lines(events: Seq<ScriptedAgentOperationalEvent>) -> Seq<Seq<char>> {
    seq![
        pair_line("schema"@, SCRIPTED_AGENT_OPERATIONAL_LOG_SCHEMA@),
        pair_line("entries"@, decimal(events.len())),
    ] + event_record_lines(events)
}

/// The value of each line of an operational log.
spec fn log_vals(events: Seq<ScriptedAgentOperationalEvent>) -> Seq<Seq<char>> {
    seq![SCRIPTED_AGENT_OPERATIONAL_LOG_SCHEMA@, decimal(events.len())] + events.map_values(
        |e: ScriptedAgentOperationalEvent| event_id(e),
    )
}

/// The key of each line of an operational log.
spec fn log_line_keys(n: nat) -> Seq<int> {
    Seq::new(
        n + 2,
        |i: int|
            if i < 2 {
                i
            } else {
                2
            },
    )
}

/// An event's identity is a non-empty plain line.
proof fn lemma_event_id_plain(e: ScriptedAgentOperationalEvent)
    ensures
        event_id(e).len() > 0,
        plain_line(event_id(e)),
{
    reveal_strlit("batch_started");
    reveal_strlit("chunk_completed");
    reveal_strlit("checkpoint_saved");
    reveal_strlit("batch_resumed");
    reveal_strlit("batch_finished");
    match e {
        ScriptedAgentOperationalEvent::BatchStarted => {},
        ScriptedAgentOperationalEvent::ChunkCompleted => {},
        ScriptedAgentOperationalEvent::CheckpointSaved => {},
        ScriptedAgentOperationalEvent::BatchResumed => {},
        ScriptedAgentOperationalEvent::BatchFinished => {},
    }
}

/// The event lines of a log text are its `event=` lines, each ended by a line break.
proof fn lemma_event_lines_joined(events: Seq<ScriptedAgentOperationalEvent>)
    ensures
        event_lines(events) == joined_lines(event_record_lines(events)),
    decreases events.len(),
{
    reveal_strlit("event=");
    reveal_strlit("event");
    reveal_strlit("\n");
    if events.len() == 0 {
        assert(event_record_lines(events).len() == 0);
    } else {
        let prefix = events.drop_last();
        lemma_event_lines_joined(prefix);
        let line = pair_line("event"@, event_id(events.last()));
        assert(event_record_lines(events) =~= event_record_lines(prefix).push(line));
        lemma_joined_lines_push(event_record_lines(prefix), line);
        assert(event_lines(events) =~= joined_lines(event_record_lines(events)));
    }
}

/// A log text is its lines, each ended by a line break.
proof fn lemma_log_text_lines(events: Seq<ScriptedAgentOperationalEvent>)
    ensures
        log_text(events) == joined_lines(log_lines(events)),
{
    reveal_strlit("schema=");
    reveal_strlit("\nentries=");
    reveal_strlit("\n");
    reveal_strlit("schema");
    reveal_strlit("entries");
    let head = seq![
        pair_line("schema"@, SCRIPTED_AGENT_OPERATIONAL_LOG_SCHEMA@),
        pair_line("entries"@, decimal(events.len())),
    ];
    lemma_joined_lines_concat(head, event_record_lines(events));
    lemma_event_lines_joined(events);
    reveal_with_fuel(joined_lines, 3);
    assert(head.skip(1).skip(1).len() == 0);
    assert(log_text(events) =~= joined_lines(head) + event_lines(events));
}

/// An event's identity is a short ASCII text.
proof fn lemma_event_id_ascii(e: ScriptedAgentOperationalEvent)
    ensures
        is_ascii_chars(event_id(e)),
        event_id(e).len() <= 16,
{
    reveal_strlit("batch_started");
    reveal_strlit("chunk_completed");
    reveal_strlit("checkpoint_saved");
    reveal_strlit("batch_resumed");
    reveal_strlit("batch_finished");
    match e {
        ScriptedAgentOperationalEvent::BatchStarted => {},
        ScriptedAgentOperationalEvent::ChunkCompleted => {},
        ScriptedAgentOperationalEvent::CheckpointSaved => {},
        ScriptedAgentOperationalEvent::BatchResumed => {},
        ScriptedAgentOperationalEvent::BatchFinished => {},
    }
}

/// The text of an event list within the cap is ASCII, fits the size cap, and
/// any input holding it decodes back to those events.
pub proof fn lemma_log_text_reads_back(events: Seq<ScriptedAgentOperationalEvent>)
    requires
        events.len() <= MAX_SCRIPTED_AGENT_OPERATIONAL_EVENTS,
    ensures
        is_ascii_chars(log_text(events)),
        log_text(events).len() <= MAX_SCRIPTED_AGENT_OPERATIONAL_LOG_BYTES,
        encode_utf8(log_text(events)).len() == log_text(events).len(),
        log_decode(log_text(events), encode_utf8(log_text(events)).len()) == Ok::<
            Seq<ScriptedAgentOperationalEvent>,
            ScriptedAgentOperationalLogCodecError,
        >(events),
{
    reveal_strlit("schema");
    reveal_strlit("entries");
    reveal_strlit("event");
    reveal_strlit("m6-scripted-agent-operational-log-v1");
    let ls = log_lines(events);
    lemma_decimal_u64(events.len());
    assert(is_ascii_chars(SCRIPTED_AGENT_OPERATIONAL_LOG_SCHEMA@));
    assert(is_ascii_chars(seq!['=']));
    assert(is_ascii_chars("schema"@) && is_ascii_chars("entries"@) && is_ascii_chars("event"@));
    assert forall|i: int| 0 <= i < ls.len() implies is_ascii_chars(#[trigger] ls[i]) && ls[i].len()
        <= 45 by {
        if i == 0 {
            lemma_ascii_concat("schema"@, seq!['=']);
            lemma_ascii_concat("schema"@ + seq!['='], SCRIPTED_AGENT_OPERATIONAL_LOG_SCHEMA@);
        } else if i == 1 {
            lemma_ascii_concat("entries"@, seq!['=']);
            lemma_ascii_concat("entries"@ + seq!['='], decimal(events.len()));
        } else {
            let e = events[i - 2];
            assert(ls[i] == event_record_lines(events)[i - 2]);
            lemma_event_id_ascii(e);
            lemma_ascii_concat("event"@, seq!['=']);
            lemma_ascii_concat("event"@ + seq!['='], event_id(e));
        }
    }
    lemma_joined_lines_ascii(ls, 45);
    assert(ls.len() == events.len() + 2);
    let n = ls.len();
    assert(n * (45 + 1) <= 18 * 46) by (nonlinear_arith)
        requires
            n <= 18,
    ;
    lemma_log_text_lines(events);
    lemma_ascii_byte_len(log_text(events));
    lemma_log_round_trip(events, log_text(events).len());
}

/// The event values read back from the event lines name the events.
proof fn lemma_events_from_spans(
    s: Seq<char>,
    ranges: Seq<(int, int)>,
    events: Seq<ScriptedAgentOperationalEvent>,
    j: nat,
)
    requires
        j <= ranges.len(),
        ranges.len() == events.len(),
        forall|i: int|
            0 <= i < ranges.len() ==> 0 <= (#[trigger] ranges[i]).0 <= ranges[i].1 <= s.len()
                && s.subrange(ranges[i].0, ranges[i].1) == event_id(events[i]),
    ensures
        events_from_ranges(s, ranges.take(j as int)) == Some(events.take(j as int)),
    decreases j,
{
    if j > 0 {
        lemma_events_from_spans(s, ranges, events, (j - 1) as nat);
        assert(ranges.take(j as int).drop_last() =~= ranges.take(j - 1));
        assert(ranges.take(j as int).last() == ranges[j - 1]);
        lemma_event_id_round_trip(events[j - 1]);
        assert(events.take(j - 1).push(events[j - 1]) =~= events.take(j as int));
    } else {
        assert(ranges.take(0).len() == 0);
        assert(events.take(0) =~= Seq::<ScriptedAgentOperationalEvent>::empty());
    }
}

/// Reading back a written operational log gives the same events.
#[verifier::spinoff_prover]
#[verifier::rlimit(100)]
pub proof fn lemma_log_round_trip(events: Seq<ScriptedAgentOperationalEvent>, byte_len: nat)
    requires
        events.len() <= MAX_SCRIPTED_AGENT_OPERATIONAL_EVENTS,
        byte_len <= MAX_SCRIPTED_AGENT_OPERATIONAL_LOG_BYTES,
    ensures
        log_decode(log_text(events), byte_len) == Ok::<
            Seq<ScriptedAgentOperationalEvent>,
            ScriptedAgentOperationalLogCodecError,
        >(events),
{
    let n = events.len();
    let text = log_text(events);
    let ls = log_lines(events);
    let keys = log_keys();
    let vals = log_vals(events);
    let line_keys = log_line_keys(n);
    reveal_strlit("schema");
    reveal_strlit("entries");
    reveal_strlit("event");
    reveal_strlit("m6-scripted-agent-operational-log-v1");
    lemma_decimal_plain(n);
    lemma_log_text_lines(events);
    assert forall|i: int| 0 <= i < ls.len() implies plain_line(#[trigger] ls[i]) && ls[i]
        == pair_line(keys[line_keys[i]], vals[i]) && vals[i].len() > 0 by {
        if i >= 2 {
            lemma_event_id_plain(events[i - 2]);
            assert(ls[i] == event_record_lines(events)[i - 2]);
            assert(vals[i] == event_id(events[i - 2]));
        }
        let l = ls[i];
        let key = keys[line_keys[i]];
        assert forall|k: int| 0 <= k < l.len() implies #[trigger] l[k] != '\n' && l[k] != '\r' by {
            if k < key.len() {
                assert(l[k] == key[k]);
            } else if k > key.len() {
                assert(l[k] == vals[i][k - key.len() - 1]);
            }
        }
    }
    assert(text.subrange(0, text.len() as int) =~= text);
    lemma_lines_of_joined(text, 0, ls);
    let spans = line_spans(ls, 0);
    assert(line_ranges(text) == spans);
    assert(keys[0].len() != keys[1].len() && keys[0].len() != keys[2].len() && keys[1].len()
        != keys[2].len());
    assert forall|i: int| 0 <= i < n + 2 implies #[trigger] is_pair_at(
        text,
        spans,
        line_keys,
        vals,
        keys,
        i,
    ) by {
        let sp = line_spans(ls, 0)[i];
        assert(0 <= sp.0 <= sp.1 <= text.len() && text.subrange(sp.0, sp.1) == ls[i]);
        assert(ls[i] == pair_line(keys[line_keys[i]], vals[i]));
        let key = keys[line_keys[i]];
        assert(key.len() > 0);
        assert forall|k: int| 0 <= k < key.len() implies #[trigger] key[k] != '=' by {}
    }
    let repeatable = seq![false, false, true];
    lemma_pair_scan(text, spans, keys, repeatable, line_keys, vals, n + 2);
    lemma_pair_slots_header_rows(spans, line_keys, keys, n + 2);
    let slots = pair_slots(spans, line_keys, keys, n + 2);
    assert(spans.len() == n + 2);
    lemma_pair_split_at(text, spans, line_keys, vals, keys, 0);
    lemma_pair_split_at(text, spans, line_keys, vals, keys, 1);
    let r1 = slots[1][0];
    lemma_parse_decimal(text, r1.0, n, usize::MAX as nat);
    assert(single_value(slots, 1) == Some(r1));
    assert(slot_text(text, slots, 0) == Some(SCRIPTED_AGENT_OPERATIONAL_LOG_SCHEMA@));
    assert(line_key(text, spans, 0) == Some("schema"@));
    assert(line_key(text, spans, 1) == Some("entries"@));
    assert forall|i: int| 2 <= i < spans.len() implies line_key(text, spans, i) == Some("event"@) by {
        lemma_pair_split_at(text, spans, line_keys, vals, keys, i);
    }
    let rows = slots[2];
    assert forall|i: int| 0 <= i < rows.len() implies 0 <= (#[trigger] rows[i]).0 <= rows[i].1
        <= text.len() && text.subrange(rows[i].0, rows[i].1) == event_id(events[i]) by {
        lemma_pair_split_at(text, spans, line_keys, vals, keys, i + 2);
        assert(vals[i + 2] == event_id(events[i]));
    }
    lemma_events_from_spans(text, rows, events, n);
    assert(rows.take(n as int) =~= rows);
    assert(events.take(n as int) =~= events);
}

impl Default for ScriptedAgentOperationalLog {
    fn default() -> (r: Self)
        ensures
            r@.len() == 0,
    {
        Self::new()
    }
}

impl Clone for ScriptedAgentOperationalLog {
    fn clone(&self) -> (r: Self)
        ensures
            r@ == self@,
    {
        proof {
            use_type_invariant(self);
        }
        let mut entries: Vec<ScriptedAgentOperationalEventRecord> = Vec::new();
        let mut i: usize = 0;
        while i < self.entries.len()
            invariant
                i <= self.entries@.len() <= MAX_SCRIPTED_AGENT_OPERATIONAL_EVENTS,
                entries@ == self.entries@.subrange(0, i as int),
            decreases self.entries@.len() - i,
        {
            entries.push(self.entries[i]);
            i = i + 1;
            assert(entries@ =~= self.entries@.subrange(0, i as int));
        }
        assert(entries@ =~= self.entries@);
        ScriptedAgentOperationalLog { entries }
    }
}

impl ScriptedAgentOperationalLog {
    /// A log never holds more than the event cap.
    #[verifier::type_invariant]
    spec fn bounded(self) -> bool {
        self.entries@.len() <= MAX_SCRIPTED_AGENT_OPERATIONAL_EVENTS
    }

    pub fn new() -> (r: Self)
        ensures
            r@.len() == 0,
    {
        ScriptedAgentOperationalLog { entries: Vec::new() }
    }

    pub fn schema(&self) -> (r: &'static str)
        ensures
            r@ == SCRIPTED_AGENT_OPERATIONAL_EVENT_SCHEMA@,
    {
        SCRIPTED_AGENT_OPERATIONAL_EVENT_SCHEMA
    }

    /// Append one event unless the log is at capacity.
    pub fn append(&mut self, event: ScriptedAgentOperationalEvent) -> (r: Result<
        (),
        ScriptedAgentOperationalLogError,
    >)
        ensures
            old(self)@.len() <= MAX_SCRIPTED_AGENT_OPERATIONAL_EVENTS,
            final(self)@.len() <= MAX_SCRIPTED_AGENT_OPERATIONAL_EVENTS,
            old(self)@.len() == MAX_SCRIPTED_AGENT_OPERATIONAL_EVENTS ==> r == Err::<
                (),
                ScriptedAgentOperationalLogError,
            >(
                ScriptedAgentOperationalLogError::CapacityExceeded {
                    max: MAX_SCRIPTED_AGENT_OPERATIONAL_EVENTS,
                },
            ) && final(self)@ == old(self)@,
            old(self)@.len() != MAX_SCRIPTED_AGENT_OPERATIONAL_EVENTS ==> r is Ok && final(self)@
                == old(self)@.push(event),
    {
        proof {
            use_type_invariant(&*self);
        }
        if self.entries.len() == MAX_SCRIPTED_AGENT_OPERATIONAL_EVENTS {
            return Err(
                ScriptedAgentOperationalLogError::CapacityExceeded {
                    max: MAX_SCRIPTED_AGENT_OPERATIONAL_EVENTS,
                },
            );
        }
        let mut entries: Vec<ScriptedAgentOperationalEventRecord> = Vec::new();
        std::mem::swap(&mut entries, &mut self.entries);
        entries.push(ScriptedAgentOperationalEventRecord::new(event));
        assert(events_of(entries@) =~= events_of(old(self).entries@).push(event));
        self.entries = entries;
        Ok(())
    }

    pub fn is_empty(&self) -> (r: bool)
        ensures
            r == (self@.len() == 0),
    {
        self.entries.len() == 0
    }

    pub fn len(&self) -> (r: usize)
        ensures
            r == self@.len(),
            r <= MAX_SCRIPTED_AGENT_OPERATIONAL_EVENTS,
    {
        proof {
            use_type_invariant(self);
        }
        self.entries.len()
    }

    pub fn entries(&self) -> (r: &[ScriptedAgentOperationalEventRecord])
        ensures
            events_of(r@) == self@,
            r@.len() <= MAX_SCRIPTED_AGENT_OPERATIONAL_EVENTS,
    {
        proof {
            use_type_invariant(self);
        }
        self.entries.as_slice()
    }

    /// Encode the bounded payload-free event log as canonical text.
    pub fn encode(&self) -> (r: String)
        ensures
            r@ == log_text(self@),
            is_ascii_chars(r@),
            r@.len() <= MAX_SCRIPTED_AGENT_OPERATIONAL_LOG_BYTES,
    {
        proof {
            use_type_invariant(self);
            lemma_log_text_reads_back(self@);
        }
        let mut out = String::new();
        push_str(&mut out, "schema=");
        push_str(&mut out, SCRIPTED_AGENT_OPERATIONAL_LOG_SCHEMA);
        push_str(&mut out, "\nentries=");
        push_decimal(&mut out, self.entries.len() as u64);
        push_str(&mut out, "\n");
        let ghost head = out@;
        let mut i: usize = 0;
        while i < self.entries.len()
            invariant
                i <= self.entries@.len(),
                out@ == head + event_lines(events_of(self.entries@.subrange(0, i as int))),
            decreases self.entries@.len() - i,
        {
            push_str(&mut out, "event=");
            push_str(&mut out, self.entries[i].event.id());
            push_str(&mut out, "\n");
            let ghost prefix = events_of(self.entries@.subrange(0, i + 1));
            assert(prefix.drop_last() =~= events_of(self.entries@.subrange(0, i as int)));
            i = i + 1;
        }
        assert(self.entries@.subrange(0, self.entries@.len() as int) =~= self.entries@);
        out
    }

    /// Decode and validate one bounded payload-free event log.
    pub fn decode(input: &str) -> (r: Result<Self, ScriptedAgentOperationalLogCodecError>)
        ensures
            match r {
                Ok(log) => log_decode(input@, input.len() as nat) == Ok::<
                    Seq<ScriptedAgentOperationalEvent>,
                    ScriptedAgentOperationalLogCodecError,
                >(log@),
                Err(e) => log_decode(input@, input.len() as nat) == Err::<
                    Seq<ScriptedAgentOperationalEvent>,
                    ScriptedAgentOperationalLogCodecError,
                >(e),
            },
    {
        if input.len() > MAX_SCRIPTED_AGENT_OPERATIONAL_LOG_BYTES {
            return Err(ScriptedAgentOperationalLogCodecError::Oversized);
        }
        let s = str_to_chars(input);
        let lines = lines(&s);
        let ghost lv = range_seq(lines@);
        assert(lv =~= line_ranges(s@));
        if lines.len() > MAX_SCRIPTED_AGENT_OPERATIONAL_EVENTS + 2 {
            return Err(
                ScriptedAgentOperationalLogCodecError::UnexpectedLineCount {
                    expected: MAX_SCRIPTED_AGENT_OPERATIONAL_EVENTS + 2,
                    actual: lines.len(),
                },
            );
        }
        let keys = ["schema", "entries", "event"];
        proof {
            reveal_strlit("schema");
            reveal_strlit("entries");
            reveal_strlit("event");
            assert(key_seq(keys@) =~= log_keys());
            assert(log_keys()[0].len() != log_keys()[1].len());
            assert(log_keys()[0].len() != log_keys()[2].len());
            assert(log_keys()[1].len() != log_keys()[2].len());
        }
        let repeatable = [false, false, true];
        assert(repeatable@ =~= seq![false, false, true]);
        let slots = match scan_fields(&s, &lines, &keys, &repeatable) {
            Ok(slots) => slots,
            Err(ScanError::Invalid) => {
                return Err(ScriptedAgentOperationalLogCodecError::InvalidValue);
            },
            Err(ScanError::Unknown) => {
                return Err(ScriptedAgentOperationalLogCodecError::UnknownField);
            },
            Err(ScanError::Duplicate) => {
                return Err(ScriptedAgentOperationalLogCodecError::DuplicateField);
            },
        };
        let ghost sl = slots_view(slots@);
        if !slot_is(&s, &slots, 0, SCRIPTED_AGENT_OPERATIONAL_LOG_SCHEMA) {
            return Err(ScriptedAgentOperationalLogCodecError::UnsupportedSchema);
        }
        if slots[1].len() == 0 {
            return Err(ScriptedAgentOperationalLogCodecError::MissingField);
        }
        let (ca, cb) = slots[1][0];
        assert(sl[1][0] == (ca as int, cb as int));
        let count = match parse_number(&s, ca, cb, usize::MAX as u64) {
            Some(v) => v as usize,
            None => {
                return Err(ScriptedAgentOperationalLogCodecError::InvalidValue);
            },
        };
        if count > MAX_SCRIPTED_AGENT_OPERATIONAL_EVENTS {
            return Err(ScriptedAgentOperationalLogCodecError::InvalidValue);
        }
        let expected_lines = 2 + count;
        if lines.len() != expected_lines || slots[2].len() != count {
            return Err(
                ScriptedAgentOperationalLogCodecError::UnexpectedLineCount {
                    expected: expected_lines,
                    actual: lines.len(),
                },
            );
        }
        if !line_key_is(&s, &lines, 0, "schema") || !line_key_is(&s, &lines, 1, "entries") {
            return Err(ScriptedAgentOperationalLogCodecError::InvalidValue);
        }
        if !event_keys_from(&s, &lines, 2) {
            return Err(ScriptedAgentOperationalLogCodecError::InvalidValue);
        }
        let entries = match parse_events(&s, &slots[2]) {
            Some(entries) => entries,
            None => {
                return Err(ScriptedAgentOperationalLogCodecError::InvalidValue);
            },
        };
        Ok(ScriptedAgentOperationalLog { entries })
    }
}

/// Whether every line from `start` on has the key `event`.
fn event_keys_from(s: &Vec<char>, lines: &Vec<(usize, usize)>, start: usize) -> (r: bool)
    requires
        forall|k: int| 0 <= k < lines@.len() ==> (#[trigger] lines@[k]).0 <= lines@[k].1 <= s@.len(),
    ensures
        r == !(exists|i: int|
            start <= i < lines@.len() && line_key(s@, range_seq(lines@), i) != Some("event"@)),
{
    let mut i: usize = start;
    while i < lines.len()
        invariant
            start <= i || i == start,
            forall|k: int| 0 <= k < lines@.len() ==> (#[trigger] lines@[k]).0 <= lines@[k].1
                <= s@.len(),
            forall|k: int| start <= k < i ==> line_key(s@, range_seq(lines@), k) == Some("event"@),
        decreases lines@.len() - i,
    {
        if !line_key_is(s, lines, i, "event") {
            return false;
        }
        i = i + 1;
    }
    true
}

/// The event records named by value ranges, if every one names an event.
fn parse_events(s: &Vec<char>, ranges: &Vec<(usize, usize)>) -> (r: Option<
    Vec<ScriptedAgentOperationalEventRecord>,
>)
    requires
        forall|m: int| 0 <= m < ranges@.len() ==> (#[trigger] ranges@[m]).0 <= ranges@[m].1
            <= s@.len(),
    ensures
        match r {
            Some(entries) => events_from_ranges(s@, range_seq(ranges@)) == Some(events_of(entries@))
                && entries@.len() == ranges@.len(),
            None => events_from_ranges(s@, range_seq(ranges@)) is None,
        },
{
    let ghost rv = range_seq(ranges@);
    let mut entries: Vec<ScriptedAgentOperationalEventRecord> = Vec::new();
    let mut k: usize = 0;
    while k < ranges.len()
        invariant
            k <= ranges@.len(),
            rv == range_seq(ranges@),
            entries@.len() == k,
            forall|m: int| 0 <= m < ranges@.len() ==> (#[trigger] ranges@[m]).0 <= ranges@[m].1
                <= s@.len(),
            events_from_ranges(s@, rv.subrange(0, k as int)) == Some(events_of(entries@)),
        decreases ranges@.len() - k,
    {
        let (a, b) = ranges[k];
        assert(rv[k as int] == (a as int, b as int));
        assert(rv.subrange(0, k + 1).drop_last() =~= rv.subrange(0, k as int));
        match ScriptedAgentOperationalEvent::parse_id_range(s, a, b) {
            Some(e) => {
                let ghost before = entries@;
                entries.push(ScriptedAgentOperationalEventRecord::new(e));
                assert(events_of(entries@) =~= events_of(before).push(e));
            },
            None => {
                proof {
                    lemma_events_from_ranges_none(s@, rv, (k + 1) as int);
                }
                return None;
            },
        }
        k = k + 1;
    }
    assert(rv.subrange(0, rv.len() as int) =~= rv);
    Some(entries)
}

/// Once a range names no event, no longer list of ranges decodes.
pub proof fn lemma_events_from_ranges_none(s: Seq<char>, ranges: Seq<(int, int)>, k: int)
    requires
        0 < k <= ranges.len(),
        events_from_ranges(s, ranges.subrange(0, k)) is None,
    ensures
        events_from_ranges(s, ranges) is None,
    decreases ranges.len() - k,
{
    if k < ranges.len() {
        assert(ranges.subrange(0, k + 1).drop_last() =~= ranges.subrange(0, k));
        lemma_events_from_ranges_none(s, ranges, k + 1);
    } else {
        assert(ranges.subrange(0, k) =~= ranges);
    }
}

/// Whether the key of line `i` spells `lit`.
fn line_key_is(s: &Vec<char>, lines: &Vec<(usize, usize)>, i: usize, lit: &str) -> (r: bool)
    requires
        i < lines@.len(),
        forall|k: int| 0 <= k < lines@.len() ==> (#[trigger] lines@[k]).0 <= lines@[k].1 <= s@.len(),
    ensures
        r == (line_key(s@, range_seq(lines@), i as int) == Some(lit@)),
{
    let (a, b) = lines[i];
    assert(range_seq(lines@)[i as int] == (a as int, b as int));
    match split_pair(s, a, b) {
        Some(j) => range_eq_str(s, a, j, lit),
        None => false,
    }
}

/// Closed statuses for the required operational lifecycle sequence.
#[derive(Clone, Copy, Debug, PartialEq, Eq, Hash, Structural)]
pub enum ScriptedAgentOperationalLogSequenceStatus {
    Complete,
    MissingStart,
    MissingChunk,
    MissingFinish,
    InvalidOrder,
}

/// The identity of a sequence status.
pub open spec fn sequence_status_id(s: ScriptedAgentOperationalLogSequenceStatus) -> Seq<char> {
    match s {
        ScriptedAgentOperationalLogSequenceStatus::Complete => "complete"@,
        ScriptedAgentOperationalLogSequenceStatus::MissingStart => "missing_start"@,
        ScriptedAgentOperationalLogSequenceStatus::MissingChunk => "missing_chunk"@,
        ScriptedAgentOperationalLogSequenceStatus::MissingFinish => "missing_finish"@,
        ScriptedAgentOperationalLogSequenceStatus::InvalidOrder => "invalid_order"@,
    }
}

impl ScriptedAgentOperationalLogSequenceStatus {
    pub fn id(self) -> (r: &'static str)
        ensures
            r@ == sequence_status_id(self),
    {
        match self {
            ScriptedAgentOperationalLogSequenceStatus::Complete => "complete",
            ScriptedAgentOperationalLogSequenceStatus::MissingStart => "missing_start",
            ScriptedAgentOperationalLogSequenceStatus::MissingChunk => "missing_chunk",
            ScriptedAgentOperationalLogSequenceStatus::MissingFinish => "missing_finish",
            ScriptedAgentOperationalLogSequenceStatus::InvalidOrder => "invalid_order",
        }
    }
}

/// The lifecycle phase after one more event: 0 before the start, 1 after the
/// start, 2 after a chunk, 3 after the finish, 4 once the order is broken.
pub open spec fn next_phase(phase: nat, event: ScriptedAgentOperationalEvent) -> nat {
    if phase == 0 {
        if event == ScriptedAgentOperationalEvent::BatchStarted {
            1
        } else {
            4
        }
    } else if phase == 1 {
        if event == ScriptedAgentOperationalEvent::ChunkCompleted {
            2
        } else {
            4
        }
    } else if phase == 2 {
        if event == ScriptedAgentOperationalEvent::BatchFinished {
            3
        } else if event == ScriptedAgentOperationalEvent::CheckpointSaved || event
            == ScriptedAgentOperationalEvent::BatchResumed {
            2
        } else {
            4
        }
    } else {
        4
    }
}

/// The lifecycle phase after the first `n` events.
pub open spec fn sequence_phase(events: Seq<ScriptedAgentOperationalEvent>, n: int) -> nat
    decreases n,
{
    if n <= 0 {
        0
    } else {
        next_phase(sequence_phase(events, n - 1), events[n - 1])
    }
}

/// The status of a lifecycle phase.
pub open spec fn status_of_phase(phase: nat) -> ScriptedAgentOperationalLogSequenceStatus {
    if phase == 0 {
        ScriptedAgentOperationalLogSequenceStatus::MissingStart
    } else if phase == 1 {
        ScriptedAgentOperationalLogSequenceStatus::MissingChunk
    } else if phase == 2 {
        ScriptedAgentOperationalLogSequenceStatus::MissingFinish
    } else if phase == 3 {
        ScriptedAgentOperationalLogSequenceStatus::Complete
    } else {
        ScriptedAgentOperationalLogSequenceStatus::InvalidOrder
    }
}

/// The lifecycle status of an event list.
pub open spec fn sequence_status(events: Seq<ScriptedAgentOperationalEvent>) -> ScriptedAgentOperationalLogSequenceStatus {
    status_of_phase(sequence_phase(events, events.len() as int))
}

/// Pure sequence status over one caller-declared operational log.
#[derive(Clone, Copy, Debug, PartialEq, Eq, Hash, Structural)]
pub struct ScriptedAgentOperationalLogSequenceReport {
    status: ScriptedAgentOperationalLogSequenceStatus,
}

impl View for ScriptedAgentOperationalLogSequenceReport {
    type V = ScriptedAgentOperationalLogSequenceStatus;

    /// The status the report records.
    closed spec fn view(&self) -> ScriptedAgentOperationalLogSequenceStatus {
        self.status
    }
}

impl ScriptedAgentOperationalLogSequenceReport {
    /// Classify the fixed lifecycle without mutating or producing events.
    pub fn from_log(log: &ScriptedAgentOperationalLog) -> (r: Self)
        ensures
            r@ == sequence_status(log@),
    {
        let mut phase: u8 = 0;
        let mut i: usize = 0;
        while i < log.entries.len()
            invariant
                i <= log@.len(),
                log@.len() == log.entries@.len(),
                phase as nat == sequence_phase(log@, i as int),
                phase <= 4,
            decreases log@.len() - i,
        {
            let event = log.entries[i].event;
            assert(log@[i as int] == event);
            phase = if phase == 0 {
                if event == ScriptedAgentOperationalEvent::BatchStarted {
                    1
                } else {
                    4
                }
            } else if phase == 1 {
                if event == ScriptedAgentOperationalEvent::ChunkCompleted {
                    2
                } else {
                    4
                }
            } else if phase == 2 {
                if event == ScriptedAgentOperationalEvent::BatchFinished {
                    3
                } else if event == ScriptedAgentOperationalEvent::CheckpointSaved || event
                    == ScriptedAgentOperationalEvent::BatchResumed {
                    2
                } else {
                    4
                }
            } else {
                4
            };
            i = i + 1;
        }
        let status = if phase == 0 {
            ScriptedAgentOperationalLogSequenceStatus::MissingStart
        } else if phase == 1 {
            ScriptedAgentOperationalLogSequenceStatus::MissingChunk
        } else if phase == 2 {
            ScriptedAgentOperationalLogSequenceStatus::MissingFinish
        } else if phase == 3 {
            ScriptedAgentOperationalLogSequenceStatus::Complete
        } else {
            ScriptedAgentOperationalLogSequenceStatus::InvalidOrder
        };
        ScriptedAgentOperationalLogSequenceReport { status }
    }

    pub fn schema(self) -> (r: &'static str)
        ensures
            r@ == SCRIPTED_AGENT_OPERATIONAL_LOG_SEQUENCE_SCHEMA@,
    {
        SCRIPTED_AGENT_OPERATIONAL_LOG_SEQUENCE_SCHEMA
    }

    pub fn rule(self) -> (r: &'static str)
        ensures
            r@ == SCRIPTED_AGENT_OPERATIONAL_LOG_SEQUENCE_RULE@,
    {
        SCRIPTED_AGENT_OPERATIONAL_LOG_SEQUENCE_RULE
    }

    pub fn status(self) -> (r: ScriptedAgentOperationalLogSequenceStatus)
        ensures
            r == self@,
    {
        self.status
    }
}

} // verus!
