//! The result of one execution: what was answered, and how the calls of
//! tools went.

use vstd::prelude::*;
use crate::provider::FunctionResult;
use crate::text::{append, byte_len, byte_length, decimal_text, same_text, unsigned_text};
use crate::types::diagnosis::{moment, moment_text};

verus! {

/// How an execution ended.
#[derive(Debug, Clone, Copy, PartialEq, Eq, Structural)]
pub enum ExecutionStatus {
    /// Everything succeeded.
    Success,
    /// Nothing succeeded.
    Failed,
    /// Some calls succeeded and some failed.
    Partial,
    /// The time ran out.
    Timeout,
    /// The execution was called off.
    Cancelled,
}

impl ExecutionStatus {
    /// The name of the status.
    pub open spec fn name_text(self) -> Seq<char> {
        match self {
            ExecutionStatus::Success => "Success"@,
            ExecutionStatus::Failed => "Failed"@,
            ExecutionStatus::Partial => "Partial"@,
            ExecutionStatus::Timeout => "Timeout"@,
            ExecutionStatus::Cancelled => "Cancelled"@,
        }
    }

    /// The name of the status.
    pub fn name(&self) -> (r: &'static str)
        ensures
            r@ == self.name_text(),
    {
        match self {
            ExecutionStatus::Success => "Success",
            ExecutionStatus::Failed => "Failed",
            ExecutionStatus::Partial => "Partial",
            ExecutionStatus::Timeout => "Timeout",
            ExecutionStatus::Cancelled => "Cancelled",
        }
    }
}

/// A note under a name.
#[derive(Debug, Clone, PartialEq)]
pub struct Metadata {
    pub key: String,
    pub value: String,
}

/// The result of one execution.
#[derive(Debug, Clone, PartialEq)]
pub struct ExecutionResult {
    /// What was answered.
    pub content: String,
    /// The results of the calls of tools, in order.
    pub tool_calls: Vec<FunctionResult>,
    /// When the execution took place, in seconds since 1970.
    pub timestamp: i64,
    pub status: ExecutionStatus,
    /// Notes, each name once.
    pub metadata: Vec<Metadata>,
}

/// How many of the calls reported no error.
pub open spec fn succeeded(calls: Seq<FunctionResult>) -> nat
    decreases calls.len(),
{
    if calls.len() == 0 {
        0
    } else {
        succeeded(calls.drop_last()) + if calls.last().error is None {
            1nat
        } else {
            0nat
        }
    }
}

/// Each call either succeeded or failed.
pub proof fn lemma_succeeded_bound(calls: Seq<FunctionResult>)
    ensures
        succeeded(calls) <= calls.len(),
    decreases calls.len(),
{
    if calls.len() > 0 {
        lemma_succeeded_bound(calls.drop_last());
    }
}

/// How many of the calls reported an error.
pub open spec fn failed(calls: Seq<FunctionResult>) -> nat {
    (calls.len() - succeeded(calls)) as nat
}

/// The status that the calls of tools give an execution: success where
/// none failed, failure where some failed and none succeeded, and a
/// partial success otherwise.
pub open spec fn status_of(calls: Seq<FunctionResult>) -> ExecutionStatus {
    if failed(calls) == 0 {
        ExecutionStatus::Success
    } else if succeeded(calls) == 0 {
        ExecutionStatus::Failed
    } else {
        ExecutionStatus::Partial
    }
}

/// The first place at or after `from` whose note is named `key`, or the
/// length.
pub open spec fn note_position(notes: Seq<Metadata>, key: Seq<char>, from: int) -> int
    decreases notes.len() - from,
{
    if 0 <= from < notes.len() && notes[from].key@ != key {
        note_position(notes, key, from + 1)
    } else {
        from
    }
}

/// The names and the texts of a list of notes.
pub open spec fn note_views(notes: Seq<Metadata>) -> Seq<(Seq<char>, Seq<char>)> {
    Seq::new(notes.len(), |i: int| (notes[i].key@, notes[i].value@))
}

/// The first place at or after `from` whose pair is named `key`, or the
/// length.
pub open spec fn key_position(pairs: Seq<(Seq<char>, Seq<char>)>, key: Seq<char>, from: int) -> int
    decreases pairs.len() - from,
{
    if 0 <= from < pairs.len() && pairs[from].0 != key {
        key_position(pairs, key, from + 1)
    } else {
        from
    }
}

/// The notes with `value` under `key`: in place of the first note of that
/// name, or at the end where there is none.
pub open spec fn with_note(pairs: Seq<(Seq<char>, Seq<char>)>, key: Seq<char>, value: Seq<char>)
    -> Seq<(Seq<char>, Seq<char>)> {
    let at = key_position(pairs, key, 0);
    if at < pairs.len() {
        pairs.update(at, (key, value))
    } else {
        pairs.push((key, value))
    }
}

/// The notes with the first `n` of `given` noted one after the other.
pub open spec fn with_notes(
    pairs: Seq<(Seq<char>, Seq<char>)>,
    given: Seq<(Seq<char>, Seq<char>)>,
    n: int,
) -> Seq<(Seq<char>, Seq<char>)>
    decreases n,
{
    if n <= 0 || n > given.len() {
        pairs
    } else {
        with_note(with_notes(pairs, given, n - 1), given[n - 1].0, given[n - 1].1)
    }
}

/// A name stands at the same place among notes and among their views.
pub proof fn lemma_key_position(notes: Seq<Metadata>, key: Seq<char>, from: int)
    ensures
        key_position(note_views(notes), key, from) == note_position(notes, key, from),
    decreases notes.len() - from,
{
    if 0 <= from < notes.len() && notes[from].key@ != key {
        lemma_key_position(notes, key, from + 1);
    }
}

/// The seconds from `start` to `now`, and none where `now` is earlier.
pub open spec fn elapsed(start: i64, now: i64) -> nat {
    if now >= start {
        (now - start) as nat
    } else {
        0
    }
}

/// The seconds from `start` to `now`, and none where `now` is earlier.
pub fn seconds_between(start: i64, now: i64) -> (r: u64)
    ensures
        r == elapsed(start, now),
{
    if now >= start {
        ((now as i128) - (start as i128)) as u64
    } else {
        0
    }
}

impl ExecutionResult {
    /// The summary of the result in one line.
    pub open spec fn summary_text(self) -> Seq<char> {
        "Status: "@ + self.status.name_text() + ", Tool calls: "@ + decimal_text(
            self.tool_calls@.len(),
        ) + " ("@ + decimal_text(succeeded(self.tool_calls@)) + " success, "@ + decimal_text(
            failed(self.tool_calls@),
        ) + " failed), Content length: "@ + decimal_text(byte_length(self.content@))
    }

    /// A successful result without calls, for the moment `timestamp`.
    pub fn new(content: String, timestamp: i64) -> (r: Self)
        ensures
            r.content == content,
            r.tool_calls@.len() == 0,
            r.timestamp == timestamp,
            r.status == ExecutionStatus::Success,
            r.metadata@.len() == 0,
    {
        ExecutionResult {
            content,
            tool_calls: Vec::new(),
            timestamp,
            status: ExecutionStatus::Success,
            metadata: Vec::new(),
        }
    }

    /// The result with the given calls, and with the status that they give.
    pub fn with_tool_calls(self, tool_calls: Vec<FunctionResult>) -> (r: Self)
        ensures
            r.tool_calls == tool_calls,
            r.status == status_of(tool_calls@),
            r.content == self.content,
            r.timestamp == self.timestamp,
            r.metadata == self.metadata,
    {
        let mut r = self;
        r.tool_calls = tool_calls;
        r.update_status_from_tool_calls();
        r
    }

    /// The result with the given status.
    pub fn with_status(self, status: ExecutionStatus) -> (r: Self)
        ensures
            r.status == status,
            r.tool_calls == self.tool_calls,
            r.content == self.content,
            r.timestamp == self.timestamp,
            r.metadata == self.metadata,
    {
        let mut r = self;
        r.status = status;
        r
    }

    /// The result with `value` noted under `key`, in place of an earlier
    /// note of that name.
    pub fn with_metadata(self, key: String, value: String) -> (r: Self)
        ensures
            r.status == self.status,
            r.tool_calls == self.tool_calls,
            r.content == self.content,
            r.timestamp == self.timestamp,
            ({
                let at = note_position(self.metadata@, key@, 0);
                let note = Metadata { key, value };
                if at < self.metadata@.len() {
                    r.metadata@ == self.metadata@.update(at, note)
                } else {
                    r.metadata@ == self.metadata@.push(note)
                }
            }),
            note_views(r.metadata@) == with_note(note_views(self.metadata@), key@, value@),
    {
        let mut r = self;
        let mut i: usize = 0;
        while i < r.metadata.len()
            invariant
                0 <= i <= r.metadata@.len(),
                r == self,
                note_position(r.metadata@, key@, i as int) == note_position(r.metadata@, key@, 0),
            decreases r.metadata@.len() - i,
        {
            if same_text(r.metadata[i].key.as_str(), key.as_str()) {
                proof {
                    lemma_key_position(self.metadata@, key@, 0);
                }
                r.metadata.set(i, Metadata { key, value });
                assert(note_views(r.metadata@) =~= note_views(self.metadata@).update(
                    i as int,
                    (key@, value@),
                ));
                return r;
            }
            i += 1;
        }
        proof {
            lemma_key_position(self.metadata@, key@, 0);
        }
        r.metadata.push(Metadata { key, value });
        assert(note_views(r.metadata@) =~= note_views(self.metadata@).push((key@, value@)));
        r
    }

    /// The note under `key`.
    pub fn metadata_value(&self, key: &str) -> (r: Option<&String>)
        ensures
            ({
                let at = note_position(self.metadata@, key@, 0);
                if at < self.metadata@.len() {
                    r == Some(&self.metadata@[at].value)
                } else {
                    r is None
                }
            }),
    {
        let mut i: usize = 0;
        while i < self.metadata.len()
            invariant
                0 <= i <= self.metadata@.len(),
                note_position(self.metadata@, key@, i as int) == note_position(
                    self.metadata@,
                    key@,
                    0,
                ),
            decreases self.metadata@.len() - i,
        {
            if same_text(self.metadata[i].key.as_str(), key) {
                return Some(&self.metadata[i].value);
            }
            i += 1;
        }
        None
    }

    /// Whether the status is success.
    pub fn is_success(&self) -> (r: bool)
        ensures
            r == (self.status == ExecutionStatus::Success),
    {
        match self.status {
            ExecutionStatus::Success => true,
            _ => false,
        }
    }

    /// Whether the status is failure.
    pub fn is_failed(&self) -> (r: bool)
        ensures
            r == (self.status == ExecutionStatus::Failed),
    {
        match self.status {
            ExecutionStatus::Failed => true,
            _ => false,
        }
    }

    /// How many of the calls reported no error.
    pub fn successful_tool_calls_count(&self) -> (n: usize)
        ensures
            n == succeeded(self.tool_calls@),
    {
        let mut n: usize = 0;
        let mut i: usize = 0;
        assert(self.tool_calls@.take(0) =~= Seq::<FunctionResult>::empty());
        while i < self.tool_calls.len()
            invariant
                0 <= i <= self.tool_calls@.len(),
                n == succeeded(self.tool_calls@.take(i as int)),
            decreases self.tool_calls@.len() - i,
        {
            proof {
                let all = self.tool_calls@;
                assert(all.take(i + 1).drop_last() =~= all.take(i as int));
                assert(all.take(i + 1).last() == all[i as int]);
                lemma_succeeded_bound(all.take(i as int));
            }
            if self.tool_calls[i].error.is_none() {
                n += 1;
            }
            i += 1;
        }
        assert(self.tool_calls@.take(self.tool_calls@.len() as int) =~= self.tool_calls@);
        n
    }

    /// How many of the calls reported an error.
    pub fn failed_tool_calls_count(&self) -> (n: usize)
        ensures
            n == failed(self.tool_calls@),
    {
        proof {
            lemma_succeeded_bound(self.tool_calls@);
        }
        self.tool_calls.len() - self.successful_tool_calls_count()
    }

    /// Sets the status that the calls give.
    fn update_status_from_tool_calls(&mut self)
        ensures
            final(self).status == status_of(old(self).tool_calls@),
            final(self).tool_calls == old(self).tool_calls,
            final(self).content == old(self).content,
            final(self).timestamp == old(self).timestamp,
            final(self).metadata == old(self).metadata,
    {
        proof {
            lemma_succeeded_bound(self.tool_calls@);
        }
        let success_count = self.successful_tool_calls_count();
        let failed_count = self.failed_tool_calls_count();
        if failed_count == 0 {
            self.status = ExecutionStatus::Success;
        } else if success_count == 0 {
            self.status = ExecutionStatus::Failed;
        } else {
            self.status = ExecutionStatus::Partial;
        }
    }

    /// The seconds from the result's moment to `now`.
    pub fn duration_since(&self, now: i64) -> (r: u64)
        ensures
            r == elapsed(self.timestamp, now),
    {
        seconds_between(self.timestamp, now)
    }

    /// The result's moment in universal time.
    pub fn formatted_timestamp(&self) -> (out: String)
        ensures
            out@ == moment_text(self.timestamp),
    {
        moment(self.timestamp)
    }

    /// The summary of the result in one line.
    pub fn summary(&self) -> (out: String)
        ensures
            out@ == self.summary_text(),
    {
        let mut out = String::new();
        append(&mut out, "Status: ");
        append(&mut out, self.status.name());
        append(&mut out, ", Tool calls: ");
        let calls = unsigned_text(self.tool_calls.len() as u64);
        append(&mut out, calls.as_str());
        append(&mut out, " (");
        let good = unsigned_text(self.successful_tool_calls_count() as u64);
        append(&mut out, good.as_str());
        append(&mut out, " success, ");
        let bad = unsigned_text(self.failed_tool_calls_count() as u64);
        append(&mut out, bad.as_str());
        append(&mut out, " failed), Content length: ");
        let bytes = byte_len(self.content.as_str());
        let length = unsigned_text(bytes as u64);
        append(&mut out, length.as_str());
        assert(out@ =~= self.summary_text());
        out
    }
}

/// A builder of results.
#[derive(Debug, Clone, PartialEq)]
pub struct ExecutionResultBuilder {
    content: String,
    tool_calls: Vec<FunctionResult>,
    timestamp: Option<i64>,
    status: Option<ExecutionStatus>,
    metadata: Vec<Metadata>,
}

impl ExecutionResultBuilder {
    /// What has been given for the content.
    pub closed spec fn content_text(&self) -> Seq<char> {
        self.content@
    }

    /// The calls that have been given.
    pub closed spec fn calls(&self) -> Seq<FunctionResult> {
        self.tool_calls@
    }

    /// The status that has been given, if any.
    pub closed spec fn chosen_status(&self) -> Option<ExecutionStatus> {
        self.status
    }

    /// The moment that has been given, if any.
    pub closed spec fn chosen_timestamp(&self) -> Option<i64> {
        self.timestamp
    }

    /// The notes that have been given, in order.
    pub closed spec fn notes(&self) -> Seq<Metadata> {
        self.metadata@
    }

    /// A builder to which nothing has been given.
    pub fn new() -> (r: Self)
        ensures
            r.content_text().len() == 0,
            r.calls().len() == 0,
            r.chosen_status() is None,
            r.chosen_timestamp() is None,
            r.notes().len() == 0,
    {
        ExecutionResultBuilder {
            content: String::new(),
            tool_calls: Vec::new(),
            timestamp: None,
            status: None,
            metadata: Vec::new(),
        }
    }

    /// Gives the content.
    pub fn content(self, content: String) -> (r: Self)
        ensures
            r.content_text() == content@,
            r.calls() == self.calls(),
            r.chosen_status() == self.chosen_status(),
            r.chosen_timestamp() == self.chosen_timestamp(),
            r.notes() == self.notes(),
    {
        let mut r = self;
        r.content = content;
        r
    }

    /// Gives one more call.
    pub fn add_tool_call(self, tool_call: FunctionResult) -> (r: Self)
        ensures
            r.calls() == self.calls().push(tool_call),
            r.content_text() == self.content_text(),
            r.chosen_status() == self.chosen_status(),
            r.chosen_timestamp() == self.chosen_timestamp(),
            r.notes() == self.notes(),
    {
        let mut r = self;
        r.tool_calls.push(tool_call);
        r
    }

    /// Gives the calls.
    pub fn tool_calls(self, tool_calls: Vec<FunctionResult>) -> (r: Self)
        ensures
            r.calls() == tool_calls@,
            r.content_text() == self.content_text(),
            r.chosen_status() == self.chosen_status(),
            r.chosen_timestamp() == self.chosen_timestamp(),
            r.notes() == self.notes(),
    {
        let mut r = self;
        r.tool_calls = tool_calls;
        r
    }

    /// Gives the moment.
    pub fn timestamp(self, timestamp: i64) -> (r: Self)
        ensures
            r.chosen_timestamp() == Some(timestamp),
            r.calls() == self.calls(),
            r.content_text() == self.content_text(),
            r.chosen_status() == self.chosen_status(),
            r.notes() == self.notes(),
    {
        let mut r = self;
        r.timestamp = Some(timestamp);
        r
    }

    /// Gives the status.
    pub fn status(self, status: ExecutionStatus) -> (r: Self)
        ensures
            r.chosen_status() == Some(status),
            r.calls() == self.calls(),
            r.content_text() == self.content_text(),
            r.chosen_timestamp() == self.chosen_timestamp(),
            r.notes() == self.notes(),
    {
        let mut r = self;
        r.status = Some(status);
        r
    }

    /// Gives one more note.
    pub fn metadata(self, key: String, value: String) -> (r: Self)
        ensures
            r.notes() == self.notes().push(Metadata { key, value }),
            r.calls() == self.calls(),
            r.content_text() == self.content_text(),
            r.chosen_status() == self.chosen_status(),
            r.chosen_timestamp() == self.chosen_timestamp(),
    {
        let mut r = self;
        r.metadata.push(Metadata { key, value });
        r
    }

    /// The result: the status that was given, or success where none was;
    /// the moment that was given, or `now` where none was; the notes that
    /// were given, a later one in place of an earlier one of its name.
    pub fn build(self, now: i64) -> (r: ExecutionResult)
        ensures
            r.content@ == self.content_text(),
            r.tool_calls@ == self.calls(),
            r.status == match self.chosen_status() {
                Some(s) => s,
                None => ExecutionStatus::Success,
            },
            r.timestamp == match self.chosen_timestamp() {
                Some(t) => t,
                None => now,
            },
            note_views(r.metadata@) == with_notes(
                Seq::empty(),
                note_views(self.notes()),
                self.notes().len() as int,
            ),
    {
        let status = match self.status {
            Some(s) => s,
            None => ExecutionStatus::Success,
        };
        let timestamp = match self.timestamp {
            Some(t) => t,
            None => now,
        };
        let mut result = ExecutionResult::new(self.content, timestamp).with_tool_calls(
            self.tool_calls,
        ).with_status(status);
        let notes = self.metadata;
        let ghost given = note_views(notes@);
        let mut i: usize = 0;
        assert(note_views(result.metadata@) =~= Seq::<(Seq<char>, Seq<char>)>::empty());
        while i < notes.len()
            invariant
                0 <= i <= notes@.len(),
                given == note_views(notes@),
                result.content@ == self.content_text(),
                result.tool_calls@ == self.calls(),
                result.status == status,
                result.timestamp == timestamp,
                note_views(result.metadata@) == with_notes(Seq::empty(), given, i as int),
            decreases notes@.len() - i,
        {
            assert(given[i as int] == (notes@[i as int].key@, notes@[i as int].value@));
            result = result.with_metadata(notes[i].key.clone(), notes[i].value.clone());
            i += 1;
        }
        result
    }
}

} // verus!
