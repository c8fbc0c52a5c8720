//! A text buffer that collects every log line.
use vstd::prelude::*;
use vstd::string::StringExecFns;

verus! {

/// The line that a log record becomes: `[level] message` and a line break.
pub open spec fn log_line(level: Seq<char>, message: Seq<char>) -> Seq<char> {
    "["@ + level + "] "@ + message + "\n"@
}

/// The text of a buffer that has recorded `records` (level and message), in order.
pub open spec fn log_text(records: Seq<(Seq<char>, Seq<char>)>) -> Seq<char>
    decreases records.len(),
{
    if records.len() == 0 {
        Seq::empty()
    } else {
        log_text(records.drop_last()) + log_line(records.last().0, records.last().1)
    }
}

/// A buffer holding the lines of `records` holds, after recording one more record,
/// the lines of all of them in order.
pub proof fn lemma_record_appends(records: Seq<(Seq<char>, Seq<char>)>, level: Seq<char>, message: Seq<char>)
    ensures
        log_text(records.push((level, message))) == log_text(records) + log_line(level, message),
{
    assert(records.push((level, message)).drop_last() =~= records);
}

/// A buffer that starts empty and records `records` one after the other (each
/// [`LogBuffer::record`] appending one line) holds, after any number `k` of them, the
/// lines of the first `k` records in order: `texts[k]` is the buffer's text after `k`
/// records.
pub proof fn lemma_records_accumulate(
    records: Seq<(Seq<char>, Seq<char>)>,
    texts: Seq<Seq<char>>,
)
    requires
        texts.len() == records.len() + 1,
        texts[0] == Seq::<char>::empty(),
        forall|i: int|
            0 <= i < records.len() ==> #[trigger] texts[i + 1] == texts[i] + log_line(
                records[i].0,
                records[i].1,
            ),
    ensures
        forall|k: int| 0 <= k <= records.len() ==> #[trigger] texts[k] == log_text(records.take(k)),
    decreases records.len(),
{
    if records.len() > 0 {
        let n = records.len() - 1;
        lemma_records_accumulate(records.take(n), texts.take(n + 1));
        assert forall|k: int| 0 <= k <= records.len() implies #[trigger] texts[k] == log_text(
            records.take(k),
        ) by {
            if k <= n {
                assert(texts.take(n + 1)[k] == texts[k]);
                assert(records.take(n).take(k) =~= records.take(k));
            } else {
                assert(texts.take(n + 1)[n] == texts[n]);
                assert(records.take(n).take(n) =~= records.take(n));
                assert(records.take(k).drop_last() =~= records.take(n));
                assert(records.take(k).last() == records[n]);
            }
        }
    }
}

/// All log lines written so far, as one text.
pub struct LogBuffer {
    text: String,
}

impl View for LogBuffer {
    type V = Seq<char>;

    closed spec fn view(&self) -> Seq<char> {
        self.text@
    }
}

impl LogBuffer {
    /// An empty buffer.
    pub fn new() -> (r: Self)
        ensures
            r@ == Seq::<char>::empty(),
    {
        LogBuffer { text: String::new() }
    }

    /// Formats one log record as a line.
    pub fn format_line(level: &str, message: &str) -> (r: String)
        ensures
            r@ == log_line(level@, message@),
    {
        let mut line = String::from_str("[");
        line.append(level);
        line.append("] ");
        line.append(message);
        line.append("\n");
        line
    }

    /// Appends `line` to the buffer.
    pub fn push_line(&mut self, line: &str)
        ensures
            final(self)@ == old(self)@ + line@,
    {
        self.text.append(line);
    }

    /// Records one log record: appends its line to the buffer and returns the line,
    /// to be written to the terminal as well.
    pub fn record(&mut self, level: &str, message: &str) -> (line: String)
        ensures
            line@ == log_line(level@, message@),
            final(self)@ == old(self)@ + log_line(level@, message@),
    {
        let line = Self::format_line(level, message);
        self.push_line(line.as_str());
        line
    }

    /// A copy of everything logged so far.
    pub fn get_logs(&self) -> (r: String)
        ensures
            r@ == self@,
    {
        String::from_str(self.text.as_str())
    }
}

} // verus!
