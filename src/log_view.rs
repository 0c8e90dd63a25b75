use crate::level::Level;
use vstd::prelude::*;
use vstd::string::*;

verus! {

/// How many lines the on-screen log keeps.
pub const MAX_LOG_LINES: usize = 1000;

/// One line of the on-screen log and the style letter it is drawn with.
#[derive(Clone, Debug)]
pub struct LogLine {
    pub text: String,
    pub style: char,
}

/// The on-screen log: at most `max_lines` lines, oldest first.
pub struct LogBuffer {
    pub lines: Vec<LogLine>,
    pub max_lines: usize,
}

/// The last `n` elements of `s` (all of them where there are fewer).
pub open spec fn keep_last<A>(s: Seq<A>, n: nat) -> Seq<A> {
    if s.len() <= n {
        s
    } else {
        s.subrange(s.len() - n, s.len() as int)
    }
}

/// The style letter of a severity: red, yellow, green, gray, blue.
pub open spec fn style_of(level: Level) -> char {
    match level {
        Level::Error => 'A',
        Level::Warn => 'B',
        Level::Info => 'C',
        Level::Debug => 'D',
        Level::Trace => 'E',
    }
}

pub fn style_for(level: Level) -> (r: char)
    ensures
        r == style_of(level),
{
    match level {
        Level::Error => 'A',
        Level::Warn => 'B',
        Level::Info => 'C',
        Level::Debug => 'D',
        Level::Trace => 'E',
    }
}

/// The severity's name, padded to five characters.
pub open spec fn level_label(level: Level) -> Seq<char> {
    match level {
        Level::Error => "ERROR"@,
        Level::Warn => "WARN "@,
        Level::Info => "INFO "@,
        Level::Debug => "DEBUG"@,
        Level::Trace => "TRACE"@,
    }
}

pub fn level_label_of(level: Level) -> (r: &'static str)
    ensures
        r@ == level_label(level),
{
    match level {
        Level::Error => "ERROR",
        Level::Warn => "WARN ",
        Level::Info => "INFO ",
        Level::Debug => "DEBUG",
        Level::Trace => "TRACE",
    }
}

/// The text of a log line: `[<time> <LEVEL> <module>] <message>`.
pub open spec fn log_line_text(
    time: Seq<char>,
    level: Level,
    module: Seq<char>,
    message: Seq<char>,
) -> Seq<char> {
    "["@ + time + " "@ + level_label(level) + " "@ + module + "] "@ + message
}

/// The line that shows one log record.
pub fn format_log_line(time: &str, level: Level, module: &str, message: &str) -> (r: LogLine)
    ensures
        r.text@ == log_line_text(time@, level, module@, message@),
        r.style == style_of(level),
{
    let mut text = String::from_str("[");
    text.append(time);
    text.append(" ");
    text.append(level_label_of(level));
    text.append(" ");
    text.append(module);
    text.append("] ");
    text.append(message);
    LogLine { text, style: style_for(level) }
}

/// The pieces of `t` between newlines, for a piece that began at `start`
/// and a scan that has reached `i`.
pub open spec fn pieces(t: Seq<char>, start: nat, i: nat) -> Seq<Seq<char>>
    decreases t.len() - i,
{
    if i >= t.len() {
        seq![t.subrange(start as int, t.len() as int)]
    } else if t[i as int] == '\n' {
        seq![t.subrange(start as int, i as int)] + pieces(t, i + 1, i + 1)
    } else {
        pieces(t, start, i + 1)
    }
}

/// The lines of a text: the pieces between newlines (one piece where there
/// is none).
pub open spec fn split_lines(t: Seq<char>) -> Seq<Seq<char>> {
    pieces(t, 0, 0)
}

pub open spec fn line_texts(v: Seq<LogLine>) -> Seq<Seq<char>> {
    v.map_values(|l: LogLine| l.text@)
}

/// The display lines of one log record, each in the record's style.
pub fn format_log_lines(time: &str, level: Level, module: &str, message: &str) -> (r: Vec<LogLine>)
    ensures
        line_texts(r@) == split_lines(log_line_text(time@, level, module@, message@)),
        forall|j: int| 0 <= j < r@.len() ==> (#[trigger] r@[j]).style == style_of(level),
{
    let full = format_log_line(time, level, module, message);
    let style = full.style;
    let text = full.text.as_str();
    let ghost t = text@;
    let n = text.unicode_len();
    let mut out: Vec<LogLine> = Vec::new();
    let mut start: usize = 0;
    let mut i: usize = 0;
    while i < n
        invariant
            n == t.len(),
            t == text@,
            start <= i <= n,
            style == style_of(level),
            line_texts(out@) + pieces(t, start as nat, i as nat) == split_lines(t),
            forall|j: int| 0 <= j < out@.len() ==> (#[trigger] out@[j]).style == style,
        decreases n - i,
    {
        let ghost before = out@;
        if text.get_char(i) == '\n' {
            let piece = text.substring_char(start, i);
            out.push(LogLine { text: String::from_str(piece), style });
            proof {
                assert(line_texts(out@) =~= line_texts(before).push(t.subrange(start as int, i as int)));
                assert(line_texts(out@) + pieces(t, (i + 1) as nat, (i + 1) as nat) =~= line_texts(before)
                    + pieces(t, start as nat, i as nat));
            }
            start = i + 1;
        }
        i += 1;
    }
    let ghost before = out@;
    let piece = text.substring_char(start, n);
    out.push(LogLine { text: String::from_str(piece), style });
    proof {
        assert(line_texts(out@) =~= line_texts(before).push(t.subrange(start as int, n as int)));
        assert(line_texts(out@) =~= line_texts(before) + pieces(t, start as nat, n as nat));
    }
    out
}

impl LogBuffer {
    pub open spec fn wf(&self) -> bool {
        self.lines@.len() <= self.max_lines
    }

    /// An empty log that keeps at most `max_lines` lines.
    pub fn new(max_lines: usize) -> (r: LogBuffer)
        ensures
            r.wf(),
            r.lines@.len() == 0,
            r.max_lines == max_lines,
    {
        LogBuffer { lines: Vec::new(), max_lines }
    }

    /// Appends lines, then drops the oldest lines beyond the maximum.
    pub fn append_lines(&mut self, new_lines: Vec<LogLine>)
        ensures
            final(self).max_lines == old(self).max_lines,
            final(self).lines@ == keep_last(old(self).lines@ + new_lines@, old(self).max_lines as nat),
            final(self).wf(),
    {
        let mut new_lines = new_lines;
        self.lines.append(&mut new_lines);
        let len = self.lines.len();
        if len > self.max_lines {
            let tail = self.lines.split_off(len - self.max_lines);
            self.lines = tail;
        }
    }
}

/// However many lines come in, the log holds at most its maximum, and what
/// it holds is the newest lines in order: the oldest go first.
pub proof fn lemma_log_bounded<A>(held: Seq<A>, incoming: Seq<A>, max: nat)
    ensures
        keep_last(held + incoming, max).len() <= max,
        keep_last(held + incoming, max).len() == if (held + incoming).len() <= max {
            (held + incoming).len()
        } else {
            max
        },
        forall|j: int|
            0 <= j < keep_last(held + incoming, max).len() ==> #[trigger] keep_last(
                held + incoming,
                max,
            )[j] == (held + incoming)[(held + incoming).len() - keep_last(
                held + incoming,
                max,
            ).len() + j],
{
}

} // verus!
