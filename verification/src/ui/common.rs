//! How log entries are drawn: level labels and the spans of a log line.

use vstd::prelude::*;
use vstd::string::*;
use crate::text::{push_char, trim, trim_spec};
use crate::types::{LogEntry, LogMsgType};
use crate::ui::ansi_color::{ansi_spans, categorised, draws_run, SpanColor, StyledSpan};

verus! {

/// The label and color that a log line of a level starts with.
#[derive(Debug)]
pub struct Preamble {
    pub text: String,
    pub color: SpanColor,
}

impl Preamble {
    pub fn new(text: String, color: SpanColor) -> (p: Preamble)
        ensures
            p.text@ == text@,
            p.color == color,
    {
        Preamble { text, color }
    }
}

impl LogMsgType {
    /// The label that a log line of this level starts with; device and BOSSA output have none.
    pub open spec fn preamble_text(self) -> Option<Seq<char>> {
        match self {
            LogMsgType::BossaNative => None,
            LogMsgType::ClearCore => None,
            LogMsgType::Trace => Some("TRACE"@),
            LogMsgType::Debug => Some("DEBUG"@),
            LogMsgType::Info => Some("INFO"@),
            LogMsgType::Warn => Some("WARN"@),
            LogMsgType::Error => Some("ERROR"@),
        }
    }

    /// The label of this level, drawn in the level's color.
    pub fn as_preamble(&self) -> (p: Option<Preamble>)
        ensures
            p is Some <==> self.preamble_text() is Some,
            p matches Some(p) ==> p.text@ == self.preamble_text()->0 && p.color == SpanColor::Level(*self),
    {
        let color = SpanColor::Level(*self);
        match self {
            LogMsgType::BossaNative => None,
            LogMsgType::ClearCore => None,
            LogMsgType::Trace => Some(Preamble::new(String::from_str("TRACE"), color)),
            LogMsgType::Debug => Some(Preamble::new(String::from_str("DEBUG"), color)),
            LogMsgType::Info => Some(Preamble::new(String::from_str("INFO"), color)),
            LogMsgType::Warn => Some(Preamble::new(String::from_str("WARN"), color)),
            LogMsgType::Error => Some(Preamble::new(String::from_str("ERROR"), color)),
        }
    }
}

/// `span` shows `text` with no style of its own.
pub open spec fn plain_span(span: StyledSpan, text: Seq<char>) -> bool {
    &&& span.text@ == text
    &&& span.color is None
    &&& span.background is None
    &&& span.font is None
    &&& !span.underline
    &&& !span.strikethrough
}

/// A span that shows `text` with no style of its own.
pub fn plain(text: String) -> (span: StyledSpan)
    ensures
        plain_span(span, text@),
{
    StyledSpan { text, color: None, background: None, font: None, underline: false, strikethrough: false }
}

impl LogEntry {
    /// The text of a log line's body: the trimmed message and a line break.
    pub open spec fn body_text(self) -> Seq<char> {
        trim_spec(self.message.message@).push('\n')
    }

    /// How a log view draws this entry: `[timestamp] `, then for a leveled message its
    /// label in the level's color and `: message`, and for device or BOSSA output the
    /// message's own ANSI styling.
    pub open spec fn spans_drawn(self, spans: Seq<StyledSpan>) -> bool {
        &&& spans.len() >= 1
        &&& plain_span(spans[0], seq!['['] + self.timestamp.text() + "] "@)
        &&& match self.message.log_type.preamble_text() {
            Some(label) => {
                &&& spans.len() == 3
                &&& spans[1].text@ == label
                &&& spans[1].color == Some(SpanColor::Level(self.message.log_type))
                &&& spans[1].background is None
                &&& spans[1].font is None
                &&& !spans[1].underline
                &&& !spans[1].strikethrough
                &&& plain_span(spans[2], ": "@ + self.body_text())
            },
            None => {
                &&& spans.len() == 1 + categorised(self.body_text()).len()
                &&& forall|i: int|
                    1 <= i < spans.len() ==> draws_run(#[trigger] spans[i], self.body_text(), i - 1)
            },
        }
    }

    /// The styled spans that draw this entry in a log view.
    pub fn as_spans(&self) -> (spans: Vec<StyledSpan>)
        ensures
            self.spans_drawn(spans@),
    {
        let mut stamp = String::new();
        push_char(&mut stamp, '[');
        self.timestamp.push_text(&mut stamp);
        stamp.append("] ");
        let timestamp_span = plain(stamp);
        let trimmed = trim(self.message.message.as_str());
        match self.message.log_type.as_preamble() {
            Some(preamble) => {
                let label = StyledSpan {
                    text: preamble.text,
                    color: Some(preamble.color),
                    background: None,
                    font: None,
                    underline: false,
                    strikethrough: false,
                };
                let mut body = String::from_str(": ");
                body.append(trimmed);
                push_char(&mut body, '\n');
                let body_span = plain(body);
                let mut spans: Vec<StyledSpan> = Vec::new();
                spans.push(timestamp_span);
                spans.push(label);
                spans.push(body_span);
                proof {
                    assert(spans@[0].text@ =~= seq!['['] + self.timestamp.text() + "] "@);
                    assert(spans@[2].text@ =~= ": "@ + self.body_text());
                }
                spans
            },
            None => {
                let mut content = String::from_str(trimmed);
                push_char(&mut content, '\n');
                let content_spans = ansi_spans(content.as_str());
                let mut spans: Vec<StyledSpan> = Vec::new();
                spans.push(timestamp_span);
                let n = content_spans.len();
                let mut i: usize = 0;
                while i < n
                    invariant
                        n == content_spans@.len(),
                        i <= n,
                        spans@.len() == i + 1,
                        spans@[0] == timestamp_span,
                        forall|j: int| 0 <= j < i ==> spans@[j + 1] == #[trigger] content_spans@[j],
                    decreases n - i,
                {
                    spans.push(content_spans[i].clone());
                    i = i + 1;
                }
                proof {
                    assert(content@ == self.body_text());
                    assert(spans@[0].text@ =~= seq!['['] + self.timestamp.text() + "] "@);
                    assert forall|k: int| 1 <= k < spans@.len() implies draws_run(
                        #[trigger] spans@[k],
                        self.body_text(),
                        k - 1,
                    ) by {
                        assert(spans@[(k - 1) + 1] == content_spans@[k - 1]);
                    }
                }
                spans
            },
        }
    }
}

/// A leveled log line is labelled with the name of its own level: `TRACE`, `DEBUG`,
/// `INFO`, `WARN` or `ERROR`; so lines of different levels carry different labels.
/// Device and flashing-library output carries no label.
pub proof fn labels_name_their_level(level: LogMsgType, other: LogMsgType)
    ensures
        level == LogMsgType::Trace ==> level.preamble_text() == Some(seq!['T', 'R', 'A', 'C', 'E']),
        level == LogMsgType::Debug ==> level.preamble_text() == Some(seq!['D', 'E', 'B', 'U', 'G']),
        level == LogMsgType::Info ==> level.preamble_text() == Some(seq!['I', 'N', 'F', 'O']),
        level == LogMsgType::Warn ==> level.preamble_text() == Some(seq!['W', 'A', 'R', 'N']),
        level == LogMsgType::Error ==> level.preamble_text() == Some(seq!['E', 'R', 'R', 'O', 'R']),
        level == LogMsgType::BossaNative || level == LogMsgType::ClearCore <==> level.preamble_text() is None,
        level != other && level.preamble_text() is Some ==> level.preamble_text() != other.preamble_text(),
{
    reveal_strlit("TRACE");
    reveal_strlit("DEBUG");
    reveal_strlit("INFO");
    reveal_strlit("WARN");
    reveal_strlit("ERROR");
    let t = seq!['T', 'R', 'A', 'C', 'E'];
    let d = seq!['D', 'E', 'B', 'U', 'G'];
    let i = seq!['I', 'N', 'F', 'O'];
    let w = seq!['W', 'A', 'R', 'N'];
    let e = seq!['E', 'R', 'R', 'O', 'R'];
    assert("TRACE"@ =~= t);
    assert("DEBUG"@ =~= d);
    assert("INFO"@ =~= i);
    assert("WARN"@ =~= w);
    assert("ERROR"@ =~= e);
    assert(t[0] != d[0] && t[0] != i[0] && t[0] != w[0] && t[0] != e[0]);
    assert(d[0] != i[0] && d[0] != w[0] && d[0] != e[0]);
    assert(i[0] != w[0] && i[0] != e[0]);
    assert(w[0] != e[0]);
}

} // verus!
