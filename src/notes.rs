use vstd::prelude::*;
use chrono::{Datelike, Timelike};
use crate::text::{padded, push_padded};

verus! {

/// A calendar date and time of day, to the second.
#[derive(Clone, Copy, Debug, PartialEq, Eq, Structural)]
pub struct Timestamp {
    pub year: i32,
    pub month: u32,
    pub day: u32,
    pub hour: u32,
    pub minute: u32,
    pub second: u32,
}

impl Timestamp {
    pub open spec fn wf(&self) -> bool {
        &&& 1 <= self.month <= 12
        &&& 1 <= self.day <= 31
        &&& self.hour < 24
        &&& self.minute < 60
        &&& self.second < 60
    }
}

/// The year as four zero-padded digits, signed when outside `0..=9999`.
pub open spec fn year_text(y: int) -> Seq<char> {
    if 0 <= y <= 9999 {
        padded(y as nat, 4)
    } else if y < 0 {
        seq!['-'] + padded((-y) as nat, 4)
    } else {
        seq!['+'] + padded(y as nat, 4)
    }
}

pub open spec fn two(n: u32) -> Seq<char> {
    padded(n as nat, 2)
}

/// `YYYY-MM-DD HH:MM`
pub open spec fn date_minute_text(t: Timestamp) -> Seq<char> {
    year_text(t.year as int) + seq!['-'] + two(t.month) + seq!['-'] + two(t.day) + seq![' ']
        + two(t.hour) + seq![':'] + two(t.minute)
}

/// `YYYYMMDD_HHMMSS`
pub open spec fn compact_text(t: Timestamp) -> Seq<char> {
    year_text(t.year as int) + two(t.month) + two(t.day) + seq!['_'] + two(t.hour) + two(
        t.minute,
    ) + two(t.second)
}

/// `HH:MM:SS`
pub open spec fn clock_text(hour: u32, minute: u32, second: u32) -> Seq<char> {
    two(hour) + seq![':'] + two(minute) + seq![':'] + two(second)
}

fn push_year(out: &mut String, y: i32)
    ensures
        final(out)@ == old(out)@ + year_text(y as int),
{
    let ghost before = out@;
    if 0 <= y && y <= 9999 {
        push_padded(out, y as u64, 4);
    } else if y < 0 {
        out.append("-");
        proof {
            reveal_strlit("-");
        }
        let a: i64 = -(y as i64);
        push_padded(out, a as u64, 4);
        assert(out@ =~= before + year_text(y as int));
    } else {
        out.append("+");
        proof {
            reveal_strlit("+");
        }
        push_padded(out, y as u64, 4);
        assert(out@ =~= before + year_text(y as int));
    }
}

fn push_sep(out: &mut String, sep: &str)
    ensures
        final(out)@ == old(out)@ + sep@,
{
    out.append(sep);
}

/// Renders a time of day as `HH:MM:SS`.
pub fn format_clock(hour: u32, minute: u32, second: u32) -> (r: String)
    ensures
        r@ == clock_text(hour, minute, second),
{
    let mut s = String::new();
    push_padded(&mut s, hour as u64, 2);
    push_sep(&mut s, ":");
    push_padded(&mut s, minute as u64, 2);
    push_sep(&mut s, ":");
    push_padded(&mut s, second as u64, 2);
    proof {
        reveal_strlit(":");
    }
    assert(s@ =~= clock_text(hour, minute, second));
    s
}

/// Renders `items` one per line, each after `prefix`.
pub open spec fn bullets(items: Seq<String>, prefix: Seq<char>) -> Seq<char>
    decreases items.len(),
{
    if items.len() == 0 {
        Seq::empty()
    } else {
        bullets(items.drop_last(), prefix) + prefix + items.last()@ + seq!['\n']
    }
}

/// A titled list, or the placeholder line when the list is empty, then a blank line.
pub open spec fn section(
    title: Seq<char>,
    items: Seq<String>,
    placeholder: Seq<char>,
    prefix: Seq<char>,
) -> Seq<char> {
    title + (if items.len() == 0 {
        placeholder
    } else {
        bullets(items, prefix)
    }) + seq!['\n']
}

/// Each segment as `**[time]** text` followed by a blank line.
pub open spec fn transcript_lines(segments: Seq<(String, String)>) -> Seq<char>
    decreases segments.len(),
{
    if segments.len() == 0 {
        Seq::empty()
    } else {
        transcript_lines(segments.drop_last()) + "**["@ + segments.last().0@ + "]** "@
            + segments.last().1@ + "\n\n"@
    }
}

/// The full Markdown document of a note.
pub open spec fn markdown(note: MeetingNote) -> Seq<char> {
    "# Meeting – "@ + date_minute_text(note.timestamp) + "\n\n"@ + section(
        "## Key Points\n"@,
        note.key_points@,
        "_No key points recorded._\n"@,
        "- "@,
    ) + section("## Decisions\n"@, note.decisions@, "_No decisions recorded._\n"@, "- "@)
        + section(
        "## Action Items\n"@,
        note.action_items@,
        "_No action items recorded._\n"@,
        "- [ ] "@,
    ) + "## Transcript\n"@ + transcript_lines(note.transcript@)
}

/// `meeting_YYYYMMDD_HHMMSS.md`
pub open spec fn file_name_text(t: Timestamp) -> Seq<char> {
    "meeting_"@ + compact_text(t) + ".md"@
}

fn push_section(
    out: &mut String,
    title: &str,
    items: &Vec<String>,
    placeholder: &str,
    prefix: &str,
)
    ensures
        final(out)@ == old(out)@ + section(title@, items@, placeholder@, prefix@),
{
    let ghost before = out@;
    out.append(title);
    if items.len() == 0 {
        out.append(placeholder);
    } else {
        let mut i: usize = 0;
        while i < items.len()
            invariant
                i <= items@.len(),
                out@ == before + title@ + bullets(items@.take(i as int), prefix@),
            decreases items@.len() - i,
        {
            out.append(prefix);
            out.append(items[i].as_str());
            out.append("\n");
            proof {
                reveal_strlit("\n");
                assert(items@.take(i + 1).drop_last() =~= items@.take(i as int));
            }
            assert(out@ =~= before + title@ + bullets(items@.take(i + 1), prefix@));
            i = i + 1;
        }
        assert(items@.take(i as int) =~= items@);
    }
    out.append("\n");
    proof {
        reveal_strlit("\n");
    }
    assert(out@ =~= before + section(title@, items@, placeholder@, prefix@));
}

/// A meeting record: when it began, its summary lists and its transcript.
#[derive(Clone, Debug)]
pub struct MeetingNote {
    pub timestamp: Timestamp,
    pub key_points: Vec<String>,
    pub decisions: Vec<String>,
    pub action_items: Vec<String>,
    /// Finalised segments as `(display time, text)`, in arrival order.
    pub transcript: Vec<(String, String)>,
}

/// Relies on chrono::Utc::now, read through chrono's `Datelike` and `Timelike`
/// accessors, whose documented ranges are month 1..=12, day 1..=31, hour 0..=23,
/// minute and second 0..=59.
#[verifier::external_body]
pub(crate) fn utc_now() -> (r: Timestamp)
    ensures
        r.wf(),
{
    let now = chrono::Utc::now();
    Timestamp {
        year: now.year(),
        month: now.month(),
        day: now.day(),
        hour: now.hour(),
        minute: now.minute(),
        second: now.second(),
    }
}

/// Relies on chrono::Local::now, read through chrono's `Timelike` accessors:
/// hour 0..=23, minute and second 0..=59, in the machine's time zone.
#[verifier::external_body]
pub(crate) fn local_clock() -> (r: (u32, u32, u32))
    ensures
        r.0 < 24,
        r.1 < 60,
        r.2 < 60,
{
    let now = chrono::Local::now();
    (now.hour(), now.minute(), now.second())
}

impl MeetingNote {
    /// A note created now, with every list empty.
    pub fn new() -> (r: Self)
        ensures
            r.timestamp.wf(),
            r.key_points@.len() == 0,
            r.decisions@.len() == 0,
            r.action_items@.len() == 0,
            r.transcript@.len() == 0,
    {
        Self::created_at(utc_now())
    }

    /// A note created at `timestamp`, with every list empty.
    pub fn created_at(timestamp: Timestamp) -> (r: Self)
        ensures
            r.timestamp == timestamp,
            r.key_points@.len() == 0,
            r.decisions@.len() == 0,
            r.action_items@.len() == 0,
            r.transcript@.len() == 0,
    {
        MeetingNote {
            timestamp,
            key_points: Vec::new(),
            decisions: Vec::new(),
            action_items: Vec::new(),
            transcript: Vec::new(),
        }
    }

    /// Appends a finalised segment; nothing else changes.
    pub fn add_transcript_segment(&mut self, text: String, timestamp: String)
        ensures
            final(self).transcript@ == old(self).transcript@.push((timestamp, text)),
            final(self).timestamp == old(self).timestamp,
            final(self).key_points@ == old(self).key_points@,
            final(self).decisions@ == old(self).decisions@,
            final(self).action_items@ == old(self).action_items@,
    {
        self.transcript.push((timestamp, text));
    }

    /// The note as a Markdown document.
    pub fn format_markdown(&self) -> (r: String)
        ensures
            r@ == markdown(*self),
    {
        let mut md = String::new();
        push_sep(&mut md, "# Meeting – ");
        push_year(&mut md, self.timestamp.year);
        push_sep(&mut md, "-");
        push_padded(&mut md, self.timestamp.month as u64, 2);
        push_sep(&mut md, "-");
        push_padded(&mut md, self.timestamp.day as u64, 2);
        push_sep(&mut md, " ");
        push_padded(&mut md, self.timestamp.hour as u64, 2);
        push_sep(&mut md, ":");
        push_padded(&mut md, self.timestamp.minute as u64, 2);
        push_sep(&mut md, "\n\n");
        proof {
            reveal_strlit("-");
            reveal_strlit(" ");
            reveal_strlit(":");
        }
        let ghost head = md@;
        assert(head =~= "# Meeting – "@ + date_minute_text(self.timestamp) + "\n\n"@);
        push_section(
            &mut md,
            "## Key Points\n",
            &self.key_points,
            "_No key points recorded._\n",
            "- ",
        );
        push_section(&mut md, "## Decisions\n", &self.decisions, "_No decisions recorded._\n", "- ");
        push_section(
            &mut md,
            "## Action Items\n",
            &self.action_items,
            "_No action items recorded._\n",
            "- [ ] ",
        );
        push_sep(&mut md, "## Transcript\n");
        let ghost body = md@;
        let mut i: usize = 0;
        while i < self.transcript.len()
            invariant
                i <= self.transcript@.len(),
                md@ == body + transcript_lines(self.transcript@.take(i as int)),
            decreases self.transcript@.len() - i,
        {
            let seg = &self.transcript[i];
            md.append("**[");
            md.append(seg.0.as_str());
            md.append("]** ");
            md.append(seg.1.as_str());
            md.append("\n\n");
            proof {
                assert(self.transcript@.take(i + 1).drop_last() =~= self.transcript@.take(i as int));
            }
            assert(md@ =~= body + transcript_lines(self.transcript@.take(i + 1)));
            i = i + 1;
        }
        assert(self.transcript@.take(i as int) =~= self.transcript@);
        assert(md@ =~= markdown(*self));
        md
    }

    /// The name of the file the note is saved under.
    pub fn file_name(&self) -> (r: String)
        ensures
            r@ == file_name_text(self.timestamp),
    {
        let t = self.timestamp;
        let mut s = String::new();
        push_sep(&mut s, "meeting_");
        push_year(&mut s, t.year);
        push_padded(&mut s, t.month as u64, 2);
        push_padded(&mut s, t.day as u64, 2);
        push_sep(&mut s, "_");
        push_padded(&mut s, t.hour as u64, 2);
        push_padded(&mut s, t.minute as u64, 2);
        push_padded(&mut s, t.second as u64, 2);
        push_sep(&mut s, ".md");
        proof {
            reveal_strlit("_");
        }
        assert(s@ =~= file_name_text(t));
        s
    }
}

/// The document depends on the note's contents alone: notes with the same creation
/// time, lists and segments render to the same text.
pub proof fn lemma_markdown_deterministic(a: MeetingNote, b: MeetingNote)
    requires
        a.timestamp == b.timestamp,
        a.key_points@ == b.key_points@,
        a.decisions@ == b.decisions@,
        a.action_items@ == b.action_items@,
        a.transcript@ == b.transcript@,
    ensures
        markdown(a) == markdown(b),
        file_name_text(a.timestamp) == file_name_text(b.timestamp),
{
}

} // verus!
