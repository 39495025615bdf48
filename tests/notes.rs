use meeting_scribe::notes::{format_clock, MeetingNote, Timestamp};
use meeting_scribe::pcm::append_le;

fn at(year: i32, month: u32, day: u32, hour: u32, minute: u32, second: u32) -> Timestamp {
    Timestamp { year, month, day, hour, minute, second }
}

#[test]
fn empty_note_renders_placeholders() {
    let note = MeetingNote::created_at(at(2024, 3, 7, 9, 5, 2));
    let expected = "# Meeting – 2024-03-07 09:05\n\n\
## Key Points\n_No key points recorded._\n\n\
## Decisions\n_No decisions recorded._\n\n\
## Action Items\n_No action items recorded._\n\n\
## Transcript\n";
    assert_eq!(note.format_markdown(), expected);
}

#[test]
fn full_note_renders_every_section() {
    let mut note = MeetingNote::created_at(at(2025, 12, 31, 23, 59, 58));
    note.key_points.push("Budget".to_string());
    note.key_points.push("Hiring".to_string());
    note.decisions.push("Ship Friday".to_string());
    note.action_items.push("Write notes".to_string());
    note.add_transcript_segment("Hello".to_string(), "10:00:01".to_string());
    note.add_transcript_segment("Bye".to_string(), "10:00:09".to_string());
    let expected = "# Meeting – 2025-12-31 23:59\n\n\
## Key Points\n- Budget\n- Hiring\n\n\
## Decisions\n- Ship Friday\n\n\
## Action Items\n- [ ] Write notes\n\n\
## Transcript\n**[10:00:01]** Hello\n\n**[10:00:09]** Bye\n\n";
    assert_eq!(note.format_markdown(), expected);
}

#[test]
fn formatting_twice_gives_identical_text() {
    let mut note = MeetingNote::created_at(at(2024, 1, 2, 3, 4, 5));
    note.add_transcript_segment("one".to_string(), "03:04:06".to_string());
    let first = note.format_markdown();
    let second = note.format_markdown();
    assert_eq!(first, second);
    assert_eq!(note.clone().format_markdown(), first);
}

#[test]
fn segments_are_appended_unconditionally() {
    let mut note = MeetingNote::created_at(at(2024, 1, 2, 3, 4, 5));
    note.add_transcript_segment("same".to_string(), "t".to_string());
    note.add_transcript_segment("same".to_string(), "t".to_string());
    note.add_transcript_segment(String::new(), String::new());
    assert_eq!(note.transcript.len(), 3);
    assert_eq!(note.transcript[0], ("t".to_string(), "same".to_string()));
    assert_eq!(note.transcript[2], (String::new(), String::new()));
}

#[test]
fn file_name_uses_compact_creation_time() {
    let note = MeetingNote::created_at(at(2024, 3, 7, 9, 5, 2));
    assert_eq!(note.file_name(), "meeting_20240307_090502.md");
}

#[test]
fn years_outside_four_digits_carry_a_sign() {
    assert_eq!(
        MeetingNote::created_at(at(12345, 1, 1, 0, 0, 0)).file_name(),
        "meeting_+123450101_000000.md"
    );
    assert_eq!(
        MeetingNote::created_at(at(-44, 3, 15, 12, 0, 0)).file_name(),
        "meeting_-00440315_120000.md"
    );
    assert_eq!(
        MeetingNote::created_at(at(7, 1, 1, 0, 0, 0)).file_name(),
        "meeting_00070101_000000.md"
    );
}

#[test]
fn new_note_is_empty_with_valid_time() {
    let note = MeetingNote::new();
    assert!(note.key_points.is_empty());
    assert!(note.decisions.is_empty());
    assert!(note.action_items.is_empty());
    assert!(note.transcript.is_empty());
    assert!((1..=12).contains(&note.timestamp.month));
    assert!(note.timestamp.hour < 24);
}

#[test]
fn clock_is_zero_padded() {
    assert_eq!(format_clock(9, 5, 0), "09:05:00");
    assert_eq!(format_clock(23, 59, 59), "23:59:59");
}

#[test]
fn samples_become_little_endian_pairs() {
    let mut out = vec![7u8];
    append_le(&mut out, &[1, -1, 256, i16::MIN, i16::MAX]);
    assert_eq!(out, vec![7, 1, 0, 255, 255, 0, 1, 0, 128, 255, 127]);
}
