use meeting_scribe::control::AppState;
use meeting_scribe::notes::{MeetingNote, Timestamp};
use meeting_scribe::queue::SampleQueue;
use meeting_scribe::session::{
    event_name, is_blank, listen_url, Opening, Phase, RecognitionResult, Session, TranscriptEvent,
    TranscriptionCommand, MIN_SEND_BYTES, QUEUE_CAPACITY,
};

fn created() -> MeetingNote {
    MeetingNote::created_at(Timestamp { year: 2024, month: 5, day: 6, hour: 14, minute: 30, second: 15 })
}

fn streaming() -> Session {
    let (mut s, opening) = Session::start(48000, 2, "SECRET-REDACTED", created());
    assert!(matches!(opening, Opening::Connect { .. }));
    s.on_connected();
    assert_eq!(s.phase, Phase::Streaming);
    s
}

fn result(text: &str, is_final: Option<bool>) -> Option<RecognitionResult> {
    Some(RecognitionResult { transcript: Some(text.to_string()), is_final })
}

#[test]
fn missing_credential_fails_without_connecting() {
    let (mut s, opening) = Session::start(48000, 2, "", created());
    match opening {
        Opening::Refused { status } => assert_eq!(status, "error: missing api key"),
        Opening::Connect { .. } => panic!("must not connect"),
    }
    assert_eq!(s.phase, Phase::Failed);
    s.on_connected();
    assert_eq!(s.phase, Phase::Failed);
    assert!(s.on_cancel().is_none());
    assert!(s.on_samples(&[1; 6000]).is_none());
    assert!(!s.is_live());
}

#[test]
fn credential_opens_connection_with_format_in_query() {
    let (s, opening) = Session::start(44100, 1, "abc", created());
    assert_eq!(s.phase, Phase::Connecting);
    match opening {
        Opening::Connect { url, authorization } => {
            assert_eq!(
                url,
                "wss://api.deepgram.com/v1/listen?model=nova-2&encoding=linear16&sample_rate=44100&channels=1&smart_format=true&interim_results=true"
            );
            assert_eq!(authorization, "Token abc");
        }
        Opening::Refused { .. } => panic!("must connect"),
    }
    assert_eq!(listen_url(0, 0).contains("sample_rate=0&channels=0&"), true);
}

#[test]
fn connection_failure_is_reported_once() {
    let (mut s, _) = Session::start(48000, 2, "k", created());
    assert_eq!(s.on_connect_failed(), Some("error: connection failed".to_string()));
    assert_eq!(s.phase, Phase::Failed);
    assert_eq!(s.on_connect_failed(), None);
}

#[test]
fn samples_are_held_until_threshold() {
    let mut s = streaming();
    assert_eq!(MIN_SEND_BYTES, 9600);
    assert!(s.on_samples(&[1; 4799]).is_none());
    assert_eq!(s.pending.len(), 9598);
    let frame = s.on_samples(&[-2, 3]).expect("threshold reached");
    assert_eq!(frame.len(), 9602);
    assert_eq!(&frame[..2], &[1, 0]);
    assert_eq!(&frame[9598..], &[254, 255, 3, 0]);
    assert!(s.pending.is_empty());
    assert!(s.on_samples(&[]).is_none());
}

#[test]
fn connecting_session_ignores_samples() {
    let (mut s, _) = Session::start(48000, 2, "k", created());
    assert!(s.on_samples(&[5; 10000]).is_none());
    assert!(s.pending.is_empty());
}

#[test]
fn blank_and_missing_results_are_ignored() {
    let mut s = streaming();
    assert!(s.on_result(None, "ts".to_string(), "t".to_string()).is_none());
    assert!(s.on_result(result("  \n\t", Some(true)), "ts".to_string(), "t".to_string()).is_none());
    let none = Some(RecognitionResult { transcript: None, is_final: Some(true) });
    assert!(s.on_result(none, "ts".to_string(), "t".to_string()).is_none());
    assert!(s.note.transcript.is_empty());
}

#[test]
fn partial_result_is_broadcast_only() {
    let mut s = streaming();
    let ev: TranscriptEvent = s
        .on_result(result(" hel", None), "2024-05-06T14:30:20+00:00".to_string(), "14:30:20".to_string())
        .expect("event");
    assert_eq!(ev.text, " hel");
    assert!(!ev.is_final);
    assert_eq!(ev.timestamp, "2024-05-06T14:30:20+00:00");
    assert_eq!(event_name(&ev), "transcript_partial");
    assert!(s.note.transcript.is_empty());
}

#[test]
fn final_result_is_broadcast_and_recorded() {
    let mut s = streaming();
    let ev = s
        .on_result(result("hello", Some(true)), "ts".to_string(), "14:30:21".to_string())
        .expect("event");
    assert!(ev.is_final);
    assert_eq!(event_name(&ev), "transcript_final");
    assert_eq!(s.note.transcript, vec![("14:30:21".to_string(), "hello".to_string())]);
}

#[test]
fn handled_result_gets_current_times() {
    let mut s = streaming();
    let ev = s.handle_result(result("now", Some(true))).expect("event");
    assert_eq!(ev.text, "now");
    assert_eq!(s.note.transcript.len(), 1);
    assert_eq!(s.note.transcript[0].0.len(), 8);
    assert!(!ev.timestamp.is_empty());
}

#[test]
fn whitespace_check_trims_both_ends() {
    assert!(is_blank(""));
    assert!(is_blank(" \t\n "));
    assert!(!is_blank("  a  "));
}

#[test]
fn three_final_results_then_stop() {
    let mut s = streaming();
    let tone: Vec<i16> = (0..(48000 * 2 * 3)).map(|i| if (i / 100) % 2 == 0 { 8000 } else { -8000 }).collect();
    let mut frames = 0;
    for chunk in tone.chunks(4800) {
        if s.on_samples(chunk).is_some() {
            frames += 1;
        }
    }
    assert!(frames > 0);
    for (text, time) in [("A", "14:30:16"), ("B", "14:30:17"), ("C", "14:30:18")] {
        assert!(s.on_result(result(text, Some(true)), "ts".to_string(), time.to_string()).is_some());
    }
    let file = s.on_cancel().expect("note to persist");
    assert_eq!(s.phase, Phase::Closing);
    let texts: Vec<&str> = s.note.transcript.iter().map(|(_, t)| t.as_str()).collect();
    assert_eq!(texts, vec!["A", "B", "C"]);
    assert!(s.note.transcript[0].0 <= s.note.transcript[1].0);
    assert!(s.note.transcript[1].0 <= s.note.transcript[2].0);
    assert_eq!(file.file_name, "meeting_20240506_143015.md");
    assert!(file.document.ends_with(
        "## Transcript\n**[14:30:16]** A\n\n**[14:30:17]** B\n\n**[14:30:18]** C\n\n"
    ));
    s.finish();
    assert_eq!(s.phase, Phase::Closed);
    assert!(s.on_cancel().is_none());
    assert!(s.on_result(result("D", Some(true)), "ts".to_string(), "x".to_string()).is_none());
}

#[test]
fn second_stop_persists_nothing() {
    let mut s = streaming();
    assert!(s.on_cancel().is_some());
    assert!(s.on_cancel().is_none());
    assert_eq!(s.phase, Phase::Closing);
}

#[test]
fn remote_end_is_a_failure_unless_closing() {
    let mut s = streaming();
    s.on_remote_end();
    assert_eq!(s.phase, Phase::Failed);
    let mut t = streaming();
    t.on_cancel();
    t.on_remote_end();
    assert_eq!(t.phase, Phase::Closed);
}

#[test]
fn controller_refuses_second_start() {
    let mut c = AppState::new();
    assert!(!c.is_active());
    assert_eq!(c.begin_recording(), Ok(()));
    assert_eq!(c.begin_recording(), Err("Already recording".to_string()));
    assert!(c.stop());
    assert_eq!(c.begin_recording(), Ok(()));
}

#[test]
fn stopping_twice_when_inactive_is_a_noop() {
    let mut c = AppState::new();
    assert!(!c.stop());
    assert!(!c.stop());
    assert!(!c.is_active());
}

#[test]
fn queue_holds_five_seconds_of_stereo() {
    assert_eq!(QUEUE_CAPACITY, 48000 * 2 * 5);
}

#[test]
fn stop_command_and_closed_channel_both_stop() {
    let mut s = streaming();
    let file = s.on_command(Some(TranscriptionCommand::Stop)).expect("note");
    assert!(file.document.starts_with("# Meeting – 2024-05-06 14:30\n\n"));
    let mut t = streaming();
    assert!(t.on_command(None).is_some());
    assert!(t.on_command(None).is_none());
}

#[test]
fn drain_tick_moves_everything_ready_into_frames() {
    let mut s = streaming();
    let (mut producer, mut consumer) = SampleQueue::new(10_000).split();
    assert_eq!(producer.push(&[100; 3000]), 3000);
    assert!(s.drain_tick(&mut consumer).is_none());
    assert_eq!(consumer.available(), 0);
    assert_eq!(s.pending.len(), 6000);
    producer.push(&[100; 2000]);
    let frame = s.drain_tick(&mut consumer).expect("frame due");
    assert_eq!(frame.len(), 10_000);
    assert_eq!(&frame[..2], &[100, 0]);
    assert!(s.pending.is_empty());
}
