use vstd::prelude::*;
use crate::notes::{MeetingNote, clock_text, file_name_text, format_clock, local_clock, markdown};
use crate::queue::{SampleConsumer, consumer_capacity};
use crate::pcm::{append_le, le_bytes};
use crate::text::{decimal, push_decimal};

verus! {

/// Capacity of the capture queue: five seconds of 48 kHz stereo.
pub const QUEUE_CAPACITY: usize = 480000;

/// Milliseconds between two drains of the capture queue.
pub const DRAIN_INTERVAL_MS: u64 = 50;

/// Pending bytes needed before a frame is sent: 4800 samples of two bytes.
pub const MIN_SEND_BYTES: usize = 9600;

/// Where a streaming session stands.
#[derive(Clone, Copy, Debug, PartialEq, Eq, Structural)]
pub enum Phase {
    Connecting,
    Streaming,
    Closing,
    Closed,
    Failed,
}

/// A request from the controller to the streaming task.
#[derive(Clone, Copy, Debug, PartialEq, Eq, Structural)]
pub enum TranscriptionCommand {
    Stop,
}

/// One decoded message of the recognition service: the first alternative's text
/// of its channel, when there is one, and its finality flag.
#[derive(Clone, Debug)]
pub struct RecognitionResult {
    pub transcript: Option<String>,
    pub is_final: Option<bool>,
}

/// A transcript event for the user interface.
#[derive(Clone, Debug)]
pub struct TranscriptEvent {
    pub text: String,
    pub is_final: bool,
    pub timestamp: String,
}

/// What opening a session asks its driver to do.
#[derive(Clone, Debug)]
pub enum Opening {
    /// Open the duplex connection at `url` with this `Authorization` header.
    Connect { url: String, authorization: String },
    /// Report `status` and stop; nothing is connected.
    Refused { status: String },
}

/// The note to persist when a session closes.
#[derive(Clone, Debug)]
pub struct NoteFile {
    pub file_name: String,
    pub document: String,
}

/// The state of one recording's streaming session.
pub struct Session {
    pub phase: Phase,
    pub sample_rate: u32,
    pub channels: u16,
    /// Converted bytes not sent yet.
    pub pending: Vec<u8>,
    pub note: MeetingNote,
}

pub open spec fn listen_url_text(sample_rate: u32, channels: u16) -> Seq<char> {
    "wss://api.deepgram.com/v1/listen?model=nova-2&encoding=linear16&sample_rate="@ + decimal(
        sample_rate as nat,
    ) + "&channels="@ + decimal(channels as nat) + "&smart_format=true&interim_results=true"@
}

/// The service address, carrying the PCM format in its query.
pub fn listen_url(sample_rate: u32, channels: u16) -> (r: String)
    ensures
        r@ == listen_url_text(sample_rate, channels),
{
    let mut s = String::new();
    s.append("wss://api.deepgram.com/v1/listen?model=nova-2&encoding=linear16&sample_rate=");
    push_decimal(&mut s, sample_rate as u64);
    s.append("&channels=");
    push_decimal(&mut s, channels as u64);
    s.append("&smart_format=true&interim_results=true");
    s
}

/// The text of `s` without leading and trailing whitespace.
pub uninterp spec fn trimmed(s: Seq<char>) -> Seq<char>;

/// Relies on `str::trim`: the slice without leading and trailing whitespace, which
/// depends on the characters alone.
#[verifier::external_body]
fn trim_str(s: &str) -> (r: &str)
    ensures
        r@ == trimmed(s@),
{
    s.trim()
}

/// Whether `s` holds nothing but whitespace.
pub fn is_blank(s: &str) -> (r: bool)
    ensures
        r == (trimmed(s@).len() == 0),
{
    let t = trim_str(s);
    t.is_empty()
}

/// The event a result produces: its text when that is not blank.
pub open spec fn event_text(result: RecognitionResult) -> Option<Seq<char>> {
    match result.transcript {
        Some(t) => if trimmed(t@).len() == 0 {
            None
        } else {
            Some(t@)
        },
        None => None,
    }
}

pub open spec fn is_final_of(result: RecognitionResult) -> bool {
    match result.is_final {
        Some(b) => b,
        None => false,
    }
}

/// Relies on chrono::Utc::now and `DateTime::to_rfc3339`: the current time as text.
#[verifier::external_body]
fn utc_now_rfc3339() -> (r: String) {
    chrono::Utc::now().to_rfc3339()
}

pub open spec fn refused_with(o: Opening, status: Seq<char>) -> bool {
    match o {
        Opening::Refused { status: s } => s@ == status,
        _ => false,
    }
}

pub open spec fn connects_to(o: Opening, url: Seq<char>, authorization: Seq<char>) -> bool {
    match o {
        Opening::Connect { url: u, authorization: a } => u@ == url && a@ == authorization,
        _ => false,
    }
}

pub open spec fn text_of(s: Option<String>) -> Option<Seq<char>> {
    match s {
        Some(t) => Some(t@),
        None => None,
    }
}

pub open spec fn bytes_of(r: Option<Vec<u8>>) -> Option<Seq<u8>> {
    match r {
        Some(v) => Some(v@),
        None => None,
    }
}

/// `segments` is `before` with one more segment `(time, text)` at the end.
pub open spec fn appended(
    before: Seq<(String, String)>,
    segments: Seq<(String, String)>,
    time: Seq<char>,
    text: Seq<char>,
) -> bool {
    &&& segments.len() == before.len() + 1
    &&& segments.drop_last() == before
    &&& segments.last().0@ == time
    &&& segments.last().1@ == text
}

/// What a batch of drained `samples` does in phase `phase` to the pending bytes
/// `pending`: `sent` is the frame handed out, `after` the bytes left pending.
pub open spec fn tick_outcome(
    phase: Phase,
    pending: Seq<u8>,
    samples: Seq<i16>,
    sent: Option<Seq<u8>>,
    after: Seq<u8>,
) -> bool {
    if phase != Phase::Streaming {
        sent is None && after == pending
    } else {
        let all = pending + le_bytes(samples);
        if all.len() >= MIN_SEND_BYTES {
            sent == Some(all) && after.len() == 0
        } else {
            sent is None && after == all
        }
    }
}

/// Transcript segments as `(display time, text)` views.
pub open spec fn segments_view(t: Seq<(String, String)>) -> Seq<(Seq<char>, Seq<char>)> {
    t.map_values(|p: (String, String)| (p.0@, p.1@))
}

/// The segments after a message `result` arrives in phase `phase` with display
/// time `time`: a final, non-blank result while streaming adds one at the end.
pub open spec fn recorded(
    segs: Seq<(Seq<char>, Seq<char>)>,
    phase: Phase,
    result: Option<RecognitionResult>,
    time: Seq<char>,
) -> Seq<(Seq<char>, Seq<char>)> {
    if phase == Phase::Streaming && result is Some && event_text(result->0) is Some
        && is_final_of(result->0) {
        segs.push((time, event_text(result->0)->0))
    } else {
        segs
    }
}

/// The phase after a stop request in phase `p`: only a streaming session moves on.
pub open spec fn cancel_phase(p: Phase) -> Phase {
    if p == Phase::Streaming {
        Phase::Closing
    } else {
        p
    }
}

/// Whether a stop request in phase `p` hands out the note to persist.
pub open spec fn cancel_persists(p: Phase) -> bool {
    p == Phase::Streaming
}

/// The phase after the remote side ends the connection in phase `p`.
pub open spec fn remote_end_phase(p: Phase) -> Phase {
    if p == Phase::Streaming || p == Phase::Connecting {
        Phase::Failed
    } else if p == Phase::Closing {
        Phase::Closed
    } else {
        p
    }
}

impl Session {
    pub open spec fn wf(&self) -> bool {
        self.pending@.len() < MIN_SEND_BYTES
    }

    /// Opens a session: without a credential it fails at once, else it starts
    /// connecting to the address built from the negotiated format.
    pub fn start(sample_rate: u32, channels: u16, api_key: &str, note: MeetingNote) -> (r: (
        Session,
        Opening,
    ))
        ensures
            r.0.wf(),
            r.0.sample_rate == sample_rate,
            r.0.channels == channels,
            r.0.pending@.len() == 0,
            r.0.note == note,
            api_key@.len() == 0 ==> r.0.phase == Phase::Failed && refused_with(
                r.1,
                "error: missing api key"@,
            ),
            api_key@.len() > 0 ==> r.0.phase == Phase::Connecting && connects_to(
                r.1,
                listen_url_text(sample_rate, channels),
                "Token "@ + api_key@,
            ),
    {
        let session = Session { phase: Phase::Connecting, sample_rate, channels, pending: Vec::new(), note };
        if api_key.is_empty() {
            let mut s = session;
            s.phase = Phase::Failed;
            (s, Opening::Refused { status: String::from_str("error: missing api key") })
        } else {
            let mut authorization = String::from_str("Token ");
            authorization.append(api_key);
            let url = listen_url(sample_rate, channels);
            (session, Opening::Connect { url, authorization })
        }
    }

    /// The connection is open: a connecting session starts streaming.
    pub fn on_connected(&mut self)
        ensures
            final(self).phase == (if old(self).phase == Phase::Connecting {
                Phase::Streaming
            } else {
                old(self).phase
            }),
            final(self).pending@ == old(self).pending@,
            final(self).note == old(self).note,
            final(self).sample_rate == old(self).sample_rate,
            final(self).channels == old(self).channels,
    {
        if self.phase == Phase::Connecting {
            self.phase = Phase::Streaming;
        }
    }

    /// The connection could not be opened: a connecting session fails, and the
    /// status to report is returned.
    pub fn on_connect_failed(&mut self) -> (r: Option<String>)
        ensures
            old(self).phase == Phase::Connecting ==> final(self).phase == Phase::Failed
                && text_of(r) == Some("error: connection failed"@),
            old(self).phase != Phase::Connecting ==> final(self).phase == old(self).phase
                && r is None,
            final(self).pending@ == old(self).pending@,
            final(self).note == old(self).note,
            final(self).sample_rate == old(self).sample_rate,
            final(self).channels == old(self).channels,
    {
        if self.phase == Phase::Connecting {
            self.phase = Phase::Failed;
            Some(String::from_str("error: connection failed"))
        } else {
            None
        }
    }
}


impl Session {
    /// Converts drained samples to little-endian bytes and appends them to the
    /// pending buffer while streaming. Once the buffer holds at least
    /// `MIN_SEND_BYTES` it is handed out whole, to be sent, and emptied.
    pub fn on_samples(&mut self, samples: &[i16]) -> (r: Option<Vec<u8>>)
        requires
            old(self).wf(),
        ensures
            final(self).wf(),
            final(self).phase == old(self).phase,
            final(self).note == old(self).note,
            final(self).sample_rate == old(self).sample_rate,
            final(self).channels == old(self).channels,
            tick_outcome(old(self).phase, old(self).pending@, samples@, bytes_of(r), final(self).pending@),
            old(self).phase != Phase::Streaming ==> r is None && final(self).pending@ == old(
                self,
            ).pending@,
            old(self).phase == Phase::Streaming ==> {
                let all = old(self).pending@ + le_bytes(samples@);
                if all.len() >= MIN_SEND_BYTES {
                    bytes_of(r) == Some(all) && final(self).pending@.len() == 0
                } else {
                    r is None && final(self).pending@ == all
                }
            },
    {
        if self.phase != Phase::Streaming {
            return None;
        }
        append_le(&mut self.pending, samples);
        if self.pending.len() >= MIN_SEND_BYTES {
            let mut out: Vec<u8> = Vec::new();
            core::mem::swap(&mut out, &mut self.pending);
            Some(out)
        } else {
            None
        }
    }

    /// One drain tick: takes every sample the consumer has ready and passes them
    /// to `on_samples`; returns the frame to send, if one is due.
    pub fn drain_tick(&mut self, consumer: &mut SampleConsumer) -> (r: Option<Vec<u8>>)
        requires
            old(self).wf(),
        ensures
            final(self).wf(),
            final(self).phase == old(self).phase,
            final(self).note == old(self).note,
            consumer_capacity(*final(consumer)) == consumer_capacity(*old(consumer)),
            exists|s: Seq<i16>|
                s.len() <= consumer_capacity(*old(consumer)) && #[trigger] tick_outcome(
                    old(self).phase,
                    old(self).pending@,
                    s,
                    bytes_of(r),
                    final(self).pending@,
                ),
    {
        let available = consumer.available();
        let samples = consumer.drain(available);
        let r = self.on_samples(samples.as_slice());
        assert(tick_outcome(old(self).phase, old(self).pending@, samples@, bytes_of(r), self.pending@));
        r
    }

    /// Takes one decoded message of the service while streaming. A result whose
    /// text is not blank becomes an event stamped `timestamp`; a final one is also
    /// appended to the note as `(display_time, text)`. Anything else changes nothing.
    pub fn on_result(
        &mut self,
        result: Option<RecognitionResult>,
        timestamp: String,
        display_time: String,
    ) -> (r: Option<TranscriptEvent>)
        ensures
            final(self).phase == old(self).phase,
            final(self).pending@ == old(self).pending@,
            final(self).sample_rate == old(self).sample_rate,
            final(self).channels == old(self).channels,
            final(self).note.timestamp == old(self).note.timestamp,
            final(self).note.key_points@ == old(self).note.key_points@,
            final(self).note.decisions@ == old(self).note.decisions@,
            final(self).note.action_items@ == old(self).note.action_items@,
            segments_view(final(self).note.transcript@) == recorded(
                segments_view(old(self).note.transcript@),
                old(self).phase,
                result,
                display_time@,
            ),
            (old(self).phase != Phase::Streaming || result is None || event_text(result->0) is None)
                ==> r is None && final(self).note.transcript@ == old(self).note.transcript@,
            (old(self).phase == Phase::Streaming && result is Some && event_text(result->0) is Some)
                ==> {
                let text = event_text(result->0)->0;
                let fin = is_final_of(result->0);
                &&& r is Some
                &&& r->0.text@ == text
                &&& r->0.is_final == fin
                &&& r->0.timestamp@ == timestamp@
                &&& fin ==> appended(
                    old(self).note.transcript@,
                    final(self).note.transcript@,
                    display_time@,
                    text,
                )
                &&& !fin ==> final(self).note.transcript@ == old(self).note.transcript@
            },
    {
        if self.phase != Phase::Streaming {
            return None;
        }
        match result {
            None => None,
            Some(res) => {
                let is_final = match res.is_final {
                    Some(b) => b,
                    None => false,
                };
                match res.transcript {
                    None => None,
                    Some(text) => {
                        if is_blank(text.as_str()) {
                            None
                        } else {
                            if is_final {
                                let ghost before = self.note.transcript@;
                                self.note.add_transcript_segment(text.clone(), display_time);
                                assert(self.note.transcript@.drop_last() =~= before);
                                assert(segments_view(self.note.transcript@) =~= segments_view(
                                    before,
                                ).push((self.note.transcript@.last().0@, self.note.transcript@.last().1@)));
                            }
                            Some(TranscriptEvent { text, is_final, timestamp })
                        }
                    },
                }
            },
        }
    }

    /// As `on_result`, stamping the event with the current UTC time and the
    /// segment with the local time of day as `HH:MM:SS`.
    pub fn handle_result(&mut self, result: Option<RecognitionResult>) -> (r: Option<
        TranscriptEvent,
    >)
        ensures
            final(self).phase == old(self).phase,
            final(self).pending@ == old(self).pending@,
            final(self).note.timestamp == old(self).note.timestamp,
            (old(self).phase != Phase::Streaming || result is None || event_text(result->0) is None)
                ==> r is None && final(self).note.transcript@ == old(self).note.transcript@,
            (old(self).phase == Phase::Streaming && result is Some && event_text(result->0) is Some)
                ==> {
                let text = event_text(result->0)->0;
                let fin = is_final_of(result->0);
                &&& r is Some
                &&& r->0.text@ == text
                &&& r->0.is_final == fin
                &&& fin ==> final(self).note.transcript@.len() == old(self).note.transcript@.len()
                    + 1 && final(self).note.transcript@.drop_last() == old(self).note.transcript@
                    && final(self).note.transcript@.last().1@ == text && exists|
                    h: u32,
                    m: u32,
                    sec: u32,
                |
                    h < 24 && m < 60 && sec < 60 && final(self).note.transcript@.last().0@
                        == clock_text(h, m, sec)
                &&& !fin ==> final(self).note.transcript@ == old(self).note.transcript@
            },
    {
        let timestamp = utc_now_rfc3339();
        let (h, m, s) = local_clock();
        let display_time = format_clock(h, m, s);
        let r = self.on_result(result, timestamp, display_time);
        assert(self.note.transcript@.len() > 0 ==> h < 24 && m < 60 && s < 60);
        r
    }

    /// A stop request: a streaming session moves to closing and hands out its note
    /// to persist; in any other phase nothing happens.
    pub fn on_cancel(&mut self) -> (r: Option<NoteFile>)
        ensures
            final(self).phase == cancel_phase(old(self).phase),
            final(self).pending@ == old(self).pending@,
            final(self).note == old(self).note,
            r is Some <==> cancel_persists(old(self).phase),
            r is Some ==> r->0.file_name@ == file_name_text(old(self).note.timestamp)
                && r->0.document@ == markdown(old(self).note),
    {
        if self.phase == Phase::Streaming {
            self.phase = Phase::Closing;
            Some(NoteFile { file_name: self.note.file_name(), document: self.note.format_markdown() })
        } else {
            None
        }
    }

    /// A command from the controller, or `None` once its channel has closed; both
    /// mean stop.
    pub fn on_command(&mut self, cmd: Option<TranscriptionCommand>) -> (r: Option<NoteFile>)
        ensures
            final(self).phase == cancel_phase(old(self).phase),
            final(self).pending@ == old(self).pending@,
            final(self).note == old(self).note,
            r is Some <==> cancel_persists(old(self).phase),
            r is Some ==> r->0.file_name@ == file_name_text(old(self).note.timestamp)
                && r->0.document@ == markdown(old(self).note),
    {
        match cmd {
            Some(TranscriptionCommand::Stop) | None => self.on_cancel(),
        }
    }

    /// The close frame went out and the note was handed over: closing ends.
    pub fn finish(&mut self)
        ensures
            final(self).phase == (if old(self).phase == Phase::Closing {
                Phase::Closed
            } else {
                old(self).phase
            }),
            final(self).pending@ == old(self).pending@,
            final(self).note == old(self).note,
    {
        if self.phase == Phase::Closing {
            self.phase = Phase::Closed;
        }
    }

    /// The remote side closed or the stream ended: unexpected unless closing.
    pub fn on_remote_end(&mut self)
        ensures
            final(self).phase == remote_end_phase(old(self).phase),
            final(self).pending@ == old(self).pending@,
            final(self).note == old(self).note,
    {
        if self.phase == Phase::Streaming || self.phase == Phase::Connecting {
            self.phase = Phase::Failed;
        } else if self.phase == Phase::Closing {
            self.phase = Phase::Closed;
        }
    }

    /// Whether the session can still act: neither closed nor failed.
    pub fn is_live(&self) -> (r: bool)
        ensures
            r == (self.phase != Phase::Closed && self.phase != Phase::Failed),
    {
        self.phase != Phase::Closed && self.phase != Phase::Failed
    }
}

/// The name of the event a transcript event goes out under.
pub fn event_name(event: &TranscriptEvent) -> (r: &'static str)
    ensures
        event.is_final ==> r@ == "transcript_final"@,
        !event.is_final ==> r@ == "transcript_partial"@,
{
    if event.is_final {
        "transcript_final"
    } else {
        "transcript_partial"
    }
}

/// A second stop request persists nothing: after one request a session is no
/// longer streaming, and in any phase but streaming a request changes nothing.
pub proof fn lemma_cancel_persists_at_most_once(p: Phase)
    ensures
        !cancel_persists(cancel_phase(p)),
        cancel_phase(cancel_phase(p)) == cancel_phase(p),
        p != Phase::Streaming ==> cancel_phase(p) == p && !cancel_persists(p),
{
}

/// Final results recorded while streaming keep the order in which the service sent
/// them: after three final, non-blank results the transcript ends with their texts,
/// each with its display time, in that order.
pub proof fn lemma_final_results_kept_in_order(
    segs: Seq<(Seq<char>, Seq<char>)>,
    a: RecognitionResult,
    b: RecognitionResult,
    c: RecognitionResult,
    ta: Seq<char>,
    tb: Seq<char>,
    tc: Seq<char>,
)
    requires
        event_text(a) is Some && is_final_of(a),
        event_text(b) is Some && is_final_of(b),
        event_text(c) is Some && is_final_of(c),
    ensures
        recorded(
            recorded(recorded(segs, Phase::Streaming, Some(a), ta), Phase::Streaming, Some(b), tb),
            Phase::Streaming,
            Some(c),
            tc,
        ) == segs + seq![
            (ta, event_text(a)->0),
            (tb, event_text(b)->0),
            (tc, event_text(c)->0),
        ],
{
    assert(segs.push((ta, event_text(a)->0)).push((tb, event_text(b)->0)).push(
        (tc, event_text(c)->0),
    ) =~= segs + seq![
        (ta, event_text(a)->0),
        (tb, event_text(b)->0),
        (tc, event_text(c)->0),
    ]);
}

} // verus!
