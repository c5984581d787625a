//! The running transcript of a session, one segment per utterance.
//!
//! The clock and the serial numbers of new segments come from the caller.
use vstd::prelude::*;
use vstd::string::*;

use crate::audio::AudioSource;
use crate::json::opt_view;
use crate::stt::events::{SttEvent, SttEventKind, SttEventView};
use crate::text::{count_words, hex_text, hexadecimal, join, joined, views, word_count};

verus! {

/// One utterance. The times within the session are the bits of doubles.
#[derive(Debug, Clone)]
pub struct TranscriptSegment {
    pub id: String,
    pub timestamp: u64,
    pub source: AudioSource,
    pub partial_text: Option<String>,
    pub final_text: Option<String>,
    pub start_time: Option<u64>,
    pub end_time: Option<u64>,
}

/// The view of an utterance.
pub struct SegmentView {
    pub id: Seq<char>,
    pub timestamp: u64,
    pub source: AudioSource,
    pub partial_text: Option<Seq<char>>,
    pub final_text: Option<Seq<char>>,
    pub start_time: Option<u64>,
    pub end_time: Option<u64>,
}

impl TranscriptSegment {
    pub open spec fn view(&self) -> SegmentView {
        SegmentView {
            id: self.id@,
            timestamp: self.timestamp,
            source: self.source,
            partial_text: opt_view(self.partial_text),
            final_text: opt_view(self.final_text),
            start_time: self.start_time,
            end_time: self.end_time,
        }
    }

    /// A segment equal to this one.
    fn copy(&self) -> (r: TranscriptSegment)
        ensures
            r@ == self@,
    {
        TranscriptSegment {
            id: self.id.clone(),
            timestamp: self.timestamp,
            source: self.source,
            partial_text: match &self.partial_text {
                Some(t) => Some(t.clone()),
                None => None,
            },
            final_text: match &self.final_text {
                Some(t) => Some(t.clone()),
                None => None,
            },
            start_time: self.start_time,
            end_time: self.end_time,
        }
    }
}

/// The views of a sequence of segments.
pub open spec fn segment_views(segments: Seq<TranscriptSegment>) -> Seq<SegmentView> {
    segments.map_values(|s: TranscriptSegment| s@)
}

#[derive(Debug, Clone, Copy, PartialEq, Eq, Structural)]
pub enum RecordingState {
    Idle,
    Starting,
    Recording,
    Paused,
    Stopping,
    Stopped,
}

/// The identifier made of a moment and a serial number.
pub open spec fn stamped_id(now_ms: u64, serial: u64) -> Seq<char> {
    hexadecimal(now_ms as nat) + "-"@ + hexadecimal(serial as nat)
}

/// Makes an identifier of a moment and a serial number.
pub fn uuid_like_id(now_ms: u64, serial: u64) -> (r: String)
    ensures
        r@ == stamped_id(now_ms, serial),
{
    let mut id: String = hex_text(now_ms);
    id.append("-");
    let n: String = hex_text(serial);
    id.append(n.as_str());
    id
}

/// One recording session.
#[derive(Debug, Clone)]
pub struct InterviewSession {
    pub id: String,
    pub started_at_ms: u64,
    pub ended_at_ms: Option<u64>,
    pub segments: Vec<TranscriptSegment>,
    pub paused_ms_total: u64,
    pub pause_started_at_ms: Option<u64>,
}

/// The view of a session.
pub struct SessionView {
    pub id: Seq<char>,
    pub started_at_ms: u64,
    pub ended_at_ms: Option<u64>,
    pub segments: Seq<SegmentView>,
    pub paused_ms_total: u64,
    pub pause_started_at_ms: Option<u64>,
}

/// A difference that does not go below zero.
pub open spec fn minus(a: int, b: int) -> int {
    if a < b {
        0
    } else {
        a - b
    }
}

/// A sum that does not go beyond the greatest 64-bit number.
pub open spec fn plus(a: int, b: int) -> int {
    if a + b > u64::MAX {
        u64::MAX as int
    } else {
        a + b
    }
}

/// The final texts of the segments that have one, in order.
pub open spec fn final_texts(segments: Seq<SegmentView>) -> Seq<Seq<char>>
    decreases segments.len(),
{
    if segments.len() == 0 {
        Seq::empty()
    } else {
        let rest = final_texts(segments.drop_last());
        match segments.last().final_text {
            Some(t) => rest.push(t),
            None => rest,
        }
    }
}

/// The words of several texts together.
pub open spec fn total_words(texts: Seq<Seq<char>>) -> nat
    decreases texts.len(),
{
    if texts.len() == 0 {
        0
    } else {
        total_words(texts.drop_last()) + word_count(texts.last())
    }
}

impl SessionView {
    /// A session that starts now.
    pub open spec fn fresh(now_ms: u64, serial: u64) -> SessionView {
        SessionView {
            id: stamped_id(now_ms, serial),
            started_at_ms: now_ms,
            ended_at_ms: None,
            segments: Seq::empty(),
            paused_ms_total: 0,
            pause_started_at_ms: None,
        }
    }

    /// The time that the session has run, without its pauses: up to its end,
    /// else up to the start of the present pause, else up to now.
    pub open spec fn elapsed(self, now_ms: u64) -> int {
        let end = match self.ended_at_ms {
            Some(t) => t,
            None => match self.pause_started_at_ms {
                Some(t) => t,
                None => now_ms,
            },
        };
        minus(minus(end as int, self.started_at_ms as int), self.paused_ms_total as int)
    }

    /// The session paused now, unless it already is.
    pub open spec fn paused(self, now_ms: u64) -> SessionView {
        if self.pause_started_at_ms is None {
            SessionView { pause_started_at_ms: Some(now_ms), ..self }
        } else {
            self
        }
    }

    /// The session resumed now; the length of the pause is added up.
    pub open spec fn resumed(self, now_ms: u64) -> SessionView {
        match self.pause_started_at_ms {
            Some(t) => SessionView {
                pause_started_at_ms: None,
                paused_ms_total: plus(
                    self.paused_ms_total as int,
                    minus(now_ms as int, t as int),
                ) as u64,
                ..self
            },
            None => self,
        }
    }

    /// The session ended now.
    pub open spec fn stopped(self, now_ms: u64) -> SessionView {
        SessionView { ended_at_ms: Some(now_ms), ..self.resumed(now_ms) }
    }
}

impl InterviewSession {
    pub open spec fn view(&self) -> SessionView {
        SessionView {
            id: self.id@,
            started_at_ms: self.started_at_ms,
            ended_at_ms: self.ended_at_ms,
            segments: segment_views(self.segments@),
            paused_ms_total: self.paused_ms_total,
            pause_started_at_ms: self.pause_started_at_ms,
        }
    }

    pub fn new(now_ms: u64, serial: u64) -> (r: InterviewSession)
        ensures
            r@ == SessionView::fresh(now_ms, serial),
    {
        let r = InterviewSession {
            id: uuid_like_id(now_ms, serial),
            started_at_ms: now_ms,
            ended_at_ms: None,
            segments: Vec::new(),
            paused_ms_total: 0,
            pause_started_at_ms: None,
        };
        proof {
            assert(r@.segments =~= Seq::empty());
        }
        r
    }

    /// The number of words of the final texts.
    pub fn word_count(&self) -> (r: usize)
        requires
            total_words(final_texts(self@.segments)) <= usize::MAX,
        ensures
            r == total_words(final_texts(self@.segments)),
    {
        let texts: Vec<String> = self.texts();
        let ghost all = views(texts@);
        let mut n: usize = 0;
        let mut i: usize = 0;
        proof {
            assert(all.take(0) =~= Seq::empty());
        }
        while i < texts.len()
            invariant
                i <= texts@.len(),
                all == views(texts@),
                n == total_words(all.take(i as int)),
                total_words(all) <= usize::MAX,
            decreases texts@.len() - i,
        {
            proof {
                let next = all.take(i as int + 1);
                assert(next.drop_last() =~= all.take(i as int));
                total_words_grow(all, i as int + 1);
            }
            n = n + count_words(texts[i].as_str());
            i += 1;
        }
        proof {
            assert(all.take(i as int) =~= all);
        }
        n
    }

    /// The final texts, in order.
    fn texts(&self) -> (r: Vec<String>)
        ensures
            views(r@) == final_texts(self@.segments),
    {
        let mut out: Vec<String> = Vec::new();
        let ghost all = segment_views(self.segments@);
        let mut i: usize = 0;
        proof {
            assert(all.take(0) =~= Seq::empty());
            assert(views(out@) =~= Seq::empty());
        }
        while i < self.segments.len()
            invariant
                i <= self.segments@.len(),
                all == segment_views(self.segments@),
                views(out@) == final_texts(all.take(i as int)),
            decreases self.segments@.len() - i,
        {
            let ghost before = views(out@);
            proof {
                let next = all.take(i as int + 1);
                assert(next.drop_last() =~= all.take(i as int));
                assert(next.last() == self.segments@[i as int]@);
            }
            match &self.segments[i].final_text {
                Some(t) => {
                    out.push(t.clone());
                    proof {
                        assert(views(out@) =~= before.push(t@));
                    }
                },
                None => {},
            }
            i += 1;
        }
        proof {
            assert(all.take(i as int) =~= all);
        }
        out
    }

    /// The final texts, one per line.
    pub fn full_transcript_text(&self) -> (r: String)
        ensures
            r@ == joined(final_texts(self@.segments), "\n"@),
    {
        let texts: Vec<String> = self.texts();
        join(&texts, "\n")
    }

    /// The time that the session has run, without its pauses.
    pub fn elapsed_ms(&self, now_ms: u64) -> (r: u64)
        ensures
            r == self@.elapsed(now_ms),
    {
        let end: u64 = match self.ended_at_ms {
            Some(t) => t,
            None => match self.pause_started_at_ms {
                Some(t) => t,
                None => now_ms,
            },
        };
        end.saturating_sub(self.started_at_ms).saturating_sub(self.paused_ms_total)
    }

    pub fn mark_paused(&mut self, now_ms: u64)
        ensures
            final(self)@ == old(self)@.paused(now_ms),
    {
        if self.pause_started_at_ms.is_none() {
            self.pause_started_at_ms = Some(now_ms);
        }
    }

    pub fn mark_resumed(&mut self, now_ms: u64)
        ensures
            final(self)@ == old(self)@.resumed(now_ms),
    {
        if let Some(paused_at) = self.pause_started_at_ms {
            self.pause_started_at_ms = None;
            self.paused_ms_total =
            self.paused_ms_total.saturating_add(now_ms.saturating_sub(paused_at));
        }
    }

    pub fn mark_stopped(&mut self, now_ms: u64)
        ensures
            final(self)@ == old(self)@.stopped(now_ms),
    {
        self.mark_resumed(now_ms);
        self.ended_at_ms = Some(now_ms);
    }
}

proof fn total_words_grow(texts: Seq<Seq<char>>, i: int)
    requires
        0 <= i <= texts.len(),
    ensures
        total_words(texts.take(i)) <= total_words(texts),
    decreases texts.len() - i,
{
    if i < texts.len() {
        assert(texts.take(i + 1).drop_last() =~= texts.take(i));
        total_words_grow(texts, i + 1);
    } else {
        assert(texts.take(i) =~= texts);
    }
}

/// A pause does not count: whatever the length of a pause, the time that the
/// session has run is the same just after it as just before it, and while it
/// lasts the time stands still.
pub proof fn pauses_do_not_count(session: SessionView, from: u64, to: u64)
    requires
        session.ended_at_ms is None,
        session.pause_started_at_ms is None,
        session.started_at_ms <= from <= to,
        session.paused_ms_total <= from - session.started_at_ms,
    ensures
        session.paused(from).elapsed(to) == session.elapsed(from),
        session.paused(from).resumed(to).elapsed(to) == session.elapsed(from),
{
}

/// Pausing twice is pausing once, and resuming a session that is not paused
/// changes nothing.
pub proof fn pausing_twice_is_pausing_once(session: SessionView, first: u64, second: u64)
    ensures
        session.paused(first).paused(second) == session.paused(first),
        session.pause_started_at_ms is None ==> session.resumed(first) == session,
{
}

/// For each source, the utterance in progress.
#[derive(Debug)]
struct InProgress {
    system_audio: Option<TranscriptSegment>,
    microphone: Option<TranscriptSegment>,
}

/// The transcript and, for each source, the utterance in progress.
#[derive(Debug)]
pub struct TranscriptManager {
    session: InterviewSession,
    in_progress: InProgress,
}

/// The view of the transcript and the utterances in progress.
pub struct ManagerView {
    pub session: SessionView,
    pub system_audio: Option<SegmentView>,
    pub microphone: Option<SegmentView>,
}

/// The view of an optional segment.
pub open spec fn opt_segment(s: Option<TranscriptSegment>) -> Option<SegmentView> {
    match s {
        Some(seg) => Some(seg@),
        None => None,
    }
}

/// A segment, where there is one, is of this source.
pub open spec fn is_of(segment: Option<SegmentView>, source: AudioSource) -> bool {
    segment matches Some(s) ==> s.source == source
}

/// A segment without text yet.
pub open spec fn blank_segment(source: AudioSource, now_ms: u64, serial: u64) -> SegmentView {
    SegmentView {
        id: stamped_id(now_ms, serial),
        timestamp: now_ms,
        source,
        partial_text: None,
        final_text: None,
        start_time: None,
        end_time: None,
    }
}

impl ManagerView {
    /// The utterance in progress under a source is of that source.
    pub open spec fn wf(self) -> bool {
        &&& is_of(self.system_audio, AudioSource::SystemAudio)
        &&& is_of(self.microphone, AudioSource::Microphone)
    }

    /// A new session, with nothing in progress.
    pub open spec fn fresh(now_ms: u64, serial: u64) -> ManagerView {
        ManagerView {
            session: SessionView::fresh(now_ms, serial),
            system_audio: None,
            microphone: None,
        }
    }

    /// The utterance in progress of a source.
    pub open spec fn in_progress(self, source: AudioSource) -> Option<SegmentView> {
        match source {
            AudioSource::SystemAudio => self.system_audio,
            AudioSource::Microphone => self.microphone,
        }
    }

    /// The same with another utterance in progress of a source.
    pub open spec fn with_progress(
        self,
        source: AudioSource,
        segment: Option<SegmentView>,
    ) -> ManagerView {
        match source {
            AudioSource::SystemAudio => ManagerView { system_audio: segment, ..self },
            AudioSource::Microphone => ManagerView { microphone: segment, ..self },
        }
    }

    /// The utterance in progress of a source, or a new one.
    pub open spec fn current(self, source: AudioSource, now_ms: u64, serial: u64) -> SegmentView {
        match self.in_progress(source) {
            Some(s) => s,
            None => blank_segment(source, now_ms, serial),
        }
    }

    /// What an event makes of the transcript, and the segment that it touched.
    pub open spec fn applied(self, event: SttEventView, now_ms: u64, serial: u64) -> (
        ManagerView,
        SegmentView,
    ) {
        let current = self.current(event.source, now_ms, serial);
        match event.kind {
            SttEventKind::Partial => {
                let segment = SegmentView { partial_text: Some(event.text), ..current };
                (self.with_progress(event.source, Some(segment)), segment)
            },
            SttEventKind::Final => {
                let segment = SegmentView {
                    partial_text: None,
                    final_text: Some(event.text),
                    start_time: event.start_time,
                    end_time: event.end_time,
                    timestamp: now_ms,
                    ..current
                };
                let closed = self.with_progress(event.source, None);
                (
                    ManagerView {
                        session: SessionView {
                            segments: self.session.segments.push(segment),
                            ..self.session
                        },
                        ..closed
                    },
                    segment,
                )
            },
        }
    }
}

/// A segment without text yet.
fn new_segment(source: AudioSource, now_ms: u64, serial: u64) -> (r: TranscriptSegment)
    ensures
        r@ == blank_segment(source, now_ms, serial),
{
    TranscriptSegment {
        id: uuid_like_id(now_ms, serial),
        timestamp: now_ms,
        source,
        partial_text: None,
        final_text: None,
        start_time: None,
        end_time: None,
    }
}

impl InProgress {
    #[verifier::type_invariant]
    spec fn inv(self) -> bool {
        &&& is_of(opt_segment(self.system_audio), AudioSource::SystemAudio)
        &&& is_of(opt_segment(self.microphone), AudioSource::Microphone)
    }

    fn none() -> (r: InProgress)
        ensures
            r.system_audio is None,
            r.microphone is None,
    {
        InProgress { system_audio: None, microphone: None }
    }

    /// Takes the utterance in progress of a source.
    fn take(&mut self, source: AudioSource) -> (r: Option<TranscriptSegment>)
        ensures
            is_of(opt_segment(r), source),
            match source {
                AudioSource::SystemAudio => {
                    &&& r == old(self).system_audio
                    &&& final(self).system_audio is None
                    &&& final(self).microphone == old(self).microphone
                },
                AudioSource::Microphone => {
                    &&& r == old(self).microphone
                    &&& final(self).microphone is None
                    &&& final(self).system_audio == old(self).system_audio
                },
            },
    {
        proof {
            use_type_invariant(&*self);
        }
        let mut all: InProgress = InProgress::none();
        std::mem::swap(self, &mut all);
        let InProgress { system_audio, microphone } = all;
        match source {
            AudioSource::SystemAudio => {
                *self = InProgress { system_audio: None, microphone };
                system_audio
            },
            AudioSource::Microphone => {
                *self = InProgress { system_audio, microphone: None };
                microphone
            },
        }
    }

    /// Makes a segment the utterance in progress of its source.
    fn put(&mut self, segment: TranscriptSegment)
        ensures
            match segment.source {
                AudioSource::SystemAudio => {
                    &&& final(self).system_audio == Some(segment)
                    &&& final(self).microphone == old(self).microphone
                },
                AudioSource::Microphone => {
                    &&& final(self).microphone == Some(segment)
                    &&& final(self).system_audio == old(self).system_audio
                },
            },
    {
        proof {
            use_type_invariant(&*self);
        }
        match segment.source {
            AudioSource::SystemAudio => {
                self.system_audio = Some(segment);
            },
            AudioSource::Microphone => {
                self.microphone = Some(segment);
            },
        }
    }
}

impl TranscriptManager {
    pub closed spec fn view(&self) -> ManagerView {
        ManagerView {
            session: self.session@,
            system_audio: opt_segment(self.in_progress.system_audio),
            microphone: opt_segment(self.in_progress.microphone),
        }
    }

    pub fn new(now_ms: u64, serial: u64) -> (r: TranscriptManager)
        ensures
            r@ == ManagerView::fresh(now_ms, serial),
    {
        TranscriptManager {
            session: InterviewSession::new(now_ms, serial),
            in_progress: InProgress::none(),
        }
    }

    pub fn session(&self) -> (r: &InterviewSession)
        ensures
            r@ == self@.session,
    {
        &self.session
    }

    pub fn take_session(self) -> (r: InterviewSession)
        ensures
            r@ == self@.session,
    {
        self.session
    }

    /// Starts a new session and forgets the utterances in progress.
    pub fn clear(&mut self, now_ms: u64, serial: u64)
        ensures
            final(self)@ == ManagerView::fresh(now_ms, serial),
    {
        self.session = InterviewSession::new(now_ms, serial);
        self.in_progress = InProgress::none();
    }

    pub fn mark_paused(&mut self, now_ms: u64)
        ensures
            final(self)@ == (ManagerView {
                session: old(self)@.session.paused(now_ms),
                ..old(self)@
            }),
    {
        self.session.mark_paused(now_ms);
    }

    pub fn mark_resumed(&mut self, now_ms: u64)
        ensures
            final(self)@ == (ManagerView {
                session: old(self)@.session.resumed(now_ms),
                ..old(self)@
            }),
    {
        self.session.mark_resumed(now_ms);
    }

    pub fn mark_stopped(&mut self, now_ms: u64)
        ensures
            final(self)@ == (ManagerView {
                session: old(self)@.session.stopped(now_ms),
                ..old(self)@
            }),
    {
        self.session.mark_stopped(now_ms);
    }

    /// Takes the utterance in progress of a source, or a new one.
    fn take_current(&mut self, source: AudioSource, now_ms: u64, serial: u64) -> (r:
        TranscriptSegment)
        ensures
            r@ == old(self)@.current(source, now_ms, serial),
            r.source == source,
            final(self)@ == old(self)@.with_progress(source, None),
    {
        match self.in_progress.take(source) {
            Some(s) => s,
            None => new_segment(source, now_ms, serial),
        }
    }

    /// Applies one event and gives the segment that it touched: the utterance
    /// in progress of the event's source, which a final text closes.
    pub fn apply_event(&mut self, event: SttEvent, now_ms: u64, serial: u64) -> (r: Option<
        TranscriptSegment,
    >)
        ensures
            final(self)@ == old(self)@.applied(event@, now_ms, serial).0,
            opt_segment(r) == Some(old(self)@.applied(event@, now_ms, serial).1),
            opt_segment(r)->0.source == event@.source,
            old(self)@.wf() && final(self)@.wf(),
    {
        proof {
            use_type_invariant(&self.in_progress);
        }
        let mut segment: TranscriptSegment = self.take_current(event.source, now_ms, serial);
        match event.kind {
            SttEventKind::Partial => {
                segment.partial_text = Some(event.text);
                let touched: TranscriptSegment = segment.copy();
                self.in_progress.put(segment);
                Some(touched)
            },
            SttEventKind::Final => {
                segment.partial_text = None;
                segment.final_text = Some(event.text);
                segment.start_time = event.start_time;
                segment.end_time = event.end_time;
                segment.timestamp = now_ms;
                let touched: TranscriptSegment = segment.copy();
                let ghost before = segment_views(self.session.segments@);
                self.session.segments.push(segment);
                proof {
                    assert(segment_views(self.session.segments@) =~= before.push(segment@));
                }
                Some(touched)
            },
        }
    }
}

/// An event touches its own source only: the other source's utterance in
/// progress stays as it is.
pub proof fn sources_do_not_mix(
    manager: ManagerView,
    event: SttEventView,
    now_ms: u64,
    serial: u64,
    other: AudioSource,
)
    requires
        other != event.source,
    ensures
        manager.applied(event, now_ms, serial).0.in_progress(other) == manager.in_progress(other),
{
}

/// The segment that an event touches carries the event's source, and what is
/// in progress under a source stays of that source.
pub proof fn segments_carry_their_source(
    manager: ManagerView,
    event: SttEventView,
    now_ms: u64,
    serial: u64,
)
    requires
        manager.wf(),
    ensures
        manager.applied(event, now_ms, serial).0.wf(),
        manager.applied(event, now_ms, serial).1.source == event.source,
{
}

/// An event, with the moment and the serial number at which it is applied.
pub struct AppliedEvent {
    pub event: SttEventView,
    pub now_ms: u64,
    pub serial: u64,
}

/// The transcript after several events.
pub open spec fn after_events(manager: ManagerView, events: Seq<AppliedEvent>) -> ManagerView
    decreases events.len(),
{
    if events.len() == 0 {
        manager
    } else {
        let last = events.last();
        after_events(manager, events.drop_last()).applied(last.event, last.now_ms, last.serial).0
    }
}

/// The event is a final text of this source.
pub open spec fn closes(event: AppliedEvent, source: AudioSource) -> bool {
    event.event.source == source && event.event.kind == SttEventKind::Final
}

proof fn it_stays_in_progress(
    manager: ManagerView,
    source: AudioSource,
    events: Seq<AppliedEvent>,
)
    requires
        manager.in_progress(source) is Some,
        forall|i: int| 0 <= i < events.len() ==> !#[trigger] closes(events[i], source),
    ensures
        after_events(manager, events).in_progress(source) is Some,
        after_events(manager, events).in_progress(source)->0.id == manager.in_progress(
            source,
        )->0.id,
    decreases events.len(),
{
    if events.len() > 0 {
        let before = events.drop_last();
        assert forall|i: int| 0 <= i < before.len() implies !#[trigger] closes(
            before[i],
            source,
        ) by {
            assert(before[i] == events[i]);
        }
        it_stays_in_progress(manager, source, before);
        let last = events.last();
        assert(!closes(events[events.len() - 1], source));
        let here = after_events(manager, before);
        if last.event.source != source {
            sources_do_not_mix(here, last.event, last.now_ms, last.serial, source);
        }
    }
}

/// The partial texts of an utterance and its final text are one segment,
/// whatever happens between them, as long as no other final text of the source
/// does: the segment keeps its identifier and its source, is added to the
/// session once, by the final text, and is then no longer in progress.
pub proof fn an_utterance_is_one_segment(
    manager: ManagerView,
    partial: AppliedEvent,
    between: Seq<AppliedEvent>,
    closing: AppliedEvent,
)
    requires
        manager.wf(),
        partial.event.kind == SttEventKind::Partial,
        closing.event.kind == SttEventKind::Final,
        partial.event.source == closing.event.source,
        forall|i: int|
            0 <= i < between.len() ==> !#[trigger] closes(between[i], closing.event.source),
    ensures
        ({
            let (open, shown) = manager.applied(partial.event, partial.now_ms, partial.serial);
            let before = after_events(open, between);
            let (end, segment) = before.applied(closing.event, closing.now_ms, closing.serial);
            &&& open.session == manager.session
            &&& segment.id == shown.id
            &&& segment.source == closing.event.source
            &&& end.session.segments == before.session.segments.push(segment)
            &&& segment.partial_text is None
            &&& segment.final_text == Some(closing.event.text)
            &&& end.in_progress(closing.event.source) is None
        }),
{
    let open = manager.applied(partial.event, partial.now_ms, partial.serial).0;
    it_stays_in_progress(open, closing.event.source, between);
    events_keep_the_sources(open, between);
}

proof fn events_keep_the_sources(manager: ManagerView, events: Seq<AppliedEvent>)
    requires
        manager.wf(),
    ensures
        after_events(manager, events).wf(),
    decreases events.len(),
{
    if events.len() > 0 {
        events_keep_the_sources(manager, events.drop_last());
    }
}

/// An utterance is kept as it was heard: its words, where they came from and when,
/// after all that is on the transcript. What is only guessed so far is shown, and
/// the transcript stays as it was.
pub proof fn an_utterance_is_kept_as_heard(
    manager: ManagerView,
    event: SttEventView,
    now_ms: u64,
    serial: u64,
)
    requires
        manager.wf(),
    ensures
        ({
            let (after, segment) = manager.applied(event, now_ms, serial);
            let before = manager.session;
            &&& segment.source == event.source
            &&& match manager.in_progress(event.source) {
                Some(open) => segment.id == open.id,
                None => segment.id == stamped_id(now_ms, serial),
            }
            &&& event.kind == SttEventKind::Final ==> {
                &&& segment.final_text == Some(event.text)
                &&& segment.partial_text is None
                &&& segment.start_time == event.start_time
                &&& segment.end_time == event.end_time
                &&& segment.timestamp == now_ms
                &&& after.session.segments.len() == before.segments.len() + 1
                &&& after.session.segments.last() == segment
                &&& after.session.segments.drop_last() == before.segments
                &&& after.in_progress(event.source) is None
            }
            &&& event.kind == SttEventKind::Partial ==> {
                &&& segment.partial_text == Some(event.text)
                &&& after.session.segments == before.segments
                &&& after.in_progress(event.source) == Some(segment)
            }
            &&& after.session == (SessionView { segments: after.session.segments, ..before })
        }),
{
    let (after, segment) = manager.applied(event, now_ms, serial);
    if event.kind == SttEventKind::Final {
        assert(manager.session.segments.push(segment).drop_last() =~= manager.session.segments);
    }
}

/// The transcript holds what was said, all of it and in the order in which it was
/// said, whoever said it.
pub proof fn the_transcript_is_what_was_said(manager: ManagerView, events: Seq<AppliedEvent>)
    ensures
        final_texts(after_events(manager, events).session.segments) == final_texts(
            manager.session.segments,
        ) + events.filter(|e: AppliedEvent| e.event.kind == SttEventKind::Final).map_values(
            |e: AppliedEvent| e.event.text,
        ),
    decreases events.len(),
{
    reveal(Seq::filter);
    let said = |e: AppliedEvent| e.event.kind == SttEventKind::Final;
    let text = |e: AppliedEvent| e.event.text;
    if events.len() > 0 {
        let last = events.last();
        let rest = events.drop_last();
        the_transcript_is_what_was_said(manager, rest);
        let before = after_events(manager, rest);
        let (after, segment) = before.applied(last.event, last.now_ms, last.serial);
        if last.event.kind == SttEventKind::Final {
            assert(after.session.segments.drop_last() =~= before.session.segments);
            assert(events.filter(said) == rest.filter(said).push(last));
            assert(rest.filter(said).push(last).map_values(text) =~= rest.filter(said).map_values(
                text,
            ).push(last.event.text));
        } else {
            assert(events.filter(said) == rest.filter(said));
        }
    }
    assert(final_texts(after_events(manager, events).session.segments) =~= final_texts(
        manager.session.segments,
    ) + events.filter(said).map_values(text));
}

/// The final texts of a session are those of its segments, in order.
pub proof fn final_texts_are_those_of_the_segments(segments: Seq<SegmentView>)
    ensures
        final_texts(segments) == segments.filter(
            |s: SegmentView| s.final_text is Some,
        ).map_values(|s: SegmentView| s.final_text->Some_0),
    decreases segments.len(),
{
    reveal(Seq::filter);
    let done = |s: SegmentView| s.final_text is Some;
    let text = |s: SegmentView| s.final_text->Some_0;
    if segments.len() > 0 {
        let rest = segments.drop_last();
        final_texts_are_those_of_the_segments(rest);
        if segments.last().final_text is Some {
            assert(segments.filter(done) == rest.filter(done).push(segments.last()));
            assert(rest.filter(done).push(segments.last()).map_values(text) =~= rest.filter(
                done,
            ).map_values(text).push(text(segments.last())));
        }
    }
    assert(final_texts(segments) =~= segments.filter(done).map_values(text));
}

/// The words of a session are those of its texts.
pub proof fn words_are_added_up(a: Seq<Seq<char>>, b: Seq<Seq<char>>, text: Seq<char>)
    ensures
        total_words(a + b) == total_words(a) + total_words(b),
        total_words(seq![text]) == word_count(text),
    decreases b.len(),
{
    if b.len() == 0 {
        assert(a + b =~= a);
    } else {
        words_are_added_up(a, b.drop_last(), text);
        assert((a + b).drop_last() =~= a + b.drop_last());
    }
    assert(seq![text].drop_last() =~= Seq::empty());
    assert(total_words(seq![text].drop_last()) == 0);
}

/// The clock of a session runs with the time, leaves the pauses out and stands
/// still once the session has ended.
pub proof fn the_clock_runs_until_the_end(session: SessionView, at: u64, now: u64, later: u64)
    requires
        session.ended_at_ms is None,
        session.pause_started_at_ms is None,
        session.started_at_ms + session.paused_ms_total <= at <= now <= later,
    ensures
        session.elapsed(at) == at - session.started_at_ms - session.paused_ms_total,
        session.elapsed(now) - session.elapsed(at) == now - at,
        session.stopped(at).elapsed(now) == session.elapsed(at),
        session.paused(at).stopped(now).elapsed(later) == session.elapsed(at),
        session.paused(at).resumed(now).elapsed(later) - session.elapsed(at) == later - now,
{
}

/// What the contracts say of a value is said of its fields, each under its own name.
pub proof fn each_field_is_seen_as_it_is(
    segment: TranscriptSegment,
    session: InterviewSession,
)
    ensures
        segment@.id == segment.id@,
        segment@.timestamp == segment.timestamp,
        segment@.source == segment.source,
        segment@.partial_text == opt_view(segment.partial_text),
        segment@.final_text == opt_view(segment.final_text),
        segment@.start_time == segment.start_time,
        segment@.end_time == segment.end_time,
        session@.id == session.id@,
        session@.started_at_ms == session.started_at_ms,
        session@.ended_at_ms == session.ended_at_ms,
        session@.segments == segment_views(session.segments@),
        session@.paused_ms_total == session.paused_ms_total,
        session@.pause_started_at_ms == session.pause_started_at_ms,
{
}

} // verus!
