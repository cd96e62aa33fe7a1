//! The session coordinator.
//!
//! [`AudioBridge`] owns the session state — the capturing flag, the two
//! transcript buffers, the last native error and the recognition locale —
//! and drives the two native engines through the traits in
//! [`crate::engine`]. Callback events enter through [`AudioBridge::on_transcription`],
//! [`AudioBridge::on_audio_sample`] and [`AudioBridge::on_error`]; the caller drives the
//! session through [`AudioBridge::start_transcription`] and
//! [`AudioBridge::stop_transcription`] and reads it through the accessors.
//!
//! The clock is the caller's: start and stop take the current time in whole
//! seconds and the bridge only diffs the two marks.

use vstd::prelude::*;
use vstd::string::StringExecFns;

use crate::engine::CaptureEngine;
use crate::engine::RecognitionEngine;
use crate::model::BufferModel;
use crate::model::append_segment;
use crate::model::duration_seconds_of;
use crate::model::lemma_render_take_succ;
use crate::model::render_segments;
use crate::model::transcription_step;

verus! {

/// Why a start attempt was refused.
#[derive(Clone, Copy, Debug, PartialEq, Eq, Structural)]
pub enum StartError {
    /// A session is already active: starting twice is caller misuse.
    AlreadyActive,
    /// The recognition engine refused to start; capture was never attempted.
    RecognitionStartFailed,
    /// The capture engine refused to start; the recognizer has been rolled
    /// back (stopped) again.
    CaptureStartFailed,
}

/// A snapshot of the session, as returned by stop and by the status query.
pub struct TranscriptionStatus {
    pub is_capturing: bool,
    /// The provisional text of the in-flight utterance.
    pub latest_text: String,
    /// The confirmed transcript, segments joined by a line feed.
    pub full_text: String,
    /// Elapsed whole seconds since the session started, zero when idle.
    pub duration_seconds: i32,
}

/// The session coordinator: owns the transcript buffers and the two engines
/// and keeps them in lockstep with the capturing flag.
pub struct AudioBridge<R: RecognitionEngine, C: CaptureEngine> {
    rec: R,
    cap: C,
    active: bool,
    confirmed: Vec<String>,
    current: String,
    last_err: Option<String>,
    lang: String,
    started: Option<i64>,
}

impl<R: RecognitionEngine, C: CaptureEngine> AudioBridge<R, C> {
    /// The recognition engine, as the coordinator holds it.
    pub closed spec fn recognizer(&self) -> R {
        self.rec
    }

    /// The capture engine, as the coordinator holds it.
    pub closed spec fn capture(&self) -> C {
        self.cap
    }

    /// Whether a session is active: set only once both engines have started,
    /// cleared at stop.
    pub closed spec fn capturing(&self) -> bool {
        self.active
    }

    /// The transcript buffer pair.
    pub closed spec fn buffers(&self) -> BufferModel {
        BufferModel { confirmed: self.confirmed.deep_view(), current: self.current@ }
    }

    /// The most recent native error message, if any.
    pub closed spec fn last_error(&self) -> Option<Seq<char>> {
        match self.last_err {
            Option::Some(e) => Option::Some(e@),
            Option::None => Option::None,
        }
    }

    /// The recognition locale the session is set to.
    pub closed spec fn language(&self) -> Seq<char> {
        self.lang@
    }

    /// The caller-supplied second mark of the running session's start.
    pub closed spec fn started_at(&self) -> Option<int> {
        match self.started {
            Option::Some(t) => Option::Some(t as int),
            Option::None => Option::None,
        }
    }

    /// The session invariant: the capturing flag is true exactly when both
    /// engines are running, and a running session has a start mark.
    pub open spec fn inv(&self) -> bool {
        &&& self.capturing() == self.recognizer().running()
        &&& self.capturing() == self.capture().running()
        &&& (self.capturing() ==> self.started_at() is Some)
    }

    /// A coordinator over two idle engines, with empty buffers, no error and
    /// the default locale.
    pub fn init(recognizer: R, capture: C) -> (bridge: Self)
        requires
            !recognizer.running(),
            !capture.running(),
        ensures
            bridge.inv(),
            !bridge.capturing(),
            bridge.buffers() == BufferModel::empty(),
            bridge.last_error() is None,
            bridge.language() == "zh-CN"@,
            bridge.started_at() is None,
            bridge.recognizer() == recognizer,
            bridge.capture() == capture,
    {
        let bridge = AudioBridge {
            rec: recognizer,
            cap: capture,
            active: false,
            confirmed: Vec::new(),
            current: String::new(),
            last_err: None,
            lang: "zh-CN".to_owned(),
            started: None,
        };
        proof {
            assert(bridge.buffers() =~~= BufferModel::empty());
        }
        bridge
    }

    /// Queries both engines' permissions, capture first, without caching.
    pub fn check_permissions(&self) -> (granted: (bool, bool))
        ensures
            granted.0 == self.capture().permission_granted(),
            granted.1 == self.recognizer().permission_granted(),
    {
        (self.cap.check_permission(), self.rec.check_permission())
    }

    /// Sets the recognition locale, on the session and on the recognizer.
    pub fn set_language(&mut self, language: &str)
        requires
            old(self).inv(),
        ensures
            final(self).inv(),
            final(self).language() == language@,
            final(self).recognizer().language() == language@,
            final(self).recognizer().running() == old(self).recognizer().running(),
            final(self).capture() == old(self).capture(),
            final(self).capturing() == old(self).capturing(),
            final(self).buffers() == old(self).buffers(),
            final(self).last_error() == old(self).last_error(),
            final(self).started_at() == old(self).started_at(),
    {
        self.rec.set_language(language);
        self.lang = language.to_owned();
    }

    /// The recognition locale the session is set to.
    pub fn get_language(&self) -> (language: String)
        ensures
            language@ == self.language(),
    {
        self.lang.clone()
    }

    /// Whether the recognizer can work on the device.
    pub fn supports_on_device(&self) -> (supported: bool)
        ensures
            supported == self.recognizer().on_device_supported(),
    {
        self.rec.supports_on_device()
    }

    /// Starts a session: recognizer first, then capture, with rollback.
    ///
    /// Refused outright while a session is active, without contacting either
    /// engine. Otherwise the error slot and both buffers are cleared and the
    /// recognizer is started; if it refuses, capture is never attempted. If
    /// capture then refuses, the just-started recognizer is stopped again
    /// before the error is returned: a half-started pair is never left
    /// behind. Only after both engines confirm does the session count as
    /// capturing, with `now_seconds` as its start mark.
    pub fn start_transcription(&mut self, now_seconds: i64) -> (result: Result<(), StartError>)
        requires
            old(self).inv(),
        ensures
            final(self).inv(),
            final(self).language() == old(self).language(),
            old(self).capturing() ==> result == Err::<(), StartError>(StartError::AlreadyActive)
                && *final(self) == *old(self),
            !old(self).capturing() ==> {
                &&& final(self).buffers() == BufferModel::empty()
                &&& final(self).last_error() is None
                &&& match result {
                    Ok(()) => {
                        &&& final(self).capturing()
                        &&& final(self).recognizer().running()
                        &&& final(self).capture().running()
                        &&& final(self).started_at() == Some(now_seconds as int)
                    },
                    Err(e) => {
                        &&& e != StartError::AlreadyActive
                        &&& !final(self).capturing()
                        &&& !final(self).recognizer().running()
                        &&& !final(self).capture().running()
                        &&& final(self).started_at() is None
                        &&& (e == StartError::RecognitionStartFailed ==> final(self).capture()
                            == old(self).capture())
                    },
                }
            },
    {
        if self.active {
            return Err(StartError::AlreadyActive);
        }
        self.confirmed = Vec::new();
        self.current = String::new();
        self.last_err = None;
        self.started = None;
        proof {
            assert(self.buffers() =~~= BufferModel::empty());
        }
        let rec_ok = self.rec.start();
        if !rec_ok {
            return Err(StartError::RecognitionStartFailed);
        }
        let cap_ok = self.cap.start();
        if !cap_ok {
            self.rec.stop();
            return Err(StartError::CaptureStartFailed);
        }
        self.active = true;
        self.started = Some(now_seconds);
        Ok(())
    }

    /// Stops the session: a no-op returning duration zero while idle, else
    /// capture is stopped, then the recognizer, and the flag is cleared.
    ///
    /// The buffers are left untouched and queryable; the returned snapshot
    /// carries the confirmed transcript as its text and the unconfirmed
    /// trailing utterance separately, which is deliberately not promoted
    /// into the transcript.
    pub fn stop_transcription(&mut self, now_seconds: i64) -> (status: TranscriptionStatus)
        requires
            old(self).inv(),
        ensures
            final(self).inv(),
            !final(self).capturing(),
            !status.is_capturing,
            status.latest_text@ == old(self).buffers().current,
            status.full_text@ == render_segments(old(self).buffers().confirmed),
            !old(self).capturing() ==> *final(self) == *old(self) && status.duration_seconds == 0,
            old(self).capturing() ==> {
                &&& !final(self).recognizer().running()
                &&& !final(self).capture().running()
                &&& final(self).buffers() == old(self).buffers()
                &&& final(self).last_error() == old(self).last_error()
                &&& final(self).language() == old(self).language()
                &&& final(self).recognizer().language() == old(self).recognizer().language()
                &&& final(self).started_at() is None
                &&& status.duration_seconds as int == duration_seconds_of(
                    old(self).started_at(),
                    now_seconds as int,
                )
            },
    {
        if !self.active {
            return TranscriptionStatus {
                is_capturing: false,
                latest_text: self.current.clone(),
                full_text: render_confirmed(&self.confirmed),
                duration_seconds: 0,
            };
        }
        self.cap.stop();
        self.rec.stop();
        self.active = false;
        let duration_seconds: i32 = match self.started {
            Some(t) => duration_between(t, now_seconds),
            None => 0,
        };
        self.started = None;
        TranscriptionStatus {
            is_capturing: false,
            latest_text: self.current.clone(),
            full_text: render_confirmed(&self.confirmed),
            duration_seconds,
        }
    }

    /// A snapshot of the session without touching it.
    pub fn get_status(&self, now_seconds: i64) -> (status: TranscriptionStatus)
        ensures
            status.is_capturing == self.capturing(),
            status.latest_text@ == self.buffers().current,
            status.full_text@ == render_segments(self.buffers().confirmed),
            status.duration_seconds as int == duration_seconds_of(
                self.started_at(),
                now_seconds as int,
            ),
    {
        let duration_seconds: i32 = match self.started {
            Some(t) => duration_between(t, now_seconds),
            None => 0,
        };
        TranscriptionStatus {
            is_capturing: self.active,
            latest_text: self.current.clone(),
            full_text: render_confirmed(&self.confirmed),
            duration_seconds,
        }
    }

    /// Transcription event sink: a final event confirms the in-flight
    /// utterance as one step — its non-empty text becomes the newest
    /// confirmed segment and the provisional text is cleared together — and
    /// a partial event replaces the provisional text wholesale. A missing
    /// payload is dropped silently. Nothing else of the session is touched.
    pub fn on_transcription(&mut self, text: Option<&str>, is_final: bool)
        requires
            old(self).inv(),
        ensures
            final(self).inv(),
            match text {
                Some(t) => final(self).buffers() == transcription_step(
                    old(self).buffers(),
                    t@,
                    is_final,
                ),
                None => final(self).buffers() == old(self).buffers(),
            },
            final(self).capturing() == old(self).capturing(),
            final(self).last_error() == old(self).last_error(),
            final(self).language() == old(self).language(),
            final(self).started_at() == old(self).started_at(),
            final(self).recognizer() == old(self).recognizer(),
            final(self).capture() == old(self).capture(),
    {
        match text {
            None => {},
            Some(t) => {
                if is_final {
                    if !t.is_empty() {
                        self.confirmed.push(t.to_owned());
                    }
                    self.current = String::new();
                } else {
                    self.current = t.to_owned();
                }
                proof {
                    assert(self.buffers() =~~= transcription_step(
                        old(self).buffers(),
                        t@,
                        is_final,
                    ));
                }
            },
        }
    }

    /// Error sink for both engines: records the message, overwriting any
    /// previous one, and is never cleared here except at session start. A
    /// missing payload is dropped silently.
    pub fn on_error(&mut self, message: Option<&str>)
        requires
            old(self).inv(),
        ensures
            final(self).inv(),
            match message {
                Some(m) => final(self).last_error() == Some(m@),
                None => final(self).last_error() == old(self).last_error(),
            },
            final(self).buffers() == old(self).buffers(),
            final(self).capturing() == old(self).capturing(),
            final(self).language() == old(self).language(),
            final(self).started_at() == old(self).started_at(),
            final(self).recognizer() == old(self).recognizer(),
            final(self).capture() == old(self).capture(),
    {
        match message {
            None => {},
            Some(m) => {
                self.last_err = Some(m.to_owned());
            },
        }
    }

    /// Audio event sink: forwards the first `count` samples of a valid block
    /// verbatim to the recognizer, synchronously and without buffering. A
    /// missing block or a non-positive or oversized count is dropped
    /// silently — not a recognized failure mode. The transcript state is
    /// never touched.
    pub fn on_audio_sample(
        &mut self,
        samples: Option<&Vec<R::Sample>>,
        count: i32,
        _timestamp_millis: i64,
    )
        requires
            old(self).inv(),
        ensures
            final(self).inv(),
            match samples {
                Some(block) => if 0 < count && count as int <= block@.len() {
                    final(self).recognizer().ingested() == old(self).recognizer().ingested()
                        + block@.take(count as int)
                } else {
                    *final(self) == *old(self)
                },
                None => *final(self) == *old(self),
            },
            final(self).buffers() == old(self).buffers(),
            final(self).capturing() == old(self).capturing(),
            final(self).last_error() == old(self).last_error(),
            final(self).language() == old(self).language(),
            final(self).started_at() == old(self).started_at(),
            final(self).capture() == old(self).capture(),
            final(self).recognizer().running() == old(self).recognizer().running(),
    {
        match samples {
            None => {},
            Some(block) => {
                if 0 < count && (count as usize) <= block.len() {
                    self.rec.append_audio(block, count as usize);
                }
            },
        }
    }

    /// The provisional text of the in-flight utterance, for live display.
    pub fn get_latest_transcription(&self) -> (text: String)
        ensures
            text@ == self.buffers().current,
    {
        self.current.clone()
    }

    /// The confirmed transcript: all confirmed segments joined by a line
    /// feed.
    pub fn get_full_transcription(&self) -> (text: String)
        ensures
            text@ == render_segments(self.buffers().confirmed),
    {
        render_confirmed(&self.confirmed)
    }

    /// Empties both transcript buffers; nothing else of the session is
    /// touched.
    pub fn clear_transcription(&mut self)
        requires
            old(self).inv(),
        ensures
            final(self).inv(),
            final(self).buffers() == BufferModel::empty(),
            final(self).capturing() == old(self).capturing(),
            final(self).last_error() == old(self).last_error(),
            final(self).language() == old(self).language(),
            final(self).started_at() == old(self).started_at(),
            final(self).recognizer() == old(self).recognizer(),
            final(self).capture() == old(self).capture(),
    {
        self.confirmed = Vec::new();
        self.current = String::new();
        proof {
            assert(self.buffers() =~~= BufferModel::empty());
        }
    }

    /// Test and demonstration hook: injects text as an already-confirmed
    /// segment, under the same confirmed-append rule as a final event, but
    /// leaves the provisional text alone.
    pub fn simulate_text(&mut self, text: &str)
        requires
            old(self).inv(),
        ensures
            final(self).inv(),
            final(self).buffers().confirmed == append_segment(
                old(self).buffers().confirmed,
                text@,
            ),
            final(self).buffers().current == old(self).buffers().current,
            final(self).capturing() == old(self).capturing(),
            final(self).last_error() == old(self).last_error(),
            final(self).language() == old(self).language(),
            final(self).started_at() == old(self).started_at(),
            final(self).recognizer() == old(self).recognizer(),
            final(self).capture() == old(self).capture(),
    {
        if !text.is_empty() {
            self.confirmed.push(text.to_owned());
        }
        proof {
            assert(self.buffers().confirmed =~~= append_segment(
                old(self).buffers().confirmed,
                text@,
            ));
        }
    }

    /// The most recent native error message, read without clearing it.
    pub fn get_error(&self) -> (error: Option<String>)
        ensures
            match error {
                Some(e) => self.last_error() == Some(e@),
                None => self.last_error() is None,
            },
    {
        match &self.last_err {
            Some(e) => Some(e.clone()),
            None => None,
        }
    }

    /// Whether a session is active.
    pub fn is_capturing(&self) -> (capturing: bool)
        ensures
            capturing == self.capturing(),
    {
        self.active
    }

    /// The recognition engine, for callers that need to observe it.
    pub fn recognizer_ref(&self) -> (engine: &R)
        ensures
            *engine == self.recognizer(),
    {
        &self.rec
    }

    /// The capture engine, for callers that need to observe it.
    pub fn capture_ref(&self) -> (engine: &C)
        ensures
            *engine == self.capture(),
    {
        &self.cap
    }

    /// The capture engine's own status code.
    pub fn get_capture_status(&self) -> (status: i32)
        ensures
            status == self.capture().status_code(),
    {
        self.cap.get_status()
    }

    /// The recognition engine's own status code.
    pub fn get_recognition_status(&self) -> (status: i32)
        ensures
            status == self.recognizer().status_code(),
    {
        self.rec.get_status()
    }
}

/// Joins confirmed segments with a line feed, matching
/// [`render_segments`] on the segments' views.
fn render_confirmed(segs: &Vec<String>) -> (rendered: String)
    ensures
        rendered@ == render_segments(segs.deep_view()),
{
    let ghost all = segs.deep_view();
    let mut rendered = String::new();
    proof {
        assert(all.take(0) =~= Seq::<Seq<char>>::empty());
    }
    let mut i: usize = 0;
    while i < segs.len()
        invariant
            i <= segs.len(),
            all == segs.deep_view(),
            rendered@ == render_segments(all.take(i as int)),
        decreases segs.len() - i,
    {
        proof {
            lemma_render_take_succ(all, i as int);
            reveal_strlit("\n");
            assert("\n"@ =~= seq!['\n']);
        }
        if i > 0 {
            rendered.append("\n");
        }
        rendered.append(segs[i].as_str());
        proof {
            assert(all[i as int] == segs@[i as int]@);
        }
        i = i + 1;
    }
    proof {
        assert(all.take(segs.len() as int) =~= all);
    }
    rendered
}

/// Elapsed whole seconds from `start_seconds` to `now_seconds`, clamped to
/// zero when the clock moved backwards and saturating at the widest value
/// the status record carries.
fn duration_between(start_seconds: i64, now_seconds: i64) -> (duration: i32)
    ensures
        duration as int == duration_seconds_of(
            Some(start_seconds as int),
            now_seconds as int,
        ),
{
    if now_seconds <= start_seconds {
        0
    } else {
        let diff: i128 = now_seconds as i128 - start_seconds as i128;
        if diff > i32::MAX as i128 {
            i32::MAX
        } else {
            diff as i32
        }
    }
}

} // verus!
