//! Deterministic in-memory engines.
//!
//! These stand in for the native capture and recognition engines in tests
//! and demonstrations: each is constructed with the permission state it
//! reports and with whether its next start attempt is accepted, and keeps
//! all state in ordinary fields.

use vstd::prelude::*;

use crate::engine::CaptureEngine;
use crate::engine::RecognitionEngine;

verus! {

/// A deterministic capture engine kept entirely in memory.
pub struct SimCaptureEngine {
    active: bool,
    permission: bool,
    start_ok: bool,
}

impl SimCaptureEngine {
    /// Whether a start attempt will be accepted.
    pub closed spec fn will_start(&self) -> bool {
        self.start_ok
    }

    /// An idle engine that reports `permission` and accepts a start attempt
    /// exactly when `start_ok` is set.
    pub fn new(permission: bool, start_ok: bool) -> (engine: Self)
        ensures
            !engine.running(),
            engine.permission_granted() == permission,
            engine.will_start() == start_ok,
    {
        SimCaptureEngine { active: false, permission, start_ok }
    }

    /// Reads whether the engine is running.
    pub fn is_running(&self) -> (r: bool)
        ensures
            r == self.running(),
    {
        self.active
    }
}

impl CaptureEngine for SimCaptureEngine {
    closed spec fn running(&self) -> bool {
        self.active
    }

    closed spec fn permission_granted(&self) -> bool {
        self.permission
    }

    closed spec fn status_code(&self) -> i32 {
        if self.active {
            2
        } else {
            0
        }
    }

    fn check_permission(&self) -> (granted: bool) {
        self.permission
    }

    fn start(&mut self) -> (ok: bool) {
        if self.start_ok {
            self.active = true;
            true
        } else {
            false
        }
    }

    fn stop(&mut self) {
        self.active = false;
    }

    fn get_status(&self) -> (status: i32) {
        if self.active {
            2
        } else {
            0
        }
    }
}

/// A deterministic recognition engine kept entirely in memory. Audio handed
/// to it is recorded in arrival order so that tests can observe forwarding.
pub struct SimRecognitionEngine {
    active: bool,
    permission: bool,
    on_device: bool,
    start_ok: bool,
    locale: String,
    samples: Vec<i16>,
}

impl SimRecognitionEngine {
    /// Whether a start attempt will be accepted.
    pub closed spec fn will_start(&self) -> bool {
        self.start_ok
    }

    /// An idle engine with an empty locale and no audio recorded.
    pub fn new(permission: bool, on_device: bool, start_ok: bool) -> (engine: Self)
        ensures
            !engine.running(),
            engine.permission_granted() == permission,
            engine.on_device_supported() == on_device,
            engine.will_start() == start_ok,
            engine.language() == Seq::<char>::empty(),
            engine.ingested() == Seq::<i16>::empty(),
    {
        SimRecognitionEngine {
            active: false,
            permission,
            on_device,
            start_ok,
            locale: String::new(),
            samples: Vec::new(),
        }
    }

    /// Reads whether the engine is running.
    pub fn is_running(&self) -> (r: bool)
        ensures
            r == self.running(),
    {
        self.active
    }

    /// All audio samples handed to the engine so far, in arrival order.
    pub fn ingested_samples(&self) -> (samples: &Vec<i16>)
        ensures
            samples@ == self.ingested(),
    {
        &self.samples
    }
}

impl RecognitionEngine for SimRecognitionEngine {
    type Sample = i16;

    closed spec fn running(&self) -> bool {
        self.active
    }

    closed spec fn permission_granted(&self) -> bool {
        self.permission
    }

    closed spec fn on_device_supported(&self) -> bool {
        self.on_device
    }

    closed spec fn status_code(&self) -> i32 {
        if self.active {
            2
        } else {
            0
        }
    }

    closed spec fn language(&self) -> Seq<char> {
        self.locale@
    }

    closed spec fn ingested(&self) -> Seq<i16> {
        self.samples@
    }

    fn check_permission(&self) -> (granted: bool) {
        self.permission
    }

    fn set_language(&mut self, language: &str) {
        self.locale = language.to_owned();
    }

    fn supports_on_device(&self) -> (supported: bool) {
        self.on_device
    }

    fn start(&mut self) -> (ok: bool) {
        if self.start_ok {
            self.active = true;
            true
        } else {
            false
        }
    }

    fn append_audio(&mut self, samples: &Vec<i16>, count: usize) {
        let mut i: usize = 0;
        while i < count
            invariant
                i <= count,
                count <= samples.len(),
                self.samples@ == old(self).samples@ + samples@.take(i as int),
                self.active == old(self).active,
                self.locale == old(self).locale,
                self.permission == old(self).permission,
                self.on_device == old(self).on_device,
                self.start_ok == old(self).start_ok,
            decreases count - i,
        {
            self.samples.push(samples[i]);
            proof {
                assert(self.samples@ =~= old(self).samples@ + samples@.take(i as int + 1));
            }
            i = i + 1;
        }
        proof {
            assert(self.samples@ =~= old(self).samples@ + samples@.take(count as int));
        }
    }

    fn stop(&mut self) {
        self.active = false;
    }

    fn get_status(&self) -> (status: i32) {
        if self.active {
            2
        } else {
            0
        }
    }
}

} // verus!
