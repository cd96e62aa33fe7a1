//! Interfaces to the two native engines.
//!
//! The session coordinator never talks to the native layer directly: it is
//! written against these two traits. A production build binds them to the
//! native capture and recognition engines; deterministic in-memory
//! implementations live in [`crate::sim`] for tests.
//!
//! Each trait exposes the engine's abstract state through spec functions.
//! Nothing is promised about which results an engine chooses — a start may
//! fail for any reason — only about how the abstract state relates to the
//! results it reports.

use vstd::prelude::*;

verus! {

/// An audio capture engine: produces sample batches on its own threads and
/// is controlled through permission check, start, stop and a status query.
pub trait CaptureEngine: Sized {
    /// Whether the engine has been started and not yet stopped.
    spec fn running(&self) -> bool;

    /// Whether the host has granted the capture permission.
    spec fn permission_granted(&self) -> bool;

    /// The engine's own status code: zero when idle, non-zero otherwise,
    /// with the exact semantics owned by the engine.
    spec fn status_code(&self) -> i32;

    /// Queries the capture permission without caching.
    fn check_permission(&self) -> (granted: bool)
        ensures
            granted == self.permission_granted(),
    ;

    /// Attempts to start capturing. The engine may refuse; it reports
    /// truthfully whether it is running afterwards.
    fn start(&mut self) -> (ok: bool)
        requires
            !old(self).running(),
        ensures
            final(self).running() == ok,
            final(self).permission_granted() == old(self).permission_granted(),
    ;

    /// Stops capturing. Best effort and idempotent: afterwards the engine
    /// is not running.
    fn stop(&mut self)
        ensures
            !final(self).running(),
            final(self).permission_granted() == old(self).permission_granted(),
    ;

    /// Reads the engine's status code.
    fn get_status(&self) -> (status: i32)
        ensures
            status == self.status_code(),
    ;
}

/// An incremental speech recognizer: consumes audio samples and emits text
/// updates tagged partial or final on its own threads.
pub trait RecognitionEngine: Sized {
    /// The engine's audio sample type.
    type Sample;

    /// Whether the engine has been started and not yet stopped.
    spec fn running(&self) -> bool;

    /// Whether the host has granted the recognition permission.
    spec fn permission_granted(&self) -> bool;

    /// Whether recognition can run on the device, without a network service.
    spec fn on_device_supported(&self) -> bool;

    /// The engine's own status code: zero when idle, non-zero otherwise,
    /// with the exact semantics owned by the engine.
    spec fn status_code(&self) -> i32;

    /// The locale the engine is currently set to recognize.
    spec fn language(&self) -> Seq<char>;

    /// All audio samples handed to the engine so far, in order.
    spec fn ingested(&self) -> Seq<Self::Sample>;

    /// Queries the recognition permission without caching.
    fn check_permission(&self) -> (granted: bool)
        ensures
            granted == self.permission_granted(),
    ;

    /// Sets the recognition locale. Does not start or stop the engine.
    fn set_language(&mut self, language: &str)
        ensures
            final(self).language() == language@,
            final(self).running() == old(self).running(),
    ;

    /// Whether recognition can run on the device.
    fn supports_on_device(&self) -> (supported: bool)
        ensures
            supported == self.on_device_supported(),
    ;

    /// Attempts to start recognizing. The engine may refuse; it reports
    /// truthfully whether it is running afterwards.
    fn start(&mut self) -> (ok: bool)
        requires
            !old(self).running(),
        ensures
            final(self).running() == ok,
            final(self).permission_granted() == old(self).permission_granted(),
            final(self).language() == old(self).language(),
    ;

    /// Hands the first `count` samples of a batch to the engine. The engine
    /// accepts audio at any time; what it does with samples that arrive
    /// while it is not running is its own affair.
    fn append_audio(&mut self, samples: &Vec<Self::Sample>, count: usize)
        requires
            count <= samples.len(),
        ensures
            final(self).ingested() == old(self).ingested() + samples@.take(count as int),
            final(self).running() == old(self).running(),
            final(self).language() == old(self).language(),
    ;

    /// Stops recognizing. Best effort and idempotent: afterwards the engine
    /// is not running.
    fn stop(&mut self)
        ensures
            !final(self).running(),
            final(self).permission_granted() == old(self).permission_granted(),
            final(self).language() == old(self).language(),
    ;

    /// Reads the engine's status code.
    fn get_status(&self) -> (status: i32)
        ensures
            status == self.status_code(),
    ;
}

} // verus!
