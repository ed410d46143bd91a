//! The continuous speech recognizer used during a follow-up window.
//!
//! Recognition itself happens in the browser-hosted front end, which sends
//! the recognized utterances to the host on its own; this handle only
//! stands for that delegated service, so starting and stopping it always
//! succeed and the utterance callback is never invoked from here.
use vstd::prelude::*;

verus! {

/// A handle on the delegated continuous speech recognizer.
pub struct SpeechRecognizer {}

impl SpeechRecognizer {
    /// A handle on the delegated recognizer; creating it always succeeds.
    pub fn new() -> (r: Result<SpeechRecognizer, String>)
        ensures
            r is Ok,
    {
        Ok(SpeechRecognizer {  })
    }

    /// Asks for continuous recognition, handing each utterance to
    /// `callback`. The front end does the recognizing, so this succeeds.
    pub fn start_listening<F>(&self, callback: F) -> (r: Result<(), String>) where
        F: Fn(String) + Send + Sync + 'static,

        ensures
            r is Ok,
    {
        Ok(())
    }

    /// Asks continuous recognition to stop.
    pub fn stop_listening(&self) {
    }
}

} // verus!
