//! Wake-phrase listening for a background desktop assistant.
//!
//! The library holds the decisions of the assistant: which recognized text
//! wakes it, when a follow-up window opens and closes, how start and stop
//! requests drive the background polling loop, and how the microphone
//! capture is started, gated and stopped. The host drives these state
//! machines from its threads and performs the actual audio, speech and
//! window work.

pub mod audio;
pub mod phrases;
pub mod placement;
pub mod speech_recognition;
pub mod wake_word;

pub use audio::{AudioCapture, CaptureError, SampleEncoding};
pub use speech_recognition::SpeechRecognizer;
pub use wake_word::{Recognition, WakeOutcome, WakeWordDetector};
