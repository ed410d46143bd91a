//! Microphone capture: which sample encodings are accepted, how raw samples
//! become 16-bit frames, when a delivered buffer reaches the sink, and the
//! start/stop lifecycle of the one live input stream.
//!
//! The stream itself is opened by the host's audio layer; here it is an
//! opaque value `S` that the capture owns while it runs and drops on stop.
use vstd::prelude::*;
use crossbeam_channel::{Receiver, SendError, Sender};

verus! {

/// `crossbeam_channel::Sender`, carried as an opaque value.
#[verifier::external_type_specification]
#[verifier::external_body]
#[verifier::reject_recursive_types(T)]
pub struct ExSender<T>(Sender<T>);

/// `crossbeam_channel::Receiver`, carried as an opaque value.
#[verifier::external_type_specification]
#[verifier::external_body]
#[verifier::reject_recursive_types(T)]
pub struct ExReceiver<T>(Receiver<T>);

/// `crossbeam_channel::SendError`, the result of a send with no receiver left.
#[verifier::external_type_specification]
#[verifier::external_body]
#[verifier::reject_recursive_types(T)]
pub struct ExSendError<T>(SendError<T>);

/// Relies on `crossbeam_channel::unbounded`: it creates a fresh channel and
/// returns its two ends; it never fails.
pub assume_specification<T>[ crossbeam_channel::unbounded::<T> ]() -> (Sender<T>, Receiver<T>);

/// Relies on `crossbeam_channel::Sender::send`: an unbounded channel takes
/// the message, or hands it back when every receiver is gone; it never
/// blocks.
pub assume_specification<T>[ Sender::<T>::send ](s: &Sender<T>, msg: T) -> Result<(), SendError<T>>;

/// The sample encodings an input device may offer.
#[derive(Clone, Copy, Debug, PartialEq, Eq)]
pub enum SampleEncoding {
    I8,
    I16,
    I32,
    I64,
    U8,
    U16,
    U32,
    U64,
    F32,
    F64,
}

/// Only signed 16-bit, unsigned 16-bit and 32-bit float samples are captured.
pub open spec fn supported_encoding(e: SampleEncoding) -> bool {
    e is I16 || e is U16 || e is F32
}

/// The name of an encoding, as used in messages.
pub open spec fn encoding_name_spec(e: SampleEncoding) -> Seq<char> {
    match e {
        SampleEncoding::I8 => "I8"@,
        SampleEncoding::I16 => "I16"@,
        SampleEncoding::I32 => "I32"@,
        SampleEncoding::I64 => "I64"@,
        SampleEncoding::U8 => "U8"@,
        SampleEncoding::U16 => "U16"@,
        SampleEncoding::U32 => "U32"@,
        SampleEncoding::U64 => "U64"@,
        SampleEncoding::F32 => "F32"@,
        SampleEncoding::F64 => "F64"@,
    }
}

impl SampleEncoding {
    /// The name of the encoding.
    pub fn name(&self) -> (r: &'static str)
        ensures
            r@ == encoding_name_spec(*self),
    {
        match self {
            SampleEncoding::I8 => "I8",
            SampleEncoding::I16 => "I16",
            SampleEncoding::I32 => "I32",
            SampleEncoding::I64 => "I64",
            SampleEncoding::U8 => "U8",
            SampleEncoding::U16 => "U16",
            SampleEncoding::U32 => "U32",
            SampleEncoding::U64 => "U64",
            SampleEncoding::F32 => "F32",
            SampleEncoding::F64 => "F64",
        }
    }
}

/// Why capture could not start.
#[derive(Debug, PartialEq, Eq)]
pub enum CaptureError {
    /// The host has no default input device.
    NoInputDevice,
    /// The device's default configuration could not be read.
    Config(String),
    /// The device delivers samples in an encoding that is not captured.
    UnsupportedSampleFormat(SampleEncoding),
    /// The input stream could not be built or started.
    Stream(String),
}

/// The text of a capture error.
pub open spec fn capture_error_message(e: CaptureError) -> Seq<char> {
    match e {
        CaptureError::NoInputDevice => "No default input device available"@,
        CaptureError::Config(m) => m@,
        CaptureError::UnsupportedSampleFormat(enc) => "Unsupported sample format: "@ + encoding_name_spec(enc),
        CaptureError::Stream(m) => m@,
    }
}

impl CaptureError {
    /// A description of the error for the user.
    pub fn message(&self) -> (r: String)
        ensures
            r@ == capture_error_message(*self),
    {
        match self {
            CaptureError::NoInputDevice => String::from_str("No default input device available"),
            CaptureError::Config(m) => m.clone(),
            CaptureError::UnsupportedSampleFormat(enc) => {
                let mut s = String::from_str("Unsupported sample format: ");
                s.append(enc.name());
                s
            },
            CaptureError::Stream(m) => m.clone(),
        }
    }
}

/// Accepts a supported encoding and rejects any other with
/// [`CaptureError::UnsupportedSampleFormat`].
pub fn check_encoding(e: SampleEncoding) -> (r: Result<SampleEncoding, CaptureError>)
    ensures
        supported_encoding(e) ==> r == Ok::<SampleEncoding, CaptureError>(e),
        !supported_encoding(e) ==> r == Err::<SampleEncoding, CaptureError>(
            CaptureError::UnsupportedSampleFormat(e),
        ),
{
    match e {
        SampleEncoding::I16 | SampleEncoding::U16 | SampleEncoding::F32 => Ok(e),
        _ => Err(CaptureError::UnsupportedSampleFormat(e)),
    }
}

/// An unsigned 16-bit sample as a signed one: the origin 32768 moves to 0.
pub open spec fn u16_sample_value(s: u16) -> int {
    s as int - 32768
}

/// Converts an unsigned 16-bit sample to a signed one.
pub fn u16_to_i16(s: u16) -> (r: i16)
    ensures
        r as int == u16_sample_value(s),
{
    if s < 32768 {
        (s as i16) - 32767 - 1
    } else {
        (s - 32768) as i16
    }
}

/// A buffer of signed 16-bit samples as a frame.
pub fn frame_from_i16(data: &[i16]) -> (r: Vec<i16>)
    ensures
        r@ == data@,
{
    let mut out: Vec<i16> = Vec::new();
    let mut i: usize = 0;
    while i < data.len()
        invariant
            i <= data@.len(),
            out@ == data@.subrange(0, i as int),
        decreases data@.len() - i,
    {
        out.push(data[i]);
        i = i + 1;
        assert(out@ =~= data@.subrange(0, i as int));
    }
    assert(out@ =~= data@);
    out
}

/// A buffer of unsigned 16-bit samples as a frame, sample by sample.
pub fn frame_from_u16(data: &[u16]) -> (r: Vec<i16>)
    ensures
        r@.len() == data@.len(),
        forall|i: int| 0 <= i < data@.len() ==> r@[i] as int == u16_sample_value(#[trigger] data@[i]),
{
    let mut out: Vec<i16> = Vec::new();
    let mut i: usize = 0;
    while i < data.len()
        invariant
            i <= data@.len(),
            out@.len() == i,
            forall|k: int| 0 <= k < i ==> out@[k] as int == u16_sample_value(#[trigger] data@[k]),
        decreases data@.len() - i,
    {
        out.push(u16_to_i16(data[i]));
        i = i + 1;
    }
    out
}

/// A frame reaches the sink only while capturing and only when it holds samples.
pub open spec fn frame_admitted(capturing: bool, len: nat) -> bool {
    capturing && len > 0
}

/// The audio thread's check on each delivered buffer: the frame to hand to
/// the sink, or nothing when capture has been stopped or the frame is empty.
pub fn admit_frame(capturing: bool, frame: Vec<i16>) -> (r: Option<Vec<i16>>)
    ensures
        frame_admitted(capturing, frame@.len()) ==> r is Some && r->Some_0@ == frame@,
        !frame_admitted(capturing, frame@.len()) ==> r is None,
{
    if capturing && frame.len() > 0 {
        Some(frame)
    } else {
        None
    }
}

/// What happens around a running capture: the owner starts or stops it,
/// and the audio thread checks a buffer (holding samples or not) against
/// the capturing flag, then hands the admitted frame, if any, to the sink.
pub enum CaptureEvent {
    Started,
    Stopped,
    Checked(bool),
    Delivered,
}

/// How many frames reach the sink during `evs`, from a capturing flag and
/// a frame that is already admitted and on its way (`in_flight`).
pub open spec fn frames_delivered(capturing: bool, in_flight: bool, evs: Seq<CaptureEvent>) -> nat
    decreases evs.len(),
{
    if evs.len() == 0 {
        0
    } else {
        let rest = evs.skip(1);
        match evs[0] {
            CaptureEvent::Started => frames_delivered(true, in_flight, rest),
            CaptureEvent::Stopped => frames_delivered(stopped_state().capturing, in_flight, rest),
            CaptureEvent::Checked(nonempty) => frames_delivered(
                capturing,
                frame_admitted(capturing, if nonempty { 1 } else { 0 }),
                rest,
            ),
            CaptureEvent::Delivered => (if in_flight { 1nat } else { 0nat }) + frames_delivered(
                capturing,
                false,
                rest,
            ),
        }
    }
}

/// Once a stop has returned, and until the next start, no frame reaches the
/// sink but the one that was already admitted when the stop came.
pub proof fn lemma_no_frames_after_stop(in_flight: bool, evs: Seq<CaptureEvent>)
    requires
        forall|i: int| 0 <= i < evs.len() ==> !(#[trigger] evs[i] is Started),
    ensures
        frames_delivered(false, in_flight, evs) <= (if in_flight { 1nat } else { 0nat }),
    decreases evs.len(),
{
    if evs.len() > 0 {
        let rest = evs.skip(1);
        assert(!(evs[0] is Started));
        assert forall|i: int| 0 <= i < rest.len() implies !(#[trigger] rest[i] is Started) by {
            assert(rest[i] == evs[i + 1]);
        }
        match evs[0] {
            CaptureEvent::Delivered => {
                lemma_no_frames_after_stop(false, rest);
            },
            CaptureEvent::Checked(_) => {
                lemma_no_frames_after_stop(false, rest);
            },
            _ => {
                lemma_no_frames_after_stop(in_flight, rest);
            },
        }
    }
}

/// The state of a capture, as its contracts speak of it.
pub struct CaptureState {
    /// Frames are being admitted.
    pub capturing: bool,
    /// A live input stream is held.
    pub has_stream: bool,
    /// A shutdown channel is held.
    pub has_shutdown: bool,
}

/// Not capturing, and holding nothing.
pub open spec fn stopped_state() -> CaptureState {
    CaptureState { capturing: false, has_stream: false, has_shutdown: false }
}

/// Capturing from a live stream.
pub open spec fn running_state() -> CaptureState {
    CaptureState { capturing: true, has_stream: true, has_shutdown: true }
}

/// At most one live input stream, owned by the capture while it runs.
pub struct AudioCapture<S> {
    capturing: bool,
    shutdown_sender: Option<Sender<()>>,
    stream: Option<S>,
    /// How many times a stream opener was called.
    opens: Ghost<nat>,
    /// How many shutdown signals were sent.
    signals: Ghost<nat>,
}

impl<S> View for AudioCapture<S> {
    type V = CaptureState;

    closed spec fn view(&self) -> CaptureState {
        CaptureState {
            capturing: self.capturing,
            has_stream: self.stream is Some,
            has_shutdown: self.shutdown_sender is Some,
        }
    }
}

impl<S> AudioCapture<S> {
    #[verifier::type_invariant]
    spec fn inv(self) -> bool {
        &&& (self.stream is Some ==> self.capturing)
        &&& (self.shutdown_sender is Some <==> self.capturing)
    }

    /// The live input stream held, if any.
    pub closed spec fn held_stream(&self) -> Option<S> {
        self.stream
    }

    /// How many times `start_capture` has called its stream opener.
    pub closed spec fn open_attempts(&self) -> nat {
        self.opens@
    }

    /// How many shutdown signals `stop_capture` has sent.
    pub closed spec fn signals_sent(&self) -> nat {
        self.signals@
    }

    /// A capture that is not running.
    pub fn new() -> (r: Self)
        ensures
            r@ == stopped_state(),
            r.held_stream() is None,
            r.open_attempts() == 0,
            r.signals_sent() == 0,
    {
        AudioCapture {
            capturing: false,
            shutdown_sender: None,
            stream: None,
            opens: Ghost(0),
            signals: Ghost(0),
        }
    }

    /// Whether frames are being admitted.
    pub fn is_capturing(&self) -> (r: bool)
        ensures
            r == self@.capturing,
    {
        self.capturing
    }

    /// Whether a live input stream is held.
    pub fn has_stream(&self) -> (r: bool)
        ensures
            r == self@.has_stream,
            r == self.held_stream() is Some,
    {
        self.stream.is_some()
    }

    /// Starts capturing. When already capturing this succeeds at once,
    /// keeps the live stream and does not call `open`. Otherwise `open`
    /// is called once with the receiving end of a fresh shutdown channel
    /// and opens the input stream (choosing the device, negotiating the
    /// configuration and checking the encoding); on success the capture
    /// holds the stream it returned, and on failure it returns `open`'s
    /// error and holds nothing.
    pub fn start_capture<F>(&mut self, open: F) -> (r: Result<(), CaptureError>) where
        F: FnOnce(Receiver<()>) -> Result<S, CaptureError>,

        requires
            forall|rx: Receiver<()>| call_requires(open, (rx,)),
        ensures
            final(self).signals_sent() == old(self).signals_sent(),
            old(self)@.capturing ==> {
                &&& r is Ok
                &&& final(self)@ == old(self)@
                &&& final(self).held_stream() == old(self).held_stream()
                &&& final(self).open_attempts() == old(self).open_attempts()
            },
            !old(self)@.capturing ==> final(self).open_attempts() == old(self).open_attempts() + 1
                && exists|rx: Receiver<()>, opened: Result<S, CaptureError>|
                {
                    &&& call_ensures(open, (rx,), opened)
                    &&& opened matches Ok(s) ==> r is Ok && final(self)@ == running_state()
                        && final(self).held_stream() == Some(s)
                    &&& opened matches Err(e) ==> r == Err::<(), CaptureError>(e)
                        && final(self)@ == stopped_state() && final(self).held_stream() is None
                },
    {
        proof { use_type_invariant(&*self); }
        if self.capturing {
            return Ok(());
        }
        let (sender, receiver) = crossbeam_channel::unbounded();
        let ghost opens = self.opens@ + 1;
        let ghost signals = self.signals@;
        *self = AudioCapture {
            capturing: true,
            shutdown_sender: Some(sender),
            stream: None,
            opens: Ghost(opens),
            signals: Ghost(signals),
        };
        let opened = open(receiver);
        match opened {
            Ok(stream) => {
                self.stream = Some(stream);
                Ok(())
            },
            Err(e) => {
                *self = AudioCapture {
                    capturing: false,
                    shutdown_sender: None,
                    stream: None,
                    opens: Ghost(opens),
                    signals: Ghost(signals),
                };
                Err(e)
            },
        }
    }

    /// Stops capturing: no later check admits a frame, the shutdown signal
    /// is sent once when a shutdown channel is held, and the stream is
    /// dropped. Safe when not capturing.
    pub fn stop_capture(&mut self)
        ensures
            final(self)@ == stopped_state(),
            final(self).held_stream() is None,
            final(self).open_attempts() == old(self).open_attempts(),
            final(self).signals_sent() == old(self).signals_sent() + (if old(self)@.has_shutdown {
                1nat
            } else {
                0nat
            }),
    {
        let ghost opens = self.opens@;
        let ghost mut signals = self.signals@;
        if let Some(sender) = &self.shutdown_sender {
            let _ = sender.send(());
            proof {
                signals = signals + 1;
            }
        }
        *self = AudioCapture {
            capturing: false,
            shutdown_sender: None,
            stream: None,
            opens: Ghost(opens),
            signals: Ghost(signals),
        };
    }
}

} // verus!
