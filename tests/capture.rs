use jackson_wake::audio::{admit_frame, check_encoding, frame_from_i16, frame_from_u16, u16_to_i16};
use jackson_wake::{AudioCapture, CaptureError, SampleEncoding};

struct FakeStream;

#[test]
fn u16_samples_shift_to_signed() {
    assert_eq!(u16_to_i16(0), -32768);
    assert_eq!(u16_to_i16(32767), -1);
    assert_eq!(u16_to_i16(32768), 0);
    assert_eq!(u16_to_i16(65535), 32767);
}

#[test]
fn frames_convert_sample_by_sample() {
    assert_eq!(frame_from_u16(&[0, 32768, 40000]), vec![-32768, 0, 7232]);
    assert_eq!(frame_from_i16(&[-5, 0, 7]), vec![-5, 0, 7]);
    assert_eq!(frame_from_u16(&[]), Vec::<i16>::new());
}

#[test]
fn supported_encodings_pass() {
    assert_eq!(check_encoding(SampleEncoding::I16), Ok(SampleEncoding::I16));
    assert_eq!(check_encoding(SampleEncoding::U16), Ok(SampleEncoding::U16));
    assert_eq!(check_encoding(SampleEncoding::F32), Ok(SampleEncoding::F32));
}

#[test]
fn other_encodings_are_rejected() {
    for e in [
        SampleEncoding::I8,
        SampleEncoding::I32,
        SampleEncoding::I64,
        SampleEncoding::U8,
        SampleEncoding::U32,
        SampleEncoding::U64,
        SampleEncoding::F64,
    ] {
        assert_eq!(check_encoding(e), Err(CaptureError::UnsupportedSampleFormat(e)));
    }
}

#[test]
fn error_messages_describe_the_cause() {
    assert_eq!(
        CaptureError::UnsupportedSampleFormat(SampleEncoding::I8).message(),
        "Unsupported sample format: I8"
    );
    assert_eq!(
        CaptureError::UnsupportedSampleFormat(SampleEncoding::F64).message(),
        "Unsupported sample format: F64"
    );
    assert_eq!(SampleEncoding::U32.name(), "U32");
    assert_eq!(CaptureError::NoInputDevice.message(), "No default input device available");
    assert_eq!(CaptureError::Config("no config".to_string()).message(), "no config");
    assert_eq!(CaptureError::Stream("busy".to_string()).message(), "busy");
}

#[test]
fn frames_pass_only_while_capturing() {
    assert_eq!(admit_frame(true, vec![1, 2]), Some(vec![1, 2]));
    assert_eq!(admit_frame(true, vec![]), None);
    assert_eq!(admit_frame(false, vec![1, 2]), None);
}

#[test]
fn unsupported_encoding_leaves_nothing_allocated() {
    let mut capture: AudioCapture<FakeStream> = AudioCapture::new();
    let r = capture.start_capture(|_rx| {
        check_encoding(SampleEncoding::I32)?;
        Ok(FakeStream)
    });
    assert_eq!(r, Err(CaptureError::UnsupportedSampleFormat(SampleEncoding::I32)));
    assert!(!capture.is_capturing());
    assert!(!capture.has_stream());
    // A later attempt starts afresh.
    assert_eq!(capture.start_capture(|_rx| Ok(FakeStream)), Ok(()));
    assert!(capture.has_stream());
}

#[test]
fn start_twice_opens_one_stream() {
    let mut capture: AudioCapture<FakeStream> = AudioCapture::new();
    assert_eq!(capture.start_capture(|_rx| Ok(FakeStream)), Ok(()));
    assert!(capture.is_capturing());
    assert!(capture.has_stream());
    assert_eq!(
        capture.start_capture(|_rx| -> Result<FakeStream, CaptureError> {
            panic!("a second stream must not be opened")
        }),
        Ok(())
    );
}

#[test]
fn stop_signals_shutdown_and_drops_stream() {
    let mut capture: AudioCapture<FakeStream> = AudioCapture::new();
    let mut receiver = None;
    capture
        .start_capture(|rx| {
            receiver = Some(rx);
            Ok(FakeStream)
        })
        .unwrap();
    capture.stop_capture();
    assert!(!capture.is_capturing());
    assert!(!capture.has_stream());
    assert_eq!(receiver.unwrap().try_recv(), Ok(()));
    // No frame passes once stop has returned.
    assert_eq!(admit_frame(capture.is_capturing(), vec![3, 4]), None);
}

#[test]
fn stop_when_idle_is_harmless() {
    let mut capture: AudioCapture<FakeStream> = AudioCapture::new();
    capture.stop_capture();
    assert!(!capture.is_capturing());
    assert!(!capture.has_stream());
}

#[test]
fn failed_device_lookup_is_returned() {
    let mut capture: AudioCapture<FakeStream> = AudioCapture::new();
    let r = capture.start_capture(|_rx| Err(CaptureError::NoInputDevice));
    assert_eq!(r, Err(CaptureError::NoInputDevice));
    assert!(!capture.is_capturing());
}
