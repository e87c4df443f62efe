use microphone::record::{
    frame_count, peak_amplitude, record_options, RecordRequest, RecordSession,
};

fn options(args: &[&str]) -> (String, u64) {
    let args: Vec<String> = args.iter().map(|s| s.to_string()).collect();
    let options = record_options(&args);
    (options.path, options.secs)
}

#[test]
fn the_arguments_name_a_file_and_seconds() {
    assert_eq!(options(&[]), ("recording.wav".to_string(), 3));
    assert_eq!(options(&["record"]), ("recording.wav".to_string(), 3));
    assert_eq!(options(&["record", "out.wav"]), ("out.wav".to_string(), 3));
    assert_eq!(options(&["record", "out.wav", "5"]), ("out.wav".to_string(), 5));
    assert_eq!(options(&["record", "out.wav", "soon"]), ("out.wav".to_string(), 3));
    assert_eq!(options(&["record", "out.wav", "-1"]), ("out.wav".to_string(), 3));
}

#[test]
fn a_session_polls_twenty_times_a_second_and_then_drains() {
    let mut session = RecordSession::new(1);
    for i in 0..20i16 {
        assert_eq!(session.request(), RecordRequest::Poll);
        assert!(session.read(1, &[i, 99]));
    }
    assert_eq!(session.request(), RecordRequest::Stop);
    session.done();
    assert_eq!(session.request(), RecordRequest::Drain);
    assert!(!session.read(2, &[100, 101]));
    assert_eq!(session.request(), RecordRequest::Drain);
    assert!(!session.read(0, &[]));
    assert_eq!(session.request(), RecordRequest::Free);
    session.done();
    assert_eq!(session.request(), RecordRequest::Write);
    let mut expected: Vec<i16> = (0..20).collect();
    expected.extend([100, 101]);
    assert_eq!(session.samples(), &expected);
}

#[test]
fn a_failed_poll_ends_the_polling() {
    let mut session = RecordSession::new(5);
    assert!(session.read(0, &[]));
    assert_eq!(session.request(), RecordRequest::Poll);
    assert!(!session.read(-1, &[]));
    assert_eq!(session.request(), RecordRequest::Stop);
}

#[test]
fn a_session_of_no_seconds_only_drains() {
    let mut session = RecordSession::new(0);
    assert_eq!(session.request(), RecordRequest::Stop);
    session.done();
    assert!(!session.read(-1, &[]));
    assert_eq!(session.request(), RecordRequest::Free);
}

#[test]
fn the_peak_is_the_largest_magnitude() {
    assert_eq!(peak_amplitude(&vec![]), 0);
    assert_eq!(peak_amplitude(&vec![0, 0]), 0);
    assert_eq!(peak_amplitude(&vec![3, -7, 5]), 7);
    assert_eq!(peak_amplitude(&vec![i16::MAX, i16::MIN]), 32_768);
}

#[test]
fn frames_hold_a_sample_of_each_channel() {
    assert_eq!(frame_count(44_100, 1), 44_100);
    assert_eq!(frame_count(44_101, 2), 22_050);
    assert_eq!(frame_count(10, 0), 10);
}
