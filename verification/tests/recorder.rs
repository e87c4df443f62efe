use microphone::loader::{LoadRequest, Loader, NativeLibrary};
use microphone::pcm::SampleQueue;
use microphone::recorder::{
    microphone_abi_version, microphone_channels, microphone_last_error, microphone_read,
    microphone_read_request, microphone_recorder_free, microphone_recorder_new,
    microphone_recording_free, microphone_sample_rate, microphone_start, microphone_state,
    microphone_stop, with_recorder, LastError, OpenedSource, Platform, ReadRequest, Recorder,
    SourceKind,
};

fn recorder(last_error: &mut LastError) -> Recorder<u8> {
    match microphone_recorder_new(Platform::Macos, Ok(()), last_error) {
        Some(recorder) => recorder,
        None => panic!("no recorder"),
    }
}

fn stop(recorder: &mut Recorder<u8>, id: u64, last_error: &mut LastError) -> i32 {
    microphone_stop(Some(recorder), id, last_error).status
}

fn source(source: u8, channels: u32) -> Result<OpenedSource<u8>, String> {
    Ok(OpenedSource { source, channels })
}

#[test]
fn the_abi_version_is_one() {
    assert_eq!(microphone_abi_version(), 1);
}

#[test]
fn a_recorder_needs_its_platforms_library() {
    let mut last_error = LastError::new();
    let failed = || Err("failed to load AudioToolbox".to_string());
    for platform in [Platform::Macos, Platform::Ios, Platform::Android] {
        let none: Option<Recorder<u8>> =
            microphone_recorder_new(platform, failed(), &mut last_error);
        assert!(none.is_none());
        assert_eq!(microphone_last_error(&last_error), "failed to load AudioToolbox");
    }
    let some: Option<Recorder<u8>> =
        microphone_recorder_new(Platform::Other, failed(), &mut last_error);
    assert!(some.is_some());
    assert_eq!(Platform::Macos.library(), Some(NativeLibrary::AudioToolbox { macos: true }));
    assert_eq!(Platform::Ios.library(), Some(NativeLibrary::AudioToolbox { macos: false }));
    assert_eq!(Platform::Android.library(), Some(NativeLibrary::Aaudio));
    assert_eq!(Platform::Other.library(), None);
}

#[test]
fn each_platform_has_its_source() {
    let kind = |platform| match Recorder::<u8>::new(platform, Ok(())) {
        Ok(recorder) => recorder.open_source(),
        Err(error) => Err(error),
    };
    assert_eq!(kind(Platform::Macos), Ok(SourceKind::CoreAudio { activate_session: false }));
    assert_eq!(kind(Platform::Ios), Ok(SourceKind::CoreAudio { activate_session: true }));
    assert_eq!(kind(Platform::Android), Ok(SourceKind::Aaudio));
    assert_eq!(
        kind(Platform::Other),
        Err("native capture is not implemented on this platform yet".to_string())
    );
}

#[test]
fn a_recording_lives_from_start_to_free() {
    let mut e = LastError::new();
    let mut r = recorder(&mut e);
    let id = microphone_start(Some(&mut r), 44_100, source(9, 2), &mut e);
    assert_eq!(id, 1);
    assert_eq!(microphone_state(Some(&r), id, &mut e), 0);
    assert_eq!(microphone_sample_rate(Some(&r), id, &mut e), 44_100);
    assert_eq!(microphone_channels(Some(&r), id, &mut e), 2);
    assert_eq!(r.get(id).map(|recording| recording.source), Some(9));
    assert_eq!(stop(&mut r, id, &mut e), 0);
    assert_eq!(microphone_state(Some(&r), id, &mut e), 1);
    assert_eq!(stop(&mut r, id, &mut e), 0);
    assert_eq!(microphone_recording_free(Some(&mut r), id, &mut e), 0);
    assert_eq!(microphone_state(Some(&r), id, &mut e), -1);
    assert_eq!(microphone_sample_rate(Some(&r), id, &mut e), -1);
    assert_eq!(microphone_channels(Some(&r), id, &mut e), -1);
    assert_eq!(stop(&mut r, id, &mut e), -1);
    assert_eq!(microphone_recording_free(Some(&mut r), id, &mut e), -1);
    assert_eq!(microphone_last_error(&e), "");
}

#[test]
fn ids_are_not_reused() {
    let mut e = LastError::new();
    let mut r = recorder(&mut e);
    assert_eq!(microphone_start(Some(&mut r), 8_000, source(1, 1), &mut e), 1);
    assert_eq!(microphone_start(Some(&mut r), 8_000, Err("busy".to_string()), &mut e), 0);
    assert_eq!(microphone_last_error(&e), "busy");
    assert_eq!(microphone_start(Some(&mut r), 8_000, source(2, 1), &mut e), 2);
    assert_eq!(microphone_recording_free(Some(&mut r), 2, &mut e), 0);
    assert_eq!(microphone_start(Some(&mut r), 8_000, source(3, 1), &mut e), 3);
    assert_eq!(microphone_state(Some(&r), 1, &mut e), 0);
    assert_eq!(microphone_state(Some(&r), 2, &mut e), -1);
    assert_eq!(microphone_state(Some(&r), 0, &mut e), -1);
}

#[test]
fn recordings_do_not_touch_each_other() {
    let mut e = LastError::new();
    let mut r = recorder(&mut e);
    let a = microphone_start(Some(&mut r), 8_000, source(1, 1), &mut e);
    let b = microphone_start(Some(&mut r), 48_000, source(2, 6), &mut e);
    stop(&mut r, a, &mut e);
    let _ = microphone_read(&mut r, a, Err("gone".to_string()), &mut e);
    assert_eq!(microphone_state(Some(&r), a, &mut e), 2);
    assert_eq!(microphone_state(Some(&r), b, &mut e), 0);
    microphone_recording_free(Some(&mut r), a, &mut e);
    assert_eq!(microphone_sample_rate(Some(&r), b, &mut e), 48_000);
    assert_eq!(microphone_channels(Some(&r), b, &mut e), 6);
}

#[test]
fn large_numbers_are_reported_as_the_same_bits() {
    let mut e = LastError::new();
    let mut r = recorder(&mut e);
    let id = microphone_start(Some(&mut r), u32::MAX, source(1, 0x8000_0000), &mut e);
    assert_eq!(microphone_sample_rate(Some(&r), id, &mut e), -1);
    assert_eq!(microphone_channels(Some(&r), id, &mut e), i32::MIN);
}

#[test]
fn a_read_asks_the_source_only_where_there_is_a_buffer() {
    let mut e = LastError::new();
    let mut r = recorder(&mut e);
    let id = microphone_start(Some(&mut r), 8_000, source(7, 1), &mut e);
    assert!(matches!(
        microphone_read_request(Some(&r), id, false, 64, &mut e),
        ReadRequest::Pull { source: 7, max: 64 }
    ));
    assert!(matches!(
        microphone_read_request(Some(&r), id, true, 64, &mut e),
        ReadRequest::Return(0)
    ));
    assert!(matches!(
        microphone_read_request(Some(&r), id, false, 0, &mut e),
        ReadRequest::Return(0)
    ));
    assert_eq!(microphone_last_error(&e), "");
    assert!(matches!(
        microphone_read_request(Some(&r), id + 1, true, 0, &mut e),
        ReadRequest::Return(-1)
    ));
    assert_eq!(microphone_last_error(&e), "unknown recording id");
    stop(&mut r, id, &mut e);
    assert!(matches!(
        microphone_read_request(Some(&r), id, false, 64, &mut e),
        ReadRequest::Pull { source: 7, max: 64 }
    ));
}

#[test]
fn a_read_returns_what_was_captured() {
    let mut e = LastError::new();
    let mut r = recorder(&mut e);
    let id = microphone_start(Some(&mut r), 8_000, source(7, 1), &mut e);
    let mut capture = SampleQueue::new();
    capture.append(&[10, 20, 30]);
    let mut heard = Vec::new();
    loop {
        let max = match microphone_read_request(Some(&r), id, false, 2, &mut e) {
            ReadRequest::Pull { max, .. } => max,
            ReadRequest::Return(_) => panic!("the recording is live"),
        };
        let pulled = Ok(capture.read(max));
        let outcome = microphone_read(&mut r, id, pulled, &mut e);
        assert_eq!(outcome.status, outcome.samples.len() as isize);
        if outcome.status == 0 {
            break;
        }
        heard.extend(outcome.samples);
    }
    assert_eq!(heard, vec![10, 20, 30]);
}

#[test]
fn a_failed_read_is_remembered() {
    let mut e = LastError::new();
    let mut r = recorder(&mut e);
    let id = microphone_start(Some(&mut r), 8_000, source(7, 1), &mut e);
    let outcome = microphone_read(&mut r, id, Err("poisoned lock".to_string()), &mut e);
    assert_eq!(outcome.status, -1);
    assert!(outcome.samples.is_empty());
    assert_eq!(microphone_state(Some(&r), id, &mut e), 2);
    assert_eq!(
        r.get(id).and_then(|recording| recording.error.clone()).as_deref(),
        Some("poisoned lock")
    );
    assert_eq!(microphone_last_error(&e), "poisoned lock");
    assert_eq!(stop(&mut r, id, &mut e), 0);
    assert_eq!(microphone_state(Some(&r), id, &mut e), 1);
}

#[test]
fn nothing_works_without_a_recorder() {
    let mut e = LastError::new();
    let none: Option<&Recorder<u8>> = None;
    let forget = |e: &mut LastError| {
        assert_eq!(microphone_last_error(e), "null recorder");
        *e = LastError::new();
    };
    assert_eq!(microphone_start(None, 8_000, source(1, 1), &mut e), 0);
    forget(&mut e);
    assert!(matches!(
        microphone_read_request(none, 1, false, 4, &mut e),
        ReadRequest::Return(-1)
    ));
    forget(&mut e);
    assert_eq!(microphone_state(none, 1, &mut e), -1);
    forget(&mut e);
    assert_eq!(microphone_sample_rate(none, 1, &mut e), -1);
    forget(&mut e);
    assert_eq!(microphone_channels(none, 1, &mut e), -1);
    forget(&mut e);
    assert_eq!(microphone_stop::<u8>(None, 1, &mut e).status, -1);
    forget(&mut e);
    assert_eq!(microphone_recording_free::<u8>(None, 1, &mut e), -1);
    forget(&mut e);
    assert!(with_recorder(none, &mut e).is_none());
    forget(&mut e);
    microphone_recorder_free::<u8>(None);
    assert_eq!(microphone_last_error(&e), "");
}

#[test]
fn freeing_a_recorder_drops_every_source() {
    let mut e = LastError::new();
    let shared = std::rc::Rc::new(());
    let mut r: Recorder<std::rc::Rc<()>> =
        microphone_recorder_new(Platform::Android, Ok(()), &mut e).unwrap();
    let opened = || Ok(OpenedSource { source: shared.clone(), channels: 1 });
    let a = microphone_start(Some(&mut r), 8_000, opened(), &mut e);
    microphone_start(Some(&mut r), 8_000, opened(), &mut e);
    microphone_start(Some(&mut r), 8_000, opened(), &mut e);
    assert_eq!(std::rc::Rc::strong_count(&shared), 4);
    microphone_recording_free(Some(&mut r), a, &mut e);
    assert_eq!(std::rc::Rc::strong_count(&shared), 3);
    microphone_recorder_free(Some(&mut r));
    assert_eq!(std::rc::Rc::strong_count(&shared), 1);
    assert_eq!(microphone_state(Some(&r), 2, &mut e), -1);
}

#[test]
fn a_message_with_a_nul_is_remembered_as_empty() {
    let mut e = LastError::new();
    e.set_last_error("plain".to_string());
    assert_eq!(microphone_last_error(&e), "plain");
    e.set_last_error("cut\0short".to_string());
    assert_eq!(microphone_last_error(&e), "");
}

#[test]
fn a_missing_function_is_told_of() {
    let mut loader = Loader::new(NativeLibrary::AudioToolbox { macos: true }).tried(Ok(()));
    assert_eq!(loader.request(), LoadRequest::Resolve("AudioQueueNewInput"));
    loader = loader.tried(Err("symbol not found".to_string()));
    let mut e = LastError::new();
    let loaded = match loader.failure() {
        Some(message) => Err(message),
        None => Ok(()),
    };
    let none: Option<Recorder<u8>> = microphone_recorder_new(Platform::Macos, loaded, &mut e);
    assert!(none.is_none());
    assert_eq!(
        microphone_last_error(&e),
        "missing symbol AudioQueueNewInput: symbol not found"
    );
}

#[test]
fn a_stopped_recording_takes_nothing_more_in() {
    let mut e = LastError::new();
    let mut r: Recorder<std::cell::RefCell<SampleQueue>> =
        microphone_recorder_new(Platform::Android, Ok(()), &mut e).unwrap();
    let source = std::cell::RefCell::new(SampleQueue::new());
    let id = microphone_start(Some(&mut r), 8_000, Ok(OpenedSource { source, channels: 1 }), &mut e);
    r.get(id).unwrap().source.borrow_mut().append(&[1, 2, 3]);
    let outcome = microphone_stop(Some(&mut r), id, &mut e);
    assert_eq!(outcome.status, 0);
    outcome.source.unwrap().borrow_mut().close();
    r.get(id).unwrap().source.borrow_mut().append(&[4, 5]);
    let mut read = |r: &mut Recorder<std::cell::RefCell<SampleQueue>>, cap: usize| {
        let pulled = match microphone_read_request(Some(r), id, false, cap, &mut e) {
            ReadRequest::Pull { source, max } => source.borrow_mut().read(max),
            ReadRequest::Return(_) => panic!("a stopped recording can be drained"),
        };
        microphone_read(r, id, Ok(pulled), &mut e).samples
    };
    assert_eq!(read(&mut r, 2), vec![1, 2]);
    assert_eq!(read(&mut r, 2), vec![3]);
    assert_eq!(read(&mut r, 2), Vec::<i16>::new());
    let mut e = LastError::new();
    assert!(microphone_stop(Some(&mut r), id + 1, &mut e).source.is_none());
}

#[test]
fn the_latest_event_decides_the_state() {
    let mut e = LastError::new();
    let mut r = recorder(&mut e);
    let id = microphone_start(Some(&mut r), 8_000, source(1, 1), &mut e);
    let _ = microphone_read(&mut r, id, Err("gone".to_string()), &mut e);
    stop(&mut r, id, &mut e);
    assert_eq!(microphone_state(Some(&r), id, &mut e), 1);
    let _ = microphone_read(&mut r, id, Err("gone".to_string()), &mut e);
    assert_eq!(microphone_state(Some(&r), id, &mut e), 2);
    let _ = microphone_read(&mut r, id, Ok(vec![1]), &mut e);
    assert_eq!(microphone_state(Some(&r), id, &mut e), 2);
}
