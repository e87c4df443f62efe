use microphone::coreaudio::{
    input_cb, teardown_call, CoreAudioCall, CoreAudioCapture, CoreAudioReply, CoreAudioSetup,
    StreamDescription, K_LINEAR_PCM, RING_BUFFERS,
};
use microphone::pcm::{PcmSource, SampleQueue};
use microphone::protocol::{Opening, Request};

fn run(
    opening: Opening<CoreAudioSetup>,
    reply_to: &dyn Fn(usize, CoreAudioCall) -> CoreAudioReply,
) -> (Vec<CoreAudioCall>, Opening<CoreAudioSetup>) {
    let mut opening = opening;
    let mut calls = Vec::new();
    loop {
        match opening.request() {
            Request::Call(call) => {
                let reply = reply_to(calls.len(), call);
                calls.push(call);
                opening = opening.answer(reply);
            }
            Request::Release(call) => {
                calls.push(call);
                opening = opening.give_back();
            }
            Request::Opened | Request::Failed => return (calls, opening),
        }
    }
}

fn finish(opening: &Opening<CoreAudioSetup>) -> CoreAudioCapture {
    match CoreAudioCapture::finish(opening, SampleQueue::new()) {
        Ok(capture) => capture,
        Err(message) => panic!("{message}"),
    }
}

fn all_well(_: usize, call: CoreAudioCall) -> CoreAudioReply {
    match call {
        CoreAudioCall::SelectDevice => CoreAudioReply::Routed(Ok(())),
        _ => CoreAudioReply::Status(0),
    }
}

fn new_input(channels: u32, rate: u32) -> CoreAudioCall {
    CoreAudioCall::NewInput {
        description: StreamDescription {
            sample_rate: rate,
            format_id: u32::from_be_bytes(*b"lpcm"),
            format_flags: 0xC,
            bytes_per_packet: channels * 2,
            frames_per_packet: 1,
            bytes_per_frame: channels * 2,
            channels_per_frame: channels,
            bits_per_channel: 16,
            reserved: 0,
        },
    }
}

fn ring(bytes: u32) -> Vec<CoreAudioCall> {
    let mut calls = Vec::new();
    for buffer in 0..4 {
        calls.push(CoreAudioCall::Allocate { buffer, bytes });
        calls.push(CoreAudioCall::Enqueue { buffer });
    }
    calls
}

#[test]
fn core_audio_opens_the_default_device() {
    assert_eq!(K_LINEAR_PCM, u32::from_be_bytes(*b"lpcm"));
    let (calls, opening) = run(CoreAudioCapture::open(2, 44_100, None, true), &all_well);
    let mut expected = vec![new_input(2, 44_100)];
    expected.extend(ring(8192));
    expected.push(CoreAudioCall::Start);
    assert_eq!(calls, expected);
    assert!(matches!(opening.request(), Request::Opened));
    assert_eq!(finish(&opening).channels(), 2);
}

#[test]
fn core_audio_routes_to_a_selected_device_on_macos_only() {
    let (calls, opening) = run(CoreAudioCapture::open(0, 8_000, Some("BuiltIn"), true), &all_well);
    let mut expected = vec![new_input(1, 8_000), CoreAudioCall::SelectDevice];
    expected.extend(ring(4096));
    expected.push(CoreAudioCall::Start);
    assert_eq!(calls, expected);
    assert_eq!(opening.protocol().device.as_deref(), Some("BuiltIn"));
    assert_eq!(finish(&opening).channels(), 1);

    let (calls, opening) = run(CoreAudioCapture::open(1, 8_000, Some("BuiltIn"), false), &all_well);
    assert!(!calls.contains(&CoreAudioCall::SelectDevice));
    assert_eq!(opening.protocol().device, None);
}

#[test]
fn core_audio_disposes_of_the_queue_wherever_it_fails() {
    let names = |at: usize| match at {
        0 => "AudioQueueNewInput",
        9 => "AudioQueueStart",
        _ => "AudioQueueAllocateBuffer",
    };
    for at in 0..10 {
        let reply = move |index: usize, _: CoreAudioCall| {
            CoreAudioReply::Status(if index == at { -50 } else { 0 })
        };
        let (calls, opening) = run(CoreAudioCapture::open(1, 44_100, None, true), &reply);
        let enqueues = at > 0 && at < 9 && at % 2 == 0;
        if enqueues {
            assert!(matches!(opening.request(), Request::Opened));
            continue;
        }
        assert_eq!(opening.failure(), Some(at));
        assert_eq!(calls.len(), if at == 0 { 1 } else { at + 2 });
        if at > 0 {
            assert_eq!(calls[at + 1], CoreAudioCall::Dispose);
        }
        assert_eq!(
            CoreAudioCapture::finish(&opening, SampleQueue::new()).err(),
            Some(format!("{}: -50", names(at)))
        );
    }
}

#[test]
fn core_audio_reports_why_routing_failed() {
    let reply = |_: usize, call: CoreAudioCall| match call {
        CoreAudioCall::SelectDevice => CoreAudioReply::Routed(Err("no such device".to_string())),
        _ => CoreAudioReply::Status(0),
    };
    let (calls, opening) = run(CoreAudioCapture::open(1, 44_100, Some("gone"), true), &reply);
    assert_eq!(
        calls,
        vec![new_input(1, 44_100), CoreAudioCall::SelectDevice, CoreAudioCall::Dispose]
    );
    assert_eq!(opening.failure(), Some(1));
    assert_eq!(
        CoreAudioCapture::finish(&opening, SampleQueue::new()).err().as_deref(),
        Some("no such device")
    );
}

#[test]
fn core_audio_tells_which_sizes_fit() {
    let plain = |channels: u32| CoreAudioSetup { channels, rate: 44_100, device: None };
    assert!(plain(0x7fff_ffff).call_fits(0));
    assert!(!plain(0x8000_0000).call_fits(0));
    assert!(plain(0xf_ffff).call_fits(1));
    assert!(!plain(0x10_0000).call_fits(1));
    assert!(plain(0x10_0000).call_fits(2));
    assert!(plain(0x10_0000).call_fits(9));
}

#[test]
fn core_audio_teardown_frees_every_buffer() {
    let mut calls = Vec::new();
    while let Some(call) = teardown_call(RING_BUFFERS, calls.len()) {
        calls.push(call);
    }
    assert_eq!(
        calls,
        vec![
            CoreAudioCall::Stop,
            CoreAudioCall::FreeBuffer { buffer: 0 },
            CoreAudioCall::FreeBuffer { buffer: 1 },
            CoreAudioCall::FreeBuffer { buffer: 2 },
            CoreAudioCall::FreeBuffer { buffer: 3 },
            CoreAudioCall::Dispose,
        ]
    );
    assert_eq!(teardown_call(0, 0), Some(CoreAudioCall::Stop));
    assert_eq!(teardown_call(0, 1), Some(CoreAudioCall::Dispose));
    assert_eq!(teardown_call(0, 2), None);
}

#[test]
fn core_audio_reads_what_the_callback_captured() {
    let (_, opening) = run(CoreAudioCapture::open(1, 44_100, None, true), &all_well);
    let mut early = SampleQueue::new();
    early.append(&[1]);
    let mut capture = match CoreAudioCapture::finish(&opening, early) {
        Ok(capture) => capture,
        Err(message) => panic!("{message}"),
    };
    capture.captured(&[2, 3]);
    capture.captured(&[4]);
    capture.stop();
    capture.captured(&[5]);
    assert_eq!(capture.read(2), vec![1, 2]);
    assert_eq!(capture.read(20), vec![3, 4]);
}

#[test]
fn core_audio_hands_every_buffer_back() {
    for (byte_size, data_is_null, samples) in [
        (0, false, None),
        (1, false, None),
        (5, false, Some(2)),
        (4096, false, Some(2048)),
        (4096, true, None),
    ] {
        let step = input_cb(byte_size, data_is_null);
        assert_eq!(step.samples, samples);
        assert!(step.recycle);
    }
}

#[test]
fn core_audio_takes_no_reply_to_another_call() {
    let routed = |_: usize, _: CoreAudioCall| CoreAudioReply::Routed(Ok(()));
    let (_, opening) = run(CoreAudioCapture::open(1, 44_100, None, true), &routed);
    assert_eq!(
        CoreAudioCapture::finish(&opening, SampleQueue::new()).err().as_deref(),
        Some("unexpected reply")
    );
    let status = |_: usize, _: CoreAudioCall| CoreAudioReply::Status(0);
    let (_, opening) = run(CoreAudioCapture::open(1, 44_100, Some("mic"), true), &status);
    assert_eq!(opening.failure(), Some(1));
}
