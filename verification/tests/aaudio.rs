use microphone::aaudio::{result_text, AaudioCall, AaudioCapture, AaudioSetup};
use microphone::pcm::PcmSource;
use microphone::protocol::{Opening, Request};

fn run(opening: Opening<AaudioSetup>, replies: &[i32]) -> (Vec<AaudioCall>, Opening<AaudioSetup>) {
    let mut opening = opening;
    let mut calls = Vec::new();
    loop {
        match opening.request() {
            Request::Call(call) => {
                let reply = replies[calls.len()];
                calls.push(call);
                opening = opening.answer(reply);
            }
            Request::Release(call) => {
                calls.push(call);
                opening = opening.give_back();
            }
            Request::Opened | Request::Failed => return (calls, opening),
        }
    }
}

fn opened(opening: &Opening<AaudioSetup>) -> AaudioCapture {
    match AaudioCapture::finish(opening, None) {
        Ok(capture) => capture,
        Err(message) => panic!("{message}"),
    }
}

fn failure(opening: &Opening<AaudioSetup>) -> Option<String> {
    assert_eq!(AaudioCapture::error_code(opening), Some(-899));
    AaudioCapture::finish(opening, Some(b"busy")).err()
}

fn setup_calls() -> Vec<AaudioCall> {
    vec![
        AaudioCall::CreateBuilder,
        AaudioCall::SetDirection { direction: 1 },
        AaudioCall::SetSampleRate { rate: 44_100 },
        AaudioCall::SetChannelCount { channels: 2 },
        AaudioCall::SetFormat { format: 1 },
        AaudioCall::OpenStream,
        AaudioCall::DeleteBuilder,
        AaudioCall::GetChannelCount,
        AaudioCall::RequestStart,
    ]
}

#[test]
fn aaudio_opens_with_the_granted_channels() {
    let (calls, opening) = run(AaudioCapture::open(2, 44_100), &[0, 0, 0, 0, 0, 0, 0, 1, 0]);
    assert_eq!(calls, setup_calls());
    assert_eq!(opened(&opening).channels(), 1);
}

#[test]
fn aaudio_keeps_the_requested_channels_where_none_are_reported() {
    let (_, opening) = run(AaudioCapture::open(2, 44_100), &[0, 0, 0, 0, 0, 0, 0, -1, 0]);
    assert_eq!(opened(&opening).channels(), 2);
    let (_, opening) = run(AaudioCapture::open(0, 44_100), &[0, 0, 0, 0, 0, 0, 0, 0, 0]);
    assert_eq!(opened(&opening).channels(), 1);
}

#[test]
fn aaudio_gives_back_what_it_holds_wherever_it_fails() {
    let (calls, opening) = run(AaudioCapture::open(2, 44_100), &[-899]);
    assert_eq!(calls, setup_calls()[..1].to_vec());
    assert_eq!(opening.failure(), Some(0));
    assert_eq!(failure(&opening).as_deref(), Some("createStreamBuilder: busy"));

    let (calls, opening) = run(AaudioCapture::open(2, 44_100), &[0, 7, 7, 7, 7, -899]);
    let mut expected = setup_calls()[..6].to_vec();
    expected.push(AaudioCall::DeleteBuilder);
    assert_eq!(calls, expected);
    assert_eq!(opening.failure(), Some(5));
    assert_eq!(failure(&opening).as_deref(), Some("openStream: busy"));

    let (calls, opening) = run(AaudioCapture::open(2, 44_100), &[0, 0, 0, 0, 0, 0, 0, 2, -899]);
    let mut expected = setup_calls();
    expected.push(AaudioCall::CloseStream);
    assert_eq!(calls, expected);
    assert_eq!(opening.failure(), Some(8));
    assert_eq!(failure(&opening).as_deref(), Some("requestStart: busy"));
}

#[test]
fn aaudio_hands_large_numbers_on_as_the_same_bits() {
    let (calls, _) = run(AaudioCapture::open(u32::MAX, 0x8000_0000), &[0, 0, 0, 0, 0, -1]);
    assert_eq!(calls[2], AaudioCall::SetSampleRate { rate: i32::MIN });
    assert_eq!(calls[3], AaudioCall::SetChannelCount { channels: -1 });
}

#[test]
fn aaudio_codes_have_a_text_or_a_number() {
    assert_eq!(result_text(-899, Some(b"AAUDIO_ERROR_DISCONNECTED")), "AAUDIO_ERROR_DISCONNECTED");
    assert_eq!(result_text(-899, None), "AAudio error -899");
}

#[test]
fn aaudio_reads_what_the_thread_read() {
    let (_, opening) = run(AaudioCapture::open(1, 8_000), &[0, 0, 0, 0, 0, 0, 0, 2, 0]);
    let mut capture = opened(&opening);
    capture.frames_read(&[9, 8, 7, 6, 5], 2);
    capture.stop();
    capture.frames_read(&[1, 1], 1);
    assert_eq!(capture.read(3), vec![9, 8, 7]);
    assert_eq!(capture.read(3), vec![6]);
}
