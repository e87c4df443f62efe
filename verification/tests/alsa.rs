use microphone::alsa::{str_error, AlsaCall, AlsaCapture, AlsaReply, AlsaSetup, PcmDevice};
use microphone::pcm::PcmSource;
use microphone::protocol::{Opening, Request};

const OK: AlsaReply = AlsaReply { rc: 0, params_null: false };

fn run(opening: Opening<AlsaSetup>, fail_at: usize, failure: AlsaReply) -> (Vec<AlsaCall>, Opening<AlsaSetup>) {
    let mut opening = opening;
    let mut calls = Vec::new();
    loop {
        match opening.request() {
            Request::Call(call) => {
                let reply = if calls.len() == fail_at { failure } else { OK };
                calls.push(call);
                opening = opening.answer(reply);
            }
            Request::Release(call) => {
                calls.push(call);
                opening = opening.give_back();
            }
            Request::Opened | Request::Failed => return (calls, opening),
        }
    }
}

fn setup_calls() -> Vec<AlsaCall> {
    vec![
        AlsaCall::PcmOpen { device: PcmDevice::Default, stream: 1, mode: 0 },
        AlsaCall::HwParamsMalloc,
        AlsaCall::HwParamsAny,
        AlsaCall::HwParamsSetAccess { access: 3 },
        AlsaCall::HwParamsSetFormat { format: 2 },
        AlsaCall::HwParamsSetChannels { channels: 2 },
        AlsaCall::HwParamsSetRate { rate: 48_000, dir: 0 },
        AlsaCall::HwParams,
        AlsaCall::HwParamsFree,
        AlsaCall::PcmPrepare,
        AlsaCall::PcmStart,
    ]
}

#[test]
fn alsa_opens_the_default_device() {
    let (calls, opening) = run(AlsaCapture::open(2, 48_000), 99, OK);
    assert_eq!(calls, setup_calls());
    assert_eq!(PcmDevice::Default.name(), "default");
    assert!(matches!(opening.request(), Request::Opened));
    assert_eq!(opening.failure(), None);
    assert_eq!(AlsaCapture::error_code(&opening), None);
    match AlsaCapture::finish(&opening, None) {
        Ok(capture) => assert_eq!(capture.channels(), 2),
        Err(message) => panic!("{message}"),
    }
}

#[test]
fn alsa_gives_back_what_it_holds_wherever_it_fails() {
    let names = [
        "snd_pcm_open", "snd_pcm_hw_params_malloc", "snd_pcm_hw_params_any",
        "snd_pcm_hw_params_set_access", "snd_pcm_hw_params_set_format",
        "snd_pcm_hw_params_set_channels", "snd_pcm_hw_params_set_rate", "snd_pcm_hw_params", "",
        "snd_pcm_prepare", "snd_pcm_start",
    ];
    for at in 0..11 {
        let failure = AlsaReply { rc: -22, params_null: false };
        let (calls, opening) = run(AlsaCapture::open(2, 48_000), at, failure);
        if at == 8 {
            assert!(matches!(opening.request(), Request::Opened));
            continue;
        }
        let mut expected: Vec<AlsaCall> = setup_calls()[..at + 1].to_vec();
        if (2..=7).contains(&at) {
            expected.push(AlsaCall::HwParamsFree);
        }
        if at > 0 {
            expected.push(AlsaCall::PcmClose);
        }
        assert_eq!(calls, expected);
        assert!(matches!(opening.request(), Request::Failed));
        assert_eq!(opening.failure(), Some(at));
        assert_eq!(AlsaCapture::error_code(&opening), Some(-22));
        assert_eq!(
            AlsaCapture::finish(&opening, Some(b"Invalid argument")).err(),
            Some(format!("{}: Invalid argument", names[at]))
        );
        assert_eq!(
            AlsaCapture::finish(&opening, None).err(),
            Some(format!("{}: ALSA error -22", names[at]))
        );
    }
}

#[test]
fn alsa_fails_where_no_parameters_are_allocated() {
    let failure = AlsaReply { rc: 0, params_null: true };
    let (calls, opening) = run(AlsaCapture::open(2, 48_000), 1, failure);
    assert_eq!(
        calls,
        vec![
            AlsaCall::PcmOpen { device: PcmDevice::Default, stream: 1, mode: 0 },
            AlsaCall::HwParamsMalloc,
            AlsaCall::PcmClose,
        ]
    );
    assert_eq!(AlsaCapture::error_code(&opening), None);
    assert_eq!(
        AlsaCapture::finish(&opening, None).err().as_deref(),
        Some("snd_pcm_hw_params_malloc returned null")
    );
}

#[test]
fn alsa_errors_have_a_text_or_a_number() {
    assert_eq!(str_error(-32, Some(b"Broken pipe")), "Broken pipe");
    assert_eq!(str_error(-32, Some(&[0xff])), "\u{fffd}");
    assert_eq!(str_error(-32, None), "ALSA error -32");
}

#[test]
fn alsa_reads_what_the_thread_read() {
    let (_, opening) = run(AlsaCapture::open(2, 8_000), 99, OK);
    let mut capture = match AlsaCapture::finish(&opening, None) {
        Ok(capture) => capture,
        Err(message) => panic!("{message}"),
    };
    let buffer: Vec<i16> = (0..2048).collect();
    capture.frames_read(&buffer, 3);
    capture.frames_read(&buffer, -32);
    capture.frames_read(&buffer, 0);
    capture.stop();
    capture.frames_read(&buffer, 2);
    assert_eq!(capture.read(4), vec![0, 1, 2, 3]);
    assert_eq!(capture.read(100), vec![4, 5]);
    assert_eq!(capture.read(100), Vec::<i16>::new());
}
