use microphone::device::DeviceInfo;
use microphone::pcm::{BufferStep, PcmSource, SampleQueue};
use microphone::protocol::{Opening, Request};
use microphone::winmm::{
    enumerate_input_devices, error_text, format_fits, input_cb, invalid_device_message, teardown_call,
    DeviceCaps, WaveCall, WaveFormat, WinmmCapture, WinmmSetup, RING_BUFFERS, WAVE_MAPPER, WIM_DATA,
};

fn name(text: &str) -> DeviceCaps {
    let mut name: Vec<u16> = text.encode_utf16().collect();
    name.resize(32, 0);
    DeviceCaps { rc: 0, name }
}

fn failing() -> DeviceCaps {
    DeviceCaps { rc: 2, name: vec![65; 32] }
}

fn run(opening: Opening<WinmmSetup>, fail_at: usize) -> (Vec<WaveCall>, Opening<WinmmSetup>) {
    let mut opening = opening;
    let mut calls = Vec::new();
    loop {
        match opening.request() {
            Request::Call(call) => {
                let rc = if calls.len() == fail_at { 4 } else { 0 };
                calls.push(call);
                opening = opening.answer(rc);
            }
            Request::Release(call) => {
                calls.push(call);
                opening = opening.give_back();
            }
            Request::Opened | Request::Failed => return (calls, opening),
        }
    }
}

fn open(channels: u32, rate: u32, device: Option<&str>) -> Opening<WinmmSetup> {
    match WinmmCapture::open(channels, rate, device) {
        Ok(opening) => opening,
        Err(message) => panic!("{message}"),
    }
}

fn finish(opening: &Opening<WinmmSetup>) -> WinmmCapture {
    match WinmmCapture::finish(opening, SampleQueue::new(), 0, &[]) {
        Ok(capture) => capture,
        Err(message) => panic!("{message}"),
    }
}

fn setup_calls() -> Vec<WaveCall> {
    let format = WaveFormat {
        format_tag: 1,
        channels: 2,
        samples_per_sec: 44_100,
        avg_bytes_per_sec: 176_400,
        block_align: 4,
        bits_per_sample: 16,
        cb_size: 0,
    };
    let mut calls = vec![WaveCall::Open { device: 1, format, flags: 0x3_0000 }];
    for header in 0..4 {
        calls.push(WaveCall::Prepare { header, bytes: 8192, length: 8192 });
        calls.push(WaveCall::AddBuffer { header });
    }
    calls.push(WaveCall::Start);
    calls
}

fn teardown(headers: usize) -> Vec<WaveCall> {
    let mut calls = vec![WaveCall::MarkClosing, WaveCall::Stop, WaveCall::Reset];
    for header in 0..headers {
        calls.push(WaveCall::Unprepare { header });
    }
    calls.push(WaveCall::Close);
    calls
}

#[test]
fn winmm_opens_the_device_at_an_index() {
    let (calls, opening) = run(open(2, 44_100, Some("1")), 99);
    assert_eq!(calls, setup_calls());
    assert!(matches!(opening.request(), Request::Opened));
    assert!(opening.protocol().buffers_fit());
    assert_eq!(finish(&opening).channels(), 2);
}

#[test]
fn winmm_opens_the_preferred_input_without_an_id() {
    assert_eq!(open(0, 8_000, Some("")).protocol().device, WAVE_MAPPER);
    let opening = open(0, 8_000, None);
    assert_eq!(opening.protocol().device, WAVE_MAPPER);
    assert_eq!(opening.protocol().channels, 1);
    assert_eq!(opening.protocol().format.channels, 1);
    assert_eq!(opening.protocol().format.avg_bytes_per_sec, 16_000);
}

#[test]
fn winmm_refuses_an_id_that_is_no_index() {
    for id in ["mic", " ", "+", "-1", "4294967296", "a\"b\n"] {
        match WinmmCapture::open(1, 44_100, Some(id)) {
            Ok(_) => panic!("{id:?} was accepted"),
            Err(message) => {
                assert_eq!(message, format!("invalid Windows device id {id:?} (expected an index)"))
            }
        }
    }
}

#[test]
fn winmm_gives_back_what_it_holds_wherever_it_fails() {
    for at in 0..10 {
        let (calls, opening) = run(open(2, 44_100, Some("1")), at);
        assert_eq!(opening.failure(), Some(at));
        let mut expected = setup_calls()[..at + 1].to_vec();
        let headers = if at == 0 { 0 } else { (at - 1) / 2 };
        if at > 0 && at < 9 && at % 2 == 0 {
            expected.push(WaveCall::Unprepare { header: headers });
        }
        if at > 0 {
            expected.extend(teardown(headers));
        }
        assert_eq!(calls, expected);
        let name = match at {
            0 => "waveInOpen",
            9 => "waveInStart",
            _ if at % 2 == 1 => "waveInPrepareHeader",
            _ => "waveInAddBuffer",
        };
        assert_eq!(WinmmCapture::error_code(&opening), Some(4));
        let units: Vec<u16> = "In use".encode_utf16().collect();
        assert_eq!(
            WinmmCapture::finish(&opening, SampleQueue::new(), 0, &units).err(),
            Some(format!("{name}: In use (MMRESULT 4)"))
        );
        assert_eq!(
            WinmmCapture::finish(&opening, SampleQueue::new(), 1, &units).err(),
            Some(format!("{name}: MMRESULT 4"))
        );
    }
}

#[test]
fn winmm_teardown_releases_every_header() {
    let mut calls = Vec::new();
    while let Some(call) = teardown_call(RING_BUFFERS, calls.len()) {
        calls.push(call);
    }
    assert_eq!(calls, teardown(4));
}

#[test]
fn winmm_tells_which_formats_fit() {
    assert!(format_fits(0, u32::MAX / 2));
    assert!(!format_fits(0, u32::MAX / 2 + 1));
    assert!(format_fits(2, 44_100));
    assert!(!format_fits(0x8000_0000, 0));
    assert!(format_fits(0x7fff_ffff, 1));
    assert!(!format_fits(0x7fff_ffff, 2));
}

#[test]
fn winmm_errors_have_a_text_and_a_number() {
    let units: Vec<u16> = "Out of memory\0".encode_utf16().collect();
    assert_eq!(error_text(7, 0, &units), "Out of memory (MMRESULT 7)");
    assert_eq!(error_text(7, 1, &units), "MMRESULT 7");
    assert_eq!(error_text(4_294_967_295, 0, &[0, 65]), "MMRESULT 4294967295");
}

#[test]
fn winmm_callback_takes_filled_buffers_only() {
    let step = |samples: Option<usize>, recycle: bool| BufferStep { samples, recycle };
    assert_eq!(input_cb(WIM_DATA, false, 4097, false, false), step(Some(2048), true));
    assert_eq!(input_cb(WIM_DATA, false, 4097, false, true), step(Some(2048), false));
    assert_eq!(input_cb(WIM_DATA, false, 1, false, false), step(None, true));
    assert_eq!(input_cb(WIM_DATA, false, 4096, true, false), step(None, true));
    assert_eq!(input_cb(WIM_DATA, true, 4096, false, false), step(None, false));
    assert_eq!(input_cb(0x03be, false, 4096, false, false), step(None, false));
}

#[test]
fn winmm_reads_what_the_callback_captured() {
    let (_, opening) = run(open(1, 8_000, None), 99);
    let mut early = SampleQueue::new();
    early.append(&[5]);
    let mut capture = match WinmmCapture::finish(&opening, early, 0, &[]) {
        Ok(capture) => capture,
        Err(message) => panic!("{message}"),
    };
    capture.captured(&[-5]);
    capture.captured(&[6]);
    capture.stop();
    capture.captured(&[7]);
    assert_eq!(capture.read(1), vec![5]);
    assert_eq!(capture.read(9), vec![-5, 6]);
}

#[test]
fn enumerates_without_panicking() {
    // A host may have no input device; any returned entries are well-formed.
    let hosts = [
        None,
        Some(vec![]),
        Some(vec![failing(), failing()]),
        Some(vec![name("Microphone (USB)"), name(""), name("Line In")]),
        Some(vec![failing(), name(""), name("Line In"), failing()]),
    ];
    for names in &hosts {
        let devices = enumerate_input_devices(names.as_ref());
        for d in &devices {
            assert!(!d.id.is_empty(), "device id should be a non-empty index");
            assert!(!d.name.is_empty(), "device name should not be empty");
        }
        // At most one default, and when any device exists the first is default.
        let defaults = devices.iter().filter(|d| d.is_default).count();
        assert!(defaults <= 1, "at most one default, found {defaults}");
        if !devices.is_empty() {
            assert!(devices[0].is_default, "first device should be the default");
        }
    }
}

#[test]
fn wave_devices_are_listed_by_index() {
    let names = vec![failing(), name(""), name("Line In"), failing(), name("Mic \u{1f3a4}")];
    let devices = enumerate_input_devices(Some(&names));
    let listed: Vec<(&str, &str, bool)> = devices
        .iter()
        .map(|d: &DeviceInfo| (d.id.as_str(), d.name.as_str(), d.is_default))
        .collect();
    assert_eq!(
        listed,
        vec![("1", "Input 1", true), ("2", "Line In", false), ("4", "Mic \u{1f3a4}", false)]
    );
}

#[test]
fn a_listed_id_selects_its_device() {
    let names: Vec<DeviceCaps> = (0..12).map(|_| name("Mic")).collect();
    let devices = enumerate_input_devices(Some(&names));
    for (index, device) in devices.iter().enumerate() {
        assert_eq!(open(1, 8_000, Some(&device.id)).protocol().device as usize, index);
    }
}

#[test]
fn a_plain_id_is_shown_between_quotes() {
    assert_eq!(
        WinmmCapture::open(1, 44_100, Some("USB Mic #2 (it's)")).err().as_deref(),
        Some("invalid Windows device id \"USB Mic #2 (it's)\" (expected an index)")
    );
    let plain: String = (0x20u8..0x7f).map(char::from).filter(|c| *c != '"' && *c != '\\').collect();
    assert_eq!(
        WinmmCapture::open(1, 44_100, Some(&plain)).err(),
        Some(format!("invalid Windows device id \"{plain}\" (expected an index)"))
    );
    assert_eq!(
        invalid_device_message("<shown>"),
        "invalid Windows device id <shown> (expected an index)"
    );
}
