//! Windows capture by the `waveIn` functions of `winmm.dll`.
//!
//! `waveIn` is callback-driven; captured samples are polled for. The callback
//! appends each filled buffer's frames to a queue and hands the buffer back to
//! the device, and [`PcmSource::read`] drains whatever has accumulated.

use vstd::prelude::*;

use crate::device::{default_count, entries, DeviceEntry, DeviceInfo};
use crate::pcm::{
    at_least_one, buffer_samples, capture_channels, samples_in_buffer, taken_in, BufferStep,
    PcmSource, SampleQueue,
};
use crate::protocol::{held, lemma_held_prefix, Opening, Protocol};
use crate::text::{
    between_quotes, debug_text, decimal, decimal_text, is_plain, parse_u32, parse_unsigned, quoted,
    until, utf16_lossy, utf16_to_string,
};

verus! {

broadcast use vstd::string::group_string_axioms;

/// `MMSYSERR_NOERROR`.
pub const MMSYSERR_NOERROR: u32 = 0;

/// `WAVE_FORMAT_PCM`: uncompressed PCM.
pub const WAVE_FORMAT_PCM: u16 = 1;

/// `CALLBACK_FUNCTION`: filled buffers are announced by a function call.
pub const CALLBACK_FUNCTION: u32 = 0x0003_0000;

/// `WAVE_MAPPER`: the system picks the preferred input.
pub const WAVE_MAPPER: u32 = 0xFFFF_FFFF;

/// `WIM_DATA`: a buffer has been filled and returned.
pub const WIM_DATA: u32 = 0x03C0;

/// Buffers that circulate between the device and the callback.
pub const RING_BUFFERS: usize = 4;

/// Frames that one buffer holds.
pub const FRAMES_PER_BUFFER: usize = 2048;

/// The `WAVEFORMATEX` of integer PCM.
#[derive(Clone, Copy, Debug, PartialEq, Eq)]
pub struct WaveFormat {
    pub format_tag: u16,
    pub channels: u16,
    pub samples_per_sec: u32,
    pub avg_bytes_per_sec: u32,
    pub block_align: u16,
    pub bits_per_sample: u16,
    pub cb_size: u16,
}

/// Whether the byte rates of such a stream fit their 32 bits.
pub open spec fn format_in_range(channels: u32, rate: u32) -> bool {
    &&& at_least_one(channels) * 2 <= u32::MAX
    &&& rate * (at_least_one(channels) * 2) <= u32::MAX
}

/// The format of 16-bit PCM.
pub open spec fn pcm_format(channels: u32, rate: u32) -> WaveFormat {
    let block_align = at_least_one(channels) * 2;
    WaveFormat {
        format_tag: WAVE_FORMAT_PCM,
        channels: at_least_one(channels) as u16,
        samples_per_sec: rate,
        avg_bytes_per_sec: (rate * block_align) as u32,
        block_align: (block_align as u32) as u16,
        bits_per_sample: 16,
        cb_size: 0,
    }
}

/// Whether the byte rates of such a stream fit their 32 bits.
pub fn format_fits(channels: u32, rate: u32) -> (fits: bool)
    ensures
        fits == format_in_range(channels, rate),
{
    let channels: u64 = capture_channels(channels) as u64;
    if channels * 2 > u32::MAX as u64 {
        return false;
    }
    assert(rate as u64 * (channels * 2) <= 0xFFFF_FFFF * 0xFFFF_FFFF) by (nonlinear_arith)
        requires
            0 <= rate <= 0xFFFF_FFFF,
            0 <= channels * 2 <= 0xFFFF_FFFF,
    ;
    rate as u64 * (channels * 2) <= u32::MAX as u64
}

/// A call into `winmm` on the device that is being opened and on the headers of
/// its buffers, which are told apart by number.
#[derive(Clone, Copy, Debug, PartialEq, Eq)]
pub enum WaveCall {
    /// `waveInOpen`.
    Open { device: u32, format: WaveFormat, flags: u32 },
    /// `waveInPrepareHeader`, on the header of a new buffer of `bytes` bytes.
    Prepare { header: usize, bytes: usize, length: u32 },
    /// `waveInAddBuffer`.
    AddBuffer { header: usize },
    /// `waveInStart`.
    Start,
    /// No longer hand returned buffers back to the device.
    MarkClosing,
    /// `waveInStop`.
    Stop,
    /// `waveInReset`: the device returns every buffer.
    Reset,
    /// `waveInUnprepareHeader`.
    Unprepare { header: usize },
    /// `waveInClose`.
    Close,
}

/// The calls that stop the device and release its first `headers` headers. The
/// callback has to know beforehand, so that it drains rather than re-queues the
/// buffers that the reset returns.
pub open spec fn teardown(headers: nat) -> Seq<WaveCall> {
    seq![WaveCall::MarkClosing, WaveCall::Stop, WaveCall::Reset] + Seq::new(
        headers,
        |i: int| WaveCall::Unprepare { header: i as usize },
    ) + seq![WaveCall::Close]
}

/// The call at `index` among those that stop the device and release its first
/// `headers` headers, if there is one.
pub fn teardown_call(headers: usize, index: usize) -> (call: Option<WaveCall>)
    requires
        headers <= RING_BUFFERS,
    ensures
        call == if index < teardown(headers as nat).len() {
            Some(teardown(headers as nat)[index as int])
        } else {
            None::<WaveCall>
        },
{
    if index == 0 {
        Some(WaveCall::MarkClosing)
    } else if index == 1 {
        Some(WaveCall::Stop)
    } else if index == 2 {
        Some(WaveCall::Reset)
    } else if index - 3 < headers {
        Some(WaveCall::Unprepare { header: index - 3 })
    } else if index - 3 == headers {
        Some(WaveCall::Close)
    } else {
        None
    }
}

/// The setup of a `waveIn` device. A call answers its `MMRESULT`.
#[derive(Clone, Copy, Debug, PartialEq, Eq)]
pub struct WinmmSetup {
    /// The channel count, at least one.
    pub channels: u32,
    pub device: u32,
    pub format: WaveFormat,
}

impl WinmmSetup {
    /// The size of one buffer in bytes.
    pub open spec fn buffer_bytes(&self) -> int {
        FRAMES_PER_BUFFER * (self.channels * 2)
    }

    /// The name of the function that the call at `index` calls.
    pub open spec fn call_name(index: int) -> Seq<char> {
        if index == 0 {
            "waveInOpen"@
        } else if index >= 9 {
            "waveInStart"@
        } else if index % 2 == 1 {
            "waveInPrepareHeader"@
        } else {
            "waveInAddBuffer"@
        }
    }

    /// The message of a setup that the call at `index` ended, where `text`
    /// describes the error.
    pub open spec fn message(index: int, text: Seq<char>) -> Seq<char> {
        Self::call_name(index) + ": "@ + text
    }

    /// The message of a setup that the call at `index` ended, where `text`
    /// describes the error.
    fn error_message(index: usize, text: &str) -> (message: String)
        ensures
            message@ == Self::message(index as int, text@),
    {
        let name = if index == 0 {
            "waveInOpen"
        } else if index >= 9 {
            "waveInStart"
        } else if index % 2 == 1 {
            "waveInPrepareHeader"
        } else {
            "waveInAddBuffer"
        };
        String::from_str(name).concat(": ").concat(text)
    }

    /// Whether the size of one buffer can be told.
    pub fn buffers_fit(&self) -> (fit: bool)
        ensures
            fit == (self.buffer_bytes() <= usize::MAX),
    {
        (FRAMES_PER_BUFFER as u64) * (self.channels as u64 * 2) <= usize::MAX as u64
    }

    /// The headers that are prepared when the call at `index` is made, but for
    /// the one that it adds.
    pub open spec fn headers_before(index: int) -> nat {
        if index <= 0 {
            0
        } else {
            ((index - 1) / 2) as nat
        }
    }
}

impl Protocol for WinmmSetup {
    type Call = WaveCall;

    type Reply = u32;

    /// The device is opened, each buffer of the ring is prepared and queued,
    /// and the device is started.
    open spec fn calls(&self) -> Seq<WaveCall> {
        Seq::new(
            10,
            |i: int|
                if i == 0 {
                    WaveCall::Open {
                        device: self.device,
                        format: self.format,
                        flags: CALLBACK_FUNCTION,
                    }
                } else if i == 9 {
                    WaveCall::Start
                } else if i % 2 == 1 {
                    WaveCall::Prepare {
                        header: ((i - 1) / 2) as usize,
                        bytes: self.buffer_bytes() as usize,
                        length: (self.buffer_bytes() as usize) as u32,
                    }
                } else {
                    WaveCall::AddBuffer { header: ((i - 1) / 2) as usize }
                },
        )
    }

    open spec fn fails(&self, index: int, reply: u32) -> bool {
        reply != MMSYSERR_NOERROR
    }

    /// A header that was prepared but could not be queued is released first;
    /// then the device is torn down with the headers before it.
    open spec fn releases(&self, failed: int) -> Seq<WaveCall> {
        let headers = Self::headers_before(failed);
        if failed <= 0 {
            Seq::empty()
        } else if failed < 9 && failed % 2 == 0 {
            seq![WaveCall::Unprepare { header: headers as usize }] + teardown(headers)
        } else {
            teardown(headers)
        }
    }

    open spec fn in_range(&self, index: int) -> bool {
        index % 2 == 1 && index < 9 ==> self.buffer_bytes() <= usize::MAX
    }

    fn call(&self, index: usize) -> (call: Option<WaveCall>) {
        if index >= 10 {
            None
        } else if index == 0 {
            Some(
                WaveCall::Open {
                    device: self.device,
                    format: self.format,
                    flags: CALLBACK_FUNCTION,
                },
            )
        } else if index == 9 {
            Some(WaveCall::Start)
        } else if index % 2 == 1 {
            let header: usize = (index - 1) / 2;
            let block: u64 = self.channels as u64 * 2;
            let bytes: usize = (FRAMES_PER_BUFFER as u64 * block) as usize;
            Some(WaveCall::Prepare { header, bytes, length: bytes as u32 })
        } else {
            Some(WaveCall::AddBuffer { header: (index - 1) / 2 })
        }
    }

    fn failed(&self, index: usize, reply: &u32) -> (failed: bool) {
        *reply != MMSYSERR_NOERROR
    }

    fn release(&self, failed: usize, index: usize) -> (call: Option<WaveCall>) {
        if failed == 0 {
            return None;
        }
        let headers: usize = (failed - 1) / 2;
        if failed < 9 && failed % 2 == 0 {
            if index == 0 {
                Some(WaveCall::Unprepare { header: headers })
            } else {
                teardown_call(headers, index - 1)
            }
        } else {
            teardown_call(headers, index)
        }
    }
}

/// The description of an error: the text that `waveInGetErrorTextW` wrote for
/// `code`, if it returned success and wrote one, and in any case the number.
pub open spec fn code_text(code: u32, rc: u32, units: Seq<u16>) -> Seq<char> {
    let text = utf16_lossy(until(units, 0u16));
    let number = "MMRESULT "@ + decimal(code as nat);
    if rc == MMSYSERR_NOERROR && text.len() > 0 {
        text + " ("@ + number + ")"@
    } else {
        number
    }
}

/// Maps an MMRESULT to a human-readable message by what `waveInGetErrorTextW`
/// returned and wrote, falling back to the numeric code.
pub fn error_text(code: u32, rc: u32, units: &[u16]) -> (message: String)
    ensures
        message@ == code_text(code, rc, units@),
{
    let number = String::from_str("MMRESULT ").concat(decimal_text(code as u64).as_str());
    if rc == MMSYSERR_NOERROR {
        let text = utf16_to_string(units);
        if !text.as_str().is_empty() {
            return text.concat(" (").concat(number.as_str()).concat(")");
        }
    }
    number
}

/// The message for a device id that is not an index, which shows as `shown`.
pub open spec fn invalid_device(shown: Seq<char>) -> Seq<char> {
    "invalid Windows device id "@ + shown + " (expected an index)"@
}

/// The message for a device id that is not an index, which shows as `shown`.
pub fn invalid_device_message(shown: &str) -> (message: String)
    ensures
        message@ == invalid_device(shown@),
{
    String::from_str("invalid Windows device id ").concat(shown).concat(" (expected an index)")
}

/// The device that `id` selects: the one of that index, and without an id, or
/// with an empty one, the one that the system prefers.
pub open spec fn selected_device(id: Option<Seq<char>>) -> Option<u32> {
    match id {
        Some(text) => if text.len() == 0 {
            Some(WAVE_MAPPER)
        } else {
            match parse_unsigned(text, u32::MAX as nat) {
                Some(index) => Some(index as u32),
                None => None,
            }
        },
        None => Some(WAVE_MAPPER),
    }
}

/// An open `waveIn` device feeding captured S16 frames into a queue.
pub struct WinmmCapture {
    queue: SampleQueue,
    channels: u32,
}

impl WinmmCapture {
    /// Begins to open the device that `device_id` selects: the decimal index of
    /// one (see [`enumerate_input_devices`]), or, by none or an empty one, the
    /// preferred input.
    pub fn open(channels: u32, rate: u32, device_id: Option<&str>) -> (opening: Result<
        Opening<WinmmSetup>,
        String,
    >)
        requires
            format_in_range(channels, rate),
        ensures
            ({
                let id = match device_id {
                    Some(text) => Some(text@),
                    None => None,
                };
                match opening {
                    Ok(opening) => {
                        &&& selected_device(id) is Some
                        &&& opening.spec_protocol() == (WinmmSetup {
                            channels: at_least_one(channels),
                            device: selected_device(id)->0,
                            format: pcm_format(channels, rate),
                        })
                        &&& opening.progress() == crate::protocol::Progress::<u32>::start()
                    },
                    Err(message) => {
                        &&& selected_device(id) is None
                        &&& message@ == invalid_device(quoted(id->0))
                        &&& is_plain(id->0) ==> message@ == invalid_device(
                            between_quotes(id->0),
                        )
                    },
                }
            }),
    {
        let channels: u32 = capture_channels(channels);
        let block_align: u32 = channels * 2;
        let format = WaveFormat {
            format_tag: WAVE_FORMAT_PCM,
            channels: channels as u16,
            samples_per_sec: rate,
            avg_bytes_per_sec: rate * block_align,
            block_align: block_align as u16,
            bits_per_sample: 16,
            cb_size: 0,
        };
        let device: u32 = match device_id {
            Some(text) => if text.is_empty() {
                WAVE_MAPPER
            } else {
                match parse_u32(text) {
                    Some(index) => index,
                    None => {
                        return Err(invalid_device_message(debug_text(text).as_str()));
                    },
                }
            },
            None => WAVE_MAPPER,
        };
        Ok(Opening::new(WinmmSetup { channels, device, format }))
    }

    /// The error code that [`WinmmCapture::finish`] needs a description of, if
    /// it needs one.
    pub fn error_code(opening: &Opening<WinmmSetup>) -> (code: Option<u32>)
        ensures
            code == if opening.progress().failed {
                Some(opening.progress().last_reply())
            } else {
                None::<u32>
            },
    {
        match opening.failure() {
            Some(index) => Some(opening.replies()[index]),
            None => None,
        }
    }

    /// How the setup ended: the capture that the opened device feeds, or why
    /// there is none, where `waveInGetErrorTextW` returned `rc` and wrote `units`
    /// for the error code. The callback may have run before; `captured` is what
    /// it captured.
    pub fn finish(
        opening: &Opening<WinmmSetup>,
        captured: SampleQueue,
        rc: u32,
        units: &[u16],
    ) -> (outcome: Result<WinmmCapture, String>)
        requires
            opening.progress().ended(opening.spec_protocol()),
        ensures
            match outcome {
                Ok(capture) => {
                    &&& !opening.progress().failed
                    &&& capture.pending() == captured@
                    &&& capture.accepting() == captured.accepting()
                    &&& capture.channel_count() == opening.spec_protocol().channels
                },
                Err(message) => {
                    &&& opening.progress().failed
                    &&& message@ == WinmmSetup::message(
                        opening.progress().replies.len() - 1,
                        code_text(opening.progress().last_reply(), rc, units@),
                    )
                },
            },
    {
        match opening.failure() {
            Some(index) => {
                let text = error_text(opening.replies()[index], rc, units);
                Err(WinmmSetup::error_message(index, text.as_str()))
            },
            None => Ok(
                WinmmCapture { queue: captured, channels: opening.protocol().channels },
            ),
        }
    }

    /// The device filled a buffer with these samples.
    pub fn captured(&mut self, samples: &[i16])
        ensures
            final(self).pending() == old(self).pending() + taken_in(
                old(self).accepting(),
                samples@,
            ),
            old(self).accepting() ==> final(self).pending() == old(self).pending() + samples@,
            !old(self).accepting() ==> final(self).pending() == old(self).pending(),
            final(self).accepting() == old(self).accepting(),
            final(self).channel_count() == old(self).channel_count(),
    {
        self.queue.append(samples);
    }
}

/// What the callback does when it is told `message`, where the header that comes
/// with it reports `bytes_recorded` bytes. Only a message that a buffer has been
/// filled, with its header, has one: it takes one sample for each two bytes,
/// none from a buffer without data, and hands the buffer back so that the device
/// keeps capturing, unless the device is being torn down, where the queue must
/// drain.
pub fn input_cb(
    message: u32,
    header_is_null: bool,
    bytes_recorded: u32,
    data_is_null: bool,
    closing: bool,
) -> (step: BufferStep)
    ensures
        if message != WIM_DATA || header_is_null {
            step.samples is None && !step.recycle
        } else {
            &&& match step.samples {
                Some(n) => {
                    &&& buffer_samples(bytes_recorded, data_is_null) == Some(n as nat)
                    &&& bytes_recorded >= 2 && !data_is_null
                    &&& 2 * n <= bytes_recorded < 2 * n + 2
                },
                None => {
                    &&& buffer_samples(bytes_recorded, data_is_null) is None
                    &&& bytes_recorded < 2 || data_is_null
                },
            }
            &&& step.recycle == !closing
        },
{
    if message != WIM_DATA || header_is_null {
        BufferStep { samples: None, recycle: false }
    } else {
        BufferStep { samples: samples_in_buffer(bytes_recorded, data_is_null), recycle: !closing }
    }
}

impl PcmSource for WinmmCapture {
    closed spec fn pending(&self) -> Seq<i16> {
        self.queue@
    }

    closed spec fn accepting(&self) -> bool {
        self.queue.accepting()
    }

    closed spec fn channel_count(&self) -> u32 {
        self.channels
    }

    fn read(&mut self, max: usize) -> (samples: Vec<i16>) {
        self.queue.read(max)
    }

    fn stop(&mut self) {
        self.queue.close();
    }

    fn channels(&self) -> (channels: u32) {
        self.channels
    }
}

/// The name to show of the device at `index`, where the driver reports `units`.
pub open spec fn shown_name(index: nat, units: Seq<u16>) -> Seq<char> {
    let name = utf16_lossy(until(units, 0u16));
    if name.len() == 0 {
        "Input "@ + decimal(index)
    } else {
        name
    }
}

/// The device list, where the driver reports `names[i]` of the device at `i`, or
/// fails to.
///
/// `waveIn` identifies devices by index, so the ids are decimal indices. It has
/// no real "default device" query, so the first listed device is marked: the
/// conventional preferred input.
pub open spec fn device_list(names: Seq<Option<Seq<u16>>>) -> Seq<DeviceEntry>
    decreases names.len(),
{
    if names.len() == 0 {
        Seq::empty()
    } else {
        let index = (names.len() - 1) as nat;
        let before = device_list(names.drop_last());
        match names.last() {
            Some(units) => before.push(
                DeviceEntry {
                    id: decimal(index),
                    name: shown_name(index, units),
                    is_default: before.len() == 0,
                },
            ),
            None => before,
        }
    }
}

/// What `waveInGetDevCapsW` returns for a device, and the name that it writes.
pub struct DeviceCaps {
    pub rc: u32,
    pub name: Vec<u16>,
}

/// What a driver reports, by its code units: nothing where it fails.
pub open spec fn reported_names(caps: Seq<DeviceCaps>) -> Seq<Option<Seq<u16>>> {
    caps.map_values(
        |caps: DeviceCaps|
            if caps.rc == MMSYSERR_NOERROR {
                Some(caps.name@)
            } else {
                None
            },
    )
}

/// Enumerates every `waveIn` input device, where `caps[i]` is what the driver
/// reports of the device at `i`. Returns an empty Vec where the library could
/// not be asked.
pub fn enumerate_input_devices(caps: Option<&Vec<DeviceCaps>>) -> (devices: Vec<DeviceInfo>)
    ensures
        entries(devices@) == match caps {
            Some(caps) => device_list(reported_names(caps@)),
            None => Seq::empty(),
        },
{
    let mut out: Vec<DeviceInfo> = Vec::new();
    let caps = match caps {
        Some(caps) => caps,
        None => {
            assert(entries(out@) =~= Seq::empty());
            return out;
        },
    };
    let ghost all = reported_names(caps@);
    assert(all.take(0) =~= Seq::empty());
    assert(entries(out@) =~= Seq::empty());
    let mut i: usize = 0;
    while i < caps.len()
        invariant
            i <= caps.len(),
            all == reported_names(caps@),
            entries(out@) == device_list(all.take(i as int)),
        decreases caps.len() - i,
    {
        let ghost before = out@;
        proof {
            assert(all.take(i + 1).drop_last() =~= all.take(i as int));
            assert(all.take(i + 1).last() == all[i as int]);
        }
        if caps[i].rc == MMSYSERR_NOERROR {
            let name = utf16_to_string(caps[i].name.as_slice());
            let name = if name.as_str().is_empty() {
                String::from_str("Input ").concat(decimal_text(i as u64).as_str())
            } else {
                name
            };
            let is_default = out.is_empty();
            out.push(DeviceInfo { id: decimal_text(i as u64), name, is_default });
            assert(entries(out@) =~= entries(before).push(out@.last()@));
        }
        i += 1;
    }
    assert(all.take(i as int) =~= all);
    out
}

// ---------------------------------------------------------------------------
// Laws
// ---------------------------------------------------------------------------

/// The indices of the devices that the driver reports, in order.
pub open spec fn listed_indices(names: Seq<Option<Seq<u16>>>) -> Seq<nat>
    decreases names.len(),
{
    if names.len() == 0 {
        Seq::empty()
    } else {
        let before = listed_indices(names.drop_last());
        match names.last() {
            Some(_) => before.push((names.len() - 1) as nat),
            None => before,
        }
    }
}

/// The list holds one entry for each device that the driver reports, in order,
/// each with its own id.
pub proof fn law_list_is_complete(names: Seq<Option<Seq<u16>>>)
    ensures
        ({
            let list = device_list(names);
            let indices = listed_indices(names);
            &&& list.len() == indices.len()
            &&& forall|j: int|
                0 <= j < list.len() ==> {
                    &&& 0 <= #[trigger] indices[j] < names.len()
                    &&& names[indices[j] as int] is Some
                    &&& list[j].id == decimal(indices[j])
                    &&& list[j].name == shown_name(indices[j], names[indices[j] as int]->0)
                }
            &&& forall|j: int, k: int| 0 <= j < k < list.len() ==> indices[j] < indices[k]
            &&& forall|i: int|
                0 <= i < names.len() && #[trigger] names[i] is Some ==> indices.contains(i as nat)
        }),
    decreases names.len(),
{
    if names.len() > 0 {
        let earlier = names.drop_last();
        law_list_is_complete(earlier);
        let indices = listed_indices(names);
        let before = listed_indices(earlier);
        assert forall|i: int| 0 <= i < names.len() && #[trigger] names[i] is Some implies indices.contains(
            i as nat,
        ) by {
            if i < names.len() - 1 {
                assert(earlier[i] is Some);
                let k = choose|k: int| 0 <= k < before.len() && before[k] == i as nat;
                assert(indices[k] == i as nat);
            } else {
                assert(indices.last() == i as nat);
            }
        }
    }
}

/// Where any device is listed, the first is the default, and it is the only
/// one.
pub proof fn law_first_device_is_default(names: Seq<Option<Seq<u16>>>)
    ensures
        ({
            let list = device_list(names);
            &&& list.len() > 0 ==> list[0].is_default
            &&& forall|j: int| 0 < j < list.len() ==> !(#[trigger] list[j]).is_default
            &&& default_count(list) == if list.len() > 0 {
                1nat
            } else {
                0nat
            }
        }),
    decreases names.len(),
{
    if names.len() > 0 {
        let list = device_list(names);
        let before = device_list(names.drop_last());
        law_first_device_is_default(names.drop_last());
        if names.last() is Some {
            assert(list.drop_last() =~= before);
        }
    }
}

/// No listed device has an empty id or an empty name, and no two have the same
/// id.
pub proof fn law_listed_devices_are_well_formed(names: Seq<Option<Seq<u16>>>)
    ensures
        ({
            let list = device_list(names);
            &&& forall|j: int|
                0 <= j < list.len() ==> (#[trigger] list[j]).id.len() > 0 && list[j].name.len() > 0
            &&& forall|j: int, k: int|
                0 <= j < k < list.len() ==> (#[trigger] list[j]).id != (#[trigger] list[k]).id
        }),
{
    let list = device_list(names);
    let indices = listed_indices(names);
    law_list_is_complete(names);
    assert forall|j: int| 0 <= j < list.len() implies (#[trigger] list[j]).id.len() > 0
        && list[j].name.len() > 0 by {
        assert(indices[j] < names.len());
        reveal_strlit("Input ");
        assert(decimal(indices[j]).len() > 0);
    }
    assert forall|j: int, k: int| 0 <= j < k < list.len() implies (#[trigger] list[j]).id != (
    #[trigger] list[k]).id by {
        assert(indices[j] < indices[k]);
        crate::text::law_decimal_distinct(indices[j], indices[k]);
    }
}

/// The id of a listed device, handed to [`WinmmCapture::open`], selects the
/// device at its index.
pub proof fn law_listed_id_selects_device(names: Seq<Option<Seq<u16>>>, j: int)
    requires
        names.len() <= u32::MAX,
        0 <= j < device_list(names).len(),
    ensures
        selected_device(Some(device_list(names)[j].id)) == Some(listed_indices(names)[j] as u32),
        listed_indices(names)[j] < names.len(),
{
    law_list_is_complete(names);
    let index = listed_indices(names)[j];
    assert(index < names.len());
    crate::text::law_decimal_round_trip(index, u32::MAX as nat);
}

/// How many devices the first `n` of `calls` leave open, where none of them
/// failed.
pub open spec fn devices_open(calls: Seq<WaveCall>, n: nat) -> int {
    held(calls, n, device_change())
}

/// By how much a call changes that.
pub open spec fn device_change() -> spec_fn(WaveCall) -> int {
    |call: WaveCall|
        match call {
            WaveCall::Open { .. } => 1int,
            WaveCall::Close => -1int,
            _ => 0int,
        }
}

/// How often the header `h` is prepared more than it is released among the first
/// `n` of `calls`, where none of them failed.
pub open spec fn preparations(calls: Seq<WaveCall>, n: nat, h: usize) -> int {
    held(calls, n, header_change(h))
}

/// By how much a call changes that.
pub open spec fn header_change(h: usize) -> spec_fn(WaveCall) -> int {
    |call: WaveCall|
        match call {
            WaveCall::Prepare { header, .. } => if header == h {
                1int
            } else {
                0int
            },
            WaveCall::Unprepare { header } => if header == h {
                -1int
            } else {
                0int
            },
            _ => 0int,
        }
}

proof fn lemma_setup_holds(setup: WinmmSetup, n: nat, h: usize)
    requires
        n <= 10,
    ensures
        devices_open(setup.calls(), n) == if n >= 1 {
            1int
        } else {
            0int
        },
        preparations(setup.calls(), n, h) == if h < RING_BUFFERS && n >= 2 * h + 2 {
            1int
        } else {
            0int
        },
    decreases n,
{
    if n > 0 {
        lemma_setup_holds(setup, (n - 1) as nat, h);
    }
}

/// Tearing down behind calls that left the device open and the first `headers`
/// headers prepared leaves nothing.
proof fn lemma_teardown(before: Seq<WaveCall>, headers: nat, k: nat, h: usize)
    requires
        headers <= RING_BUFFERS,
        k <= headers + 4,
    ensures
        ({
            let made = before + teardown(headers);
            &&& devices_open(made, before.len() + k) == devices_open(before, before.len()) - if k
                == headers + 4 {
                1int
            } else {
                0int
            }
            &&& preparations(made, before.len() + k, h) == preparations(before, before.len(), h)
                - if h < headers && k >= h + 4 {
                1int
            } else {
                0int
            }
        }),
    decreases k,
{
    let made = before + teardown(headers);
    if k == 0 {
        lemma_held_prefix(made, before, before.len(), device_change());
        lemma_held_prefix(made, before, before.len(), header_change(h));
    } else {
        lemma_teardown(before, headers, (k - 1) as nat, h);
        let last = made[before.len() + k - 1];
        assert(last == teardown(headers)[k - 1]);
        if k <= 3 {
            assert(last is MarkClosing || last is Stop || last is Reset);
        } else if k <= headers + 3 {
            assert(last == WaveCall::Unprepare { header: (k - 4) as usize });
        } else {
            assert(last is Close);
        }
    }
}

/// Whichever call fails, what the calls before it acquired is given back: the
/// device is closed, once, and every prepared header is released, once.
pub proof fn law_failed_setup_holds_nothing(setup: WinmmSetup, failed: int, header: usize)
    requires
        0 <= failed < setup.calls().len(),
    ensures
        ({
            let made = setup.calls().take(failed) + setup.releases(failed);
            &&& devices_open(made, made.len()) == 0
            &&& preparations(made, made.len(), header) == 0
        }),
{
    let first = setup.calls().take(failed);
    let headers = WinmmSetup::headers_before(failed);
    lemma_setup_holds(setup, failed as nat, header);
    lemma_held_prefix(first, setup.calls(), failed as nat, device_change());
    lemma_held_prefix(first, setup.calls(), failed as nat, header_change(header));
    if failed == 0 {
        assert(first + setup.releases(failed) =~= Seq::empty());
    } else if failed < 9 && failed % 2 == 0 {
        let undone = first.push(WaveCall::Unprepare { header: headers as usize });
        lemma_held_prefix(undone, first, failed as nat, device_change());
        lemma_held_prefix(undone, first, failed as nat, header_change(header));
        lemma_teardown(undone, headers, headers + 4, header);
        assert(first + setup.releases(failed) =~= undone + teardown(headers));
    } else {
        lemma_teardown(first, headers, headers + 4, header);
    }
}

/// A setup that succeeds leaves the device open and every header of the ring
/// prepared; tearing it down closes the device and releases them all.
pub proof fn law_teardown_releases_all(setup: WinmmSetup, header: usize)
    ensures
        ({
            let opened = setup.calls();
            let made = opened + teardown(RING_BUFFERS as nat);
            &&& devices_open(opened, opened.len()) == 1
            &&& preparations(opened, opened.len(), header) == if header < RING_BUFFERS {
                1int
            } else {
                0int
            }
            &&& devices_open(made, made.len()) == 0
            &&& preparations(made, made.len(), header) == 0
        }),
{
    lemma_setup_holds(setup, 10, header);
    lemma_teardown(setup.calls(), RING_BUFFERS as nat, (RING_BUFFERS + 4) as nat, header);
}

/// A teardown releases headers only once the callback knows of it and the
/// device has been reset, and closes the device last.
pub proof fn law_teardown_order(headers: nat, i: int)
    requires
        0 <= i < teardown(headers).len(),
    ensures
        teardown(headers)[0] is MarkClosing,
        teardown(headers)[2] is Reset,
        teardown(headers)[i] is Unprepare ==> i > 2,
        teardown(headers)[i] is Close <==> i == teardown(headers).len() - 1,
{
}

/// Without an id, and with an empty one, the preferred input is selected.
pub proof fn law_no_id_selects_preferred_input()
    ensures
        selected_device(None) == Some(WAVE_MAPPER),
        selected_device(Some(Seq::empty())) == Some(WAVE_MAPPER),
{
}

/// The format describes what was requested, whatever it is: the rate as it is, the
/// channels as they are but at least one, and 16 bits for each of them.
pub proof fn law_format_describes_the_request(channels: u32, rate: u32)
    requires
        format_in_range(channels, rate),
    ensures
        ({
            let format = pcm_format(channels, rate);
            let count: int = if channels == 0 {
                1
            } else {
                channels as int
            };
            &&& format.format_tag == 1
            &&& format.samples_per_sec == rate
            &&& count <= u16::MAX ==> format.channels == count
            &&& count * 2 <= u16::MAX ==> format.block_align == count * 2
            &&& format.avg_bytes_per_sec == rate * (count * 2)
            &&& format.bits_per_sample == 16
            &&& format.cb_size == 0
        }),
{
}

/// A request fits unless its bytes per frame, or per second, are more than 32 bits
/// hold.
pub proof fn law_what_fits(channels: u32, rate: u32, setup: WinmmSetup, index: int)
    requires
        0 <= index < setup.calls().len(),
    ensures
        ({
            let count: int = if channels == 0 {
                1
            } else {
                channels as int
            };
            format_in_range(channels, rate) <==> count * 2 <= u32::MAX && rate * (count * 2)
                <= u32::MAX
        }),
        setup.calls()[index] is Prepare ==> (setup.in_range(index) <==> 2048 * (setup.channels * 2)
            <= usize::MAX),
        !(setup.calls()[index] is Prepare) ==> setup.in_range(index),
{
}

/// Every setup opens the device that was selected with the format that was
/// described, announcing filled buffers by a function call; each of four buffers
/// of 2048 frames of 16-bit channels is prepared and then queued, in order, and
/// last the device is started.
pub proof fn law_setup_fills_the_ring(setup: WinmmSetup, header: int)
    requires
        2048 * (setup.channels * 2) <= usize::MAX,
        0 <= header < 4,
    ensures
        ({
            let calls = setup.calls();
            let bytes = 2048 * (setup.channels * 2);
            &&& calls.len() == 10
            &&& calls[0] == (WaveCall::Open {
                device: setup.device,
                format: setup.format,
                flags: 0x0003_0000,
            })
            &&& calls[2 * header + 1] is Prepare
            &&& calls[2 * header + 1]->Prepare_header == header
            &&& calls[2 * header + 1]->bytes == bytes
            &&& bytes <= u32::MAX ==> calls[2 * header + 1]->length == bytes
            &&& calls[2 * header + 2] is AddBuffer
            &&& calls[2 * header + 2]->AddBuffer_header == header
            &&& calls[9] is Start
        }),
{
}

/// Any result but zero ends the setup, whichever call it is.
pub proof fn law_replies_decide(setup: WinmmSetup, index: int, reply: u32)
    requires
        0 <= index < setup.calls().len(),
    ensures
        setup.fails(index, reply) <==> reply != 0,
{
}

/// A teardown tells the callback, stops the device, resets it, releases each
/// header in order and closes the device, and makes no other call.
pub proof fn law_teardown_calls(headers: nat, i: int)
    requires
        headers <= usize::MAX,
        0 <= i < headers,
    ensures
        teardown(headers).len() == headers + 4,
        teardown(headers)[0] is MarkClosing,
        teardown(headers)[1] is Stop,
        teardown(headers)[2] is Reset,
        teardown(headers)[3 + i] is Unprepare,
        teardown(headers)[3 + i]->Unprepare_header == i,
        teardown(headers)[(3 + headers) as int] is Close,
{
}

/// A failed setup releases the header that could not be queued, where that is what
/// failed, and then tears the device down with the headers that were queued
/// before; where the device did not open there is nothing to do.
pub proof fn law_failed_setup_tears_down(setup: WinmmSetup, failed: int)
    requires
        0 <= failed < setup.calls().len(),
    ensures
        ({
            let releases = setup.releases(failed);
            match setup.calls()[failed] {
                WaveCall::Open { .. } => releases.len() == 0,
                WaveCall::Prepare { header, .. } => releases == teardown(header as nat),
                WaveCall::AddBuffer { header } => {
                    &&& releases.len() == teardown(header as nat).len() + 1
                    &&& releases[0] == WaveCall::Unprepare { header }
                    &&& releases.skip(1) == teardown(header as nat)
                },
                _ => releases == teardown(4),
            }
        }),
{
    if setup.calls()[failed] is AddBuffer {
        let header = setup.calls()[failed]->AddBuffer_header;
        assert(setup.releases(failed).skip(1) =~= teardown(header as nat));
    }
}

/// Whatever the error, the message of a failed setup is the name of the function
/// that failed, a colon and the description.
pub proof fn law_message_names_the_call(setup: WinmmSetup, index: int, text: Seq<char>)
    requires
        0 <= index < setup.calls().len(),
    ensures
        WinmmSetup::message(index, text) == (match setup.calls()[index] {
            WaveCall::Open { .. } => "waveInOpen"@,
            WaveCall::Prepare { .. } => "waveInPrepareHeader"@,
            WaveCall::AddBuffer { .. } => "waveInAddBuffer"@,
            _ => "waveInStart"@,
        }) + ": "@ + text,
{
}

/// An error is described by the text that was written for it, if any, with its
/// number in brackets, and else by its number alone.
pub proof fn law_error_is_described(code: u32, rc: u32, units: Seq<u16>)
    ensures
        ({
            let text = utf16_lossy(until(units, 0u16));
            let number = "MMRESULT "@ + decimal(code as nat);
            &&& rc == 0 && text.len() > 0 ==> code_text(code, rc, units) == text + " ("@ + number
                + ")"@
            &&& rc != 0 || text.len() == 0 ==> code_text(code, rc, units) == number
        }),
{
}

/// Every index in decimal selects the device of that index, and an id that is not
/// empty selects none unless it is a number of at most 32 bits.
pub proof fn law_id_selects_by_index(index: nat, text: Seq<char>)
    ensures
        index <= u32::MAX ==> selected_device(Some(decimal(index))) == Some(index as u32),
        index > u32::MAX ==> selected_device(Some(decimal(index))) is None,
        text.len() > 0 ==> (selected_device(Some(text)) is Some <==> parse_unsigned(
            text,
            0xFFFF_FFFF,
        ) is Some),
        text.len() > 0 && selected_device(Some(text)) is Some ==> selected_device(Some(text))->0
            == parse_unsigned(text, 0xFFFF_FFFF)->0,
{
    crate::text::law_decimal_form(index);
    crate::text::law_decimal_round_trip(index, index);
    assert forall|i: int| 0 <= i < decimal(index).len() implies 0x30 <= (#[trigger] decimal(
        index,
    )[i]) as u32 <= 0x39 by {}
    crate::text::law_digits_are_read(decimal(index), index);
    crate::text::law_digits_are_read(decimal(index), u32::MAX as nat);
}

/// The message for an id that is no index shows the id as it is given.
pub proof fn law_invalid_id_is_shown(shown: Seq<char>)
    ensures
        invalid_device(shown) == "invalid Windows device id "@ + shown + " (expected an index)"@,
{
}

/// Each device that the driver reports is listed, in order and by its own index:
/// under the name that the driver gives it, whichever device it is, and under its
/// number where the driver gives none. The first listed, and no other, is the
/// default; a device that the driver fails to report is not listed.
pub proof fn law_reported_devices_are_listed(caps: Seq<DeviceCaps>)
    ensures
        ({
            let list = device_list(reported_names(caps));
            let indices = listed_indices(reported_names(caps));
            &&& list.len() == indices.len()
            &&& forall|j: int|
                0 <= j < list.len() ==> {
                    let name = utf16_lossy(until(caps[#[trigger] indices[j] as int].name@, 0u16));
                    &&& indices[j] < caps.len()
                    &&& caps[indices[j] as int].rc == 0
                    &&& list[j].id == decimal(indices[j])
                    &&& name.len() > 0 ==> list[j].name == name
                    &&& name.len() == 0 ==> list[j].name == "Input "@ + decimal(indices[j])
                    &&& list[j].is_default <==> j == 0
                }
            &&& forall|j: int, k: int| 0 <= j < k < list.len() ==> indices[j] < indices[k]
            &&& forall|i: int|
                0 <= i < caps.len() && (#[trigger] caps[i]).rc == 0 ==> indices.contains(i as nat)
        }),
{
    let names = reported_names(caps);
    let list = device_list(names);
    let indices = listed_indices(names);
    law_list_is_complete(names);
    law_first_device_is_default(names);
    assert(names.len() == caps.len());
    assert forall|j: int| 0 <= j < list.len() implies {
        let name = utf16_lossy(until(caps[#[trigger] indices[j] as int].name@, 0u16));
        &&& indices[j] < caps.len()
        &&& caps[indices[j] as int].rc == 0
        &&& list[j].id == decimal(indices[j])
        &&& name.len() > 0 ==> list[j].name == name
        &&& name.len() == 0 ==> list[j].name == "Input "@ + decimal(indices[j])
        &&& list[j].is_default <==> j == 0
    } by {
        assert(indices[j] < names.len());
        assert(names[indices[j] as int] is Some);
        let entry = list[j];
        if j > 0 {
            assert(!entry.is_default);
        }
    }
    assert forall|i: int| 0 <= i < caps.len() && (#[trigger] caps[i]).rc == 0 implies indices.contains(
        i as nat,
    ) by {
        assert(names[i] is Some);
    }
}

} // verus!
