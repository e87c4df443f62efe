//! CoreAudio capture by AudioQueue, on macOS and iOS.
//!
//! AudioQueue input is callback-driven; captured samples are polled for. The
//! callback appends captured frames to a queue and hands each buffer back, and
//! [`PcmSource::read`] drains whatever has accumulated.

use vstd::prelude::*;

use crate::pcm::{
    at_least_one, buffer_samples, capture_channels, samples_in_buffer, taken_in, BufferStep,
    PcmSource, SampleQueue,
};
use crate::protocol::{held, lemma_held_prefix, Opening, Protocol};
use crate::text::{signed_decimal, signed_decimal_text};

verus! {

broadcast use vstd::string::group_string_axioms;

/// `kAudioFormatLinearPCM`: the characters `lpcm`, first byte highest.
pub const K_LINEAR_PCM: u32 = 0x6C70_636D;

/// `kAudioFormatFlagIsSignedInteger`.
pub const K_PCM_FLAG_IS_SIGNED_INT: u32 = 0x4;

/// `kAudioFormatFlagIsPacked`.
pub const K_PCM_FLAG_IS_PACKED: u32 = 0x8;

/// Buffers that circulate between the queue and the callback.
pub const RING_BUFFERS: usize = 4;

/// Frames that one buffer holds.
pub const FRAMES_PER_BUFFER: u32 = 2048;

/// An `AudioStreamBasicDescription`, with its sample rate in whole Hertz.
#[derive(Clone, Copy, Debug, PartialEq, Eq)]
pub struct StreamDescription {
    pub sample_rate: u32,
    pub format_id: u32,
    pub format_flags: u32,
    pub bytes_per_packet: u32,
    pub frames_per_packet: u32,
    pub bytes_per_frame: u32,
    pub channels_per_frame: u32,
    pub bits_per_channel: u32,
    pub reserved: u32,
}

/// Packed 16-bit signed PCM of `channels` interleaved channels.
pub open spec fn pcm_description(channels: u32, rate: u32) -> StreamDescription {
    StreamDescription {
        sample_rate: rate,
        format_id: K_LINEAR_PCM,
        format_flags: K_PCM_FLAG_IS_SIGNED_INT | K_PCM_FLAG_IS_PACKED,
        bytes_per_packet: (channels * 2) as u32,
        frames_per_packet: 1,
        bytes_per_frame: (channels * 2) as u32,
        channels_per_frame: channels,
        bits_per_channel: 16,
        reserved: 0,
    }
}

/// A call into AudioToolbox on the queue that is being opened and on its
/// buffers, which are told apart by number.
#[derive(Clone, Copy, Debug, PartialEq, Eq)]
pub enum CoreAudioCall {
    /// `AudioQueueNewInput`.
    NewInput { description: StreamDescription },
    /// Route the queue to the selected device (see [`crate::hal`]).
    SelectDevice,
    /// `AudioQueueAllocateBuffer`.
    Allocate { buffer: usize, bytes: u32 },
    /// `AudioQueueEnqueueBuffer`.
    Enqueue { buffer: usize },
    /// `AudioQueueStart`.
    Start,
    /// `AudioQueueStop`, at once.
    Stop,
    /// `AudioQueueFreeBuffer`.
    FreeBuffer { buffer: usize },
    /// `AudioQueueDispose`, at once.
    Dispose,
}

/// What such a call answers.
pub enum CoreAudioReply {
    /// The `OSStatus` of a call.
    Status(i32),
    /// How routing the queue ended.
    Routed(Result<(), String>),
}

/// The setup of an AudioQueue input.
pub struct CoreAudioSetup {
    /// The channel count, at least one.
    pub channels: u32,
    pub rate: u32,
    /// The UID of the device to route the queue to, if any.
    pub device: Option<String>,
}

impl CoreAudioSetup {
    /// The index of the first call on a buffer.
    pub open spec fn first_buffer_call(&self) -> int {
        if self.device is Some {
            2
        } else {
            1
        }
    }

    /// Whether the call at `index` routes the queue to the selected device.
    pub open spec fn selects(&self, index: int) -> bool {
        0 < index < self.first_buffer_call()
    }

    /// The size of one buffer in bytes.
    pub open spec fn buffer_bytes(&self) -> int {
        FRAMES_PER_BUFFER * (self.channels * 2)
    }

    /// The name of the function that the call at `index` calls.
    pub open spec fn call_name(&self, index: int) -> Seq<char> {
        if index == 0 {
            "AudioQueueNewInput"@
        } else if index < self.first_buffer_call() + 8 {
            "AudioQueueAllocateBuffer"@
        } else {
            "AudioQueueStart"@
        }
    }

    /// The message of a setup that ended with `reply` to the call at `index`.
    pub open spec fn message(&self, index: int, reply: CoreAudioReply) -> Seq<char> {
        match reply {
            CoreAudioReply::Routed(Err(message)) if self.selects(index) => message@,
            CoreAudioReply::Status(rc) if !self.selects(index) => self.call_name(index) + ": "@
                + signed_decimal(rc as int),
            _ => "unexpected reply"@,
        }
    }

    fn first_buffer(&self) -> (index: usize)
        ensures
            index == self.first_buffer_call(),
    {
        match &self.device {
            Some(_) => 2,
            None => 1,
        }
    }

    /// The message of a setup that ended with `reply` to the call at `index`.
    fn error_message(&self, index: usize, reply: &CoreAudioReply) -> (message: String)
        ensures
            message@ == self.message(index as int, *reply),
    {
        let selects = 0 < index && index < self.first_buffer();
        match reply {
            CoreAudioReply::Routed(Err(message)) if selects => message.clone(),
            CoreAudioReply::Status(rc) if !selects => {
                let name = if index == 0 {
                    "AudioQueueNewInput"
                } else if index < self.first_buffer() + 8 {
                    "AudioQueueAllocateBuffer"
                } else {
                    "AudioQueueStart"
                };
                String::from_str(name).concat(": ").concat(signed_decimal_text(*rc as i64).as_str())
            },
            _ => String::from_str("unexpected reply"),
        }
    }

    /// Whether the numbers that the call at `index` takes fit their types.
    pub fn call_fits(&self, index: usize) -> (fits: bool)
        ensures
            fits == self.in_range(index as int),
    {
        let first: usize = self.first_buffer();
        if index == 0 {
            self.channels <= 0x7FFF_FFFF
        } else if index < first || index >= first + 8 {
            true
        } else {
            (index - first) % 2 == 1 || (FRAMES_PER_BUFFER as u64) * (self.channels as u64 * 2)
                <= u32::MAX as u64
        }
    }
}

impl Protocol for CoreAudioSetup {
    type Call = CoreAudioCall;

    type Reply = CoreAudioReply;

    /// The queue is made and, where a device is selected, routed to it; each
    /// buffer of the ring is allocated and queued, and the queue is started.
    open spec fn calls(&self) -> Seq<CoreAudioCall> {
        let first = self.first_buffer_call();
        Seq::new(
            (first + 9) as nat,
            |i: int|
                if i == 0 {
                    CoreAudioCall::NewInput {
                        description: pcm_description(self.channels, self.rate),
                    }
                } else if i < first {
                    CoreAudioCall::SelectDevice
                } else if i == first + 8 {
                    CoreAudioCall::Start
                } else if (i - first) % 2 == 0 {
                    CoreAudioCall::Allocate {
                        buffer: ((i - first) / 2) as usize,
                        bytes: self.buffer_bytes() as u32,
                    }
                } else {
                    CoreAudioCall::Enqueue { buffer: ((i - first) / 2) as usize }
                },
        )
    }

    /// A call fails with any status but zero; the status of queueing a buffer
    /// is not looked at. A reply that is none to the call fails too.
    open spec fn fails(&self, index: int, reply: CoreAudioReply) -> bool {
        let first = self.first_buffer_call();
        let enqueues = first <= index < first + 8 && (index - first) % 2 == 1;
        match reply {
            CoreAudioReply::Status(rc) => self.selects(index) || rc != 0 && !enqueues,
            CoreAudioReply::Routed(result) => !self.selects(index) || result is Err,
        }
    }

    /// Disposing of the queue disposes of its buffers too.
    open spec fn releases(&self, failed: int) -> Seq<CoreAudioCall> {
        if failed <= 0 {
            Seq::empty()
        } else {
            seq![CoreAudioCall::Dispose]
        }
    }

    open spec fn in_range(&self, index: int) -> bool {
        let first = self.first_buffer_call();
        &&& index == 0 ==> self.channels * 2 <= u32::MAX
        &&& first <= index < first + 8 && (index - first) % 2 == 0 ==> self.buffer_bytes()
            <= u32::MAX
    }

    fn call(&self, index: usize) -> (call: Option<CoreAudioCall>) {
        let first: usize = self.first_buffer();
        if index == 0 {
            let bytes_per_frame: u32 = self.channels * 2;
            Some(
                CoreAudioCall::NewInput {
                    description: StreamDescription {
                        sample_rate: self.rate,
                        format_id: K_LINEAR_PCM,
                        format_flags: K_PCM_FLAG_IS_SIGNED_INT | K_PCM_FLAG_IS_PACKED,
                        bytes_per_packet: bytes_per_frame,
                        frames_per_packet: 1,
                        bytes_per_frame,
                        channels_per_frame: self.channels,
                        bits_per_channel: 16,
                        reserved: 0,
                    },
                },
            )
        } else if index < first {
            Some(CoreAudioCall::SelectDevice)
        } else if index > first + 8 {
            None
        } else if index == first + 8 {
            Some(CoreAudioCall::Start)
        } else {
            let buffer: usize = (index - first) / 2;
            if (index - first) % 2 == 0 {
                Some(CoreAudioCall::Allocate { buffer, bytes: FRAMES_PER_BUFFER * (self.channels * 2) })
            } else {
                Some(CoreAudioCall::Enqueue { buffer })
            }
        }
    }

    fn failed(&self, index: usize, reply: &CoreAudioReply) -> (failed: bool) {
        let first: usize = self.first_buffer();
        let enqueues = first <= index && index < first + 8 && (index - first) % 2 == 1;
        let selects = 0 < index && index < first;
        match reply {
            CoreAudioReply::Status(rc) => selects || *rc != 0 && !enqueues,
            CoreAudioReply::Routed(result) => !selects || result.is_err(),
        }
    }

    fn release(&self, failed: usize, index: usize) -> (call: Option<CoreAudioCall>) {
        if failed > 0 && index == 0 {
            Some(CoreAudioCall::Dispose)
        } else {
            None
        }
    }
}

/// The calls that end a capture with `buffers` buffers.
pub open spec fn teardown(buffers: nat) -> Seq<CoreAudioCall> {
    seq![CoreAudioCall::Stop] + Seq::new(
        buffers,
        |i: int| CoreAudioCall::FreeBuffer { buffer: i as usize },
    ) + seq![CoreAudioCall::Dispose]
}

/// The call at `index` among those that end a capture with `buffers` buffers, if
/// there is one.
pub fn teardown_call(buffers: usize, index: usize) -> (call: Option<CoreAudioCall>)
    requires
        buffers <= RING_BUFFERS,
    ensures
        call == if index < teardown(buffers as nat).len() {
            Some(teardown(buffers as nat)[index as int])
        } else {
            None::<CoreAudioCall>
        },
{
    if index == 0 {
        Some(CoreAudioCall::Stop)
    } else if index - 1 < buffers {
        Some(CoreAudioCall::FreeBuffer { buffer: index - 1 })
    } else if index - 1 == buffers {
        Some(CoreAudioCall::Dispose)
    } else {
        None
    }
}

/// What the callback does with a buffer of `byte_size` bytes: it takes one sample
/// for each two bytes, none from a buffer without data, and hands the buffer
/// back in any case, so that the device keeps capturing.
pub fn input_cb(byte_size: u32, data_is_null: bool) -> (step: BufferStep)
    ensures
        match step.samples {
            Some(n) => {
                &&& buffer_samples(byte_size, data_is_null) == Some(n as nat)
                &&& byte_size >= 2 && !data_is_null
                &&& 2 * n <= byte_size < 2 * n + 2
            },
            None => {
                &&& buffer_samples(byte_size, data_is_null) is None
                &&& byte_size < 2 || data_is_null
            },
        },
        step.recycle,
{
    BufferStep { samples: samples_in_buffer(byte_size, data_is_null), recycle: true }
}

/// An open AudioQueue feeding captured S16 frames into a queue.
pub struct CoreAudioCapture {
    queue: SampleQueue,
    channels: u32,
}

impl CoreAudioCapture {
    /// Begins to open an input queue. On macOS `device_id` is the UID of the
    /// device to route it to; elsewhere there is no such routing and the
    /// selector is ignored.
    pub fn open(channels: u32, rate: u32, device_id: Option<&str>, macos: bool) -> (opening:
        Opening<CoreAudioSetup>)
        ensures
            opening.spec_protocol().channels == at_least_one(channels),
            opening.spec_protocol().rate == rate,
            match opening.spec_protocol().device {
                Some(uid) => macos && device_id is Some && uid@ == device_id->0@,
                None => !macos || device_id is None,
            },
            opening.progress() == crate::protocol::Progress::<CoreAudioReply>::start(),
    {
        let channels: u32 = capture_channels(channels);
        let device = match device_id {
            Some(uid) => if macos {
                Some(String::from_str(uid))
            } else {
                None
            },
            None => None,
        };
        Opening::new(CoreAudioSetup { channels, rate, device })
    }

    /// How the setup ended: the capture that the opened queue feeds, or why
    /// there is none. The callback may have run before; `captured` is what it
    /// captured.
    pub fn finish(opening: &Opening<CoreAudioSetup>, captured: SampleQueue) -> (outcome: Result<
        CoreAudioCapture,
        String,
    >)
        requires
            opening.progress().ended(opening.spec_protocol()),
        ensures
            match outcome {
                Ok(capture) => {
                    &&& !opening.progress().failed
                    &&& capture.pending() == captured@
                    &&& capture.accepting() == captured.accepting()
                    &&& capture.channel_count() == opening.spec_protocol().channels
                },
                Err(message) => {
                    &&& opening.progress().failed
                    &&& message@ == opening.spec_protocol().message(
                        opening.progress().replies.len() - 1,
                        opening.progress().last_reply(),
                    )
                },
            },
    {
        match opening.failure() {
            Some(index) => Err(
                opening.protocol().error_message(index, &opening.replies()[index]),
            ),
            None => Ok(
                CoreAudioCapture { queue: captured, channels: opening.protocol().channels },
            ),
        }
    }

    /// The queue filled a buffer with these samples.
    pub fn captured(&mut self, samples: &[i16])
        ensures
            final(self).pending() == old(self).pending() + taken_in(
                old(self).accepting(),
                samples@,
            ),
            old(self).accepting() ==> final(self).pending() == old(self).pending() + samples@,
            !old(self).accepting() ==> final(self).pending() == old(self).pending(),
            final(self).accepting() == old(self).accepting(),
            final(self).channel_count() == old(self).channel_count(),
    {
        self.queue.append(samples);
    }
}

impl PcmSource for CoreAudioCapture {
    closed spec fn pending(&self) -> Seq<i16> {
        self.queue@
    }

    closed spec fn accepting(&self) -> bool {
        self.queue.accepting()
    }

    closed spec fn channel_count(&self) -> u32 {
        self.channels
    }

    fn read(&mut self, max: usize) -> (samples: Vec<i16>) {
        self.queue.read(max)
    }

    fn stop(&mut self) {
        self.queue.close();
    }

    fn channels(&self) -> (channels: u32) {
        self.channels
    }
}

// ---------------------------------------------------------------------------
// Laws
// ---------------------------------------------------------------------------

/// How many queues the first `n` of `calls` leave alive, where none of them
/// failed.
pub open spec fn queues_alive(calls: Seq<CoreAudioCall>, n: nat) -> int {
    held(calls, n, queue_change())
}

/// By how much a call changes that.
pub open spec fn queue_change() -> spec_fn(CoreAudioCall) -> int {
    |call: CoreAudioCall|
        match call {
            CoreAudioCall::NewInput { .. } => 1int,
            CoreAudioCall::Dispose => -1int,
            _ => 0int,
        }
}

/// How often the buffer `b` is allocated more than it is freed among the first
/// `n` of `calls`, where none of them failed.
pub open spec fn allocations(calls: Seq<CoreAudioCall>, n: nat, b: usize) -> int {
    held(calls, n, buffer_change(b))
}

/// By how much a call changes that.
pub open spec fn buffer_change(b: usize) -> spec_fn(CoreAudioCall) -> int {
    |call: CoreAudioCall|
        match call {
            CoreAudioCall::Allocate { buffer, .. } => if buffer == b {
                1int
            } else {
                0int
            },
            CoreAudioCall::FreeBuffer { buffer } => if buffer == b {
                -1int
            } else {
                0int
            },
            _ => 0int,
        }
}

proof fn lemma_setup_holds(setup: CoreAudioSetup, n: nat, buffer: usize)
    requires
        n <= setup.calls().len(),
    ensures
        queues_alive(setup.calls(), n) == if n >= 1 {
            1int
        } else {
            0int
        },
        allocations(setup.calls(), n, buffer) == if buffer < RING_BUFFERS && n
            > setup.first_buffer_call() + 2 * buffer {
            1int
        } else {
            0int
        },
    decreases n,
{
    if n > 0 {
        lemma_setup_holds(setup, (n - 1) as nat, buffer);
    }
}

/// Whichever call fails, the queue that the setup made is disposed of, once, and
/// where making it failed there is none to dispose of.
pub proof fn law_failed_setup_disposes_queue(setup: CoreAudioSetup, failed: int)
    requires
        0 <= failed < setup.calls().len(),
    ensures
        ({
            let made = setup.calls().take(failed) + setup.releases(failed);
            queues_alive(made, made.len()) == 0
        }),
{
    let made = setup.calls().take(failed) + setup.releases(failed);
    lemma_held_prefix(made, setup.calls(), failed as nat, queue_change());
    lemma_held_prefix(made, setup.calls(), failed as nat, buffer_change(0));
    lemma_setup_holds(setup, failed as nat, 0);
    if failed > 0 {
        assert(made[failed] is Dispose);
        assert(made.len() == failed + 1);
    }
}

proof fn lemma_teardown(before: Seq<CoreAudioCall>, k: nat, buffer: usize)
    requires
        k <= RING_BUFFERS + 2,
    ensures
        ({
            let made = before + teardown(RING_BUFFERS as nat);
            &&& queues_alive(made, before.len() + k) == queues_alive(before, before.len()) - if k
                == RING_BUFFERS + 2 {
                1int
            } else {
                0int
            }
            &&& allocations(made, before.len() + k, buffer) == allocations(
                before,
                before.len(),
                buffer,
            ) - if buffer < RING_BUFFERS && k >= buffer + 2 {
                1int
            } else {
                0int
            }
        }),
    decreases k,
{
    let made = before + teardown(RING_BUFFERS as nat);
    if k == 0 {
        lemma_held_prefix(made, before, before.len(), queue_change());
        lemma_held_prefix(made, before, before.len(), buffer_change(buffer));
    } else {
        lemma_teardown(before, (k - 1) as nat, buffer);
        let last = made[before.len() + k - 1];
        assert(last == teardown(RING_BUFFERS as nat)[k - 1]);
        if k == 1 {
            assert(last is Stop);
        } else if k <= RING_BUFFERS + 1 {
            assert(last == CoreAudioCall::FreeBuffer { buffer: (k - 2) as usize });
        } else {
            assert(last is Dispose);
        }
    }
}

/// A setup that succeeds leaves one queue and every buffer of the ring
/// allocated; ending the capture frees each buffer, once, and disposes of the
/// queue, once.
pub proof fn law_teardown_releases_all(setup: CoreAudioSetup, buffer: usize)
    ensures
        ({
            let opened = setup.calls();
            let made = opened + teardown(RING_BUFFERS as nat);
            &&& queues_alive(opened, opened.len()) == 1
            &&& allocations(opened, opened.len(), buffer) == if buffer < RING_BUFFERS {
                1int
            } else {
                0int
            }
            &&& queues_alive(made, made.len()) == 0
            &&& allocations(made, made.len(), buffer) == 0
        }),
{
    lemma_setup_holds(setup, setup.calls().len(), buffer);
    lemma_teardown(setup.calls(), (RING_BUFFERS + 2) as nat, buffer);
}

/// The stream description holds together: one packet is one frame of 16 bits
/// for each channel.
pub proof fn law_description_is_consistent(channels: u32, rate: u32)
    requires
        channels * 2 <= u32::MAX,
    ensures
        ({
            let d = pcm_description(channels, rate);
            &&& d.bytes_per_frame * 8 == d.channels_per_frame * d.bits_per_channel
            &&& d.bytes_per_packet == d.frames_per_packet * d.bytes_per_frame
            &&& d.format_flags == 0xC
        }),
{
    assert(0x4u32 | 0x8u32 == 0xCu32) by (bit_vector);
}

/// Every setup makes its queue for packed 16-bit signed PCM of exactly the rate and
/// the channel count that were requested, whatever they are.
pub proof fn law_setup_asks_for_what_was_requested(setup: CoreAudioSetup)
    requires
        setup.channels * 2 <= u32::MAX,
    ensures
        setup.calls().len() > 0,
        setup.calls()[0] is NewInput,
        ({
            let d = setup.calls()[0]->description;
            &&& d.sample_rate == setup.rate
            &&& d.channels_per_frame == setup.channels
            &&& d.format_id == 0x6C70_636D
            &&& d.format_flags == 0xC
            &&& d.bits_per_channel == 16
            &&& d.bytes_per_frame == setup.channels * 2
            &&& d.frames_per_packet == 1
            &&& d.bytes_per_packet == setup.channels * 2
            &&& d.reserved == 0
        }),
{
    assert(0x4u32 | 0x8u32 == 0xCu32) by (bit_vector);
}

/// Behind the queue, a selected device is routed to, and only then; each of four
/// buffers of 2048 frames of the requested channels is allocated and then queued,
/// in order, and last the queue is started.
pub proof fn law_setup_fills_the_ring(setup: CoreAudioSetup, buffer: int)
    requires
        2048 * (setup.channels * 2) <= u32::MAX,
        0 <= buffer < 4,
    ensures
        ({
            let calls = setup.calls();
            let first: int = if setup.device is Some {
                2
            } else {
                1
            };
            &&& calls.len() == first + 9
            &&& setup.device is Some ==> calls[1] is SelectDevice
            &&& calls[first + 2 * buffer] is Allocate
            &&& calls[first + 2 * buffer]->Allocate_buffer == buffer
            &&& calls[first + 2 * buffer]->bytes == 2048 * (setup.channels * 2)
            &&& calls[first + 2 * buffer + 1] is Enqueue
            &&& calls[first + 2 * buffer + 1]->Enqueue_buffer == buffer
            &&& calls[first + 8] is Start
        }),
{
}

/// Any status but zero ends the setup, but for queueing a buffer, and so does a
/// routing that failed; no other reply to the call does.
pub proof fn law_replies_decide(setup: CoreAudioSetup, index: int, rc: i32, routed: Result<(), String>)
    requires
        0 <= index < setup.calls().len(),
    ensures
        setup.calls()[index] is SelectDevice ==> (setup.fails(index, CoreAudioReply::Routed(routed))
            <==> routed is Err),
        setup.calls()[index] is Enqueue ==> !setup.fails(index, CoreAudioReply::Status(rc)),
        !(setup.calls()[index] is SelectDevice) && !(setup.calls()[index] is Enqueue) ==> (
        setup.fails(index, CoreAudioReply::Status(rc)) <==> rc != 0),
{
}

/// A failed setup disposes of its queue and makes no other call.
pub proof fn law_failed_setup_only_disposes(setup: CoreAudioSetup, failed: int)
    requires
        0 <= failed < setup.calls().len(),
    ensures
        setup.calls()[failed] is NewInput ==> setup.releases(failed).len() == 0,
        !(setup.calls()[failed] is NewInput) ==> setup.releases(failed).len() == 1
            && setup.releases(failed)[0] is Dispose,
{
}

/// Whatever the status, the message of a call that failed with one is the name of
/// its function, a colon and the status; a routing that failed tells why itself.
pub proof fn law_message_names_the_call(setup: CoreAudioSetup, index: int, rc: i32, error: String)
    requires
        0 <= index < setup.calls().len(),
    ensures
        ({
            let message = setup.message(index, CoreAudioReply::Status(rc));
            let status = signed_decimal(rc as int);
            &&& setup.calls()[index] is NewInput ==> message == "AudioQueueNewInput"@ + ": "@
                + status
            &&& setup.calls()[index] is Allocate ==> message == "AudioQueueAllocateBuffer"@
                + ": "@ + status
            &&& setup.calls()[index] is Start ==> message == "AudioQueueStart"@ + ": "@ + status
            &&& setup.calls()[index] is SelectDevice ==> setup.message(
                index,
                CoreAudioReply::Routed(Err(error)),
            ) == error@
        }),
{
}

/// A capture is ended by stopping the queue, freeing each of its buffers in order
/// and disposing of the queue, and by nothing else.
pub proof fn law_teardown_order(buffers: nat, i: int)
    requires
        buffers <= usize::MAX,
        0 <= i < teardown(buffers).len(),
    ensures
        teardown(buffers).len() == buffers + 2,
        i == 0 <==> teardown(buffers)[i] is Stop,
        i == buffers + 1 <==> teardown(buffers)[i] is Dispose,
        0 < i <= buffers ==> teardown(buffers)[i] is FreeBuffer
            && teardown(buffers)[i]->FreeBuffer_buffer == i - 1,
{
}

/// The numbers of a setup fit unless the bytes of a frame, or of a buffer of 2048
/// frames, are more than 32 bits hold.
pub proof fn law_what_fits(setup: CoreAudioSetup, index: int)
    requires
        0 <= index < setup.calls().len(),
    ensures
        setup.calls()[index] is NewInput ==> (setup.in_range(index) <==> setup.channels * 2
            <= u32::MAX),
        setup.calls()[index] is Allocate ==> (setup.in_range(index) <==> 2048 * (setup.channels * 2)
            <= u32::MAX),
        !(setup.calls()[index] is NewInput) && !(setup.calls()[index] is Allocate)
            ==> setup.in_range(index),
{
}

} // verus!
