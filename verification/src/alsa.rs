//! ALSA capture, the standard audio input on Linux.
//!
//! ALSA input is pull-based, but captured samples are polled for at the
//! reader's own cadence: a reading thread (see [`crate::reader`]) moves frames
//! into a queue that [`PcmSource::read`] drains.

use vstd::prelude::*;
use vstd::utf8::{decode_utf8, valid_utf8};

use crate::pcm::{taken_in, PcmSource, SampleQueue};
use crate::protocol::{held, lemma_held_prefix, Opening, Protocol};
use crate::reader::{frame_samples, queue_frames};
use crate::text::{c_buffer_text, signed_decimal, signed_decimal_text, until, utf8_lossy};

verus! {

broadcast use vstd::string::group_string_axioms;

/// `SND_PCM_STREAM_CAPTURE`.
pub const SND_PCM_STREAM_CAPTURE: u32 = 1;

/// `SND_PCM_FORMAT_S16_LE`.
pub const SND_PCM_FORMAT_S16_LE: i32 = 2;

/// `SND_PCM_ACCESS_RW_INTERLEAVED`.
pub const SND_PCM_ACCESS_RW_INTERLEAVED: u32 = 3;

/// A device that a stream is opened on.
#[derive(Clone, Copy, Debug, PartialEq, Eq)]
pub enum PcmDevice {
    /// The default input device.
    Default,
}

impl PcmDevice {
    /// The name that the device is opened by.
    pub fn name(self) -> (name: &'static str)
        ensures
            name@ == match self {
                PcmDevice::Default => "default"@,
            },
    {
        match self {
            PcmDevice::Default => "default",
        }
    }
}

/// A call into `libasound` on the stream that is being opened and on its
/// hardware parameters.
#[derive(Clone, Copy, Debug, PartialEq, Eq)]
pub enum AlsaCall {
    PcmOpen { device: PcmDevice, stream: u32, mode: i32 },
    HwParamsMalloc,
    HwParamsAny,
    HwParamsSetAccess { access: u32 },
    HwParamsSetFormat { format: i32 },
    HwParamsSetChannels { channels: u32 },
    HwParamsSetRate { rate: u32, dir: i32 },
    HwParams,
    HwParamsFree,
    PcmPrepare,
    PcmStart,
    PcmClose,
}

/// What such a call returned, and whether the parameters that it was to
/// allocate are null.
#[derive(Clone, Copy, Debug, PartialEq, Eq)]
pub struct AlsaReply {
    pub rc: i32,
    pub params_null: bool,
}

/// The setup of an ALSA input stream.
#[derive(Clone, Copy, Debug, PartialEq, Eq)]
pub struct AlsaSetup {
    pub channels: u32,
    pub rate: u32,
}

impl AlsaSetup {
    /// The name of the function that the call at `index` calls.
    pub open spec fn call_name(index: int) -> Seq<char> {
        if index == 0 {
            "snd_pcm_open"@
        } else if index == 1 {
            "snd_pcm_hw_params_malloc"@
        } else if index == 2 {
            "snd_pcm_hw_params_any"@
        } else if index == 3 {
            "snd_pcm_hw_params_set_access"@
        } else if index == 4 {
            "snd_pcm_hw_params_set_format"@
        } else if index == 5 {
            "snd_pcm_hw_params_set_channels"@
        } else if index == 6 {
            "snd_pcm_hw_params_set_rate"@
        } else if index == 7 {
            "snd_pcm_hw_params"@
        } else if index == 8 {
            "snd_pcm_hw_params_free"@
        } else if index == 9 {
            "snd_pcm_prepare"@
        } else {
            "snd_pcm_start"@
        }
    }

    fn name(index: usize) -> (name: &'static str)
        ensures
            name@ == Self::call_name(index as int),
    {
        match index {
            0 => "snd_pcm_open",
            1 => "snd_pcm_hw_params_malloc",
            2 => "snd_pcm_hw_params_any",
            3 => "snd_pcm_hw_params_set_access",
            4 => "snd_pcm_hw_params_set_format",
            5 => "snd_pcm_hw_params_set_channels",
            6 => "snd_pcm_hw_params_set_rate",
            7 => "snd_pcm_hw_params",
            8 => "snd_pcm_hw_params_free",
            9 => "snd_pcm_prepare",
            _ => "snd_pcm_start",
        }
    }

    /// The message of a setup that ended with `reply` to the call at `index`,
    /// where `text` describes the error code.
    pub open spec fn message(index: int, reply: AlsaReply, text: Seq<char>) -> Seq<char> {
        if reply.rc < 0 {
            Self::call_name(index) + ": "@ + text
        } else {
            "snd_pcm_hw_params_malloc returned null"@
        }
    }

    /// The message of a setup that ended with `reply` to the call at `index`,
    /// where `text` describes the error code.
    fn error_message(index: usize, reply: &AlsaReply, text: &str) -> (message: String)
        ensures
            message@ == Self::message(index as int, *reply, text@),
    {
        if reply.rc < 0 {
            String::from_str(Self::name(index)).concat(": ").concat(text)
        } else {
            String::from_str("snd_pcm_hw_params_malloc returned null")
        }
    }
}

impl Protocol for AlsaSetup {
    type Call = AlsaCall;

    type Reply = AlsaReply;

    open spec fn calls(&self) -> Seq<AlsaCall> {
        seq![
            AlsaCall::PcmOpen {
                device: PcmDevice::Default,
                stream: SND_PCM_STREAM_CAPTURE,
                mode: 0,
            },
            AlsaCall::HwParamsMalloc,
            AlsaCall::HwParamsAny,
            AlsaCall::HwParamsSetAccess { access: SND_PCM_ACCESS_RW_INTERLEAVED },
            AlsaCall::HwParamsSetFormat { format: SND_PCM_FORMAT_S16_LE },
            AlsaCall::HwParamsSetChannels { channels: self.channels },
            AlsaCall::HwParamsSetRate { rate: self.rate, dir: 0 },
            AlsaCall::HwParams,
            AlsaCall::HwParamsFree,
            AlsaCall::PcmPrepare,
            AlsaCall::PcmStart,
        ]
    }

    /// A call fails with a negative code, and the allocation also where it
    /// yields nothing; freeing the parameters cannot fail.
    open spec fn fails(&self, index: int, reply: AlsaReply) -> bool {
        index != 8 && (reply.rc < 0 || index == 1 && reply.params_null)
    }

    open spec fn releases(&self, failed: int) -> Seq<AlsaCall> {
        if failed <= 0 {
            Seq::empty()
        } else if 2 <= failed <= 7 {
            seq![AlsaCall::HwParamsFree, AlsaCall::PcmClose]
        } else {
            seq![AlsaCall::PcmClose]
        }
    }

    open spec fn in_range(&self, index: int) -> bool {
        true
    }

    fn call(&self, index: usize) -> (call: Option<AlsaCall>) {
        match index {
            0 => Some(
                AlsaCall::PcmOpen {
                    device: PcmDevice::Default,
                    stream: SND_PCM_STREAM_CAPTURE,
                    mode: 0,
                },
            ),
            1 => Some(AlsaCall::HwParamsMalloc),
            2 => Some(AlsaCall::HwParamsAny),
            3 => Some(AlsaCall::HwParamsSetAccess { access: SND_PCM_ACCESS_RW_INTERLEAVED }),
            4 => Some(AlsaCall::HwParamsSetFormat { format: SND_PCM_FORMAT_S16_LE }),
            5 => Some(AlsaCall::HwParamsSetChannels { channels: self.channels }),
            6 => Some(AlsaCall::HwParamsSetRate { rate: self.rate, dir: 0 }),
            7 => Some(AlsaCall::HwParams),
            8 => Some(AlsaCall::HwParamsFree),
            9 => Some(AlsaCall::PcmPrepare),
            10 => Some(AlsaCall::PcmStart),
            _ => None,
        }
    }

    fn failed(&self, index: usize, reply: &AlsaReply) -> (failed: bool) {
        index != 8 && (reply.rc < 0 || index == 1 && reply.params_null)
    }

    fn release(&self, failed: usize, index: usize) -> (call: Option<AlsaCall>) {
        if failed == 0 {
            None
        } else if 2 <= failed && failed <= 7 {
            match index {
                0 => Some(AlsaCall::HwParamsFree),
                1 => Some(AlsaCall::PcmClose),
                _ => None,
            }
        } else {
            match index {
                0 => Some(AlsaCall::PcmClose),
                _ => None,
            }
        }
    }
}

/// The description of an error code: the text that `snd_strerror` returned for
/// it, or the number where it returned none.
pub open spec fn error_text(err: i32, text: Option<Seq<u8>>) -> Seq<char> {
    match text {
        Some(bytes) => utf8_lossy(until(bytes, 0u8)),
        None => "ALSA error "@ + signed_decimal(err as int),
    }
}

/// The description of an error code: the text that `snd_strerror` returned for
/// it, or the number where it returned none.
pub fn str_error(err: i32, text: Option<&[u8]>) -> (message: String)
    ensures
        message@ == error_text(
            err,
            match text {
                Some(bytes) => Some(bytes@),
                None => None,
            },
        ),
        match text {
            Some(bytes) => valid_utf8(until(bytes@, 0u8)) ==> message@ == decode_utf8(
                until(bytes@, 0u8),
            ),
            None => true,
        },
{
    match text {
        Some(bytes) => c_buffer_text(bytes),
        None => String::from_str("ALSA error ").concat(signed_decimal_text(err as i64).as_str()),
    }
}

/// An open ALSA input stream feeding captured S16 frames into a queue.
pub struct AlsaCapture {
    queue: SampleQueue,
    channels: u32,
}

impl AlsaCapture {
    /// Begins to open the default input device.
    pub fn open(channels: u32, rate: u32) -> (opening: Opening<AlsaSetup>)
        ensures
            opening.spec_protocol() == (AlsaSetup { channels, rate }),
            opening.progress() == crate::protocol::Progress::<AlsaReply>::start(),
    {
        Opening::new(AlsaSetup { channels, rate })
    }

    /// The error code that [`AlsaCapture::finish`] needs a description of, if it
    /// needs one.
    pub fn error_code(opening: &Opening<AlsaSetup>) -> (code: Option<i32>)
        ensures
            code == if opening.progress().failed && opening.progress().last_reply().rc < 0 {
                Some(opening.progress().last_reply().rc)
            } else {
                None::<i32>
            },
    {
        match opening.failure() {
            Some(index) => {
                let rc: i32 = opening.replies()[index].rc;
                if rc < 0 {
                    Some(rc)
                } else {
                    None
                }
            },
            None => None,
        }
    }

    /// How the setup ended: the capture that the opened stream feeds, or why
    /// there is none, where `text` is what `snd_strerror` returned for the error
    /// code.
    pub fn finish(opening: &Opening<AlsaSetup>, text: Option<&[u8]>) -> (outcome: Result<
        AlsaCapture,
        String,
    >)
        requires
            opening.progress().ended(opening.spec_protocol()),
        ensures
            match outcome {
                Ok(capture) => {
                    &&& !opening.progress().failed
                    &&& capture.pending() == Seq::<i16>::empty()
                    &&& capture.accepting()
                    &&& capture.channel_count() == opening.spec_protocol().channels
                },
                Err(message) => {
                    let reply = opening.progress().last_reply();
                    &&& opening.progress().failed
                    &&& message@ == AlsaSetup::message(
                        opening.progress().replies.len() - 1,
                        reply,
                        error_text(
                            reply.rc,
                            match text {
                                Some(bytes) => Some(bytes@),
                                None => None,
                            },
                        ),
                    )
                    &&& match text {
                        Some(bytes) => valid_utf8(until(bytes@, 0u8)) ==> message@
                            == AlsaSetup::message(
                            opening.progress().replies.len() - 1,
                            reply,
                            decode_utf8(until(bytes@, 0u8)),
                        ),
                        None => true,
                    }
                },
            },
    {
        match opening.failure() {
            Some(index) => {
                let reply = opening.replies()[index];
                let text = str_error(reply.rc, text);
                Err(AlsaSetup::error_message(index, &reply, text.as_str()))
            },
            None => Ok(
                AlsaCapture { queue: SampleQueue::new(), channels: opening.protocol().channels },
            ),
        }
    }

    /// A read of the stream returned `n` and left its frames in `buffer`.
    pub fn frames_read(&mut self, buffer: &[i16], n: i64)
        requires
            n > 0 ==> n * old(self).channel_count() <= buffer@.len(),
        ensures
            final(self).pending() == old(self).pending() + taken_in(
                old(self).accepting(),
                frame_samples(buffer@, n as int, old(self).channel_count()),
            ),
            old(self).accepting() && n > 0 ==> final(self).pending() == old(self).pending()
                + buffer@.take(n * old(self).channel_count()),
            !old(self).accepting() || n <= 0 ==> final(self).pending() == old(self).pending(),
            final(self).accepting() == old(self).accepting(),
            final(self).channel_count() == old(self).channel_count(),
    {
        queue_frames(&mut self.queue, buffer, n, self.channels);
    }
}

impl PcmSource for AlsaCapture {
    closed spec fn pending(&self) -> Seq<i16> {
        self.queue@
    }

    closed spec fn accepting(&self) -> bool {
        self.queue.accepting()
    }

    closed spec fn channel_count(&self) -> u32 {
        self.channels
    }

    fn read(&mut self, max: usize) -> (samples: Vec<i16>) {
        self.queue.read(max)
    }

    fn stop(&mut self) {
        self.queue.close();
    }

    fn channels(&self) -> (channels: u32) {
        self.channels
    }
}

// ---------------------------------------------------------------------------
// Laws
// ---------------------------------------------------------------------------

/// How many streams the first `n` of `calls` leave open, where none of them
/// failed.
pub open spec fn streams_open(calls: Seq<AlsaCall>, n: nat) -> int {
    held(calls, n, stream_change())
}

/// By how much a call changes that.
pub open spec fn stream_change() -> spec_fn(AlsaCall) -> int {
    |call: AlsaCall|
        match call {
            AlsaCall::PcmOpen { .. } => 1int,
            AlsaCall::PcmClose => -1int,
            _ => 0int,
        }
}

/// How many sets of hardware parameters the first `n` of `calls` leave
/// allocated, where none of them failed.
pub open spec fn params_held(calls: Seq<AlsaCall>, n: nat) -> int {
    held(calls, n, params_change())
}

/// By how much a call changes that.
pub open spec fn params_change() -> spec_fn(AlsaCall) -> int {
    |call: AlsaCall|
        match call {
            AlsaCall::HwParamsMalloc => 1int,
            AlsaCall::HwParamsFree => -1int,
            _ => 0int,
        }
}

/// Whether a call takes the hardware parameters.
pub open spec fn uses_params(call: AlsaCall) -> bool {
    match call {
        AlsaCall::HwParamsAny => true,
        AlsaCall::HwParamsSetAccess { .. } => true,
        AlsaCall::HwParamsSetFormat { .. } => true,
        AlsaCall::HwParamsSetChannels { .. } => true,
        AlsaCall::HwParamsSetRate { .. } => true,
        AlsaCall::HwParams => true,
        AlsaCall::HwParamsFree => true,
        _ => false,
    }
}

/// Whether a call takes the open stream.
pub open spec fn uses_stream(call: AlsaCall) -> bool {
    match call {
        AlsaCall::PcmOpen { .. } => false,
        AlsaCall::HwParamsMalloc => false,
        AlsaCall::HwParamsFree => false,
        _ => true,
    }
}

proof fn lemma_setup_holds(setup: AlsaSetup, n: nat)
    requires
        n <= 11,
    ensures
        streams_open(setup.calls(), n) == if n >= 1 {
            1int
        } else {
            0int
        },
        params_held(setup.calls(), n) == if 2 <= n <= 8 {
            1int
        } else {
            0int
        },
    decreases n,
{
    if n > 0 {
        lemma_setup_holds(setup, (n - 1) as nat);
    }
}

/// The setup uses the stream only while it is open and the hardware parameters
/// only while they are allocated; a setup that succeeds leaves one stream open
/// and no parameters allocated.
pub proof fn law_setup_uses_what_it_holds(setup: AlsaSetup)
    ensures
        forall|i: int|
            0 <= i < setup.calls().len() ==> {
                &&& uses_stream(#[trigger] setup.calls()[i]) ==> streams_open(setup.calls(), i as nat) == 1
                &&& uses_params(setup.calls()[i]) ==> params_held(setup.calls(), i as nat) == 1
            },
        streams_open(setup.calls(), setup.calls().len()) == 1,
        params_held(setup.calls(), setup.calls().len()) == 0,
{
    assert forall|i: int| 0 <= i < setup.calls().len() implies {
        &&& uses_stream(#[trigger] setup.calls()[i]) ==> streams_open(setup.calls(), i as nat) == 1
        &&& uses_params(setup.calls()[i]) ==> params_held(setup.calls(), i as nat) == 1
    } by {
        lemma_setup_holds(setup, i as nat);
    }
    lemma_setup_holds(setup, 11);
}

/// Whichever call fails, what the calls before it acquired is given back: no
/// stream stays open and no parameters stay allocated.
pub proof fn law_failed_setup_holds_nothing(setup: AlsaSetup, failed: int)
    requires
        0 <= failed < setup.calls().len(),
        exists|reply: AlsaReply| setup.fails(failed, reply),
    ensures
        ({
            let made = setup.calls().take(failed) + setup.releases(failed);
            &&& streams_open(made, made.len()) == 0
            &&& params_held(made, made.len()) == 0
        }),
{
    let made = setup.calls().take(failed) + setup.releases(failed);
    lemma_held_prefix(made, setup.calls(), failed as nat, stream_change());
    lemma_held_prefix(made, setup.calls(), failed as nat, params_change());
    lemma_setup_holds(setup, failed as nat);
    reveal_with_fuel(held, 4);
    if 2 <= failed <= 7 {
        assert(made[failed] == AlsaCall::HwParamsFree);
        assert(made[failed + 1] == AlsaCall::PcmClose);
    } else if failed > 0 {
        assert(made[failed] == AlsaCall::PcmClose);
    }
}

/// Every setup asks for interleaved 16-bit capture from the default device, at
/// exactly the channel count and the rate that were requested, whatever they are.
pub proof fn law_setup_asks_for_what_was_requested(setup: AlsaSetup)
    ensures
        setup.calls().len() == 11,
        setup.calls()[0] == (AlsaCall::PcmOpen { device: PcmDevice::Default, stream: 1, mode: 0 }),
        setup.calls()[1] is HwParamsMalloc,
        setup.calls()[2] is HwParamsAny,
        setup.calls()[3] == (AlsaCall::HwParamsSetAccess { access: 3 }),
        setup.calls()[4] == (AlsaCall::HwParamsSetFormat { format: 2 }),
        setup.calls()[5] == (AlsaCall::HwParamsSetChannels { channels: setup.channels }),
        setup.calls()[6] == (AlsaCall::HwParamsSetRate { rate: setup.rate, dir: 0 }),
        setup.calls()[7] is HwParams,
        setup.calls()[8] is HwParamsFree,
        setup.calls()[9] is PcmPrepare,
        setup.calls()[10] is PcmStart,
{
}

/// Any negative code ends the setup, at every call but the one that frees the
/// parameters, and so does an allocation that yields nothing; no other reply does.
pub proof fn law_replies_decide(setup: AlsaSetup, index: int, reply: AlsaReply)
    requires
        0 <= index < setup.calls().len(),
    ensures
        setup.calls()[index] is HwParamsFree ==> !setup.fails(index, reply),
        reply.rc < 0 && !(setup.calls()[index] is HwParamsFree) ==> setup.fails(index, reply),
        reply.params_null && setup.calls()[index] is HwParamsMalloc ==> setup.fails(index, reply),
        reply.rc >= 0 && !reply.params_null ==> !setup.fails(index, reply),
        reply.rc >= 0 && !(setup.calls()[index] is HwParamsMalloc) ==> !setup.fails(index, reply),
{
}

/// What a failed setup gives back is what it holds, the parameters before the
/// stream, and it makes no other call.
pub proof fn law_failed_setup_only_gives_back(setup: AlsaSetup, failed: int, i: int)
    requires
        0 <= failed < setup.calls().len(),
        exists|reply: AlsaReply| setup.fails(failed, reply),
    ensures
        setup.releases(failed).len() == streams_open(setup.calls(), failed as nat) + params_held(
            setup.calls(),
            failed as nat,
        ),
        0 <= i < setup.releases(failed).len() ==> (setup.releases(failed)[i] is PcmClose <==> i
            == setup.releases(failed).len() - 1),
        0 <= i < setup.releases(failed).len() ==> setup.releases(failed)[i] is PcmClose
            || setup.releases(failed)[i] is HwParamsFree,
{
    lemma_setup_holds(setup, failed as nat);
}

/// Whatever the code, the message of a call that failed with one is the name of
/// its function, a colon and the description; an allocation that yields nothing
/// is told of as such.
pub proof fn law_message_names_the_call(setup: AlsaSetup, index: int, reply: AlsaReply, text: Seq<char>)
    requires
        0 <= index < setup.calls().len(),
    ensures
        reply.rc < 0 ==> AlsaSetup::message(index, reply, text) == (match setup.calls()[index] {
            AlsaCall::PcmOpen { .. } => "snd_pcm_open"@,
            AlsaCall::HwParamsMalloc => "snd_pcm_hw_params_malloc"@,
            AlsaCall::HwParamsAny => "snd_pcm_hw_params_any"@,
            AlsaCall::HwParamsSetAccess { .. } => "snd_pcm_hw_params_set_access"@,
            AlsaCall::HwParamsSetFormat { .. } => "snd_pcm_hw_params_set_format"@,
            AlsaCall::HwParamsSetChannels { .. } => "snd_pcm_hw_params_set_channels"@,
            AlsaCall::HwParamsSetRate { .. } => "snd_pcm_hw_params_set_rate"@,
            AlsaCall::HwParams => "snd_pcm_hw_params"@,
            AlsaCall::HwParamsFree => "snd_pcm_hw_params_free"@,
            AlsaCall::PcmPrepare => "snd_pcm_prepare"@,
            AlsaCall::PcmStart => "snd_pcm_start"@,
            AlsaCall::PcmClose => "snd_pcm_close"@,
        }) + ": "@ + text,
        reply.rc >= 0 ==> AlsaSetup::message(index, reply, text)
            == "snd_pcm_hw_params_malloc returned null"@,
{
}

/// An error is described by the text that there is for it, else by its number.
pub proof fn law_error_is_described(err: i32, bytes: Seq<u8>)
    ensures
        error_text(err, Some(bytes)) == utf8_lossy(until(bytes, 0u8)),
        error_text(err, None) == "ALSA error "@ + signed_decimal(err as int),
{
}

} // verus!
