//! AAudio capture, which ships with Android (API 26+).
//!
//! AAudio input is pull-based, but captured samples are polled for at the
//! reader's own cadence: a reading thread (see [`crate::reader`]) moves frames
//! into a queue that [`PcmSource::read`] drains.

use vstd::prelude::*;
use vstd::utf8::{decode_utf8, valid_utf8};

use crate::pcm::{at_least_one, capture_channels, taken_in, PcmSource, SampleQueue};
use crate::protocol::{held, lemma_held_prefix, Opening, Protocol};
use crate::reader::{frame_samples, queue_frames};
use crate::text::{c_buffer_text, signed_decimal, signed_decimal_text, until, utf8_lossy};

verus! {

broadcast use vstd::string::group_string_axioms;

/// `AAUDIO_DIRECTION_INPUT`.
pub const AAUDIO_DIRECTION_INPUT: i32 = 1;

/// `AAUDIO_FORMAT_PCM_I16`.
pub const AAUDIO_FORMAT_PCM_I16: i32 = 1;

/// `AAUDIO_OK`.
pub const AAUDIO_OK: i32 = 0;

/// How long one read of the stream waits for frames, in nanoseconds.
pub const READ_TIMEOUT_NANOS: i64 = 100_000_000;

/// A call into `libaaudio` on the stream that is being opened and on its
/// builder.
#[derive(Clone, Copy, Debug, PartialEq, Eq)]
pub enum AaudioCall {
    CreateBuilder,
    SetDirection { direction: i32 },
    SetSampleRate { rate: i32 },
    SetChannelCount { channels: i32 },
    SetFormat { format: i32 },
    OpenStream,
    DeleteBuilder,
    GetChannelCount,
    RequestStart,
    CloseStream,
}

/// The setup of an AAudio input stream. A call answers its return value; one
/// without a return value answers anything.
#[derive(Clone, Copy, Debug, PartialEq, Eq)]
pub struct AaudioSetup {
    pub channels: u32,
    pub rate: u32,
}

impl AaudioSetup {
    /// What the message of a setup that the call at `index` ended calls it.
    pub open spec fn call_name(index: int) -> Seq<char> {
        if index == 0 {
            "createStreamBuilder"@
        } else if index == 5 {
            "openStream"@
        } else {
            "requestStart"@
        }
    }

    /// The message of a setup that the call at `index` ended, where `text`
    /// describes the code that it returned.
    pub open spec fn message(index: int, text: Seq<char>) -> Seq<char> {
        Self::call_name(index) + ": "@ + text
    }

    /// The message of a setup that the call at `index` ended, where `text`
    /// describes the code that it returned.
    fn error_message(index: usize, text: &str) -> (message: String)
        ensures
            message@ == Self::message(index as int, text@),
    {
        let name = match index {
            0 => "createStreamBuilder",
            5 => "openStream",
            _ => "requestStart",
        };
        String::from_str(name).concat(": ").concat(text)
    }
}

impl Protocol for AaudioSetup {
    type Call = AaudioCall;

    type Reply = i32;

    open spec fn calls(&self) -> Seq<AaudioCall> {
        seq![
            AaudioCall::CreateBuilder,
            AaudioCall::SetDirection { direction: AAUDIO_DIRECTION_INPUT },
            AaudioCall::SetSampleRate { rate: self.rate as i32 },
            AaudioCall::SetChannelCount { channels: self.channels as i32 },
            AaudioCall::SetFormat { format: AAUDIO_FORMAT_PCM_I16 },
            AaudioCall::OpenStream,
            AaudioCall::DeleteBuilder,
            AaudioCall::GetChannelCount,
            AaudioCall::RequestStart,
        ]
    }

    /// Only making the builder, opening the stream and starting it can fail.
    open spec fn fails(&self, index: int, reply: i32) -> bool {
        (index == 0 || index == 5 || index == 8) && reply != AAUDIO_OK
    }

    open spec fn releases(&self, failed: int) -> Seq<AaudioCall> {
        if failed <= 0 {
            Seq::empty()
        } else if failed <= 5 {
            seq![AaudioCall::DeleteBuilder]
        } else {
            seq![AaudioCall::CloseStream]
        }
    }

    open spec fn in_range(&self, index: int) -> bool {
        true
    }

    fn call(&self, index: usize) -> (call: Option<AaudioCall>) {
        match index {
            0 => Some(AaudioCall::CreateBuilder),
            1 => Some(AaudioCall::SetDirection { direction: AAUDIO_DIRECTION_INPUT }),
            2 => Some(AaudioCall::SetSampleRate { rate: self.rate as i32 }),
            3 => Some(AaudioCall::SetChannelCount { channels: self.channels as i32 }),
            4 => Some(AaudioCall::SetFormat { format: AAUDIO_FORMAT_PCM_I16 }),
            5 => Some(AaudioCall::OpenStream),
            6 => Some(AaudioCall::DeleteBuilder),
            7 => Some(AaudioCall::GetChannelCount),
            8 => Some(AaudioCall::RequestStart),
            _ => None,
        }
    }

    fn failed(&self, index: usize, reply: &i32) -> (failed: bool) {
        (index == 0 || index == 5 || index == 8) && *reply != AAUDIO_OK
    }

    fn release(&self, failed: usize, index: usize) -> (call: Option<AaudioCall>) {
        if failed == 0 || index > 0 {
            None
        } else if failed <= 5 {
            Some(AaudioCall::DeleteBuilder)
        } else {
            Some(AaudioCall::CloseStream)
        }
    }
}

/// The description of a result code: the text that `AAudio_convertResultToText`
/// returned for it, or the number where it returned none.
pub open spec fn code_text(code: i32, text: Option<Seq<u8>>) -> Seq<char> {
    match text {
        Some(bytes) => utf8_lossy(until(bytes, 0u8)),
        None => "AAudio error "@ + signed_decimal(code as int),
    }
}

/// The description of a result code: the text that `AAudio_convertResultToText`
/// returned for it, or the number where it returned none.
pub fn result_text(code: i32, text: Option<&[u8]>) -> (message: String)
    ensures
        message@ == code_text(
            code,
            match text {
                Some(bytes) => Some(bytes@),
                None => None,
            },
        ),
        match text {
            Some(bytes) => valid_utf8(until(bytes@, 0u8)) ==> message@ == decode_utf8(
                until(bytes@, 0u8),
            ),
            None => true,
        },
{
    match text {
        Some(bytes) => c_buffer_text(bytes),
        None => String::from_str("AAudio error ").concat(signed_decimal_text(code as i64).as_str()),
    }
}

/// The channel count of a stream that was opened for `requested` channels and
/// reports `reported`: the device may grant a different count than requested,
/// and what it reports counts unless it makes no sense.
pub open spec fn granted_channels(requested: u32, reported: i32) -> u32 {
    if reported > 0 {
        reported as u32
    } else {
        at_least_one(requested)
    }
}

/// An open AAudio input stream feeding captured S16 frames into a queue.
pub struct AaudioCapture {
    queue: SampleQueue,
    channels: u32,
}

impl AaudioCapture {
    /// Begins to open an input stream.
    pub fn open(channels: u32, rate: u32) -> (opening: Opening<AaudioSetup>)
        ensures
            opening.spec_protocol() == (AaudioSetup { channels, rate }),
            opening.progress() == crate::protocol::Progress::<i32>::start(),
    {
        Opening::new(AaudioSetup { channels, rate })
    }

    /// The result code that [`AaudioCapture::finish`] needs a description of, if
    /// it needs one.
    pub fn error_code(opening: &Opening<AaudioSetup>) -> (code: Option<i32>)
        ensures
            code == if opening.progress().failed {
                Some(opening.progress().last_reply())
            } else {
                None::<i32>
            },
    {
        match opening.failure() {
            Some(index) => Some(opening.replies()[index]),
            None => None,
        }
    }

    /// How the setup ended: the capture that the opened stream feeds, or why
    /// there is none, where `text` is what `AAudio_convertResultToText` returned
    /// for the result code.
    pub fn finish(opening: &Opening<AaudioSetup>, text: Option<&[u8]>) -> (outcome: Result<
        AaudioCapture,
        String,
    >)
        requires
            opening.progress().ended(opening.spec_protocol()),
        ensures
            match outcome {
                Ok(capture) => {
                    &&& !opening.progress().failed
                    &&& capture.pending() == Seq::<i16>::empty()
                    &&& capture.accepting()
                    &&& capture.channel_count() == granted_channels(
                        opening.spec_protocol().channels,
                        opening.progress().replies[7],
                    )
                },
                Err(message) => {
                    &&& opening.progress().failed
                    &&& message@ == AaudioSetup::message(
                        opening.progress().replies.len() - 1,
                        code_text(
                            opening.progress().last_reply(),
                            match text {
                                Some(bytes) => Some(bytes@),
                                None => None,
                            },
                        ),
                    )
                    &&& match text {
                        Some(bytes) => valid_utf8(until(bytes@, 0u8)) ==> message@
                            == AaudioSetup::message(
                            opening.progress().replies.len() - 1,
                            decode_utf8(until(bytes@, 0u8)),
                        ),
                        None => true,
                    }
                },
            },
    {
        match opening.failure() {
            Some(index) => {
                let text = result_text(opening.replies()[index], text);
                Err(AaudioSetup::error_message(index, text.as_str()))
            },
            None => {
                let requested: u32 = opening.protocol().channels;
                let reported: i32 = opening.replies()[7];
                let channels: u32 = if reported > 0 {
                    reported as u32
                } else {
                    capture_channels(requested)
                };
                Ok(AaudioCapture { queue: SampleQueue::new(), channels })
            },
        }
    }

    /// A read of the stream returned `n` and left its frames in `buffer`.
    pub fn frames_read(&mut self, buffer: &[i16], n: i64)
        requires
            n > 0 ==> n * old(self).channel_count() <= buffer@.len(),
        ensures
            final(self).pending() == old(self).pending() + taken_in(
                old(self).accepting(),
                frame_samples(buffer@, n as int, old(self).channel_count()),
            ),
            old(self).accepting() && n > 0 ==> final(self).pending() == old(self).pending()
                + buffer@.take(n * old(self).channel_count()),
            !old(self).accepting() || n <= 0 ==> final(self).pending() == old(self).pending(),
            final(self).accepting() == old(self).accepting(),
            final(self).channel_count() == old(self).channel_count(),
    {
        queue_frames(&mut self.queue, buffer, n, self.channels);
    }
}

impl PcmSource for AaudioCapture {
    closed spec fn pending(&self) -> Seq<i16> {
        self.queue@
    }

    closed spec fn accepting(&self) -> bool {
        self.queue.accepting()
    }

    closed spec fn channel_count(&self) -> u32 {
        self.channels
    }

    fn read(&mut self, max: usize) -> (samples: Vec<i16>) {
        self.queue.read(max)
    }

    fn stop(&mut self) {
        self.queue.close();
    }

    fn channels(&self) -> (channels: u32) {
        self.channels
    }
}

// ---------------------------------------------------------------------------
// Laws
// ---------------------------------------------------------------------------

/// An opened stream has at least one channel.
pub proof fn law_opened_stream_has_channels(requested: u32, reported: i32)
    ensures
        granted_channels(requested, reported) >= 1,
{
}

/// How many builders the first `n` of `calls` leave alive, where none of them
/// failed.
pub open spec fn builders_alive(calls: Seq<AaudioCall>, n: nat) -> int {
    held(calls, n, builder_change())
}

/// By how much a call changes that.
pub open spec fn builder_change() -> spec_fn(AaudioCall) -> int {
    |call: AaudioCall|
        match call {
            AaudioCall::CreateBuilder => 1int,
            AaudioCall::DeleteBuilder => -1int,
            _ => 0int,
        }
}

/// How many streams the first `n` of `calls` leave open, where none of them
/// failed.
pub open spec fn streams_open(calls: Seq<AaudioCall>, n: nat) -> int {
    held(calls, n, stream_change())
}

/// By how much a call changes that.
pub open spec fn stream_change() -> spec_fn(AaudioCall) -> int {
    |call: AaudioCall|
        match call {
            AaudioCall::OpenStream => 1int,
            AaudioCall::CloseStream => -1int,
            _ => 0int,
        }
}

/// Whether a call takes the builder.
pub open spec fn uses_builder(call: AaudioCall) -> bool {
    match call {
        AaudioCall::SetDirection { .. } => true,
        AaudioCall::SetSampleRate { .. } => true,
        AaudioCall::SetChannelCount { .. } => true,
        AaudioCall::SetFormat { .. } => true,
        AaudioCall::OpenStream => true,
        AaudioCall::DeleteBuilder => true,
        _ => false,
    }
}

/// Whether a call takes the open stream.
pub open spec fn uses_stream(call: AaudioCall) -> bool {
    match call {
        AaudioCall::GetChannelCount => true,
        AaudioCall::RequestStart => true,
        AaudioCall::CloseStream => true,
        _ => false,
    }
}

proof fn lemma_setup_holds(setup: AaudioSetup, n: nat)
    requires
        n <= 9,
    ensures
        builders_alive(setup.calls(), n) == if 1 <= n <= 6 {
            1int
        } else {
            0int
        },
        streams_open(setup.calls(), n) == if n >= 6 {
            1int
        } else {
            0int
        },
    decreases n,
{
    if n > 0 {
        lemma_setup_holds(setup, (n - 1) as nat);
    }
}

/// The setup uses the builder only while it is alive and the stream only while
/// it is open; a setup that succeeds leaves one stream open and no builder.
pub proof fn law_setup_uses_what_it_holds(setup: AaudioSetup)
    ensures
        forall|i: int|
            0 <= i < setup.calls().len() ==> {
                &&& uses_builder(#[trigger] setup.calls()[i]) ==> builders_alive(
                    setup.calls(),
                    i as nat,
                ) == 1
                &&& uses_stream(setup.calls()[i]) ==> streams_open(setup.calls(), i as nat) == 1
            },
        builders_alive(setup.calls(), setup.calls().len()) == 0,
        streams_open(setup.calls(), setup.calls().len()) == 1,
{
    assert forall|i: int| 0 <= i < setup.calls().len() implies {
        &&& uses_builder(#[trigger] setup.calls()[i]) ==> builders_alive(setup.calls(), i as nat)
            == 1
        &&& uses_stream(setup.calls()[i]) ==> streams_open(setup.calls(), i as nat) == 1
    } by {
        lemma_setup_holds(setup, i as nat);
    }
    lemma_setup_holds(setup, 9);
}

/// Whichever call fails, what the calls before it acquired is given back: no
/// builder stays alive and no stream stays open.
pub proof fn law_failed_setup_holds_nothing(setup: AaudioSetup, failed: int)
    requires
        0 <= failed < setup.calls().len(),
        exists|reply: i32| setup.fails(failed, reply),
    ensures
        ({
            let made = setup.calls().take(failed) + setup.releases(failed);
            &&& builders_alive(made, made.len()) == 0
            &&& streams_open(made, made.len()) == 0
        }),
{
    let made = setup.calls().take(failed) + setup.releases(failed);
    lemma_held_prefix(made, setup.calls(), failed as nat, builder_change());
    lemma_held_prefix(made, setup.calls(), failed as nat, stream_change());
    lemma_setup_holds(setup, failed as nat);
    if failed > 0 {
        assert(made[failed] == setup.releases(failed)[0]);
        assert(made.len() == failed + 1);
    }
}

/// Every setup asks for 16-bit input at exactly the rate and the channel count that
/// were requested, whatever they are; one that a C `int` holds is handed on as it
/// is.
pub proof fn law_setup_asks_for_what_was_requested(setup: AaudioSetup)
    ensures
        setup.calls().len() == 9,
        setup.calls()[0] is CreateBuilder,
        setup.calls()[1] == (AaudioCall::SetDirection { direction: 1 }),
        setup.calls()[2] is SetSampleRate,
        setup.rate <= i32::MAX ==> setup.calls()[2]->rate == setup.rate,
        setup.rate > i32::MAX ==> setup.calls()[2]->rate == setup.rate - 0x1_0000_0000,
        setup.calls()[3] is SetChannelCount,
        setup.channels <= i32::MAX ==> setup.calls()[3]->channels == setup.channels,
        setup.channels > i32::MAX ==> setup.calls()[3]->channels == setup.channels - 0x1_0000_0000,
        setup.calls()[4] == (AaudioCall::SetFormat { format: 1 }),
        setup.calls()[5] is OpenStream,
        setup.calls()[6] is DeleteBuilder,
        setup.calls()[7] is GetChannelCount,
        setup.calls()[8] is RequestStart,
{
    let rate = setup.rate;
    let channels = setup.channels;
    if rate > i32::MAX {
        assert((rate as i32) as i64 == rate as i64 - 0x1_0000_0000) by (bit_vector)
            requires
                rate > 0x7FFF_FFFFu32,
        ;
    }
    if channels > i32::MAX {
        assert((channels as i32) as i64 == channels as i64 - 0x1_0000_0000) by (bit_vector)
            requires
                channels > 0x7FFF_FFFFu32,
        ;
    }
}

/// Any code but zero ends the setup where a builder is made or a stream is opened
/// or started; no reply to another call does.
pub proof fn law_replies_decide(setup: AaudioSetup, index: int, reply: i32)
    requires
        0 <= index < setup.calls().len(),
    ensures
        setup.fails(index, reply) <==> reply != 0 && (setup.calls()[index] is CreateBuilder
            || setup.calls()[index] is OpenStream || setup.calls()[index] is RequestStart),
{
}

/// What a failed setup gives back is what it holds, and it makes no other call.
pub proof fn law_failed_setup_only_gives_back(setup: AaudioSetup, failed: int)
    requires
        0 <= failed < setup.calls().len(),
        exists|reply: i32| setup.fails(failed, reply),
    ensures
        setup.releases(failed).len() == builders_alive(setup.calls(), failed as nat)
            + streams_open(setup.calls(), failed as nat),
        setup.calls()[failed] is OpenStream ==> setup.releases(failed)[0] is DeleteBuilder,
        setup.calls()[failed] is RequestStart ==> setup.releases(failed)[0] is CloseStream,
{
    lemma_setup_holds(setup, failed as nat);
}

/// The channel count that the device grants counts, whatever it is; one that makes
/// no sense leaves the requested one, but at least one.
pub proof fn law_granted_channels_count(requested: u32, reported: i32)
    ensures
        reported > 0 ==> granted_channels(requested, reported) == reported,
        reported <= 0 && requested > 0 ==> granted_channels(requested, reported) == requested,
        reported <= 0 && requested == 0 ==> granted_channels(requested, reported) == 1,
{
}

/// Whatever the code, the message of a failed setup is the name of the call that
/// failed, a colon and the description.
pub proof fn law_message_names_the_call(setup: AaudioSetup, index: int, text: Seq<char>)
    requires
        0 <= index < setup.calls().len(),
    ensures
        setup.calls()[index] is CreateBuilder ==> AaudioSetup::message(index, text)
            == "createStreamBuilder"@ + ": "@ + text,
        setup.calls()[index] is OpenStream ==> AaudioSetup::message(index, text) == "openStream"@
            + ": "@ + text,
        setup.calls()[index] is RequestStart ==> AaudioSetup::message(index, text)
            == "requestStart"@ + ": "@ + text,
{
}

/// A result is described by the text that there is for it, else by its number.
pub proof fn law_result_is_described(code: i32, bytes: Seq<u8>)
    ensures
        code_text(code, Some(bytes)) == utf8_lossy(until(bytes, 0u8)),
        code_text(code, None) == "AAudio error "@ + signed_decimal(code as int),
{
}

} // verus!
