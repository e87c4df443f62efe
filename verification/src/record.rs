//! Recording from the default input for some seconds: the smoke test of the
//! capture path, which reads at the pace of a poller and writes a WAV.

use vstd::prelude::*;

use crate::pcm::{at_least_one, capture_channels};
use crate::text::{parse_u64, parse_unsigned};

verus! {

broadcast use vstd::string::group_string_axioms;

/// The sample rate to record at.
pub const SAMPLE_RATE: u32 = 44_100;

/// The channels to record.
pub const CHANNELS: u32 = 1;

/// The samples that one read asks for.
pub const READ_LEN: usize = 16_384;

/// The pause after a read, in milliseconds.
pub const POLL_MILLIS: u64 = 50;

/// Reads in a second.
pub const POLLS_PER_SECOND: u64 = 20;

/// The seconds to record where none are asked for.
pub const DEFAULT_SECONDS: u64 = 3;

/// What to record.
pub struct RecordOptions {
    /// The file to write.
    pub path: String,
    /// The seconds to record.
    pub secs: u64,
}

/// The file that the arguments ask for.
pub open spec fn asked_path(args: Seq<String>) -> Seq<char> {
    if args.len() > 1 {
        args[1]@
    } else {
        "recording.wav"@
    }
}

/// The seconds that the arguments ask for.
pub open spec fn asked_seconds(args: Seq<String>) -> nat {
    if args.len() > 2 && parse_unsigned(args[2]@, u64::MAX as nat) is Some {
        parse_unsigned(args[2]@, u64::MAX as nat)->0
    } else {
        DEFAULT_SECONDS as nat
    }
}

/// Reads the arguments, the first of which names the program: the file, then the
/// seconds.
pub fn record_options(args: &Vec<String>) -> (options: RecordOptions)
    ensures
        options.path@ == asked_path(args@),
        options.secs == asked_seconds(args@),
{
    let path = if args.len() > 1 {
        args[1].clone()
    } else {
        String::from_str("recording.wav")
    };
    let secs: u64 = if args.len() > 2 {
        match parse_u64(args[2].as_str()) {
            Some(secs) => secs,
            None => DEFAULT_SECONDS,
        }
    } else {
        DEFAULT_SECONDS
    };
    RecordOptions { path, secs }
}

/// What to do next.
#[derive(Clone, Copy, Debug, PartialEq, Eq)]
pub enum RecordRequest {
    /// Read, and pause unless the read failed.
    Poll,
    /// Stop the recording.
    Stop,
    /// Read what was captured after the last poll.
    Drain,
    /// Free the recorder.
    Free,
    /// Write the file.
    Write,
}

/// How far a recording session has come.
#[verifier::ext_equal]
pub struct SessionState {
    pub step: RecordRequest,
    /// The polls that remain.
    pub polls: nat,
    /// The samples read so far.
    pub pcm: Seq<i16>,
}

impl SessionState {
    /// A session that polls `polls` times.
    pub open spec fn start(polls: nat) -> SessionState {
        SessionState {
            step: if polls > 0 {
                RecordRequest::Poll
            } else {
                RecordRequest::Stop
            },
            polls,
            pcm: Seq::empty(),
        }
    }

    /// A read returned `n`: so many samples, the first in `buffer`, or an error.
    /// Polling goes on for the polls that remain unless a read fails; draining
    /// goes on until a read returns nothing.
    pub open spec fn read(self, n: int, buffer: Seq<i16>) -> SessionState {
        match self.step {
            RecordRequest::Poll => if n < 0 {
                SessionState { step: RecordRequest::Stop, ..self }
            } else {
                let polls = if self.polls > 0 {
                    (self.polls - 1) as nat
                } else {
                    0
                };
                SessionState {
                    step: if polls > 0 {
                        RecordRequest::Poll
                    } else {
                        RecordRequest::Stop
                    },
                    polls,
                    pcm: self.pcm + buffer.take(n),
                }
            },
            RecordRequest::Drain => if n <= 0 {
                SessionState { step: RecordRequest::Free, ..self }
            } else {
                SessionState { pcm: self.pcm + buffer.take(n), ..self }
            },
            _ => self,
        }
    }

    /// The recording has been stopped, or the recorder freed.
    pub open spec fn done(self) -> SessionState {
        match self.step {
            RecordRequest::Stop => SessionState { step: RecordRequest::Drain, ..self },
            RecordRequest::Free => SessionState { step: RecordRequest::Write, ..self },
            _ => self,
        }
    }
}

/// A recording session.
pub struct RecordSession {
    step: RecordRequest,
    polls: u64,
    pcm: Vec<i16>,
}

impl View for RecordSession {
    type V = SessionState;

    closed spec fn view(&self) -> SessionState {
        SessionState { step: self.step, polls: self.polls as nat, pcm: self.pcm@ }
    }
}

impl RecordSession {
    /// A session of `secs` seconds.
    pub fn new(secs: u64) -> (session: RecordSession)
        requires
            secs * POLLS_PER_SECOND <= u64::MAX,
        ensures
            session@ == SessionState::start((secs * POLLS_PER_SECOND) as nat),
    {
        let polls: u64 = secs * POLLS_PER_SECOND;
        let step = if polls > 0 {
            RecordRequest::Poll
        } else {
            RecordRequest::Stop
        };
        RecordSession { step, polls, pcm: Vec::new() }
    }

    /// What to do next.
    pub fn request(&self) -> (request: RecordRequest)
        ensures
            request == self@.step,
    {
        self.step
    }

    /// A read returned `n` and wrote its samples to `buffer`. Tells whether to
    /// pause.
    pub fn read(&mut self, n: isize, buffer: &[i16]) -> (pause: bool)
        requires
            n <= buffer@.len(),
        ensures
            final(self)@ == old(self)@.read(n as int, buffer@),
            pause == (old(self)@.step is Poll && n >= 0),
    {
        match self.step {
            RecordRequest::Poll => {
                if n < 0 {
                    self.step = RecordRequest::Stop;
                    return false;
                }
                self.append(n as usize, buffer);
                self.polls = if self.polls > 0 {
                    self.polls - 1
                } else {
                    0
                };
                if self.polls == 0 {
                    self.step = RecordRequest::Stop;
                }
                true
            },
            RecordRequest::Drain => {
                if n <= 0 {
                    self.step = RecordRequest::Free;
                } else {
                    self.append(n as usize, buffer);
                }
                false
            },
            _ => false,
        }
    }

    fn append(&mut self, n: usize, buffer: &[i16])
        requires
            n <= buffer@.len(),
        ensures
            final(self)@ == (SessionState { pcm: old(self)@.pcm + buffer@.take(n as int), ..old(self)@ }),
    {
        let part = vstd::slice::slice_subrange(buffer, 0, n);
        self.pcm.extend_from_slice(part);
        assert(self.pcm@ =~= old(self)@.pcm + buffer@.take(n as int));
    }

    /// The recording has been stopped, or the recorder freed.
    pub fn done(&mut self)
        ensures
            final(self)@ == old(self)@.done(),
    {
        match self.step {
            RecordRequest::Stop => {
                self.step = RecordRequest::Drain;
            },
            RecordRequest::Free => {
                self.step = RecordRequest::Write;
            },
            _ => {},
        }
    }

    /// The samples read so far.
    pub fn samples(&self) -> (pcm: &Vec<i16>)
        ensures
            pcm@ == self@.pcm,
    {
        &self.pcm
    }
}

/// The magnitude of a sample.
pub open spec fn magnitude(sample: i16) -> int {
    if sample < 0 {
        -sample
    } else {
        sample as int
    }
}

/// The largest magnitude among `pcm`, or 0 where there is no sample.
pub fn peak_amplitude(pcm: &Vec<i16>) -> (peak: u16)
    ensures
        forall|i: int| 0 <= i < pcm@.len() ==> magnitude(#[trigger] pcm@[i]) <= peak,
        pcm@.len() == 0 ==> peak == 0,
        pcm@.len() > 0 ==> exists|i: int|
            0 <= i < pcm@.len() && magnitude(#[trigger] pcm@[i]) == peak,
{
    let mut peak: u16 = 0;
    let mut i: usize = 0;
    while i < pcm.len()
        invariant
            i <= pcm.len(),
            forall|k: int| 0 <= k < i ==> magnitude(#[trigger] pcm@[k]) <= peak,
            i == 0 ==> peak == 0,
            i > 0 ==> exists|k: int| 0 <= k < i && magnitude(#[trigger] pcm@[k]) == peak,
        decreases pcm.len() - i,
    {
        let sample: i32 = pcm[i] as i32;
        let size: u16 = if sample < 0 {
            (-sample) as u16
        } else {
            sample as u16
        };
        assert(size == magnitude(pcm@[i as int]));
        if size > peak || i == 0 {
            peak = size;
        }
        i += 1;
    }
    peak
}

/// The number of frames in `samples` samples of `channels` channels.
pub fn frame_count(samples: usize, channels: u16) -> (frames: usize)
    ensures
        frames == samples as int / at_least_one(channels as u32) as int,
{
    samples / capture_channels(channels as u32) as usize
}

// ---------------------------------------------------------------------------
// Laws
// ---------------------------------------------------------------------------

/// A session polls, stops the recording once, then drains it, then frees the
/// recorder once: a step that a session has left does not come back, and every
/// poll that succeeds uses one up.
pub proof fn law_session_order(session: SessionState, n: int, buffer: Seq<i16>)
    requires
        session.step is Poll ==> session.polls > 0,
    ensures
        ({
            let after = session.read(n, buffer);
            &&& after.step is Poll ==> session.step is Poll && after.polls == session.polls - 1
                && after.polls > 0
            &&& after.step is Stop ==> session.step is Poll || session.step is Stop
            &&& after.step is Drain ==> session.step is Drain
            &&& after.step is Free ==> session.step is Drain || session.step is Free
            &&& after.step is Write ==> session.step is Write
        }),
        session.done().step is Drain ==> session.step is Stop || session.step is Drain,
        session.done().step is Write ==> session.step is Free || session.step is Write,
{
}

/// A session keeps all that it read, in order: each read puts its samples behind
/// those read before, and nothing else changes them.
pub proof fn law_session_keeps_samples(session: SessionState, n: int, buffer: Seq<i16>)
    requires
        n <= buffer.len(),
    ensures
        session.read(n, buffer).pcm == session.pcm + if n > 0 && (session.step is Poll
            || session.step is Drain) {
            buffer.take(n)
        } else {
            Seq::empty()
        },
        session.done().pcm == session.pcm,
{
    assert(session.pcm + Seq::<i16>::empty() =~= session.pcm);
    if n == 0 {
        assert(session.pcm + buffer.take(n) =~= session.pcm);
    }
}

/// The arguments name the file and then the seconds; without a file it is
/// `recording.wav`, and without a number of seconds there are three.
pub proof fn law_arguments(args: Seq<String>)
    ensures
        args.len() > 1 ==> asked_path(args) == args[1]@,
        args.len() <= 1 ==> asked_path(args) == "recording.wav"@,
        args.len() > 2 && parse_unsigned(args[2]@, 0xFFFF_FFFF_FFFF_FFFF) is Some
            ==> asked_seconds(args) == parse_unsigned(args[2]@, 0xFFFF_FFFF_FFFF_FFFF)->0,
        args.len() > 2 && parse_unsigned(args[2]@, 0xFFFF_FFFF_FFFF_FFFF) is None
            ==> asked_seconds(args) == 3,
        args.len() <= 2 ==> asked_seconds(args) == 3,
{
}

/// How a session goes on from each read, whatever it returns: it polls as often as
/// it was told, however few samples come, and stops earlier only where a read
/// fails; it drains for as long as samples come, and no longer.
pub proof fn law_session_steps(session: SessionState, polls: nat, n: int, buffer: Seq<i16>)
    ensures
        polls > 0 ==> SessionState::start(polls).step is Poll,
        polls == 0 ==> SessionState::start(polls).step is Stop,
        SessionState::start(polls).polls == polls,
        SessionState::start(polls).pcm.len() == 0,
        session.step is Poll && n < 0 ==> session.read(n, buffer).step is Stop,
        session.step is Poll && n >= 0 && session.polls > 1 ==> {
            &&& session.read(n, buffer).step is Poll
            &&& session.read(n, buffer).polls == session.polls - 1
        },
        session.step is Poll && n >= 0 && session.polls == 1 ==> session.read(
            n,
            buffer,
        ).step is Stop,
        session.step is Drain && n > 0 ==> session.read(n, buffer).step is Drain,
        session.step is Drain && n <= 0 ==> session.read(n, buffer).step is Free,
        session.step is Stop ==> session.done().step is Drain,
        session.step is Free ==> session.done().step is Write,
{
}

/// The magnitude of a sample is what it is away from zero.
pub proof fn law_magnitude(sample: i16)
    ensures
        magnitude(sample) >= 0,
        magnitude(sample) == sample || magnitude(sample) == -sample,
        magnitude(sample) <= 0x8000,
{
}

} // verus!
