//! Captured samples on their way from the audio thread to the reader.
//!
//! Audio arrives on a thread of the platform's; it is read at the reader's own
//! cadence. In between stands a queue of interleaved S16 samples: what is
//! captured goes to its end, what is read leaves from its front. Once the
//! recording is stopped nothing goes in any more; what waits can still be read.

use vstd::prelude::*;

verus! {

/// How many of `pending` samples a read of at most `max` takes.
pub open spec fn read_len(pending: Seq<i16>, max: nat) -> nat {
    if pending.len() <= max {
        pending.len()
    } else {
        max
    }
}

/// The samples that a read of at most `max` takes.
pub open spec fn read_samples(pending: Seq<i16>, max: nat) -> Seq<i16> {
    pending.take(read_len(pending, max) as int)
}

/// The samples that a read of at most `max` leaves behind.
pub open spec fn left_samples(pending: Seq<i16>, max: nat) -> Seq<i16> {
    pending.skip(read_len(pending, max) as int)
}

/// The samples that go into a queue where `samples` are captured: all of them,
/// unless it takes no more in.
pub open spec fn taken_in(accepting: bool, samples: Seq<i16>) -> Seq<i16> {
    if accepting {
        samples
    } else {
        Seq::empty()
    }
}

/// A platform audio input that yields interleaved S16LE frames on demand.
pub trait PcmSource {
    /// The samples captured and not yet read, oldest first.
    spec fn pending(&self) -> Seq<i16>;

    /// Whether samples captured from now on are taken in.
    spec fn accepting(&self) -> bool;

    /// The channel count of the captured audio.
    spec fn channel_count(&self) -> u32;

    /// Drains and returns up to `max` of the samples captured since the last
    /// call, leaving any remainder buffered for the next call. Returns an empty
    /// vec when nothing new has arrived yet.
    fn read(&mut self, max: usize) -> (samples: Vec<i16>)
        ensures
            samples@ == read_samples(old(self).pending(), max as nat),
            final(self).pending() == left_samples(old(self).pending(), max as nat),
            samples@ + final(self).pending() == old(self).pending(),
            samples@.len() == if old(self).pending().len() <= max {
                old(self).pending().len() as int
            } else {
                max as int
            },
            final(self).accepting() == old(self).accepting(),
            final(self).channel_count() == old(self).channel_count(),
    ;

    /// Stops the capture: no sample that the device delivers later is taken in.
    /// What waits stays.
    fn stop(&mut self)
        ensures
            final(self).pending() == old(self).pending(),
            !final(self).accepting(),
            final(self).channel_count() == old(self).channel_count(),
    ;

    /// The channel count of the captured audio.
    fn channels(&self) -> (channels: u32)
        ensures
            channels == self.channel_count(),
    ;
}

/// The samples captured and not yet read.
pub struct SampleQueue {
    samples: Vec<i16>,
    closed: bool,
}

impl View for SampleQueue {
    type V = Seq<i16>;

    closed spec fn view(&self) -> Seq<i16> {
        self.samples@
    }
}

impl SampleQueue {
    /// Whether captured samples are taken in.
    pub closed spec fn accepting(&self) -> bool {
        !self.closed
    }

    /// An empty queue, which takes samples in.
    pub fn new() -> (queue: SampleQueue)
        ensures
            queue@ == Seq::<i16>::empty(),
            queue.accepting(),
    {
        SampleQueue { samples: Vec::new(), closed: false }
    }

    /// Puts captured samples behind those that wait, unless the queue is closed.
    pub fn append(&mut self, captured: &[i16])
        ensures
            final(self)@ == old(self)@ + taken_in(old(self).accepting(), captured@),
            old(self).accepting() ==> final(self)@ == old(self)@ + captured@,
            !old(self).accepting() ==> final(self)@ == old(self)@,
            final(self).accepting() == old(self).accepting(),
    {
        if !self.closed {
            self.samples.extend_from_slice(captured);
        }
        assert(self.samples@ =~= old(self)@ + taken_in(old(self).accepting(), captured@));
    }

    /// Closes the queue: nothing is taken in from now on, and what waits stays.
    pub fn close(&mut self)
        ensures
            final(self)@ == old(self)@,
            !final(self).accepting(),
    {
        self.closed = true;
    }

    /// Takes up to `max` samples from the front and keeps the rest.
    pub fn read(&mut self, max: usize) -> (out: Vec<i16>)
        ensures
            out@ == read_samples(old(self)@, max as nat),
            final(self)@ == left_samples(old(self)@, max as nat),
            out@ + final(self)@ == old(self)@,
            out@.len() == if old(self)@.len() <= max {
                old(self)@.len() as int
            } else {
                max as int
            },
            final(self).accepting() == old(self).accepting(),
    {
        proof {
            law_read_takes_the_oldest(self@, max as nat);
        }
        if self.samples.is_empty() || max == 0 {
            assert(self@.skip(0) =~= self@);
            return Vec::new();
        }
        let mut rest: Vec<i16> = if self.samples.len() <= max {
            Vec::new()
        } else {
            self.samples.split_off(max)
        };
        std::mem::swap(&mut self.samples, &mut rest);
        rest
    }
}

/// `channels`, but at least one.
pub open spec fn at_least_one(channels: u32) -> u32 {
    if channels >= 1 {
        channels
    } else {
        1
    }
}

/// The channel count to capture with: the requested one, but at least one.
pub fn capture_channels(requested: u32) -> (channels: u32)
    ensures
        channels == at_least_one(requested),
        requested > 0 ==> channels == requested,
        requested == 0 ==> channels == 1,
{
    if requested >= 1 {
        requested
    } else {
        1
    }
}

/// How many samples a filled buffer of `byte_size` bytes hands over, if any.
pub open spec fn buffer_samples(byte_size: u32, data_is_null: bool) -> Option<nat> {
    if byte_size >= 2 && !data_is_null {
        Some((byte_size / 2) as nat)
    } else {
        None
    }
}

/// How many samples to take from a buffer that the device has filled: one for
/// each two bytes, and none from a buffer without data.
pub fn samples_in_buffer(byte_size: u32, data_is_null: bool) -> (count: Option<usize>)
    ensures
        match count {
            Some(n) => {
                &&& buffer_samples(byte_size, data_is_null) == Some(n as nat)
                &&& byte_size >= 2 && !data_is_null
                &&& 2 * n <= byte_size < 2 * n + 2
            },
            None => {
                &&& buffer_samples(byte_size, data_is_null) is None
                &&& byte_size < 2 || data_is_null
            },
        },
{
    let n: usize = byte_size as usize / 2;
    if n > 0 && !data_is_null {
        Some(n)
    } else {
        None
    }
}

/// What a callback does with a buffer that the device has filled.
#[derive(Clone, Copy, Debug, PartialEq, Eq)]
pub struct BufferStep {
    /// How many samples to take from it, if any.
    pub samples: Option<usize>,
    /// Whether to hand it back to the device.
    pub recycle: bool,
}

// ---------------------------------------------------------------------------
// Laws
// ---------------------------------------------------------------------------

/// What happens to a queue.
pub enum QueueEvent {
    /// These samples were captured.
    Captured(Seq<i16>),
    /// At most so many samples were read.
    Read(nat),
    /// The recording was stopped.
    Stopped,
}

/// Whether a queue takes samples in after `events`: until the first stop.
pub open spec fn accepting_after(events: Seq<QueueEvent>) -> bool {
    forall|i: int| 0 <= i < events.len() ==> !(#[trigger] events[i] is Stopped)
}

/// What waits in a queue, first empty, after `events`.
pub open spec fn waiting(events: Seq<QueueEvent>) -> Seq<i16>
    decreases events.len(),
{
    if events.len() == 0 {
        Seq::empty()
    } else {
        let before = waiting(events.drop_last());
        match events.last() {
            QueueEvent::Captured(samples) => before + taken_in(
                accepting_after(events.drop_last()),
                samples,
            ),
            QueueEvent::Read(max) => left_samples(before, max),
            QueueEvent::Stopped => before,
        }
    }
}

/// All that the reads among `events` returned, in order.
pub open spec fn delivered(events: Seq<QueueEvent>) -> Seq<i16>
    decreases events.len(),
{
    if events.len() == 0 {
        Seq::empty()
    } else {
        let before = delivered(events.drop_last());
        match events.last() {
            QueueEvent::Read(max) => before + read_samples(waiting(events.drop_last()), max),
            _ => before,
        }
    }
}

/// All that was captured among `events` before the recording was stopped, in
/// order.
pub open spec fn captured(events: Seq<QueueEvent>) -> Seq<i16>
    decreases events.len(),
{
    if events.len() == 0 {
        Seq::empty()
    } else {
        let before = captured(events.drop_last());
        match events.last() {
            QueueEvent::Captured(samples) => before + taken_in(
                accepting_after(events.drop_last()),
                samples,
            ),
            _ => before,
        }
    }
}

/// No sample is lost, repeated or reordered: however captures, reads and a stop
/// interleave, what was read, followed by what still waits, is what was captured
/// before the stop.
pub proof fn law_no_sample_lost(events: Seq<QueueEvent>)
    ensures
        delivered(events) + waiting(events) == captured(events),
    decreases events.len(),
{
    if events.len() > 0 {
        let earlier = events.drop_last();
        law_no_sample_lost(earlier);
        match events.last() {
            QueueEvent::Captured(samples) => {
                assert(delivered(events) + waiting(events) =~= captured(earlier) + taken_in(
                    accepting_after(earlier),
                    samples,
                ));
            },
            QueueEvent::Read(max) => {
                assert(read_samples(waiting(earlier), max) + left_samples(waiting(earlier), max)
                    =~= waiting(earlier));
                assert(delivered(events) + waiting(events) =~= captured(events));
            },
            QueueEvent::Stopped => {},
        }
    }
}

proof fn lemma_nothing_after_stop(events: Seq<QueueEvent>, k: int)
    requires
        0 <= k < events.len(),
        events[k] is Stopped,
    ensures
        captured(events) == captured(events.take(k)),
    decreases events.len(),
{
    let earlier = events.drop_last();
    if k == events.len() - 1 {
        assert(earlier =~= events.take(k));
    } else {
        lemma_nothing_after_stop(earlier, k);
        assert(earlier.take(k) =~= events.take(k));
        assert(earlier[k] is Stopped);
        assert(captured(events) =~= captured(earlier));
    }
}

/// A stopped recording delivers what was captured before the stop and nothing
/// else: whatever the device delivers later, and however often it is read, all
/// that is read in the end is what was captured before, from its front on.
pub proof fn law_stop_ends_intake(events: Seq<QueueEvent>, k: int)
    requires
        0 <= k < events.len(),
        events[k] is Stopped,
    ensures
        captured(events) == captured(events.take(k)),
        delivered(events).is_prefix_of(captured(events.take(k))),
        waiting(events).len() == 0 ==> delivered(events) == captured(events.take(k)),
{
    lemma_nothing_after_stop(events, k);
    law_no_sample_lost(events);
    let before = captured(events.take(k));
    assert(delivered(events) =~= before.subrange(0, delivered(events).len() as int));
    if waiting(events).len() == 0 {
        assert(delivered(events) =~= before);
    }
}

/// A read returns no more than was asked for, and nothing only where nothing
/// waits or nothing was asked for.
pub proof fn law_read_bounds(pending: Seq<i16>, max: nat)
    ensures
        read_samples(pending, max).len() <= max,
        read_samples(pending, max).len() == 0 <==> pending.len() == 0 || max == 0,
        pending.len() <= max ==> left_samples(pending, max).len() == 0,
{
}

/// Two reads in a row return what one read of both lengths returns.
pub proof fn law_reads_join(pending: Seq<i16>, first: nat, second: nat)
    ensures
        read_samples(pending, first) + read_samples(left_samples(pending, first), second)
            == read_samples(pending, first + second),
        left_samples(left_samples(pending, first), second) == left_samples(
            pending,
            first + second,
        ),
{
    assert(read_samples(pending, first) + read_samples(left_samples(pending, first), second)
        =~= read_samples(pending, first + second));
    assert(left_samples(left_samples(pending, first), second) =~= left_samples(
        pending,
        first + second,
    ));
}

/// A read takes the oldest samples: the smaller of `max` and what waits, from the
/// front on and in order; what it leaves is what waits behind them.
pub proof fn law_read_takes_the_oldest(pending: Seq<i16>, max: nat)
    ensures
        ({
            let taken = read_samples(pending, max);
            let left = left_samples(pending, max);
            &&& taken.len() <= max && taken.len() <= pending.len()
            &&& taken.len() == max || taken.len() == pending.len()
            &&& left.len() == pending.len() - taken.len()
            &&& forall|i: int| 0 <= i < taken.len() ==> taken[i] == pending[i]
            &&& forall|i: int| 0 <= i < left.len() ==> left[i] == pending[taken.len() + i]
            &&& taken + left == pending
        }),
{
    assert(read_samples(pending, max) + left_samples(pending, max) =~= pending);
}

/// Samples that are captured wait behind those that waited before, all of them
/// and in order, until the recording is stopped; from then on what is captured
/// changes nothing. A read or a stop loses none.
pub proof fn law_what_is_captured_waits(events: Seq<QueueEvent>, samples: Seq<i16>, max: nat)
    ensures
        ({
            let stopped = exists|i: int| 0 <= i < events.len() && events[i] is Stopped;
            let after = waiting(events.push(QueueEvent::Captured(samples)));
            &&& !stopped ==> after == waiting(events) + samples
            &&& stopped ==> after == waiting(events)
            &&& waiting(events.push(QueueEvent::Stopped)) == waiting(events)
            &&& delivered(events.push(QueueEvent::Stopped)) == delivered(events)
            &&& delivered(events.push(QueueEvent::Captured(samples))) == delivered(events)
            &&& delivered(events.push(QueueEvent::Read(max))) + waiting(
                events.push(QueueEvent::Read(max)),
            ) == delivered(events) + waiting(events)
            &&& delivered(events.push(QueueEvent::Read(max))).len() == delivered(events).len() + if max
                < waiting(events).len() {
                max
            } else {
                waiting(events).len()
            }
        }),
{
    assert(events.push(QueueEvent::Captured(samples)).drop_last() =~= events);
    assert(events.push(QueueEvent::Stopped).drop_last() =~= events);
    assert(events.push(QueueEvent::Read(max)).drop_last() =~= events);
    law_read_takes_the_oldest(waiting(events), max);
    let taken = read_samples(waiting(events), max);
    let left = left_samples(waiting(events), max);
    assert((delivered(events) + taken) + left =~= delivered(events) + (taken + left));
    if exists|i: int| 0 <= i < events.len() && events[i] is Stopped {
        assert(waiting(events) + Seq::<i16>::empty() =~= waiting(events));
    }
}

/// A queue that takes samples in takes all of them, one that is closed takes
/// none.
pub proof fn law_intake(accepting: bool, samples: Seq<i16>)
    ensures
        accepting ==> taken_in(accepting, samples) == samples,
        !accepting ==> taken_in(accepting, samples).len() == 0,
{
}

/// A filled buffer hands over a sample for each two whole bytes, however large it
/// is, and none where it has no data or less than a sample; so one of `frames`
/// frames of `channels` 16-bit channels hands over `frames * channels` samples.
pub proof fn law_buffer_hands_over_every_sample(byte_size: u32, frames: nat, channels: nat)
    ensures
        match buffer_samples(byte_size, false) {
            Some(n) => n > 0 && 2 * n <= byte_size < 2 * n + 2,
            None => byte_size < 2,
        },
        buffer_samples(byte_size, true) is None,
        byte_size > 0 && byte_size == frames * (channels * 2) ==> buffer_samples(byte_size, false)
            == Some(frames * channels),
{
    assert(frames * (channels * 2) == 2 * (frames * channels)) by (nonlinear_arith);
}

/// Capture has the channels that were asked for, and one where none were.
pub proof fn law_requested_channels_are_captured(requested: u32)
    ensures
        requested > 0 ==> at_least_one(requested) == requested,
        requested == 0 ==> at_least_one(requested) == 1,
{
}

} // verus!
