//! The thread that services a pull-driven input stream.
//!
//! A stream that has to be asked for its frames is asked by a thread of its
//! own, so that the device is serviced promptly however often the captured
//! samples are read. The thread reads until it is told to stop or a read
//! fails; then it stops the stream, closes it and exits.

use vstd::prelude::*;

use crate::pcm::{taken_in, SampleQueue};

verus! {

/// Frames asked for in one read: few enough to keep latency low.
pub const FRAMES_PER_READ: usize = 1024;

/// What the thread is to do next.
#[derive(Clone, Copy, Debug, PartialEq, Eq)]
pub enum ReaderRequest {
    /// Read up to [`FRAMES_PER_READ`] frames.
    Read,
    /// Stop the stream.
    Stop,
    /// Close the stream.
    Close,
    /// Leave the thread.
    Exit,
}

/// Where the thread stands.
#[derive(Clone, Copy, Debug, PartialEq, Eq)]
pub enum ReaderPhase {
    Reading,
    Stopping,
    Closing,
    Exiting,
}

impl ReaderPhase {
    /// What comes next, where the stop flag reads `stop`.
    pub open spec fn request(self, stop: bool) -> ReaderRequest {
        match self {
            ReaderPhase::Reading => if stop {
                ReaderRequest::Stop
            } else {
                ReaderRequest::Read
            },
            ReaderPhase::Stopping => ReaderRequest::Stop,
            ReaderPhase::Closing => ReaderRequest::Close,
            ReaderPhase::Exiting => ReaderRequest::Exit,
        }
    }

    /// Where the thread stands once it has done that, where a read returned
    /// `n`: a frame count, or a negative error code.
    pub open spec fn after(self, stop: bool, n: int) -> ReaderPhase {
        match self.request(stop) {
            ReaderRequest::Read => if n < 0 {
                ReaderPhase::Stopping
            } else {
                ReaderPhase::Reading
            },
            ReaderRequest::Stop => ReaderPhase::Closing,
            ReaderRequest::Close => ReaderPhase::Exiting,
            ReaderRequest::Exit => ReaderPhase::Exiting,
        }
    }
}

/// The reading thread's control state.
pub struct ReaderThread {
    phase: ReaderPhase,
}

impl ReaderThread {
    /// Where the thread stands.
    pub closed spec fn phase(&self) -> ReaderPhase {
        self.phase
    }

    /// A thread that has yet to read.
    pub fn new() -> (thread: ReaderThread)
        ensures
            thread.phase() == ReaderPhase::Reading,
    {
        ReaderThread { phase: ReaderPhase::Reading }
    }

    /// What comes next, where the stop flag reads `stop`.
    pub fn request(&self, stop: bool) -> (request: ReaderRequest)
        ensures
            request == self.phase().request(stop),
    {
        match self.phase {
            ReaderPhase::Reading => if stop {
                ReaderRequest::Stop
            } else {
                ReaderRequest::Read
            },
            ReaderPhase::Stopping => ReaderRequest::Stop,
            ReaderPhase::Closing => ReaderRequest::Close,
            ReaderPhase::Exiting => ReaderRequest::Exit,
        }
    }

    /// What was asked for under the flag value `stop` has been done. `n` is what
    /// the read returned, where it was a read.
    pub fn done(&mut self, stop: bool, n: i64)
        ensures
            final(self).phase() == old(self).phase().after(stop, n as int),
    {
        self.phase = match self.request(stop) {
            ReaderRequest::Read => if n < 0 {
                ReaderPhase::Stopping
            } else {
                ReaderPhase::Reading
            },
            ReaderRequest::Stop => ReaderPhase::Closing,
            ReaderRequest::Close => ReaderPhase::Exiting,
            ReaderRequest::Exit => ReaderPhase::Exiting,
        };
    }
}

/// The length of a buffer that holds one read of `channels` channels.
pub fn read_buffer_len(channels: u32) -> (len: usize)
    requires
        FRAMES_PER_READ * channels <= usize::MAX,
    ensures
        len == FRAMES_PER_READ * channels,
{
    FRAMES_PER_READ * channels as usize
}

/// The samples that a read of `n` frames of `channels` channels left in
/// `buffer`: none where it returned no frame or an error.
pub open spec fn frame_samples(buffer: Seq<i16>, n: int, channels: u32) -> Seq<i16> {
    if n > 0 {
        buffer.take(n * channels)
    } else {
        Seq::empty()
    }
}

/// Queues the samples that a read of `n` frames left in `buffer`, unless the
/// queue is closed.
pub fn queue_frames(queue: &mut SampleQueue, buffer: &[i16], n: i64, channels: u32)
    requires
        n > 0 ==> n * channels <= buffer@.len(),
    ensures
        final(queue)@ == old(queue)@ + taken_in(
            old(queue).accepting(),
            frame_samples(buffer@, n as int, channels),
        ),
        old(queue).accepting() && n > 0 ==> final(queue)@.len() == old(queue)@.len() + n * channels,
        old(queue).accepting() && n > 0 ==> final(queue)@ == old(queue)@ + buffer@.take(
            n * channels,
        ),
        !old(queue).accepting() || n <= 0 ==> final(queue)@ == old(queue)@,
        final(queue).accepting() == old(queue).accepting(),
{
    proof {
        assert(n > 0 ==> n * channels >= 0) by (nonlinear_arith)
            requires
                channels >= 0,
        ;
    }
    if n > 0 {
        let capacity: usize = buffer.len();
        assert(channels == 0 ==> n * channels == 0) by (nonlinear_arith);
        let count: usize = if channels == 0 {
            0
        } else {
            assert(n <= n * channels) by (nonlinear_arith)
                requires
                    n > 0,
                    channels > 0,
            ;
            assert(n <= capacity);
            n as usize * channels as usize
        };
        assert(buffer@.subrange(0, count as int) =~= frame_samples(buffer@, n as int, channels));
        queue.append(vstd::slice::slice_subrange(buffer, 0, count));
    } else {
        assert(queue@ =~= old(queue)@ + taken_in(
            old(queue).accepting(),
            frame_samples(buffer@, n as int, channels),
        ));
    }
}

// ---------------------------------------------------------------------------
// Laws
// ---------------------------------------------------------------------------

/// What the thread does from `phase` on, step by step, where the stop flag reads
/// `flags[i]` before the step at `i` and a read there returns `counts[i]`.
pub open spec fn thread_run(phase: ReaderPhase, flags: Seq<bool>, counts: Seq<int>) -> Seq<
    ReaderRequest,
>
    decreases flags.len(),
{
    if flags.len() == 0 {
        Seq::empty()
    } else {
        seq![phase.request(flags[0])] + thread_run(
            phase.after(flags[0], counts[0]),
            flags.skip(1),
            counts.skip(1),
        )
    }
}

/// The number of steps that a reading thread reads before it is told to stop or
/// a read fails.
pub open spec fn reads_made(flags: Seq<bool>, counts: Seq<int>) -> nat
    decreases flags.len(),
{
    if flags.len() == 0 || flags[0] {
        0
    } else if counts[0] < 0 {
        1
    } else {
        1 + reads_made(flags.skip(1), counts.skip(1))
    }
}

proof fn lemma_run_ending(phase: ReaderPhase, flags: Seq<bool>, counts: Seq<int>)
    requires
        flags.len() == counts.len(),
        phase != ReaderPhase::Reading,
    ensures
        thread_run(phase, flags, counts).len() == flags.len(),
        forall|i: int|
            0 <= i < flags.len() ==> #[trigger] thread_run(phase, flags, counts)[i] == ending(
                phase,
                i,
            ),
    decreases flags.len(),
{
    if flags.len() > 0 {
        let next = phase.after(flags[0], counts[0]);
        lemma_run_ending(next, flags.skip(1), counts.skip(1));
        assert forall|i: int| 0 <= i < flags.len() implies #[trigger] thread_run(
            phase,
            flags,
            counts,
        )[i] == ending(phase, i) by {
            if i > 0 {
                assert(thread_run(phase, flags, counts)[i] == thread_run(
                    next,
                    flags.skip(1),
                    counts.skip(1),
                )[i - 1]);
            }
        }
    }
}

/// The step at `i` of a thread that no longer reads.
spec fn ending(phase: ReaderPhase, i: int) -> ReaderRequest {
    let step = match phase {
        ReaderPhase::Closing => i + 1,
        ReaderPhase::Exiting => i + 2,
        _ => i,
    };
    if step == 0 {
        ReaderRequest::Stop
    } else if step == 1 {
        ReaderRequest::Close
    } else {
        ReaderRequest::Exit
    }
}

/// The thread reads until it is told to stop or a read fails; it then stops the
/// stream once, closes it once, in this order, and exits without reading again.
pub proof fn law_thread_stops_and_closes_once(flags: Seq<bool>, counts: Seq<int>)
    requires
        flags.len() == counts.len(),
    ensures
        ({
            let run = thread_run(ReaderPhase::Reading, flags, counts);
            let n = reads_made(flags, counts) as int;
            &&& run.len() == flags.len()
            &&& n <= run.len()
            &&& forall|i: int| 0 <= i < n ==> #[trigger] run[i] == ReaderRequest::Read
            &&& n < run.len() ==> run[n] == ReaderRequest::Stop
            &&& n + 1 < run.len() ==> run[n + 1] == ReaderRequest::Close
            &&& forall|i: int| n + 2 <= i < run.len() ==> #[trigger] run[i] == ReaderRequest::Exit
        }),
    decreases flags.len(),
{
    let run = thread_run(ReaderPhase::Reading, flags, counts);
    let n = reads_made(flags, counts) as int;
    if flags.len() > 0 {
        let next = ReaderPhase::Reading.after(flags[0], counts[0]);
        let tail = thread_run(next, flags.skip(1), counts.skip(1));
        if next == ReaderPhase::Reading {
            law_thread_stops_and_closes_once(flags.skip(1), counts.skip(1));
        } else {
            lemma_run_ending(next, flags.skip(1), counts.skip(1));
        }
        assert(forall|i: int| 0 < i < run.len() ==> #[trigger] run[i] == tail[i - 1]);
    }
}

/// The samples that a thread hands to the queue from `phase` on, where the read at
/// step `i` returns `counts[i]` and leaves `buffers[i]`.
pub open spec fn run_samples(
    phase: ReaderPhase,
    flags: Seq<bool>,
    counts: Seq<int>,
    buffers: Seq<Seq<i16>>,
    channels: u32,
) -> Seq<i16>
    decreases flags.len(),
{
    if flags.len() == 0 {
        Seq::empty()
    } else {
        let now = if phase.request(flags[0]) is Read {
            frame_samples(buffers[0], counts[0], channels)
        } else {
            Seq::empty()
        };
        now + run_samples(
            phase.after(flags[0], counts[0]),
            flags.skip(1),
            counts.skip(1),
            buffers.skip(1),
            channels,
        )
    }
}

/// The samples of all these reads, in order.
pub open spec fn read_frames(counts: Seq<int>, buffers: Seq<Seq<i16>>, channels: u32) -> Seq<i16>
    decreases counts.len(),
{
    if counts.len() == 0 {
        Seq::empty()
    } else {
        frame_samples(buffers[0], counts[0], channels) + read_frames(
            counts.skip(1),
            buffers.skip(1),
            channels,
        )
    }
}

proof fn lemma_ending_hands_on_nothing(
    phase: ReaderPhase,
    flags: Seq<bool>,
    counts: Seq<int>,
    buffers: Seq<Seq<i16>>,
    channels: u32,
)
    requires
        phase != ReaderPhase::Reading,
    ensures
        run_samples(phase, flags, counts, buffers, channels) == Seq::<i16>::empty(),
    decreases flags.len(),
{
    if flags.len() > 0 {
        lemma_ending_hands_on_nothing(
            phase.after(flags[0], counts[0]),
            flags.skip(1),
            counts.skip(1),
            buffers.skip(1),
            channels,
        );
    }
}

/// Over its whole run the thread hands on the samples of every read that it
/// makes, in order and once each, and no others.
pub proof fn law_thread_hands_on_every_read(
    flags: Seq<bool>,
    counts: Seq<int>,
    buffers: Seq<Seq<i16>>,
    channels: u32,
)
    requires
        flags.len() == counts.len(),
        flags.len() == buffers.len(),
    ensures
        ({
            let n = reads_made(flags, counts) as int;
            run_samples(ReaderPhase::Reading, flags, counts, buffers, channels) == read_frames(
                counts.take(n),
                buffers.take(n),
                channels,
            )
        }),
    decreases flags.len(),
{
    let n = reads_made(flags, counts) as int;
    if flags.len() > 0 {
        let next = ReaderPhase::Reading.after(flags[0], counts[0]);
        let (rest_flags, rest_counts, rest_buffers) = (
            flags.skip(1),
            counts.skip(1),
            buffers.skip(1),
        );
        law_thread_stops_and_closes_once(flags, counts);
        if next == ReaderPhase::Reading {
            law_thread_hands_on_every_read(rest_flags, rest_counts, rest_buffers, channels);
            assert(counts.take(n).skip(1) =~= rest_counts.take(n - 1));
            assert(buffers.take(n).skip(1) =~= rest_buffers.take(n - 1));
            assert(counts.take(n)[0] == counts[0] && buffers.take(n)[0] == buffers[0]);
        } else {
            lemma_ending_hands_on_nothing(next, rest_flags, rest_counts, rest_buffers, channels);
            if n == 1 {
                assert(counts.take(n).skip(1) =~= Seq::empty());
                assert(read_frames(counts.take(n).skip(1), buffers.take(n).skip(1), channels)
                    =~= Seq::empty());
                assert(counts.take(n)[0] == counts[0] && buffers.take(n)[0] == buffers[0]);
            }
        }
    }
}

/// A read that returns `n` frames adds each of their samples, and nothing else,
/// behind what waits: `n` times the channel count, the sample at `i` being the one
/// at `i` of the buffer, be it one frame or all that were asked for. A read that
/// returns none, or an error, adds nothing.
pub proof fn law_every_frame_is_queued(
    waiting: Seq<i16>,
    buffer: Seq<i16>,
    n: int,
    channels: u32,
    after: Seq<i16>,
)
    requires
        n > 0 ==> n * channels <= buffer.len(),
        after == waiting + taken_in(true, frame_samples(buffer, n, channels)),
    ensures
        n > 0 ==> after.len() == waiting.len() + n * channels,
        n <= 0 ==> after == waiting,
        forall|i: int| 0 <= i < waiting.len() ==> after[i] == waiting[i],
        n > 0 ==> forall|i: int|
            0 <= i < n * channels ==> after[waiting.len() + i] == #[trigger] buffer[i],
{
    if n > 0 {
        assert(n * channels >= 0) by (nonlinear_arith)
            requires
                n > 0,
                channels >= 0,
        ;
    } else {
        assert(after =~= waiting);
    }
}

/// What a read of several frames queues is what reading them in two parts queues.
pub proof fn law_frames_join(buffer: Seq<i16>, first: int, second: int, channels: u32)
    requires
        first > 0,
        second > 0,
        (first + second) * channels <= buffer.len(),
    ensures
        frame_samples(buffer, first + second, channels) == frame_samples(buffer, first, channels)
            + frame_samples(buffer.skip(first * channels), second, channels),
{
    assert((first + second) * channels == first * channels + second * channels)
        by (nonlinear_arith);
    assert(first * channels >= 0 && second * channels >= 0) by (nonlinear_arith)
        requires
            first > 0,
            second > 0,
            channels >= 0,
    ;
    assert(frame_samples(buffer, first + second, channels) =~= frame_samples(
        buffer,
        first,
        channels,
    ) + frame_samples(buffer.skip(first * channels), second, channels));
}

/// A reading thread reads whenever it has not been told to stop, and goes on
/// reading after any read that did not fail, be it of many frames or of none; a
/// failed read and the stop flag both lead to the stream being stopped next, then
/// closed, then to the end, whatever the flag and the counts then are.
pub proof fn law_thread_steps(stop: bool, n: int, later: bool, m: int)
    ensures
        ReaderPhase::Reading.request(false) == ReaderRequest::Read,
        ReaderPhase::Reading.request(true) == ReaderRequest::Stop,
        n >= 0 ==> ReaderPhase::Reading.after(false, n) == ReaderPhase::Reading,
        n < 0 ==> ReaderPhase::Reading.after(false, n).request(later) == ReaderRequest::Stop,
        n < 0 ==> ReaderPhase::Reading.after(false, n).after(later, m).request(stop)
            == ReaderRequest::Close,
        ReaderPhase::Reading.after(true, n).request(later) == ReaderRequest::Close,
        ReaderPhase::Reading.after(true, n).after(later, m).request(stop) == ReaderRequest::Exit,
        ReaderPhase::Exiting.after(stop, n).request(later) == ReaderRequest::Exit,
{
}

} // verus!
