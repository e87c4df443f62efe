//! The recorder behind the C interface: the table of live recordings, and what
//! each function of the interface does and returns.
//!
//! `microphone_start` opens a platform capture and returns a recording id; the
//! caller then polls `microphone_read` to drain captured S16LE PCM, and calls
//! `microphone_stop` / `microphone_recording_free` when done.
//!
//! The platform's source of a recording is a value that the recorder keeps and
//! hands out but never looks into. Opening a source and reading from it happen
//! outside; the functions that need it take what it gave.

use std::collections::HashMap;

use vstd::prelude::*;

use crate::loader::NativeLibrary;
use crate::pcm::{left_samples, read_samples};
use crate::text::{c_text, has_nul};

verus! {

broadcast use {vstd::std_specs::hash::group_hash_axioms, vstd::string::group_string_axioms};

/// The recording is in progress.
pub const STATE_RECORDING: u8 = 0;

/// The recording was stopped.
pub const STATE_STOPPED: u8 = 1;

/// Reading from the recording failed.
pub const STATE_ERROR: u8 = 2;

/// The platform that capture runs on.
#[derive(Clone, Copy, Debug, PartialEq, Eq)]
pub enum Platform {
    Macos,
    Ios,
    Android,
    Other,
}

impl Platform {
    /// The audio library that capture on this platform uses, if it is
    /// supported.
    pub open spec fn spec_library(self) -> Option<NativeLibrary> {
        match self {
            Platform::Macos => Some(NativeLibrary::AudioToolbox { macos: true }),
            Platform::Ios => Some(NativeLibrary::AudioToolbox { macos: false }),
            Platform::Android => Some(NativeLibrary::Aaudio),
            Platform::Other => None,
        }
    }

    /// The audio library that capture on this platform uses, if it is
    /// supported.
    pub fn library(self) -> (library: Option<NativeLibrary>)
        ensures
            library == self.spec_library(),
    {
        match self {
            Platform::Macos => Some(NativeLibrary::AudioToolbox { macos: true }),
            Platform::Ios => Some(NativeLibrary::AudioToolbox { macos: false }),
            Platform::Android => Some(NativeLibrary::Aaudio),
            Platform::Other => None,
        }
    }
}

/// How to open a source.
#[derive(Clone, Copy, Debug, PartialEq, Eq)]
pub enum SourceKind {
    /// An AudioQueue, on the default device. iOS gates audio input behind an
    /// active AVAudioSession; macOS does not.
    CoreAudio { activate_session: bool },
    /// An AAudio stream.
    Aaudio,
}

/// An opened source, and the channel count that it captures.
pub struct OpenedSource<S> {
    pub source: S,
    pub channels: u32,
}

/// A single in-progress or finished capture.
pub struct Recording<S> {
    pub source: S,
    pub state: u8,
    pub rate: u32,
    pub channels: u32,
    pub error: Option<String>,
}

/// A recorder by what its table holds.
#[verifier::ext_equal]
#[verifier::reject_recursive_types(S)]
pub struct RecorderState<S> {
    pub platform: Platform,
    pub recordings: Map<u64, Recording<S>>,
    pub next_id: u64,
}

impl<S> RecorderState<S> {
    /// A recorder without recordings.
    pub open spec fn empty(platform: Platform) -> RecorderState<S> {
        RecorderState { platform, recordings: Map::empty(), next_id: 1 }
    }

    /// A recording from `opened` has been started, under the next id.
    pub open spec fn started(self, rate: u32, opened: OpenedSource<S>) -> RecorderState<S> {
        let recording = Recording {
            source: opened.source,
            state: STATE_RECORDING,
            rate,
            channels: opened.channels,
            error: None,
        };
        RecorderState {
            recordings: self.recordings.insert(self.next_id, recording),
            next_id: if self.next_id == u64::MAX {
                0
            } else {
                (self.next_id + 1) as u64
            },
            ..self
        }
    }

    /// The recording `id`, where there is one, has been stopped.
    pub open spec fn stopped(self, id: u64) -> RecorderState<S> {
        if self.recordings.contains_key(id) {
            let recording = Recording { state: STATE_STOPPED, ..self.recordings[id] };
            RecorderState { recordings: self.recordings.insert(id, recording), ..self }
        } else {
            self
        }
    }

    /// Reading from the recording `id`, where there is one, has failed.
    pub open spec fn failed(self, id: u64, error: String) -> RecorderState<S> {
        if self.recordings.contains_key(id) {
            let recording = Recording {
                state: STATE_ERROR,
                error: Some(error),
                ..self.recordings[id]
            };
            RecorderState { recordings: self.recordings.insert(id, recording), ..self }
        } else {
            self
        }
    }

    /// The recording `id` has been removed.
    pub open spec fn freed(self, id: u64) -> RecorderState<S> {
        RecorderState { recordings: self.recordings.remove(id), ..self }
    }

    /// What [`microphone_state`] returns.
    pub open spec fn state_code(self, id: u64) -> int {
        if self.recordings.contains_key(id) {
            self.recordings[id].state as int
        } else {
            -1
        }
    }

    /// What [`microphone_sample_rate`] returns.
    pub open spec fn rate_code(self, id: u64) -> int {
        if self.recordings.contains_key(id) {
            (self.recordings[id].rate as i32) as int
        } else {
            -1
        }
    }

    /// What [`microphone_channels`] returns.
    pub open spec fn channels_code(self, id: u64) -> int {
        if self.recordings.contains_key(id) {
            (self.recordings[id].channels as i32) as int
        } else {
            -1
        }
    }
}

/// Owns the table of live recordings.
#[verifier::reject_recursive_types(S)]
pub struct Recorder<S> {
    platform: Platform,
    recordings: HashMap<u64, Recording<S>>,
    next_id: u64,
}

impl<S> View for Recorder<S> {
    type V = RecorderState<S>;

    closed spec fn view(&self) -> RecorderState<S> {
        RecorderState {
            platform: self.platform,
            recordings: self.recordings@,
            next_id: self.next_id,
        }
    }
}

impl<S> Recorder<S> {
    /// Creates a recorder for `platform`, where `loaded` tells how loading the
    /// platform's library went. Without one there is nothing to load.
    pub fn new(platform: Platform, loaded: Result<(), String>) -> (recorder: Result<
        Recorder<S>,
        String,
    >)
        ensures
            match recorder {
                Ok(recorder) => {
                    &&& platform.spec_library() is None || loaded is Ok
                    &&& recorder@ == RecorderState::<S>::empty(platform)
                },
                Err(error) => platform.spec_library() is Some && loaded == Err::<(), String>(
                    error,
                ),
            },
    {
        if platform.library().is_some() {
            match loaded {
                Ok(_) => {},
                Err(error) => {
                    return Err(error);
                },
            }
        }
        Ok(Recorder { platform, recordings: HashMap::new(), next_id: 1 })
    }

    /// How to open a source on this platform.
    pub fn open_source(&self) -> (kind: Result<SourceKind, String>)
        ensures
            match self@.platform {
                Platform::Macos => kind == Ok::<SourceKind, String>(
                    SourceKind::CoreAudio { activate_session: false },
                ),
                Platform::Ios => kind == Ok::<SourceKind, String>(
                    SourceKind::CoreAudio { activate_session: true },
                ),
                Platform::Android => kind == Ok::<SourceKind, String>(SourceKind::Aaudio),
                Platform::Other => kind is Err && kind->Err_0@
                    == "native capture is not implemented on this platform yet"@,
            },
    {
        match self.platform {
            Platform::Macos => Ok(SourceKind::CoreAudio { activate_session: false }),
            Platform::Ios => Ok(SourceKind::CoreAudio { activate_session: true }),
            Platform::Android => Ok(SourceKind::Aaudio),
            Platform::Other => Err(
                String::from_str("native capture is not implemented on this platform yet"),
            ),
        }
    }

    /// Starts a recording at `rate` from `opened`, which opening a source gave.
    pub fn start(&mut self, rate: u32, opened: Result<OpenedSource<S>, String>) -> (id: Result<
        u64,
        String,
    >)
        ensures
            match opened {
                Ok(source) => {
                    &&& id == Ok::<u64, String>(old(self)@.next_id)
                    &&& final(self)@ == old(self)@.started(rate, source)
                },
                Err(error) => id == Err::<u64, String>(error) && final(self)@ == old(self)@,
            },
    {
        match opened {
            Ok(opened) => {
                let id: u64 = self.next_id;
                self.next_id = id.wrapping_add(1);
                let recording = Recording {
                    source: opened.source,
                    state: STATE_RECORDING,
                    rate,
                    channels: opened.channels,
                    error: None,
                };
                self.recordings.insert(id, recording);
                Ok(id)
            },
            Err(error) => Err(error),
        }
    }

    /// The recording `id`, if there is one.
    pub fn get(&self, id: u64) -> (recording: Option<&Recording<S>>)
        ensures
            recording == if self@.recordings.contains_key(id) {
                Some(&self@.recordings[id])
            } else {
                None::<&Recording<S>>
            },
    {
        self.recordings.get(&id)
    }

    /// Marks the recording `id`, if there is one, as stopped.
    fn mark_stopped(&mut self, id: u64)
        ensures
            final(self)@ == old(self)@.stopped(id),
    {
        match self.recordings.remove(&id) {
            Some(mut recording) => {
                recording.state = STATE_STOPPED;
                self.recordings.insert(id, recording);
                assert(self@ == old(self)@.stopped(id));
            },
            None => {
                assert(self@.recordings =~= old(self)@.recordings);
            },
        }
    }

    /// Marks the recording `id`, if there is one, as failed.
    fn mark_failed(&mut self, id: u64, error: String)
        ensures
            final(self)@ == old(self)@.failed(id, error),
    {
        match self.recordings.remove(&id) {
            Some(mut recording) => {
                recording.state = STATE_ERROR;
                recording.error = Some(error);
                self.recordings.insert(id, recording);
                assert(self@ == old(self)@.failed(id, error));
            },
            None => {
                assert(self@.recordings =~= old(self)@.recordings);
            },
        }
    }
}

/// The most recent error message of a thread.
pub struct LastError {
    text: String,
}

impl View for LastError {
    type V = Seq<char>;

    closed spec fn view(&self) -> Seq<char> {
        self.text@
    }
}

impl LastError {
    /// No error yet.
    pub fn new() -> (last_error: LastError)
        ensures
            last_error@ == Seq::<char>::empty(),
    {
        LastError { text: String::new() }
    }

    /// Remembers `message`. One that has no form as a C string is remembered as
    /// the empty text.
    pub fn set_last_error(&mut self, message: String)
        ensures
            final(self)@ == c_text(message@),
    {
        self.text = if has_nul(message.as_str()) {
            String::new()
        } else {
            message
        };
    }
}

// ---------------------------------------------------------------------------
// The C interface
//
// A recorder pointer that may be null is an `Option` here.
// ---------------------------------------------------------------------------

/// Remembers that there is no recorder.
fn set_null_recorder(last_error: &mut LastError)
    ensures
        final(last_error)@ == "null recorder"@,
{
    last_error.set_last_error(String::from_str("null recorder"));
    proof {
        reveal_strlit("null recorder");
        assert(!"null recorder"@.contains('\0'));
    }
}

/// The recorder, if there is one; that there is none is remembered as the last
/// error.
pub fn with_recorder<'a, S>(recorder: Option<&'a Recorder<S>>, last_error: &mut LastError) -> (out:
    Option<&'a Recorder<S>>)
    ensures
        out == recorder,
        final(last_error)@ == if recorder is Some {
            old(last_error)@
        } else {
            "null recorder"@
        },
{
    if recorder.is_none() {
        set_null_recorder(last_error);
    }
    recorder
}

/// Returns the ABI version. Bumped when the C ABI changes.
pub fn microphone_abi_version() -> (version: u32)
    ensures
        version == 1,
{
    1
}

/// Creates a recorder for `platform`, where `loaded` tells how loading the
/// platform's library went. Returns none on failure; see
/// [`microphone_last_error`].
pub fn microphone_recorder_new<S>(
    platform: Platform,
    loaded: Result<(), String>,
    last_error: &mut LastError,
) -> (recorder: Option<Recorder<S>>)
    ensures
        match recorder {
            Some(recorder) => {
                &&& platform.spec_library() is None || loaded is Ok
                &&& recorder@ == RecorderState::<S>::empty(platform)
                &&& final(last_error)@ == old(last_error)@
            },
            None => {
                &&& platform.spec_library() is Some
                &&& loaded is Err
                &&& final(last_error)@ == c_text(loaded->Err_0@)
            },
        },
{
    match Recorder::new(platform, loaded) {
        Ok(recorder) => Some(recorder),
        Err(error) => {
            last_error.set_last_error(error);
            None
        },
    }
}

/// Empties a recorder that is about to be freed, stopping all recordings.
pub fn microphone_recorder_free<S>(recorder: Option<&mut Recorder<S>>)
    ensures
        match recorder {
            Some(recorder) => final(recorder)@ == (RecorderState {
                recordings: Map::<u64, Recording<S>>::empty(),
                ..recorder@
            }),
            None => true,
        },
{
    match recorder {
        Some(recorder) => {
            recorder.recordings.clear();
        },
        None => {},
    }
}

/// Starts capturing at `rate` Hz from `opened`, which opening a source gave.
/// Returns a recording id, or 0 on error (see [`microphone_last_error`]).
/// Without a recorder no source is opened, and `opened` is not looked at.
pub fn microphone_start<S>(
    recorder: Option<&mut Recorder<S>>,
    rate: u32,
    opened: Result<OpenedSource<S>, String>,
    last_error: &mut LastError,
) -> (id: u64)
    ensures
        match recorder {
            Some(recorder) => match opened {
                Ok(source) => {
                    &&& id == recorder@.next_id
                    &&& final(recorder)@ == recorder@.started(rate, source)
                    &&& final(last_error)@ == old(last_error)@
                },
                Err(error) => {
                    &&& id == 0
                    &&& final(recorder)@ == recorder@
                    &&& final(last_error)@ == c_text(error@)
                },
            },
            None => id == 0 && final(last_error)@ == "null recorder"@,
        },
{
    match recorder {
        Some(recorder) => match recorder.start(rate, opened) {
            Ok(id) => id,
            Err(error) => {
                last_error.set_last_error(error);
                0
            },
        },
        None => {
            set_null_recorder(last_error);
            0
        },
    }
}

/// What a read has to do before it can return.
pub enum ReadRequest<'a, S> {
    /// Nothing: return this.
    Return(isize),
    /// Read up to `max` samples from the source and hand them to
    /// [`microphone_read`].
    Pull { source: &'a S, max: usize },
}

impl<S> RecorderState<S> {
    /// How many samples a read of the recording `id` asks of its source, where it
    /// asks for any: as many as the buffer holds.
    pub open spec fn pull(self, id: u64, out_is_null: bool, cap: usize) -> Option<usize> {
        if self.recordings.contains_key(id) && !out_is_null && cap != 0 {
            Some(cap)
        } else {
            None
        }
    }
}

/// Begins to drain up to `cap` captured samples into a buffer, which may be
/// null. Returns -1 if the id is unknown.
pub fn microphone_read_request<'a, S>(
    recorder: Option<&'a Recorder<S>>,
    id: u64,
    out_is_null: bool,
    cap: usize,
    last_error: &mut LastError,
) -> (request: ReadRequest<'a, S>)
    ensures
        match recorder {
            Some(recorder) => if !recorder@.recordings.contains_key(id) {
                &&& request == ReadRequest::<S>::Return((-1) as isize)
                &&& final(last_error)@ == "unknown recording id"@
            } else {
                &&& request == match recorder@.pull(id, out_is_null, cap) {
                    Some(max) => ReadRequest::Pull {
                        source: &recorder@.recordings[id].source,
                        max,
                    },
                    None => ReadRequest::<S>::Return(0),
                }
                &&& !out_is_null && cap > 0 ==> request == (ReadRequest::Pull {
                    source: &recorder@.recordings[id].source,
                    max: cap,
                })
                &&& out_is_null || cap == 0 ==> request == ReadRequest::<S>::Return(0)
                &&& final(last_error)@ == old(last_error)@
            },
            None => {
                &&& request == ReadRequest::<S>::Return((-1) as isize)
                &&& final(last_error)@ == "null recorder"@
            },
        },
{
    let recorder = match with_recorder(recorder, last_error) {
        Some(recorder) => recorder,
        None => {
            return ReadRequest::Return(-1);
        },
    };
    match recorder.get(id) {
        Some(recording) => {
            if out_is_null || cap == 0 {
                ReadRequest::Return(0)
            } else {
                ReadRequest::Pull { source: &recording.source, max: cap }
            }
        },
        None => {
            last_error.set_last_error(String::from_str("unknown recording id"));
            proof {
                reveal_strlit("unknown recording id");
                assert(!"unknown recording id"@.contains('\0'));
            }
            ReadRequest::Return(-1)
        },
    }
}

/// What a read returns, and the samples to write to the buffer.
pub struct ReadOutcome {
    pub status: isize,
    pub samples: Vec<i16>,
}

/// What a read returns and writes where its source gave `pulled`.
pub open spec fn read_outcome(pulled: Result<Seq<i16>, String>) -> (isize, Seq<i16>) {
    match pulled {
        Ok(samples) => (samples.len() as isize, samples),
        Err(_) => ((-1) as isize, Seq::empty()),
    }
}

/// Ends a read of the recording `id` with what its source gave. Returns the
/// number of samples written, or -1 on error.
pub fn microphone_read<S>(
    recorder: &mut Recorder<S>,
    id: u64,
    pulled: Result<Vec<i16>, String>,
    last_error: &mut LastError,
) -> (outcome: ReadOutcome)
    ensures
        match pulled {
            Ok(samples) => {
                &&& (outcome.status, outcome.samples@) == read_outcome(Ok(samples@))
                &&& final(recorder)@ == old(recorder)@
                &&& final(last_error)@ == old(last_error)@
            },
            Err(error) => {
                &&& (outcome.status, outcome.samples@) == read_outcome(Err(error))
                &&& final(recorder)@ == old(recorder)@.failed(id, error)
                &&& final(last_error)@ == c_text(error@)
            },
        },
{
    match pulled {
        Ok(samples) => {
            let n: usize = samples.len();
            ReadOutcome { status: n as isize, samples }
        },
        Err(error) => {
            let message = error.clone();
            recorder.mark_failed(id, error);
            last_error.set_last_error(message);
            ReadOutcome { status: -1, samples: Vec::new() }
        },
    }
}

/// Returns the recording state (0 recording, 1 stopped, 2 error), or -1 if the
/// id is unknown.
pub fn microphone_state<S>(recorder: Option<&Recorder<S>>, id: u64, last_error: &mut LastError) -> (
state: i32)
    ensures
        match recorder {
            Some(recorder) => state == recorder@.state_code(id) && final(last_error)@ == old(
                last_error,
            )@,
            None => state == -1 && final(last_error)@ == "null recorder"@,
        },
{
    match with_recorder(recorder, last_error) {
        Some(recorder) => match recorder.get(id) {
            Some(recording) => recording.state as i32,
            None => -1,
        },
        None => -1,
    }
}

/// Returns the capture sample rate in Hz, or -1 if the id is unknown.
pub fn microphone_sample_rate<S>(
    recorder: Option<&Recorder<S>>,
    id: u64,
    last_error: &mut LastError,
) -> (rate: i32)
    ensures
        match recorder {
            Some(recorder) => rate == recorder@.rate_code(id) && final(last_error)@ == old(
                last_error,
            )@,
            None => rate == -1 && final(last_error)@ == "null recorder"@,
        },
{
    match with_recorder(recorder, last_error) {
        Some(recorder) => match recorder.get(id) {
            Some(recording) => recording.rate as i32,
            None => -1,
        },
        None => -1,
    }
}

/// Returns the capture channel count, or -1 if the id is unknown.
pub fn microphone_channels<S>(
    recorder: Option<&Recorder<S>>,
    id: u64,
    last_error: &mut LastError,
) -> (channels: i32)
    ensures
        match recorder {
            Some(recorder) => channels == recorder@.channels_code(id) && final(last_error)@ == old(
                last_error,
            )@,
            None => channels == -1 && final(last_error)@ == "null recorder"@,
        },
{
    match with_recorder(recorder, last_error) {
        Some(recorder) => match recorder.get(id) {
            Some(recording) => recording.channels as i32,
            None => -1,
        },
        None => -1,
    }
}

/// What a stop returns, and the source that has to be stopped before it does
/// (see [`crate::pcm::PcmSource::stop`]).
pub struct StopOutcome<'a, S> {
    pub status: i32,
    pub source: Option<&'a S>,
}

/// Stops a recording: its source takes no more samples in, what waits can still
/// be read. Returns 0 on success, -1 if the id is unknown.
pub fn microphone_stop<'a, S>(
    recorder: Option<&'a mut Recorder<S>>,
    id: u64,
    last_error: &mut LastError,
) -> (outcome: StopOutcome<'a, S>)
    ensures
        match recorder {
            Some(recorder) => {
                &&& outcome == if recorder@.recordings.contains_key(id) {
                    StopOutcome { status: 0, source: Some(&recorder@.recordings[id].source) }
                } else {
                    StopOutcome { status: (-1) as i32, source: None::<&S> }
                }
                &&& final(recorder)@ == recorder@.stopped(id)
                &&& final(last_error)@ == old(last_error)@
            },
            None => {
                &&& outcome == (StopOutcome { status: (-1) as i32, source: None::<&S> })
                &&& final(last_error)@ == "null recorder"@
            },
        },
{
    match recorder {
        Some(recorder) => {
            recorder.mark_stopped(id);
            match recorder.get(id) {
                Some(recording) => StopOutcome { status: 0, source: Some(&recording.source) },
                None => StopOutcome { status: -1, source: None },
            }
        },
        None => {
            set_null_recorder(last_error);
            StopOutcome { status: -1, source: None }
        },
    }
}

/// Stops (if needed) and removes a recording, releasing the platform capture.
/// Returns 0 on success, -1 if the id is unknown.
pub fn microphone_recording_free<S>(
    recorder: Option<&mut Recorder<S>>,
    id: u64,
    last_error: &mut LastError,
) -> (status: i32)
    ensures
        match recorder {
            Some(recorder) => {
                &&& status == if recorder@.recordings.contains_key(id) {
                    0i32
                } else {
                    (-1) as i32
                }
                &&& final(recorder)@ == recorder@.freed(id)
                &&& final(last_error)@ == old(last_error)@
            },
            None => status == -1 && final(last_error)@ == "null recorder"@,
        },
{
    match recorder {
        Some(recorder) => match recorder.recordings.remove(&id) {
            Some(_) => 0,
            None => -1,
        },
        None => {
            set_null_recorder(last_error);
            -1
        },
    }
}

/// Returns the most recent error message on the calling thread.
pub fn microphone_last_error(last_error: &LastError) -> (message: &str)
    ensures
        message@ == last_error@,
{
    last_error.text.as_str()
}

// ---------------------------------------------------------------------------
// Laws
// ---------------------------------------------------------------------------

impl<S> RecorderState<S> {
    /// Every live recording has an id that was given out, and no id is 0.
    pub open spec fn ids_given_out(self) -> bool {
        &&& self.next_id >= 1
        &&& forall|id: u64| #[trigger]
            self.recordings.contains_key(id) ==> 1 <= id < self.next_id
    }
}

/// Ids are never reused: a recording is started under an id other than 0 that no
/// live recording has, later ids are larger, and no operation changes that. (The
/// last id of all is left out, after which the count starts over.)
pub proof fn law_ids_are_fresh<S>(
    recorder: RecorderState<S>,
    rate: u32,
    opened: OpenedSource<S>,
    id: u64,
    error: String,
)
    requires
        recorder.ids_given_out(),
        recorder.next_id < u64::MAX,
    ensures
        recorder.next_id != 0,
        !recorder.recordings.contains_key(recorder.next_id),
        recorder.started(rate, opened).ids_given_out(),
        recorder.started(rate, opened).next_id > recorder.next_id,
        recorder.stopped(id).ids_given_out(),
        recorder.failed(id, error).ids_given_out(),
        recorder.freed(id).ids_given_out(),
        recorder.stopped(id).next_id == recorder.next_id,
        recorder.failed(id, error).next_id == recorder.next_id,
        recorder.freed(id).next_id == recorder.next_id,
{
}

/// What happens to a recorder.
pub enum RecorderEvent<S> {
    /// A recording was started.
    Started { rate: u32, opened: OpenedSource<S> },
    /// The recording of this id was stopped.
    Stopped(u64),
    /// Reading from the recording of this id failed.
    Failed(u64, String),
    /// The recording of this id was freed.
    Freed(u64),
}

/// A recorder, first without recordings, after `events`.
pub open spec fn recorder_after<S>(
    platform: Platform,
    events: Seq<RecorderEvent<S>>,
) -> RecorderState<S>
    decreases events.len(),
{
    if events.len() == 0 {
        RecorderState::empty(platform)
    } else {
        let before = recorder_after(platform, events.drop_last());
        match events.last() {
            RecorderEvent::Started { rate, opened } => before.started(rate, opened),
            RecorderEvent::Stopped(id) => before.stopped(id),
            RecorderEvent::Failed(id, error) => before.failed(id, error),
            RecorderEvent::Freed(id) => before.freed(id),
        }
    }
}

/// How many recordings were started among `events`.
pub open spec fn starts<S>(events: Seq<RecorderEvent<S>>) -> nat
    decreases events.len(),
{
    if events.len() == 0 {
        0
    } else {
        starts(events.drop_last()) + if events.last() is Started {
            1nat
        } else {
            0nat
        }
    }
}

/// Ids count the recordings started, whatever happened in between: the first is
/// 1, each later one is one larger, freed or not. So no two recordings of a
/// recorder ever have the same id, and every live one has an id that was given
/// out. (That holds for as many recordings as there are ids.)
pub proof fn law_ids_count_starts<S>(platform: Platform, events: Seq<RecorderEvent<S>>)
    requires
        starts(events) < u64::MAX,
    ensures
        recorder_after(platform, events).next_id == starts(events) + 1,
        recorder_after(platform, events).ids_given_out(),
        recorder_after(platform, events).platform == platform,
    decreases events.len(),
{
    if events.len() > 0 {
        law_ids_count_starts(platform, events.drop_last());
    }
}

/// What the state of the recording `id` is after `events`, by the latest of them
/// that bears on it: 0 from its start, 1 from a stop, 2 from a failed read, and
/// -1 where it was not started or is freed.
pub open spec fn latest_state<S>(events: Seq<RecorderEvent<S>>, id: u64) -> int
    decreases events.len(),
{
    if events.len() == 0 {
        -1
    } else {
        let earlier = events.drop_last();
        let before = latest_state(earlier, id);
        match events.last() {
            RecorderEvent::Started { .. } => if id == starts(earlier) + 1 {
                0
            } else {
                before
            },
            RecorderEvent::Stopped(other) => if other == id && before != -1 {
                1
            } else {
                before
            },
            RecorderEvent::Failed(other, _) => if other == id && before != -1 {
                2
            } else {
                before
            },
            RecorderEvent::Freed(other) => if other == id {
                -1
            } else {
                before
            },
        }
    }
}

/// Over a whole history, the latest stop or failed read decides the state that a
/// recording reports.
pub proof fn law_latest_event_decides_state<S>(
    platform: Platform,
    events: Seq<RecorderEvent<S>>,
    id: u64,
)
    requires
        starts(events) < u64::MAX,
    ensures
        recorder_after(platform, events).state_code(id) == latest_state(events, id),
    decreases events.len(),
{
    if events.len() > 0 {
        law_latest_event_decides_state(platform, events.drop_last(), id);
        law_ids_count_starts(platform, events.drop_last());
    }
}

/// A new recorder gives out ids from 1 on and knows none.
pub proof fn law_new_recorder_is_empty<S>(platform: Platform, id: u64)
    ensures
        RecorderState::<S>::empty(platform).ids_given_out(),
        RecorderState::<S>::empty(platform).next_id == 1,
        RecorderState::<S>::empty(platform).state_code(id) == -1,
{
}

/// A started recording reports that it is recording, the rate that was asked for
/// and the channel count of its source.
pub proof fn law_started_recording_reports<S>(
    recorder: RecorderState<S>,
    rate: u32,
    opened: OpenedSource<S>,
)
    ensures
        ({
            let after = recorder.started(rate, opened);
            let id = recorder.next_id;
            &&& after.state_code(id) == 0
            &&& rate <= i32::MAX ==> after.rate_code(id) == rate
            &&& opened.channels <= i32::MAX ==> after.channels_code(id) == opened.channels
            &&& after.recordings[id].source == opened.source
            &&& after.recordings[id].error is None
        }),
{
}

/// A stopped recording reports that it is stopped, and can still be read: its
/// source stays, as do its rate, its channel count and its error.
pub proof fn law_stopped_recording_stays_readable<S>(recorder: RecorderState<S>, id: u64)
    requires
        recorder.recordings.contains_key(id),
    ensures
        ({
            let after = recorder.stopped(id);
            &&& after.state_code(id) == 1
            &&& after.recordings.contains_key(id)
            &&& after.recordings[id].source == recorder.recordings[id].source
            &&& after.recordings[id].error == recorder.recordings[id].error
            &&& after.rate_code(id) == recorder.rate_code(id)
            &&& after.channels_code(id) == recorder.channels_code(id)
            &&& after.stopped(id) == after
        }),
{
    let after = recorder.stopped(id);
    assert(after.stopped(id).recordings =~= after.recordings);
}

/// A recording that could not be read reports the error, until it is stopped.
pub proof fn law_failed_recording_reports<S>(recorder: RecorderState<S>, id: u64, error: String)
    requires
        recorder.recordings.contains_key(id),
    ensures
        recorder.failed(id, error).state_code(id) == 2,
        recorder.failed(id, error).recordings[id].error == Some(error),
        recorder.failed(id, error).stopped(id).state_code(id) == 1,
        recorder.failed(id, error).stopped(id).recordings[id].error == Some(error),
{
}

/// A freed recording is unknown: every query returns -1 and stopping or freeing
/// it again changes nothing.
pub proof fn law_freed_recording_is_unknown<S>(recorder: RecorderState<S>, id: u64)
    ensures
        ({
            let after = recorder.freed(id);
            &&& after.state_code(id) == -1
            &&& after.rate_code(id) == -1
            &&& after.channels_code(id) == -1
            &&& !after.recordings.contains_key(id)
            &&& after.stopped(id) == after
            &&& after.freed(id) == after
        }),
{
    assert(recorder.freed(id).freed(id).recordings =~= recorder.freed(id).recordings);
}

/// No operation on one recording touches another.
pub proof fn law_recordings_are_independent<S>(
    recorder: RecorderState<S>,
    rate: u32,
    opened: OpenedSource<S>,
    id: u64,
    error: String,
    other: u64,
)
    requires
        other != id,
    ensures
        ({
            let known = recorder.recordings.contains_key(other);
            &&& recorder.stopped(id).recordings.contains_key(other) == known
            &&& recorder.failed(id, error).recordings.contains_key(other) == known
            &&& recorder.freed(id).recordings.contains_key(other) == known
            &&& known ==> recorder.stopped(id).recordings[other] == recorder.recordings[other]
            &&& known ==> recorder.failed(id, error).recordings[other]
                == recorder.recordings[other]
            &&& known ==> recorder.freed(id).recordings[other] == recorder.recordings[other]
            &&& other != recorder.next_id ==> {
                &&& recorder.started(rate, opened).recordings.contains_key(other) == known
                &&& known ==> recorder.started(rate, opened).recordings[other]
                    == recorder.recordings[other]
            }
        }),
{
}

/// A read of a known recording into a buffer of any size but none delivers the
/// next samples of the recording's source: it asks the source for as many as the
/// buffer holds and, with what the source then reads handed on, returns the
/// smaller of the buffer's size and what waits, writes that many of the samples that wait,
/// oldest first, which fit the buffer, and leaves the others to the next read.
pub proof fn law_read_delivers_next_samples<S>(
    recorder: RecorderState<S>,
    id: u64,
    out_is_null: bool,
    cap: usize,
    pending: Seq<i16>,
)
    requires
        recorder.recordings.contains_key(id),
        !out_is_null,
        0 < cap <= isize::MAX,
    ensures
        recorder.pull(id, out_is_null, cap) == Some(cap),
        ({
            let max = recorder.pull(id, out_is_null, cap)->0;
            let (status, samples) = read_outcome(Ok(read_samples(pending, max as nat)));
            let left = left_samples(pending, max as nat);
            let count: int = if pending.len() <= cap {
                pending.len() as int
            } else {
                cap as int
            };
            &&& status == count
            &&& samples == pending.take(count)
            &&& samples.len() <= cap
            &&& left == pending.skip(count)
            &&& samples + left == pending
        }),
{
    let max = recorder.pull(id, out_is_null, cap)->0;
    assert(read_samples(pending, max as nat) + left_samples(pending, max as nat) =~= pending);
}

/// A rate or channel count is reported as the C `int` of the same bits: one that
/// fits is reported as it is, a larger one less 2 to the 32nd.
pub proof fn law_reported_int(n: u32)
    ensures
        (n as i32) as int == if n <= i32::MAX {
            n as int
        } else {
            n - 0x1_0000_0000
        },
{
    if n > i32::MAX {
        assert((n as i32) as i64 == n as i64 - 0x1_0000_0000) by (bit_vector)
            requires
                n > 0x7FFF_FFFFu32,
        ;
    }
}

/// The source is asked exactly where the recording is known, whatever its state,
/// and there is a buffer, and then for as many samples as the buffer holds.
pub proof fn law_read_asks_the_source<S>(
    recorder: RecorderState<S>,
    id: u64,
    out_is_null: bool,
    cap: usize,
)
    ensures
        match recorder.pull(id, out_is_null, cap) {
            Some(max) => max == cap && cap > 0 && !out_is_null && recorder.recordings.contains_key(
                id,
            ),
            None => cap == 0 || out_is_null || !recorder.recordings.contains_key(id),
        },
        recorder.stopped(id).pull(id, out_is_null, cap) == recorder.pull(id, out_is_null, cap),
{
}

/// A read whose source fails returns -1 and writes nothing; one whose source
/// gives samples returns their number and writes them all, whatever the number.
pub proof fn law_read_returns_what_the_source_gave(samples: Seq<i16>, error: String)
    requires
        samples.len() <= isize::MAX,
    ensures
        read_outcome(Err(error)).0 == -1,
        read_outcome(Err(error)).1.len() == 0,
        read_outcome(Ok(samples)).0 == samples.len(),
        read_outcome(Ok(samples)).1 == samples,
{
}

/// A started recording keeps the rate that was asked for, the channel count of its
/// source and the source itself, whatever they are; it is the only one that is
/// added, and a rate or count that a C `int` cannot hold is reported less 2 to the
/// 32nd.
pub proof fn law_started_recording_keeps_what_was_asked<S>(
    recorder: RecorderState<S>,
    rate: u32,
    opened: OpenedSource<S>,
)
    ensures
        ({
            let after = recorder.started(rate, opened);
            let id = recorder.next_id;
            let reported = |n: u32| if n <= i32::MAX {
                n as int
            } else {
                n - 0x1_0000_0000
            };
            &&& after.recordings.contains_key(id)
            &&& after.recordings[id].rate == rate
            &&& after.recordings[id].channels == opened.channels
            &&& after.recordings[id].source == opened.source
            &&& after.recordings[id].state == 0
            &&& after.recordings[id].error is None
            &&& after.rate_code(id) == reported(rate)
            &&& after.channels_code(id) == reported(opened.channels)
            &&& after.recordings.dom() == recorder.recordings.dom().insert(id)
            &&& after.platform == recorder.platform
            &&& id < u64::MAX ==> after.next_id == id + 1
        }),
{
    law_reported_int(rate);
    law_reported_int(opened.channels);
}

/// What a recording reports is what the table holds of it, and -1 where it holds
/// none: for any state, and for any rate and channel count that a C `int` holds.
pub proof fn law_queries_report_the_table<S>(recorder: RecorderState<S>, id: u64)
    ensures
        !recorder.recordings.contains_key(id) ==> {
            &&& recorder.state_code(id) == -1
            &&& recorder.rate_code(id) == -1
            &&& recorder.channels_code(id) == -1
        },
        recorder.recordings.contains_key(id) ==> {
            let recording = recorder.recordings[id];
            &&& recorder.state_code(id) == recording.state
            &&& recording.rate <= i32::MAX ==> recorder.rate_code(id) == recording.rate
            &&& recording.channels <= i32::MAX ==> recorder.channels_code(id) == recording.channels
        },
{
}

/// Stopping and failing a known recording change its state, and the second its
/// error, and nothing else of any recording; freeing removes it and nothing else.
pub proof fn law_changes_are_confined<S>(recorder: RecorderState<S>, id: u64, error: String)
    requires
        recorder.recordings.contains_key(id),
    ensures
        ({
            let before = recorder.recordings[id];
            let stopped = recorder.stopped(id);
            let failed = recorder.failed(id, error);
            &&& stopped.recordings.dom() == recorder.recordings.dom()
            &&& failed.recordings.dom() == recorder.recordings.dom()
            &&& stopped.recordings[id].state == 1
            &&& stopped.recordings[id].rate == before.rate
            &&& stopped.recordings[id].channels == before.channels
            &&& stopped.recordings[id].source == before.source
            &&& stopped.recordings[id].error == before.error
            &&& failed.recordings[id].state == 2
            &&& failed.recordings[id].error == Some(error)
            &&& failed.recordings[id].rate == before.rate
            &&& failed.recordings[id].channels == before.channels
            &&& failed.recordings[id].source == before.source
            &&& recorder.freed(id).recordings.dom() == recorder.recordings.dom().remove(id)
            &&& stopped.platform == recorder.platform
            &&& failed.platform == recorder.platform
            &&& recorder.freed(id).platform == recorder.platform
        }),
{
    assert(recorder.stopped(id).recordings.dom() =~= recorder.recordings.dom());
    assert(recorder.failed(id, error).recordings.dom() =~= recorder.recordings.dom());
}

/// An operation on an unknown id changes nothing.
pub proof fn law_unknown_id_changes_nothing<S>(recorder: RecorderState<S>, id: u64, error: String)
    requires
        !recorder.recordings.contains_key(id),
    ensures
        recorder.stopped(id) == recorder,
        recorder.failed(id, error) == recorder,
        recorder.freed(id) == recorder,
{
    assert(recorder.freed(id).recordings =~= recorder.recordings);
}

} // verus!
