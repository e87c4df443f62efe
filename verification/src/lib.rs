//! Native microphone capture: the recorder behind the C interface, the sample
//! queues that bridge the platform's audio threads to the reader, and the
//! protocols by which each platform's audio library is loaded, opened and torn
//! down.
//!
//! Nothing here calls an audio library. Where capture needs one, the code here
//! says which call comes next and what each answer leads to; the caller makes
//! the call and hands the answer back.

pub mod aaudio;
pub mod alsa;
pub mod coreaudio;
pub mod device;
pub mod hal;
pub mod ios_session;
pub mod loader;
pub mod pcm;
pub mod protocol;
pub mod reader;
pub mod record;
pub mod recorder;
pub mod text;
pub mod winmm;
