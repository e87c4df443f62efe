# microphone

Native microphone capture, verified with Verus.

- `src/` is the library. `recorder` holds the table of recordings and what each
  function of the C interface returns; `pcm` holds the queue between the audio
  threads and the reader; `protocol` runs a device's setup and gives back what a
  failed one acquired. `alsa`, `aaudio`, `coreaudio`, `winmm` and `ios_session`
  are the setups, `hal` the macOS device list, `loader` the loading of each
  platform's library, `reader` the thread that services a pull-driven stream,
  `record` a recording session, and `text` what the others need of strings.
- `app/` exports the C interface and makes the calls into the audio libraries,
  which are loaded at run time: nothing has to be installed to build it.
- `tests/` runs the library on concrete devices, replies and texts.

The library calls no audio library itself. It says which call comes next; the
caller makes it and hands the answer back. What is proved of capture therefore
holds for every answer that a device can give.
