# jamstream_client

The logic of the JamStream desktop client, written and proved in Verus: what a
session shows, what a command changes, when a watcher speaks up, how a lost
audio device is retried, where a secret rests, and what the app decides between
two frames.

## Layout

- `src/` is the library. Sockets, sound devices, files, threads and windows are
  not in it; every function takes plain values and states what it returns.
  - `runtime` holds what the interface pulls and pushes, and `model` the same
    with text as sequences of characters, which is what contracts speak of.
  - `demo` is a deterministic session behind that contract.
  - `live` is the real one: `state` is what everybody reads, `tick` is the
    worker between two ticks, `worker` its single decisions, `watch`, `wake` and
    `offer` the watchers it consults, `ring` the sizes of the audio rings.
  - `app` is the window, the device pickers and who you are to the others.
  - `avatar` and `picker` make a picture out of a file; `creds` and `vault`
    look secrets up and put them away; `prefs` is what is remembered.
- `tests/` runs it on concrete values.
- `app/` is the program around it: the frame loop, the network thread, the
  keychain and the files.

Single-precision figures are carried as their bits (`single`); the library
compares them and computes none. Points in time are nanoseconds on one
monotonic clock, handed in by the caller.

Each module ends with its laws: public proof functions that say what holds over
several calls.
