# anonhive_worker

The logic of a distributed transcoding worker, verified with Verus, and the program around it.

A worker asks a server for a video to transcode and claims the job. It downloads the video from an
object store, makes thumbnail sheets and up to three HLS renditions with `ffmpeg`, disguises the
segments and playlists, puts them into the store and tells the server where the master playlist is.

- `src/` is the library. It decides what is done and in which order, and computes the addresses,
  bodies, keys, paths, command lines, playlists and messages for it.
  - `settings`, `host`, `accel`, `api`, `status`: the start of a worker and its talk with the server
  - `poll`: one round of asking for a job
  - `scratch`: the scratch folder of a job
  - `media`: renditions, files and command lines
  - `pipeline`, `runs`: the plan of a job, and what holds of every run of it
  - `transcode`: watching a program at work
  - `publish`, `links`: what is put into the store, and how it hangs together
  - `text`, `number`, `encoding`: texts, numerals, UTF-8 and Base64
- `app/` is the program: environment, network, store, files and processes. It performs the steps that
  the library names and hands back what it sees, with the errors that it ran into. The percentage of a running `ffmpeg` is computed there, because
  it is floating point.
- `tests/` holds tests of the library.

Four functions of the standard library and of outside crates are trusted to do what their contracts
say: Base64 encoding, the text of an HTTP status, and the strict and the lossy decoding of UTF-8. So
is `String::push`.
