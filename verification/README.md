# n_m3u8_re_rust

A downloader for HLS, MPEG-DASH and Smooth Streaming media, whose logic is a
library verified with Verus.

- `src/` is the verified library: the HLS parser, the DASH and Smooth
  Streaming manifest models and their stream extraction, URL resolution,
  stream filters, the format detection of a fetched manifest, AES-128 and
  ChaCha20 decryption, the download plan, retries, live recording rounds and
  merge order, mux command lines, log levels, command-line values and
  message tables. Each public function states its result in its `ensures`;
  the laws that relate several functions are public proof functions beside
  them.
- `app/` is the program around it: argument handling, HTTP, files, the async
  runtime, running ffmpeg or mkvmerge, reading XML manifests into the
  library's model, and the logger backend.
- `tests/` runs the library on concrete inputs.
