# music_separator

The verified core of `music-separator`, a command line tool that strips the
background music from a video: it extracts the audio with FFmpeg, separates
the vocals with an MDX-Net ONNX model, and muxes the vocals back next to the
untouched video stream.

- `src/` is the library, checked by Verus:
  - `pipeline` — the run as a state machine (validation, probe, extraction,
    separation, remux, clean-up), output naming, temporary file names
    from the ids the program draws, elapsed-time display; with the proofs
    that temporary files are always removed and failures reported as they
    came.
  - `inference` — model dimensions, the output format of the stem, the
    overlapping chunk schedule, STFT frame positions, the layout of the model's input and output tensors,
    stereo interleaving.
  - `ffmpeg` — stream selection, 16-bit sample decoding, the remux command
    line and the meaning of its outcome.
  - `logging` — log directive precedence.
  - `model_data`, `config`, `error`, `text` — registry lookup, configuration,
    error messages, decimal rendering.
- `app/` is the program around it: argument parsing, configuration and
  registry files, FFmpeg, ONNX Runtime and the floating-point signal
  processing, progress bars and logging output.
- `tests/` exercises the library on concrete values.
