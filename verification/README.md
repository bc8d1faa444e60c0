# videodl

The verified core of a video download server that drives `yt-dlp` and
`ffmpeg`, written in Verus.

- `src/` is the library, proved with Verus:
  - `text` — trimming, searching, splitting, joining and decimal text over
    character sequences;
  - `request` — download requests, the plan of download passes, the
    downloader's command line;
  - `conversion` — ffmpeg command lines and the converted file's path;
  - `source` — classifying a source for editing and recommending a profile;
  - `inspect` — shaping downloader metadata into qualities, subtitles and a
    recommendation, with a stable ranking of qualities;
  - `task` — the task state and its lifecycle transitions;
  - `output` — reading the downloader's output lines into a task;
  - `pipeline` — the conversion step after a pass;
  - `tools` — choosing the executables;
  - `errors` — errors reported to clients;
  - `laws` — properties that span several operations.
- `app/` is the HTTP server (axum, tokio) that performs the I/O, keeps the task
  table and the floating-point progress figures, and calls the library.
- `tests/` runs the library on concrete values.
