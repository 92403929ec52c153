# bilidl

The core of a Bilibili audio downloader, verified with Verus.

`src/` is the library:

- `json` — the JSON values that the web API answers with, and lookups that
  read a missing member or element as `null`.
- `bilibili::modules` — videos, their parts, uploaders, subtitles, audio
  streams, and how each is read from an answer; when a stream address expires.
- `bilibili::video` — checking an answer's code, reading the video-details,
  player-information and stream answers (the best audio stream is the first
  one with the greatest id), request parameters, and the choice of the
  address to download from.
- `bilibili::collection` — request parameters of a favourite-list page.
- `bilibili::task_modules` — one download task per part of a video.
- `bilibili::utils` — the title quoted in a music name, a random user agent,
  decimal numbers.
- `app_state`, `event_loop`, `handlers` — what the window shows, and how its
  events change it.
- `frontend` — decoding cover pictures.
- `watcher` — the change log of a watched directory, and stopping the watch.

`app/` is the program around it: the requests, downloads, the event loop and
the directory watch.  Commands come from standard input (`query <BV id>`,
`create`, `back`), and the state is printed after each event.
