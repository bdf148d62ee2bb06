# mango_tango

The verified core of Mango Tango, a Discord music bot that plays YouTube
audio in voice channels (`/search`, `/play_link`, `/skip`, `/status`, `/ping`).

- `src/` is a Verus library. It holds what the bot decides and computes:
  the command declarations and the order they are registered in, the checks
  each command makes and the replies it sends, how `/skip` treats the queue,
  the idle rule that makes the bot leave an idle call and the per-guild idle
  timers, the bot's status and the `/status` report, the start-up probes of
  `yt-dlp` and `ffmpeg`, the `yt-dlp` command lines and the parser of its
  search output, and the per-user store of search results.
- `app/` is the program around it: the serenity client, the songbird voice
  calls, tokio tasks and locks, and the processes it runs. It hands the
  library plain values and acts on what the library returns.
- `tests/` exercises the library on concrete values.

Verify with Verus; build `app/` against the library.
