irc-sitz-rs
===========

A songleader for hosting a singalong "sitz" on IRC and/or Discord: it plays
music from YouTube, speaks with text to speech, and leads the party through
its songs (tempo votes, bingo when everyone has found the song, singing,
skål).

Layout
------

- `src/` is the verified core, checked with Verus: the audio sample buffers
  and the ducking rule, the music queue with its voting rules, the
  songleader's state machine, the chat command parsers, and what is posted
  on IRC and Discord. Each state machine takes an action and hands back the
  effects to carry out (events to publish, pauses, saving its state), with
  contracts that say exactly which. `playback_laws.rs` and
  `songleader_laws.rs` state properties that hold across operations.
- `app/` is the program around it: configuration, the event bus, files,
  the IRC and Discord clients, yt-dlp, the decoder and resampler, the
  speech engine and the mixer's floating point mixing.
- `tests/` runs the library on concrete values.

Running
-------

Write a `Config.toml` with the songbook settings (`songbook_url`,
`songbook_re`) and the IRC and/or Discord settings, and run the program.
Speech needs the `espeak-ng` program with its Finnish voice; music needs
yt-dlp, which the program downloads on its first start.
