# umbrella

A Discord bot that renders World of Warships replay files into minimap
timelapse videos. Upload a `.wowsreplay` with `/replay` and get back an MP4;
`/ping` checks that the bot is alive.

The decisions of the bot are a Verus-verified library under `src/`:

- `command`: the `/replay` command as a state machine (refusals, deferral,
  download, summary, render, reply, clean-up), with laws on the order of its
  steps and on what the reply carries; the `/ping` reply.
- `upload`: which uploads are accepted (`.wowsreplay`, at most 50 MiB).
- `config`: the startup settings and the build number of extracted data.
- `game_data`: the shared bot state and the loading of pre-extracted game data.
- `translations`: which parameter providers get the English translations.
- `replay`: what is read from a replay file: the summary line and the
  recording player's ship silhouette.
- `frames`: when the video gets a frame, and the battle's length, from the
  packet clocks.
- `text`: suffix tests and decimal rendering.
- `outside`: the declarations of the outside crates' types and the trusted
  wrappers around the calls made into them.

`app/` holds the Discord plumbing, file I/O and the rendering, which drive the
library.
