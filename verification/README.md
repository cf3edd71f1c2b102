# playback

The core of a streaming player, verified with Verus.

The library decides and computes; it does no I/O of its own.

- `player` is the machine at the centre. It takes one event at a time and answers with a list of
  effects to carry out in order. The last effect asks for something, and the answer to it is the
  next event.
- `effect` lists what can be asked for.
- `state` holds what the player does with its track, `command` what it can be told, `config` its
  settings.
- `load` leads from the id of a track to a decoder for it, `metadata` holds what the catalogue
  knows, `token` the access token.
- `alsa` sets up an ALSA device, knows when a sink is open, and leads a write through it.
- `json` and `text` write the messages that the player sends. JSON is rendered by `serde_json`,
  which is trusted; the contracts of the functions in `json` say what of it.
- `laws` and `load_laws` state and prove what holds of every player and every load: that commands
  are carried out once and in order, that packets reach the sink in the order of the decoder, that
  a sink is written to only while it runs.

`app/` is ordinary Rust around the library: the player's thread and channels, the sink on a real
ALSA device, and floating-point arithmetic on samples.
