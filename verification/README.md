# baal

A small audio player for games: music with transitions, sound effects with a
fixed number of voices each, mono or stereo files and output.

- `src/` is the verified library: the state of the music player
  (`music`), the voices of each effect (`effect`), the channel conversions
  (`channel`), the control state seen by the game (`control`), the checks
  of a setting and the start/stop of the player (`setting`, `config`), and
  the length of a leading silence (`source::wait`).
- `app/` reads the sound files (libsndfile), runs the audio stream
  (portaudio), mixes the samples in floating point and holds the global
  player behind the public functions (`init`, `music::play`, ...).
- `tests/` runs the library on concrete values.
