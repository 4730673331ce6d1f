# pop_the_lock

The rules of "Pop The Lock", a small arcade game, as a verified library:

- `src/game.rs`: the game's states, the player's progress (level, stars, dots
  left) and the background colours.
- `src/level_manager.rs`: what a popped or missed dot does to the progress and
  the state, which input moves the game on, and the laws of the round cycle.
- `src/trigger.rs`: the pick's overlap bookkeeping and input handling.
- `src/utils.rs`: random picks, and the quadrant where the next dot may go.
- `src/audio_manager.rs`: which sound a popped dot plays.

`app/` is the bevy game around it: rendering, audio, timers, the angle
geometry on the ring, and saving the progress.
