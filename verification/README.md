# rboy_desktop

The desktop front end of a Game Boy Color emulator.

`src/` decides. Its contracts are proved with Verus; the one thing that is trusted is what the
standard library's `str::parse::<u32>` does, which `scale` states where it calls it.

- `keypad`: which keyboard key stands for which button.
- `window`: what is to be done about each event of the window.
- `screen`: the sizes of the window and of the texture, and where a frame is drawn.
- `scale`: which scales the command line accepts.
- `startup`: the way from the command line to the running emulator, and the exit code.
- `cpu`: the loop that runs the machine at the right speed; `pacing` proves what holds of
  every run of it.
- `input`: what holds from the keyboard to the machine.
- `timer`: the timer that sets the pace.
- `audio`: the choice of an output configuration, and the sample buffer.

`app/` does what was decided: it reads the arguments, opens the window, starts the threads,
plays the sound and drives the emulated machine, which is the crate `rboy`.

The loops in `src/` are state machines. Each holds the one action that is to be done next; the
caller does it and reports the outcome.
