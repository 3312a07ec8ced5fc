# rustsynth

A terminal synthesizer played by Orca-style UDP note commands and a
Launchpad X controller.

- `src/` is the verified library (Verus): the note-command parser, the pad
  and voice-grid layouts, the key-handling decisions of the UI pages, MIDI
  message decoding, and the integer state machines that the audio code
  drives (envelope stages, note timers, the sequencer clock, delay lines,
  effect-group bookkeeping). Each public function states its result in its
  contract; the laws that tie several functions together are public proof
  functions beside them.
- `tests/` runs the library on concrete values.
- `app/` is the program around it: audio output, the floating-point DSP,
  the UDP and MIDI servers, terminal drawing and preset files.
