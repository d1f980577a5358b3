# launchpad_mk2

Turns a Novation Launchpad MK2 into a macro pad: strokes of its buttons become
mouse clicks and key presses, and the buttons light up while they are held.

- `src/button.rs`: the buttons, their MIDI numbers and table slots, and the
  decoding of the three-byte messages that the device sends.
- `src/binds.rs`: the table of what each stroke sets off.
- `src/keyboard.rs`: the keyboard layout put on the grid.
- `src/ports.rs`: choosing the device's MIDI ports and what to do when it goes away.
- `app/main.rs`: the program, which talks MIDI through `midir` and sends input
  through `inputbot`.

The library in `src/` is written in Verus; its contracts and lemmas are proved.
