# hyper_headset

Control of HyperX wireless headsets: battery level, mute, side tone, automatic
shutdown and the other settings that a headset offers over its USB dongle.

- `src/` is the library, verified with Verus. It decides what is opened, sent and
  waited for, how the state of a headset follows from what it reports, and how
  that state is shown.
- `app/` performs those steps: it opens devices through hidapi or libusb, reads
  and writes, and cleans up when the program is interrupted.
- `tests/` runs the library on concrete values.

A register of headsets (`register::DeviceEntry`) and an implementation of
`device::Device` for each of them are what a program adds.
