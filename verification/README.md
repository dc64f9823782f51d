# clearcore_flash

A flasher for Teknic ClearCore motor controllers: it uploads firmware through the
ClearCore's SAM-BA bootloader (with BOSSA), reads the firmware back, and shows the
device's serial output with its ANSI colors.

- `src/` is the verified library (Verus). It holds the application's state and how
  each message changes it, the sequences that get the ClearCore into its bootloader,
  upload and download firmware, and keep the serial monitor connected (each as a step
  function from state and event to next state and work to do), the text of every log
  line, and the ANSI styling of device output.
- `app/` is the iced program around it: it draws the screens, and performs the work
  that the library asks for (listing and opening serial ports, calling BOSSA, file
  dialogs, timers).
- `tests/` runs the library on concrete inputs.
