# nonik0

Logic of the NONIK0 two-button name badge (ATtiny1604, HCMS-29xx eight-character dot-matrix
display, piezo buzzer), verified with Verus.

- `src/` is the library. The modes (menu, nametag, random, sensors, settings, traffic, tunnel,
  vibes, and the utilities) are state machines: each cycle takes the button event, updates the
  mode and the shared `Context`, and queues `Action`s (text, columns, tones, delays, ADC and
  I2C register work) in `Peripherals`. Button debouncing, the settings kept in the EEPROM, the
  random generator, number formatting, the tune player, the buzzer timer arithmetic and the
  I2C driver's buffer logic (client interrupt, host transfer steps) are there too, each with
  its contract.
- The library and the firmware follow the current board: display on PB2, and a sensors mode
  that reads the SDA (blue) and SCL (yellow) lines of the I2C connector on AIN10 and AIN11,
  with a continuity test that checks both lines in turn. The first board revision, with one
  external input and a single-line continuity test, is not covered.
- `tests/` runs the library on concrete inputs.
- `app/` is the firmware around it: it sets up the microcontroller, reads the buttons and the
  ADC registers, carries out the queued actions on the display, the buzzer timer, the ADC and
  the I2C peripheral, writes pending settings to the EEPROM, and runs the interrupt handlers.
