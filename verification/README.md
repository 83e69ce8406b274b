# xiao_nrf52840

Verified decision logic for a set of small firmwares on the Seeed Studio XIAO
nRF52840 board, written in Verus.

- `src/` is the library. Each decision the firmwares take is a function with a
  contract: which LED is lit, the switch reports, the GPREGRET one-shot reset and
  DFU-reset protocol, the USB serial echo (`echo`, `cdc_session`), the blink
  schedules and their timer ticks (`timing`), the USB identities and VBUS status
  (`usb`), and the SoftDevice and advertising settings (`ble`). The modules
  `blinky`, `hello_world`, `usb_serial`, `rtic_blinky` and `embassy_softdevice`
  gather what each firmware decides, including what its panic handler does.
- `app/` is the board glue: peripherals, pins, timers, USB stacks and the
  SoftDevice. It runs the loops and asks the library what to do.
- `tests/` checks the library on concrete values.
