# m5stick

Verified logic of a BLE HID presenter built from an M5StickC Plus2 and a
Mini JoyC hat: buttons A and B send slide keys, the joystick moves the
pointer, its click and combos send mouse buttons, A with the joystick
scrolls, and holding A and B switches profiles.

`src/` is the library, proved with Verus:

- `input` and `input_laws`: the tap / hold / combo / scroll-mode machine
  and what it promises over several polls;
- `mouse`: joystick to pointer motion in fixed point (filter, dead zone,
  curve, speed gain, sub-pixel residuals);
- `session`: per-poll decisions of a connection (reports to send, screen
  sleep and wake);
- `bond_format`: the flash layout of bonds, with round-trip proofs;
- `battery`, `profile`, `display`, `hid`, `text`, `mini_joyc`,
  `presenter`, `joystick_mouse`, `config`.

`app/` is the firmware around it: hardware set-up, the BLE GATT server,
drawing, the I2C driver and flash storage.
