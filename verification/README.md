# rotary_led_menu

Logic of an ESP32 controller for a 17-pixel LED strip with a rotary encoder
(with push button) and an ST7796 menu display.

- `src/` — the verified library:
  - `led_scal_fn`: 8-bit colour scaling, triangle wave, colour wheel, frame fillers, breathing animation;
  - `led_driver`: how the strip colour follows brightness changes;
  - `menu`: pages, sub-menus and what a detent or a button press does;
  - `encoder`: quadrature decoding and button edge detection;
  - `pause`: the five-second inactivity timer;
  - `draw`, `menu_display_fn`, `screen`: the drawing commands of the menu pages and one screen refresh.
- `app/main.rs` — the firmware: peripherals, tasks, shared state, display and LED output.
- `tests/` — tests on concrete values.
