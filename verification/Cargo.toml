[package]
name = "rotary_led_menu"
version = "0.1.0"
edition = "2021"
publish = false

[dependencies]
embassy-executor = "=0.10.0"
embassy-sync = "=0.8.0"
embassy-time = "=0.5.1"
embedded-graphics = "=0.8.2"
embedded-hal-bus = "=0.3.0"
esp-alloc = "*"
esp-bootloader-esp-idf = "=0.6.0"
esp-hal = "=1.2.2"
esp-hal-smartled = "=0.18.0"
esp-println = "=0.18.0"
esp-rtos = "=0.4.0"
heapless = "=0.9.3"
log = "=0.4.35"
mipidsi = "=0.10.0"
profont = "=0.7.0"
smart-leds-trait = "=0.3.2"
u8g2-fonts = { version = "=0.8.0", features = ["embedded_graphics_textstyle"] }
