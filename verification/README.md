# discord_bot

The decision logic of an ESP32 Discord bot, verified with Verus.

The firmware answers chat commands (`!ping`, `!status`, `!help`) and slash
commands (`/ping`, `/status`) over Discord's gateway and REST API, samples a
microphone, draws the sound level on an SSD1306 OLED and manages its Wi-Fi
connection.

* `src/` is the verified library. It holds everything the firmware decides
  or computes: command lookup and replies, gateway frame reassembly and
  event classification, the HTTP requests sent to Discord (URL, headers,
  body, `Content-Length`), the configuration lookup, Wi-Fi station settings,
  scan listings and connection timeouts, the audio amplitude, the display
  geometry and the main loop's bookkeeping. JSON parsing and string quoting
  are done by `serde_json`, lower-casing by the standard library: the
  contracts state serde_json's escapes and ASCII lower-casing, and name
  what parsing and the full Unicode case mapping return.
* `app/` is the firmware around it: the ESP-IDF drivers (Wi-Fi, HTTP,
  WebSocket, ADC, SPI display, GPIO), threads and logging. It hands the
  library plain values and performs the requests and actions it returns.
* `tests/` runs the library against the real `serde_json` and standard
  library.
