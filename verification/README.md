# camera_server

Server side of a self-hosted ESP32-CAM security camera system: cameras POST
JPEG frames, the server streams them live, detects motion, records motion
sessions, encodes them with ffmpeg and reports them through a Telegram bot.

- `src/` is the library, verified with Verus: frame comparison and motion
  decisions (`frame`, `tracker`), session naming and file layout (`session`,
  `video`, `naming`, `clock`), camera settings and the camera registry
  (`config`, `registry`), the bot's commands and replies (`bot`), the MJPEG
  stream framing (`stream`), text helpers (`text`) and cross-function
  properties (`laws`, and the `law_*` proofs beside the functions they
  relate).
- `app/` is the program around it: the axum HTTP server, the fjall settings
  store, the Telegram HTTP calls, ffmpeg, the local date and time, and the file system.
- `tests/` runs the library on concrete inputs.
