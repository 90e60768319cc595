# servo_webview

A Godot control that shows a Servo web view. The decisions the control makes
are a verified library (`src/`); the Godot extension around it (`app/`) reads
Godot events, drives Servo and does the file and float work.

- `godot_codes` — ordinals of Godot's `Key` and `MouseButton` enums.
- `keys` — Godot key codes to W3C key values and physical codes.
- `keyboard` — a Godot key event to the keyboard event Servo receives.
- `mouse` — mouse buttons and wheel steps to pointer events.
- `input` — which Godot events are consumed and what Servo receives.
- `cursor` — Servo cursors to Godot cursor shapes.
- `events` — the queue of Servo notifications handled on each frame.
- `url_input` — typed text to the URL that is loaded.
- `resource` — serving `res://` resources: reply and file extension.
- `text` — prefix and substring search on strings.
- `frame` — per-frame wake decision and the default window size.
