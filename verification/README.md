# weixin

A desktop chat client in the style of WeChat, with its logic verified by Verus.

- `src/` is the library `weixin`: contacts, messages and conversations, the
  chat store that every window shares, the session list, the chat area and
  chat windows, the registry of open windows, the settings state, the themes,
  and the text and time formatting they rely on. Each public function states
  its behaviour in `requires`/`ensures`, and the laws that relate several
  functions are public proof functions (`lemma_*`).
- `tests/` runs the library on concrete values.
- `app/` is the gpui front end: windows, views, drawing, the mouse-driven
  resizing in floating-point pixels, and the JSON file that keeps the layout
  and preferences.

The clock is read through std's `SystemTime` and the local calendar through
`chrono`, both in `src/clock.rs`, behind trusted functions whose contracts
state only what holds of every reading; a clock set before 1970 gives a
negative timestamp rather than a failure.
