# gtk_shell

A Wayland status bar and the Material 3 widget toolkit it is drawn with,
with their interaction logic verified by Verus.

- `src/` — the verified library.
  - `keyboard`, `pointer`: input events as widgets receive them, and the
    filter for insertable text.
  - `widgets`: the interaction models of the toolkit's controls (buttons,
    segmented buttons, navigation rail, checkbox, switch, radio button,
    list item) and the rules they share; `text_field` is the editable field.
  - `text`, `easing`, `color`: trimming and splitting text, the CSS easing
    syntax, color codes.
  - `bar`: the bar's decisions — frame pacing per screen, repaint requests,
    the WARP indicator, the notification server, KDE Connect, media players,
    the niri event stream, configuration reloads and the clock.
  - `gallery`, `font`, `boxed`: keyboard focus in the widget gallery, font
    fallback runs, and boxing components.
- `tests/` — tests of the library.
- `app/` — a headless program that follows the bar's feeds (niri, WARP, the
  clock, the configuration files) through the library and prints what the
  bar shows; it also holds the floating-point easing curves.
