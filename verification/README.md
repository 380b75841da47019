# companion_widget

The companion of a terminal chat interface: a small pet that a UI plugin shows
beside or above the message composer. Plugin events set its presence (label,
face, colour, animation frames), make it react for a while, or pet it; burst
reactions on wide terminals become a rainbow banner spelled in block letters.

- `src/` is the verified library. `model.rs` states what every operation means
  over an abstract widget state; `widget.rs` implements the widget against it;
  `text.rs`, `banner.rs` and `style.rs` hold the text, headline and colour
  logic; `layout.rs` places the widget relative to the composer;
  `terminal.rs` holds the calls into `ratatui`; `laws.rs` proves properties
  that span operations.
- Times are milliseconds on a monotonic clock, passed in by the caller.
- `app/` draws the widget's styled lines with `ratatui` and reads the clock.
