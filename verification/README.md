# ccplan_gui

The decision logic of the ccplan desktop view, verified with Verus.

- `src/palette.rs` — design tokens and the colours chosen for statuses, cards, feed entries and toasts.
- `src/nav.rs` — navigation glyphs and labels.
- `src/toast.rs` — toast notifications, their expiry and the hand-off of undo actions.
- `src/actions.rs` — what queued actions and command-bar text lead to, and the feedback shown afterwards.
- `src/view.rs` — the interactive view state: keyboard selection, the command bar, navigation clicks.
- `src/dates.rs` — the date keys a refresh loads, computed with jiff.
- `src/text.rs` — trimming, word splitting, joining and decimal formatting.
- `src/laws.rs` — properties that relate several of the above.
- `app/` — egui rendering and the frame loop: it reads input, draws what the library decides, feeds clicks back, and runs the chosen actions through a `Backend` trait. The plan store, command dispatcher and model builders that implement `Backend` are not part of this project.
