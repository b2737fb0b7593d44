# studio_faces

The decisions behind the node and module faces of a lighting studio, verified
with Verus: what a card shows, what a gesture sends, how lamps are spread over
wires, and how a panel is played, held and reset.

- `src/` is the verified library. Numbers that a device keeps in single precision
  are bit patterns there.
- `tests/` runs it on concrete values.
- `app/` draws the faces with Dioxus and holds what is computed in floating
  point, the canvases and the browser.
