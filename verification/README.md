# panes

Geometry, borders and drawing of the panes of a tiled terminal workspace, with
contracts that Verus proves.

- `src/geometry.rs`: rectangles, and the room inside borders and split lines
- `src/placement.rs`: where the panes of a tab go, and the sizes of their terminals
- `src/label.rs`: labels on pane borders
- `src/junction.rs`, `src/lines.rs`: the lines between panes
- `src/style.rs`: colours of borders and selections
- `src/overlay.rs`: dimming, selections and the cursor of copy mode
- `src/canvas.rs`: the grid of cells, and what is left to ratatui
- `src/render.rs`: drawing a workspace, in steps between which terminals draw
  themselves
- `src/model.rs`: the state that all of this reads
- `app/`: the glue to running terminals and a ratatui frame
