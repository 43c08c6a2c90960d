# raclettui

Terminal-style user interfaces, drawn with ratatui, on Wayland layer-shell
surfaces.

- `src/` is the library, verified with Verus: the cell grid, the CPU pixel
  buffer and its glyph blending, the background grid, colours and the xterm
  palettes, text modifiers, key and button mapping, the window event queue,
  the surface redraw protocol and the layer-surface configuration. Each
  public function states its result in its contract; the laws that span
  several functions are public proof functions beside them.
- `tests/` runs the library on concrete values.
- `app/` holds what Verus does not see: the Wayland connection, the
  shared-memory, wgpu and OpenGL renderers, font rasterising, XKB keymaps
  and the ratatui backends. It converts the outside crates' values to the
  library's types and back.
