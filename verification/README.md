# rnote

The decision logic of the Rnote note-taking application, written in Verus with its
behaviour stated in contracts and proved.

- `src/` is the verified library:
  - `strokes`: the stroke store (a slot map of strokes with their trash, selection,
    chrono and render components) and the render order;
  - `image`: RGBA/BGRA pixel buffers, overlaying them into one image, encoding;
  - `duplicate`, `paths`: naming duplicates, file names, stems and extensions;
  - `workspaces`: the workspace list and its selection;
  - `colorpicker`: the color pads, setters and chooser;
  - `pens`: the pen pages of the sidebar;
  - `recovery`: recovering autosaved documents;
  - `window`: the main window's choices (layouts, pasting, opening files, titles,
    tabs, file monitoring, accelerators, settings);
  - `names`: the workspace icons and cursors.
- `tests/` runs the library on concrete values.
- `app/` is the GTK application around the library: windows, widgets, files on disk
  and the settings, and the floating point geometry of the strokes.
