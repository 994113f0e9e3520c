# trui

A terminal user interface library in the reactive style. The application logic
describes the interface as a tree of views; views build a retained tree of widgets;
widgets lay themselves out on the terminal's cell grid, paint, and turn terminal events
into messages that travel back to the views by id path.

## Layout

- `src/` — the verified library (Verus):
  - `flags`, `geometry`, `style`, `id`: change and state flags, integer cell geometry
    with box constraints, styles and colors, view ids and the view context;
  - `widget`: the pod that tracks each widget's size, position, hot and active state,
    and the widgets (text, margin, border, linear layout, scroll view, mouse, click and
    hover handling, styles on hover and press); painting produces draw commands;
  - `view`: view descriptions and the decisions views take on rebuild and on messages
    (routing by id path, deferred views and event handlers that wait for asynchronous
    tasks, streams, local state, text and border styles);
  - `app`: the application loop's decisions (when the view task renders, what a batch
    of terminal events amounts to, one pass of layout and paint).
- `tests/` — tests of the library on concrete values.
- `app/` — the runtime around the library: the view trait and its implementations,
  event handlers, the terminal loop on crossterm and ratatui, the tokio tasks, the
  widgets whose layout uses fractions, and logging.
