# nodui

The core of a visual node-graph editor for [egui], written in Verus.

`src/` is the verified library:

- `Pos`, `SizeHint` (bounds on the length of a collection, with a sound,
  commutative and associative addition), `ConnectionHint` and the `Id` trait;
- `ui`: colors, texts, sockets and node headers as the editor renders them;
- `collect`: the push-only `Collector` and the `Collect` abstraction;
- `interaction`: the decisions of the editor from the user's interactions:
  dragging a socket onto another one to connect them, and dragging nodes;
- `body_layout`: the rows the sockets of a node's body occupy, in one or two
  columns;
- `connection`: the line style of a connection being drawn;
- `search`: first-match searches used by the above.

`app/` is the egui widget built on it: everything that works with
floating-point coordinates (paddings, strokes, viewport and grid conversions,
text layout, painting) and the staged `GraphEditor`.

[egui]: https://github.com/emilk/egui
