# nvim_bridge

The verified core of a Neovim GUI front end.

- `src/value.rs`: MessagePack values as Neovim sends them, with their accessors.
- `src/character.rs`, `src/grid_line.rs`: reading the cells of a `grid_line`
  redraw event, with highlight ids carried from cell to cell.
- `src/notify.rs`: picking the `grid_line` events out of a redraw notification.
- `src/session.rs`: attaching and resizing the UI, and what each UI event asks of Neovim.
- `app/`: the iced window, the Neovim process and RPC plumbing (nvim-rs, tokio),
  and the conversion from `rmpv` values.
