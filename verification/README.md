# game

A side-scrolling platformer's rules, verified with Verus, and the program
around them.

- `src/` is the verified library:
  - `text` and `room`: the room file format (a size and enemy header, a door
    line, rows of tiles) and the parsed room with its cell queries;
  - `collision`: what a move into a column or row of cells meets (walls,
    spikes, doors);
  - `keybinds`: the key bindings and rebinding;
  - `input`, `menus`, `menu_steps`, `menu_laws`: the title screens, pause
    menu, settings pages and inventory as a state machine from the state and
    a frame's input to the next state and the effects to carry out;
  - `player`, `story`, `theme`: small rules of play and of the interface;
  - `laws`: properties that relate several operations.
- `app/` is the game itself on macroquad: the window, drawing, sound, file
  reading and the floating-point movement of the player and enemies.
- `tests/` runs the library on concrete inputs.

Collections: the key table is a `HashMap<u16, Keybind>` and a room's doors a
`HashMap<u32, Door>` keyed by the code of the door's identifier (a later door
with the same identifier replaces an earlier one); vstd specifies hash maps
with integer keys. A room's cells are held as rows, `Vec<Vec<Tile>>`: vstd
gives a hash-map key model only to integers, `bool` and boxes of them, not to
coordinate pairs.
