# mem5

The rules of a multiplayer memory card game played in the browser over a
WebSocket, as a Verus-verified library.

- `src/` — the library, verified by Verus: the messages (`WsMessage`), the
  game's status and data (`GameStatus`, `GameData` and its model
  `GameState`), the end and the passing of a turn, the routing of received
  messages, the resynchronization after a lost connection, and the text the
  game builds (numerals, ordinals, the WebSocket address).
- `tests/` — tests of the library on concrete games.
- `app/` — the browser side: JSON on the WebSocket (serde), the WebSocket's
  events (web-sys, wasm-bindgen) and the rendering (dodrio).

## The messages

`WsMessage` keeps the variants of the game's shared message type, and adds
to them what the clients read from them:

- the four messages about the clicks (`MsgPlayerClick1stCard`,
  `MsgPlayerClick2ndCardPoint`, `MsgPlayerClick2ndCardTakeTurnBegin`,
  `MsgPlayerClick2ndCardGameOverPlayAgainBegin`) also carry the game's
  status, the card grid and both clicks, and the two that change points
  carry the players;
- `MsgAllGameData` is new: it resynchronizes a player after a lost
  connection, and it is addressed only to the player that reconnected.

A player that reconnected takes over only the first `MsgAllGameData` it
receives and ignores the others.
