# brick_bot

A Discord bot that answers keywords with text replies or with a "brick" GIF
composited with the avatar of the user it is aimed at.

The library under `src/` is written in Verus and holds the bot's logic with
its contracts and proofs:

- `bot.rs`: the gateway session as a state machine (hello, heartbeat,
  identify, resume, invalid session, dispatch routing) with the frames it
  sends, and laws over its steps; `ws_api.rs` holds the simpler session of
  the single-command bot in the same style.
- `rest.rs`: the HTTP requests of the REST API (message, reply, file upload,
  interaction response, commands), built exactly from their inputs.
- `event_handlers.rs`: which commands a message or a reaction triggers and
  what the bot answers.
- `cache.rs`: the avatar and GIF caches, with read-after-write laws.
- `image_edit.rs`: parsing of keyframe numbers and the choice of keyframes for
  a GIF frame.
- `structs.rs`, `config.rs`, `error.rs`, `text.rs`: the API types, the
  configuration, the error type, and decimal and JSON text.

`app/` is the program around it: reading the configuration, the websocket
and HTTP I/O, the async tasks, serde copies of the types, and the pixel work
on GIF frames.
