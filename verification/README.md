# wpp_server

The server side of a real-time chat with video calls: accounts and tokens,
chats and messages, live websocket sessions, media rooms, and the Redis link
that spreads notifications across server instances.

`src/` is the verified library (Verus). It holds the data model and the
server's rules:

- `ids` – object ids, timestamps and UUIDs with their text forms (through
  `bson` and `uuid`), and the proof that an object id's text reads back as
  the same id.
- `models` – stored documents and the forms handed out to clients.
- `api::chat`, `api::message`, `api::user`, `api::media` – what creating,
  joining and reading a chat, posting and paging messages, registering,
  logging in (through `bcrypt`), updating a profile and uploading a file
  write, answer and announce.
- `api::connections`, `api::rooms`, `api::websocket` – the websocket server's
  state: the connections of each user and the producers of each media room,
  with the notifications that follow from every change.
- `api::room_join` – the order in which a media room is opened when a user
  joins it: every other instance serving it is synced first, and a failed
  sync leaves it closed.
- `api::session` – one client's session: the heartbeat timeout and the
  client's state in a media room.
- `jwt` – finding the bearer token and the refusals of the auth middleware.
- `redis` – the reconnect policy of the Redis link and what each event on it
  leads to.
- `keyed` – lists keyed by text read as maps, the reasoning shared by the
  registries.

`app/` is the program around it: actix-web routes, MongoDB queries, the
websocket session loop, the server task with its channels and the dispatch
of its commands to the awaiting handlers, mediasoup media handling, the
Redis connection, and the serde forms of the library's types.

`tests/` runs the library on concrete values.
