# robrix_sync

The sliding-sync core of a Matrix chat client, verified with Verus.

| module | holds |
| --- | --- |
| `rooms_list` | the updates that the list of rooms is told about |
| `avatar` | avatars of rooms: a fetched picture, or the start of the room's name |
| `channel` | the two halves of the channel that a timeline's updates go through |
| `timeline` | a mirror of a room's timeline that follows batches of changes |
| `registry` | the known rooms, and the receiver that can be taken once per room |
| `room_update` | what follows from an update of a room |
| `worker` | which requests of the user interface are served, and how |
| `login` | logging in with a user name and a password |
| `main_loop` | log in, connect, take in what the server sends |
| `monitor` | the report on the first task that ends |

Each step of the client is a function from plain values and the known rooms to
what is to be done next. Its contract states the result exactly; the public
proof functions named `law_...` state what holds across steps.

`app/` runs the steps: tasks, channels, network access and the command line. It
uses `matrix_sdk`, `matrix_sdk_ui` and `makepad_widgets` besides the crates in
`Cargo.toml`.
