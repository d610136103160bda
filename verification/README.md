# slsk

A Soulseek client: the wire format of the server, peer and distributed
messages, the decisions taken on what the server and peers send, the
scanning of audio files for their attributes, the state of the terminal
interface's widgets and windows, and the index of shared files.

`src/` is the library, verified with Verus:

- `packing`, `messages` — packing values to bytes and back, and every
  message; each message's bytes unpack to the message packed.
- `server_handling`, `peer_handling`, `file_transfer` — what the client does
  with a message from the server or a peer, and how a download progresses.
- `session` — what a login answer does to the session, how connections to
  users wait for their addresses, and what is held for each token until
  its connection is made.
- `parsers` — the headers and chunks of MP3, FLAC, OGG, WAV and AIFF files.
- `gui` — the widgets (tables, dropdown menus, tabs, dialogs, lists) and
  windows (login, chat rooms, file search, downloads) and the keys that move
  between them; what the session's events do to the interface (`events`);
  how key hints are laid out.
- `sql` — the search terms of a file name or query, what the index stores
  of a walked folder, the shared file list built from the index's rows, and
  the files a search found.
- `utils`, `constants`, `config` — texts, codes and settings.

`app/` holds the program around the library: reading the configuration,
the network connections and the terminal.
