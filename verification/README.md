# Wicket

A tool executor that connects to a router over a WebSocket and carries out calls
on one host: commands in a sandbox, patches, images, PDFs and background jobs. It
also saves screenshots that arrive in chunks, each exactly once and never over
another file.

`src/` holds every decision, stated in contracts and proved with Verus. It runs no
program and touches no file. Three state machines ask for what has to be done and
are told what came of it:

- `store` keeps screenshot operations from their first chunk to their receipt.
  `protocol` states what each call and each event makes of the store, `soundness`
  what is true of it at all times, and `laws`, `evidence`, `uncertainty` and
  `capacity` what follows across calls. `opening` loads and recovers a journal;
  `journal` states what a journal holds next to a store, and `restart` what
  survives in it.
- `adapter` owns a store for the commands that come over the wire (`wire`,
  `wire_laws`, `receipts`).
- `tool` carries out the calls of tools (`message`, `sandbox`, `jobs`, `patch`,
  `picture`, `pdf`, `tool_laws`).

Calls into other crates stand behind small functions whose contracts are believed:
hashing (`identity`), JSON strings (`json`), PNG decoding (`png`), base64
(`encoding`), images (`picture`) and the clock (`clock`).

`app/` is the program around the library: sockets, processes, the file system and
the JSON forms of the messages. `tests/` runs the library over a file system in
memory.
