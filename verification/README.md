# GridPool CKPool Adapter

A daemon that stands between a CKPool process and a local GridPool node. It validates and caches
the node's payout plan, decides which ten-second windows carry the operator's fee, queues share
proofs until the node has settled them, and gathers telemetry per miner. CKPool talks to it over
a Unix socket with length-prefixed JSON messages.

The rules live in a library that is verified with Verus. The daemon around it does the input and
output.

## Layout

- `src/` is the verified library.
  - `wire` reads serialized payout vectors; `encoding` states what the reader is held to.
  - `plan` tells when a payout plan is fit for mining; `cache` keeps the current one and its age.
  - `fee` is the schedule of fee windows.
  - `telemetry` gathers shares per miner; `history` states what a run of shares leaves there;
    `report` is what is sent of them.
  - `queue` decides what becomes of a queued proof; `payload` is its stored form.
  - `ipc`, `frame` and `health` are the messages on the socket.
  - `adapter` is the whole state, and what is done on each event.
  - `config`, `secret`, `node`, `metrics`, `clock`, `difficulty`, `hexcodec` and `text` serve them.
- `app/` is the daemon: files, sockets, HTTP, the queue's database, and JSON.
- `tests/` runs the library on concrete values.

## What is trusted

The library calls `hex`, `hmac` with `sha2`, `chrono`, `serde_json` and the system clock. The doc
comment of each such call says what is claimed of it. Difficulties are double-precision numbers
held by their bits; the daemon adds them and hands the sums to the library.

## Running

The daemon takes `--config` with the path of a TOML file, `config/local.toml` by default. Set
`ckpool_notify_socket` to CKPool's `stratifier` socket to have CKPool refresh its work whenever
another plan is installed.
