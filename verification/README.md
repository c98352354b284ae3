# xsync-core

The session logic of xsync, a file synchronisation tool, verified with Verus.

`src/` is the library. Every function in it carries a contract that Verus
proves; the few calls into other code (std's string, path and time
functions, BLAKE3, shlex) sit behind small trusted wrappers that say what
they rely on. The library decides; it does not touch the filesystem, the
network or the clock (timestamps are signed nanoseconds since the epoch):

- `protocol`, `wire_path`, `scan`, `error` — the vocabulary: messages,
  capabilities, safe relative paths, scanned entries, errors and their text.
- `filter`, `transfer` — ordered include/exclude rules, their wire form, and
  the per-transfer choices a client makes (which filter form a peer gets,
  when a file's ranges are complete, the job identifier).
- `probe`, `browse`, `fs_client` — the client side of the browse (v2) and
  filesystem (v3) sessions over abstract framed transports.
- `server`, `browse_server`, `fs_session`, `fs_order`, `fs_server`,
  `delete_walk`, `destination`, `entries` — the server side: handshake,
  per-frame dispatch, per-handle ordering, handle limits, paging, mounts,
  recursive deletes and reply construction.
- `sink_session`, `source_session`, `client_session` — the transfer stream
  of a push or pull, one message at a time: what the receiving end registers,
  validates and writes, what the sending end serves, and what a client
  accepts in answer to its own messages.
- `sink`, `source`, `batching`, `striping` — where received files are staged
  and when they are committed, how a source read is judged and retried, how
  small files are grouped, and how a multi-stream push deals its work out.
- `client_opening`, `push_session`, `pull_session`, `streams_control` — the
  client end of a push or pull: the opening through the remote side's scan
  and the route a push to a server takes; then, once the plan is known, a
  single-stream push (directories by path length, links, small files in
  greedy batches, single-segment files one by one, deletions only when
  nothing failed, repairs, directories finished longest path first, the
  root, statistics), a single-stream pull (link targets,
  small files in greedy batches, the others one by one, local finishing),
  and the control session of a multi-stream push (large-file prepares and
  resume pages, the coverage barrier, finishes). Each decides every frame and
  judges every answer; the embedding program moves frames and does the local
  work it is asked for.
- `data_session`, `push_finish` — one data-only stream of a multi-stream
  push, frame by frame, and the coverage barrier before its large files are
  committed.
- `paths` — destination and source paths, joined from a root and a relative
  path as text.
- `remote`, `remote_output`, `session_ladder` — probing a remote route's
  shell family once, building the remote server command for POSIX and
  Windows shells, what is remembered per remote route, and how a failed
  remote session is retried.

`app/` holds the process side: the filesystem calls, child-process state,
and the loops that move frames for the client sessions, data streams and
deletes the library decides. `tests/` exercises the
library from outside.
