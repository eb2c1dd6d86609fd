# app_core

A system-configuration tool for desktop users: pages described in YAML files
offer switches, and each switch runs a queue of actions (enabling systemd
units, layering rpm-ostree packages, editing kernel arguments). Actions that
need root run in a helper process started through `pkexec`.

- `src/` is the verified library. It holds the actions and their commands,
  undo and state rules; the runners and their identities; the run of a queue
  as a state machine; the page model; the bookkeeping of the task queue and
  the first-in, first-out order its workers keep; the decisions of the
  elevated helper and of the thread that holds it; the results of a batch; and the text shown to the user.
  It also fills the desktop-file template through freedesktop-desktop-entry.
  Its laws (undo is an involution, undo keeps the need for root, a run keeps
  its invariant and always ends, finished runs drop their listeners, a
  worker's queue is first in, first out, every run request to the helper
  gets exactly one answer, and more) are proof
  functions in `src/laws.rs`.
- `app/` is the program around it: the command line, logging, page files,
  processes, D-Bus, the worker threads and the helper's pipes. It hands the
  library plain values and carries out the steps the library decides.
- `tests/` runs the library on concrete values.

Without a subcommand the program lists the pages and the state of each
switch; `toggle <title>` turns a switch on or off through the task queue;
`apply <title>...` runs the named switches one after the other through the
first-in, first-out action manager; `desktop-files` writes the desktop file
and icon; `action-runner` is the elevated helper; `run-batch --json <batch>`
runs a batch of systemd actions.
