# FeOS

The decisions of FeOS, an init system for hosts of virtual machines and containers,
as a verified library, and the program around it.

- `src/` is the library. `container/`, `image/`, `task/` and `vm/` hold the services:
  for each, what a request, an event or a finished step leads to, what is stored, and
  how errors are answered. `host/` reads what the kernel tells of a machine, and keeps
  its clock and its binary. `network/` sets up the interface and its virtual
  functions. `cli/` turns commands into requests and answers into lines. `text`,
  `table`, `numbers`, `ids`, `digest` and `clock` are shared.
- `tests/` runs the library.
- `app/` is the program: it reads, writes, waits and calls, and asks the library what
  to do next.

A function that decides takes how far a matter has come, together with what the last
step gave, and returns the next step. Its contract says which step follows; the proof
functions beside it say what holds of all steps.
