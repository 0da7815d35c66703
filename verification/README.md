# super_duper

The verified core of the super-duper duplicate-file tools, written in Verus.

- `src/` is the library. Every function in it carries a `requires`/`ensures`
  contract that Verus proves; the few calls into the standard library and
  into outside crates (glob, indicatif, chrono, twox-hash, dashmap) go through small
  trusted wrappers whose contracts say what those crates document.
- `tests/` runs the library on concrete values.
- `app/` is the program around it: the worker's standard input and output
  with JSON through serde, and a `scan` command that walks directories,
  reads and hashes files and draws the scanner's progress bars.

The main properties proved:

- progress events are coalesced latest-wins, spaced at least 100 ms apart,
  at most ten in any one-second window, and stop for good once terminal;
- a protocol line written as a frame is read back unchanged; the hello
  handshake succeeds at most once, and no other request is served before it;
- page cursors decode to the bytes they encode, and a cursor is accepted
  only for the query kind and signature it was made for;
- request validation (pages, filters, scopes, sessions, preference rules)
  reports the first failing check with its field, and accepts every request
  that passes them all (a session, when its settings fit in half a frame);
- directory lists are reduced so that no kept directory lies within
  another and every input lies within a kept one;
- locations are compared by the rules of the platform (on Windows: case,
  `/` against `\` and the verbatim prefixes do not matter), and a location
  inside another listed one is dropped in favour of the outer one;
- a finished timer's duration is the clock's span from its fixed start to
  its latest finish;
- a scan run and a preflight never hold the filesystem at the same time;
- the scanner's counters follow exactly the status messages they receive,
  and its status lines are exactly the texts it shows;
- a run's progress is written to the database when forced, on the first
  write or once 500 ms have passed, and is published only once every
  warning it counts is durable;
- hashes are grouped so that a duplicate group holds every file with its
  hash and at least two of them, and no two groups share a hash;
- the folder tree of the duplicate files numbers its parts in order and
  links every part to an earlier parent.
