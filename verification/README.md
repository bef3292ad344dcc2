# Crystal Clear core

A safe system cleaner's library: what it scans for, what it refuses to touch,
and how it decides to move a path to the trash. The decisions are verified
with Verus; reading the disk, running commands and moving files is left to
the program around the library.

- `src/` is the library: protected paths (`safety`), boundaries and
  validation, the cleaners' scan and clean decisions (`cleaners`), the
  scanners for downloads, large files, duplicates and applications
  (`scanner`), disk reports (`disk`, `platform`), configuration defaults
  (`config`), the audit trail (`audit`) and the plain types of the
  foreign-function interface (`ffi`). Every function in it has a contract
  that Verus proves, but for the few wrappers around `std`, `dirs`, `uuid`,
  `getrandom`, `chrono`, `bytesize` and `blake3`, whose doc comments say what
  is taken on trust. Properties that span several functions are stated as `law_*` proof
  functions next to the code they are about.
- `tests/` runs the library on concrete values.
- `app/` is the command-line program: it probes the file system, runs
  `df`, `diskutil`, `smartctl`, `docker` and `brew`, asks Windows for the
  free space of its drives, keeps the SQLite database and the audit log,
  and hands what it found to the library.
