# DocSort, verified core

DocSort is a user-level background agent: it watches a folder, picks out the
notifications about documents it handles, and runs one task per changed file,
one task at a time, on a supervised worker.

- `src/` is the library, verified with Verus. It holds every decision of the
  agent: which notifications report a new or modified document (`filter`), how they become tasks
  (`ingest`), the supervisor's queue, dispatch, health check, worker
  replacement and shutdown (`supervisor`, with its laws), the worker's reports
  (`worker`), the configuration and its defaults (`config`), the command line
  (`cli`), the folder-layout check (`folder`), the autostart decisions
  (`autostart`) and the single-instance check (`instance`).
- `app/` is the program around it: argument parsing with clap, the
  configuration file (confy), logging (flexi_logger), the file watcher
  (notify), Ctrl-C handling, the threads and channels that run the
  supervisor and worker loops, and the Windows registry backend.
- `tests/` exercises the library on concrete values.
