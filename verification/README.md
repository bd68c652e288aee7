# pacaptr

A `pacman`-like syntax wrapper for many package managers: `pacaptr -Syu`
refreshes and upgrades with `apt`, `dnf`, `brew`, `scoop` and others.

The library under `src/` holds the decisions, each with a contract proved by
Verus:

- `dispatch`: how the command line flags become a method such as `suy`;
- `select`: how the package manager is named or detected;
- `pm` and `pm/*`: which native commands each method of each package manager
  runs, and how dry runs, prompts and cache cleaning change a command;
- `plan`: the whole path from a command line to the steps to run;
- `exec`, `text`, `print`: how commands are shown and run, how their output
  is searched, and how messages are laid out;
- `config`, `error`, `dpkg`.

The program under `app/` parses the command line, loads the configuration,
spawns the commands and asks the questions.
