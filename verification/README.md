# j3grid_docker

The verified core of j3GridDocker, a Windows utility that docks external
top-level windows into tabbed splitter grids.

`src/` is a Verus library: the settings document handling (TOML scanning,
`[options]` patching, schema checks, settings paths), the tab, menu and
command policies of the main window, window geometry and layout metrics,
drop tracking, the active-tab layout cache, the process-tree and window
search used to restore the programs of a tab preset, status texts, and the
wide-string helpers.  Every function there carries a contract proved by
Verus; the few calls into `toml`, `windows-sys` and `std::path` go through
small trusted wrappers whose contracts are documented beside them.

`app/` is a small command-line front end: it reads and writes the settings
file next to the executable and takes process snapshots, handing plain
values to the library.

`tests/` runs the library on concrete values.
