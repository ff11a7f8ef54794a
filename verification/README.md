# Lagide

A terminal hub for WSL distributions, SSH sessions, SFTP transfers and SSH
tunnels, with its logic written in Verus and proved against its contracts.

## Layout

- `src/` — the verified library (`lagide`):
  - `text.rs`: whitespace, trimming, line and word splitting, decimal and
    octal digits, `u8` parsing, each with its model over `Seq<char>`.
  - `error.rs`: `LagideError` and its messages.
  - `wsl.rs`: parsing `wsl --list --verbose`, the `wsl` invocations that
    manage distributions and the results they give.
  - `session.rs`: saved sessions and the list that holds them.
  - `tunnel.rs`: SSH tunnel options and the list of running tunnels,
    generic over the process that serves each one.
  - `ssh.rs`: the state of an SSH client and host key fingerprints.
  - `sftp.rs`: remote file entries built from SFTP stat results.
  - `terminal.rs`: key sequences, UTF-8 input, and the screen kept by the
    `vt100` parser, drawn as a grid of cells.
  - `tui.rs`: tabs, the interface state, what each key does (a state
    machine that names the outside work it needs), uptime and byte-count
    text.
  - `panels.rs`: the text of each list entry, form field and output line
    that the panels show, apart from colour and layout.
  - `sysinfo_mod.rs`: network figures and unit conversion.
- `app/` — the program around the library: the terminal, the event loop,
  drawing with ratatui, running `wsl` and `ssh`, the PTY, `ssh2` connections,
  `sysinfo`, and the session file as JSON.
- `tests/` — tests of the library on concrete values.
