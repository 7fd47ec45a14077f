# openlid

Keep a laptop awake, with the lid open or closed: a menu-bar toggle, a
recurring schedule, battery and in-transit safeguards, a command line, and
a privileged helper that switches system sleep.

The logic is a Verus library under `src/`, with contracts proved by Verus:

- `days`, `clock`, `mode`, `state`: days of the week, times of day, the
  schedule window and the decision whether sleep is prevented now.
- `runtime`: the menu-bar state machine (toggle, timers, power, lid,
  network and preference changes, reconciling with the platform).
- `config`, `ipc`, `cli`, `flows`, `commands`, `prefs`, `menu`:
  configuration, the control protocol, argument parsing, the command
  flows and their text, the preferences window's messages.
- `helper`, `pmset`, `platform`, `recovery`: the privileged helper's
  toggling and idle exit, reading `pmset -g`, platform traits and helper
  recovery.
- `release`, `install_detect`, `installer`: update checks, install
  method detection, the installer script and digest checks.

`app/` is the program around it: files, sockets, processes, the network,
serialisation and logging.

`app/` is incomplete on this build: the macOS frameworks the menu-bar
role, the helper's XPC listener, notifications and login items need are
not available, so those paths end in an error. As a result, some library
functions have no caller in `app/` yet: `update_check_for_menubar`,
`update_alert`, `should_register_at_startup`, `toggle_reply` and
`status_reply`, and the helper-recovery surface.
