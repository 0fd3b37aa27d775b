# sentinel

A background monitor that watches CPU and RAM usage and posts alerts to a
Discord webhook, and that can register itself as a service with systemd,
OpenRC, runit, SysVinit or launchd.

- `src/` is the verified library: command-line dispatch (`cli`), the
  configuration and its defaults (`config`), service-manager detection
  (`init`), the installation, removal and restart plans (`lifecycle`, `plan`,
  `service`), the Discord messages and alert decisions (`notify`), error
  messages (`error`) and string helpers (`text`).
- `app/main.rs` is the program around it: it probes the host, reads and
  writes files, runs commands, measures usage with `sysinfo` and posts with
  `reqwest`.
