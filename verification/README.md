# veltrix

A systems-utility library for Linux services and hosts, verified with Verus:
duration and boolean formats, per-user and system paths, command specs,
Unix identities and their text databases, clocks, and clients for systemd,
Podman, Docker, Caddy, Technitium DNS and LDAP, plus the emoji table
generator.

- `src/` is the verified library. Every client describes its work as plain
  values (command specs, request bytes, API calls) and judges the replies it
  is handed; its contracts state both.
- `tests/` exercise the library on concrete values.
- `app/` is the runtime around it: the `veltrix-codegen` command line, file
  and environment access, process spawning, Unix sockets, HTTP, and system
  calls through `libc`.
