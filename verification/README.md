# thinkcharge

ThinkPad charge-threshold management: a verified library (`src/`) and the
application around it (`app/`).

`src/` holds the decisions, each with a contract proved by Verus:

- `status`: battery readings (exact levels in hundredths of a percent), when a
  pack counts as full or in its top-off.
- `config`: the persisted settings, their validation, and the rule that a
  charge-to-full session is never persisted.
- `monitor`: the charge-to-full session as a state machine: one tick, or the
  user's request for a full charge, maps the session state and a battery
  reading to the steps to perform.
- `backend`, `linux`, `windows`: the policy steps (the user's, and the quiet
  ones of the background), what each platform backend does for a step and in
  which order (sysfs files; registry values, driver requests to every present
  battery slot, broadcast), how readings are parsed, what a backend records
  once a step succeeded, and what it reports.
- `report`, `text`: report texts, decimal parsing and formatting, code-point
  order, UTF-16 encoding.

`app/` performs the I/O: sysfs, registry and driver access, the battery
manager, the configuration file, the background threads and the desktop
shell. It hands the library plain values and carries out the steps it returns.
