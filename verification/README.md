# msr_server

A collector of processor and system statistics: CPUID data (vendor, brand,
cache geometry), model specific register fields (core voltage, package
energy), system data (core count, core temperature sensor, drives, system
identification) and user-defined modules whose output is checked and
re-rendered as JSON or TOML. Results are served over HTTP or printed as JSON.

Layout:

- `src/` — the verified library (Verus). `data_getters` holds the CPUID,
  register and system-statistic logic; `misc::module_parser` the module
  pipeline (fetch planning, field checks, rendering); `text` a verified
  substring search.
- `app/` — the program around it: command line, HTTP server, file and
  device I/O, `sysinfo` readings and the floating-point measurements.
- `tests/` — tests of the library on concrete values.
