# service_gen

Wraps a Java application as a Windows service. The generator builds a
deployment package (the service command line, a controller executable that
carries the configuration at its end, the JAR and optionally a JRE, packed
into a ZIP file); the controller installs, starts, stops and removes the
service and, in service mode, runs and supervises the application.

## Layout

- `src/`: the verified library.
  - `service_config`: the configuration and its defaults.
  - `config_view`, `app_view`: the generator's form and window as state
    machines (event in, new state and requested action out), with the
    load/store round trip of the form.
  - `package_export`: the service command line and the export plan.
  - `exec_config_utils`: the configuration trailer of the controller, with
    its read-after-write law.
  - `sc_utils`, `service_utils`, `gui`, `service`, `log_utils`,
    `gui_utils`: the controller's decisions (service commands, status
    parsing, button states, launch preparation, supervision, log routing).
  - `text`: string operations with their specifications (whitespace
    splitting, joining, trimming, lines, decimal numbers, UTF-16, file names
    of Windows paths).
- `app/`: the programs around the library: `app gen` opens the generator's
  window; on Windows, `app -service` runs the controller as a service and
  `app` alone opens the controller's window.
- `tests/`: tests of the library on concrete values.
