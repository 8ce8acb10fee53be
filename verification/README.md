# scrollsplit

A macOS command-line tool that reverses mouse-wheel and trackpad scrolling
independently, with its decision logic verified by Verus.

- `src/` — the verified library:
  - `text.rs`: character-level operations (ASCII lower-casing, Unicode trimming,
    joining, decimal numbers) with their definitions;
  - `config.rs`: the configuration and the rule for changing one setting by name;
  - `cli.rs`: the commands and how a boolean value typed by the user is read;
  - `paths.rs`: where the configuration file and the login agent live below the
    home directory;
  - `service.rs`: launchd names, XML escaping, the agent's property list and how
    a `launchctl` run is judged;
  - `event_tap.rs`: which scroll events are changed and which axes are reversed;
  - `session.rs`: each command as a conversation with the host — the library
    decides every next step, the host performs it and reports back.
- `app/` — the host: argument parsing (clap), file and process I/O, TOML
  (serde/toml), and the Quartz event tap.
- `tests/` — tests of the library on concrete values.
