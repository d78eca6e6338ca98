# phos

A log colorizer: regex rules color the parts of log lines that matter, with
semantic colors that a theme resolves, built-in rules for the Ethereum
clients, user-defined programs, and webhook alerts (Discord, Telegram,
generic JSON) raised from the lines.

The library in `src/` is written in Verus; every function states its
behaviour in `requires`/`ensures` and is proved against it.

- `colorizer`, `rule`, `style`, `theme`, `colors` - coloring lines (the
  `law_*` proof functions in `colorizer` state what holds of every line).
- `clients` - the Ethereum clients and their rules.
- `program` - programs, the registry that finds them by ID, name or command
  line, and user program configuration.
- `alert` - alert conditions, their evaluation, the rate limiter, and the
  webhook payloads.
- `config`, `settings` - configuration files and how command-line options,
  the global configuration and the defaults combine.
- `commands`, `preview`, `interactive` - what the commands show, theme
  previews, and which commands need a terminal.
- `aggregator` - the log aggregator's decisions: containers from the
  package lists that DAppNode reports, log lines from replies and polling
  that sends only new lines, the per-line work of a container log stream,
  and the web socket sessions that find a container and send its lines as
  HTML.
- `text`, `pattern` - string helpers, and the regex calls.

`app/` holds the `phos` command: argument parsing, files, standard input,
child processes and the HTTP posts of alerts. `tests/` runs the library.
