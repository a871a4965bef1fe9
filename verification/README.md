# butler

A Discord bot that starts and watches one Minecraft server, hosted on Aternos or
behind a Pterodactyl panel.

The rules of the bot live in the library under `src/`, which is verified with
Verus: settings, messages, parsers, and state machines that say what to do next
and take back what came of it. The program under `app/` does what they ask for:
Discord, HTTP, the browser, the disk and the clock. Two rules are its own, because
they compute with floating-point numbers: where on a page a click may close an
advertisement (`close_ad` in `app/browser.rs`), and the expiry of a cookie, which
is cut to whole seconds.

| Module | What it holds |
| --- | --- |
| `text`, `json`, `outside` | text functions, JSON documents, and the calls into other crates |
| `terminal`, `startup` | log lines, arguments and log levels |
| `config`, `environment` | the settings and where they come from |
| `provider` | what every hosting provider reports |
| `pterodactyl` | the panel, allocation, power, clearance and the solver's container |
| `aternos` | the dashboard in a browser, and the same over plain HTTP |
| `minecraft` | addresses, service records, pings and their meaning |
| `run_history` | recorded runs, the event file and the run directories |
| `state` | the start under way and the lock files |
| `auth` | who may use which command |
| `server_service` | the commands themselves |

What holds of whole runs is stated in public proof functions: in
`pterodactyl::laws`, `pterodactyl::endings` and `server_service::laws`, and in the
other modules next to what they speak of.

`outside` and `json` name each function of another crate that the proofs rely on,
and say what they rely on. `text` does so for two functions of the standard
library.
