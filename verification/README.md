# Gopher

Gopher watches open GitHub pull requests from the macOS menu bar. It reads what the agents Codex,
Cubic and CodeRabbit have said of a pull request, and announces when their work on a commit has
settled. Merging, labelling, ignoring and acknowledging are done from its inbox.

`src/` is the library. Everything in it is verified with Verus: each function states what it returns
or changes, and public proof functions state what holds of several functions together.

| Module | What it holds |
| --- | --- |
| `model`, `evidence` and the agents | Pull requests, verdicts of agents, and the identity of an update |
| `github/` | Requests to the GitHub CLI, their replies, quotas, remembered replies and failures |
| `store` | What is kept between runs, and the changes to be written |
| `worker/` | What is polled, announced and changed on GitHub, and when |
| `macos/` | The inbox, the menu, the keyboard, updates and the application as a whole |
| `actions`, `hotkeys`, `config`, `identity` | Settings and names |
| `installer`, `lifecycle`, `logging` | Decisions around installing, ending and writing records |
| `json`, `text`, `text_map`, `order` | Values that the rest is stated over |

What other crates compute stands behind small wrappers that say in their comments what is taken on
trust: `serde_json`, `regex`, `sha2`, `url`, `chrono`, `png`, `tracing-subscriber` and a few functions
of the standard library.

`app/` is ordinary Rust: processes, files, the database, and the views of macOS. It hands events to
the library and does what the library asks for. `app/native/` is compiled on macOS only, where it
needs `objc2` and its frameworks, `block2`, `tao`, `tray-icon` and `global-hotkey` besides the crates
in `Cargo.toml`. `tests/` runs the library.
