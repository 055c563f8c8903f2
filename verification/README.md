# xana

The decision logic of the Xana agent application, written in Verus and proved
against its contracts.

- `src/` is the library. Each flow that talks to the outside world is a state
  machine: it says what is to be done next, is told what came of it, and its
  contract fixes every move. What the machines and the plain functions are known
  to keep to is stated in public proof functions beside them.
- `tests/` runs the library on concrete values.
- `app/` is ordinary Rust around the library: terminals, files, HTTP and the async
  runtime. It performs the work and hands back events.

| Module | What it decides |
| --- | --- |
| `a2a` | delegating bounded tasks to external agents, collecting their replies, cancelling tasks |
| `turn`, `agent`, `progress`, `usage`, `message` | one bounded turn of the native agent |
| `chat` | launching, leaving and composing conversations |
| `connect`, `web`, `connections`, `connection_commands`, `models` | connections, focused services, web access and models |
| `mcp`, `plugins`, `external_agents`, `images`, `operations`, `memory`, `outbound`, `hosting`, `autonomy` | the commands of the same names |
| `surface`, `one_shot`, `capabilities` | the edge of the program |
| `desktop` | the workbench, without its drawing |
| `text`, `order`, `json`, `digest`, `dialogue`, `config` | what the others are made of |

A few functions call outside crates (`blake3`, `serde_json`, `reqwest`'s URL
parser, `base64`, `jiff`, `shlex`). Each such call stands in a small wrapper whose
doc comment says what is taken on trust.
