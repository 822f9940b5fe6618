# flowcat

The decision logic of a voice-agent runtime, verified with Verus.

An agent is a graph of nodes and edges kept as JSON. A run stands on one node;
its prompt and its callable transitions come from the graph, with `{{variables}}`
filled in, and each tool call of the model moves the run or ends it. Around that
stand the carrier and speech protocols, the browser's events, provider keys and
what the HTTP server answers.

| module | holds |
| --- | --- |
| `text`, `json`, `payload` | strings, JSON trees and base64, over mathematical models |
| `decode`, `graph` | graph documents and their validation |
| `clock`, `interpolate` | time placeholders and templates |
| `engine`, `brain` | the run and the agent that drives it |
| `plivo`, `socket` | the Plivo stream protocol and its answer document |
| `asyncai`, `kitten` | speech services |
| `events` | live events of a call |
| `config`, `run`, `session`, `server`, `webrtc` | deployment, keys, sessions, replies and offers |

`src/` is the verified library. A contract states its function's result over the
views of its arguments; properties that span functions are public proof functions,
under "Laws" at the end of a module. Calls into other crates sit in small wrappers
whose doc comments say what is claimed of them.

`app/` is the runtime around it: HTTP, sockets, files and the environment. The
media pipelines and the audio codec come from the host through the traits in
`app/host.rs`.
