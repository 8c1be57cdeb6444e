# geno

Geno is an AI agent for Lumora code that works in ReAct mode (thought, action,
observation), reflects on its results, and can chat with a tool-using model.
The library in `src/` is verified with Verus; `app/` holds the program around
it (command line, HTTP, files, processes).

- `text`: string operations (trimming, lines, search, joining, decimal numbers)
  stated over character sequences.
- `knowledge`: the knowledge base, a map from keys to learned values.
- `json`: the calls into `serde_json`, and reading a tool call's JSON arguments.
- `fence`: cutting the fenced JSON block out of a model reply.
- `agent`: actions written as `code(...)`, reading `Thought:`/`Action:` replies,
  the ReAct prompt, and reflection (`evolution`).
- `service`: the ReAct agent, its actions, and a ReAct run as a state machine
  (`react`): the run decides, the caller parses actions and calls tools.
- `demo`: a conversation with a tool-using model as a state machine, and the
  planning of tool calls (a registered tool runs only on arguments that parse
  as JSON), code runs and file operations.
- `config`, `data`: the agent's settings and the personal data types.

The program answers `--ask <task>` with a ReAct run; with `--reflect` the agent
also reflects on the finished task and upgrades itself; `--demo` starts the
interactive tool-using agent on standard input.
