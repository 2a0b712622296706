# agent_turns

The rules of a coding agent's sessions, written and proved in Verus.

- `items`: the items that a turn is made of (messages, commands, tool calls, the calls by which
  agents work together, prompts of hooks) and the events that report them. Prompts of hooks are
  written as the elements of `xml`.
- `oauth`: the OAuth credentials of tool servers: where they are kept (`store`, `fallback_file`,
  `keys`), when they can be used (`tokens`), and how they are refreshed (`persistor`). The modules
  `store_laws` and `refresh_laws` say what holds of a whole operation against stores, a manager and a
  provider.
- `initialize`, `retry`, `transport`: how a connection to a tool server is opened, which failures are
  worth another attempt, and how requests get their credentials.
- `managed_defaults`: model defaults that an administrator sets for new threads.

What needs the outside (a keyring, a file, a provider, a transport) is a series of calls: a step names
the next call, and `resume` takes what the call gave back. `src/` decides, `app/` makes the calls.

`tests/` runs the library with stores and providers that are kept in memory.
