# agent_lsp

What a coding agent can do with an editor's language servers, as a verified library: locating
symbols, looking up references, definitions and hover information, renaming, formatting, code
actions, diagnostics, workspace symbols and language servers. With it come the bridge over which
agents outside the editor call these operations, the tools of the editor's own agent, the command
line of remote sessions, the context menu of a commit and the clock in the status bar.

- `src/` decides and computes. Its functions are verified with Verus against their contracts. A few
  thin wrappers around calls into std and `shellexpand` are trusted: their doc comments say what is
  taken for granted. An operation that has to wait for the editor is a function from what became
  known to what is to be done next.
- `app/` performs what `src/` decides: HTTP, sockets, files, the clock, and the editor's services,
  which it takes as traits.
- `tests/` runs the library on concrete values.

The messages of an operation are stated as sequences of characters, so that a contract says letter
for letter what an agent reads.
