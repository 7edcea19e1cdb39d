# google_admin_mcp

A local Google credential and admin helper for MCP clients, with its logic
verified in Verus.

- `src/` is the verified library: capability profiles and the tool-call
  policy (`config`, `server`), the error taxonomy (`error`), gcloud command
  lines, ADC path and summary, command outcomes (`google_cli`), the GA4
  account-summaries request and the reading of its JSON reply
  (`google_api`), the JSON reads behind trusted wrappers (`json`), scope
  normalization, POSIX shell quoting, the ADC login plan and OAuth client
  validation from the file text (`tools`), the tool capability table (`tool_surface`), and the
  text helpers they share (`text`).
- `app/` is the stdio MCP server around it: argument parsing, running gcloud,
  file reads, the HTTP call, JSON envelopes and the MCP plumbing.
- `tests/` runs the library on concrete values.
