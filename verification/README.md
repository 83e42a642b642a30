# mcp_extensions

The logic of three MCP server extensions — an Odoo CRM tool server, the
systemprompt approval tools, and the human-approval step and audit helpers
they share — written in Verus and proved against its contracts.

## Layout

- `src/` — the verified library.
  - Odoo tools: `catalog` (the tool list), `dispatch` (routing, unknown
    tools), `handlers` (the handler types), `inputs`, `domain` (search
    domains), `payload` (what `create`/`write` take), `table`/`tables`
    (table layouts), `rows`, `wire` (Odoo's JSON idioms), and one module
    per plane: `crm`, `tags`, `partner`, `notes`, `attachments`, `activity`,
    `calendar`, `tasks`, `channels`, `sales`, `discovery`, `report`,
    `overview` (the briefing and its dashboard).
  - Shared: `approval` (call ids, the approval outcome, audit milestones and
    records), `audit` (access rows, reason truncation, the plain result
    shape).
  - systemprompt server: `approvals`.
  - Text: `strings`, `text` (HTML to plain text, snippets), `fmt`.
  - `laws` — properties over all inputs, proved.
- `tests/` — tests of the library on concrete values.
- `app/` — the protocol side: serde and JSON Schema input shapes, the JSON
  domains and payloads travel as, record typing, the `rmcp` tool list, and
  the handlers' calls to Odoo through an RPC trait.
