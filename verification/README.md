# hcli

The terminal chrome of the HCLI front end, written in Verus. The library's
functions carry contracts that Verus proves. Calls into `unicode-width`,
`ratatui`, `chrono` and `String::push` go through small wrappers marked
`external_body`: their contracts are trusted, not proved, and each wrapper's
doc comment says what it claims of the outside function.

- `speed` — the generation-speed meter (quarter-token counts, estimates from
  streamed characters, usage reports, per-call accumulation).
- `width`, `text`, `number` — cell widths (through `unicode-width`), text cut
  to a width with an ellipsis, decimal numbers with thousands separators.
- `footer` — the two footer lines: which metrics show, their markers, and
  joining them within the terminal width.
- `header` — the workspace header and the welcome card, as styled runs.
- `geometry`, `paint`, `menu`, `catalog` — layout plans for the command
  palette and the model library (rectangles through `ratatui`), and the
  inspector rows of the hcap catalog.
- `startup` — which launches run HCLI's key setup, the setup as a state
  machine, the fork's path overrides, the welcome banner and the provider
  profile it adds.

`app/` holds what Verus does not see: environment and file access, the
floating-point figures (token counts, prices, percentages, rates), drawing
with `ratatui`, and the loop that drives the setup against the host's
services.
