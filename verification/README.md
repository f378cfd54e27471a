# mcp19061_calc

A terminal calculator for MCP19061 buck-boost converter designs. The verified
library (`src/`) holds the editor of the design inputs and the integer logic
around it; the program (`app/`) holds the terminal interface, the design
equations (which compute on floating point) and the file exports.

- `src/fields.rs`: the input fields, their order and labels.
- `src/state.rs`: the editor state, its abstract view, the key handling as a
  transition on that view, and the laws it keeps.
- `src/numeric.rs`: whitespace trimming and unsigned parsing of the sweep
  steps, and the steps range.
- `src/heatmap.rs`: the heatmap text drawn from efficiency bands.
- `src/text.rs`: string helpers.
