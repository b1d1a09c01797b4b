# cargo_lens

A terminal checklist for a cargo project. One entry stands for
`cargo check`, with the diagnostics it reported listed beside it, errors
first, then warnings, then the rest; another explains what is still to do.
The library also computes a color for the cargo entry (gray while cargo has
not answered, then red, yellow or green by the worst diagnostic); the view
does not show it.

- `src/` is the library, verified with Verus: the model of cargo's messages
  (`message`), the two checklists (`review_req_checklist`,
  `components::checklist`), the ordering and layout of the diagnostics panel
  (`components::diagnostic`), the view's lines and info panel (`app`), the
  event handling of the view (`events`), and the steps that gather
  diagnostics from cargo's message stream (`actor::cargo`, `diagnostics`,
  `cg_check`).
- `app/` is the program around it: it runs cargo, reads the terminal, and
  draws with ratatui.
- `tests/` exercise the library on concrete values.
