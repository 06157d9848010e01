# metar

A parser for METAR weather reports, verified with Verus.

The grammar of a report is stated as spec functions over the report's
characters (`spec_*` in `src/`): what each group matches, where the match
ends and what the group stands for. The executable parsers (`*_at`) are
proved to compute exactly those results, and the functions in
`src/grammar.rs`, `src/metar.rs` and `src/remarks.rs` apply a rule to a whole
input.

Parsed values keep numbers as the text they were written in (as spans of
the input) and integers where the grammar bounds the digits; units are
decided by the parser. `app/` turns those values into physical quantities
with `uom`, which works in floating point.

Layout of `src/`:

- `lex.rs`, `ws.rs`, `list.rs`: characters, literals, runs, whitespace,
  lists of groups.
- `error.rs`: what a refused input is answered with. Each group module also
  states, beside its grammar, the tokens that its failures mark (`marks_*`);
  a refusal reports the furthest marked position (with its line, column and
  byte offset) and the tokens marked there.
- `header.rs`, `wind.rs`, `visibility.rs`, `runway.rs`, `weather.rs`,
  `cloud.rs`, `measure.rs`, `conditions.rs`, `trend.rs`, `remarks.rs`: the
  report groups.
- `metar.rs`: a whole report.
- `grammar.rs`: single groups as whole inputs.
- `diagnostic.rs`: `codespan_reporting` diagnostics for refused inputs.
- `laws.rs`: properties of the grammar.
