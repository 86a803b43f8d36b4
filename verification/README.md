# qualirs

Structural and architectural code smell detection for Rust sources, with
every detector proved against a specification in Verus.

## Layout

- `src/` — the verified library.
  - `syntax.rs`: the model of a parsed file that the detectors read (items,
    calls, loops, `let`s, macros, ... as a tree of nodes).
  - `domain.rs`: severities, categories, locations and smells.
  - `text.rs`: verified string helpers (search, decimal rendering, padding,
    splitting into lines).
  - `binary64.rs`: double-precision arithmetic (conversion, division,
    scaling, comparison, rounding for display) carried out exactly on
    integers, for the share that the unstable-dependency detector reports.
  - `detectors/`: the detectors, grouped by category, the policy that decides
    what counts as test code, and the laws that relate them.
  - `cli/`: the argument types and the snippet rendering used by LLM output.
- `app/` — the command-line program: argument parsing with clap, the file
  walk, parsing with syn and conversion to the library's syntax model, and
  printing.
- `tests/` — tests of the library on hand-built syntax models.

Each detector's `detect` states its findings exactly, as a function of the
syntax model and of the policy in force.

## What the detectors read

The syntax model carries no types. The unused-result detector reports a
`let _ = expr;` unless the syntax of `expr` shows a value that is not a
`Result` or an `Option` — a literal, a reference, a struct literal,
`format!`/`vec!`, a std method whose result never is one (`len`,
`is_empty`, `contains`, ...), or a call of a function of the same file
declared only with a plain return type (`()`, a reference, a scalar,
`String`, a std collection) — or the discard is known to be harmless (a
`write!`/`writeln!` into a local `String`, a send on a channel).

The cyclic-dependency detector builds its dependency set from
`use crate::module::...` imports only; imports of other crates and
`self::`/`super::` imports do not count. Of these modules, those whose
name has no `_` (or starts with `crate`) count towards the cycle-risk
warning.
