# ghidra_cli

`gd`, a command line for Ghidra, and the verified library behind it.

The command line talks to a bridge that runs inside Ghidra's headless
analyzer, one per project. Everything it decides is in the library under
`src/`, written in Verus with its contracts proved:

| module | what it decides |
|---|---|
| `cli` | the commands and their arguments; which project, program and query options a command carries, and whether it needs the bridge |
| `bridge` | what each command asks of the bridge: the request and its arguments, or the multi-step commands |
| `session` | starting, restarting and switching programs; raw payloads; batch files; the printed lines |
| `query` | query planning (what the bridge fetches, what runs client-side), field selection, sorting, paging, envelope unwrapping |
| `filter` | the `--filter` language: parsing and evaluation |
| `format` | the output formats: JSON, table, CSV/TSV, compact, full, minimal, tree, C, assembly |
| `diff` | the `diff programs` result from the differ's pairs and the bridge's function lists |
| `run`, `ghidra`, `maintenance` | projects and paths, addresses, configuration changes, imports, job summaries |
| `json`, `text`, `error` | the JSON value type and its renderings, text helpers, errors |

Beside the contracts of each function, the library states properties of
the whole in `law_*` proof functions: among them, that sorting is stable
and only reorders, that a filter keeps exactly the rows it matches, that
paging takes one window, that field selection keeps only what it selects,
that the query plan applies an offset exactly once and never lets a
pushed-down filter cut the dataset, that a filter pushed down to the
bridge shows the same rows as a client-only pass over the full dataset,
that the JSON stream format writes one line per row, and that the diff
summary's counts add up, and that selecting fields keeps an object's keys
distinct.

Numbers in filters, sorting and `diff programs` are compared exactly, as
decimals of any size. The command compares them as `f64`; the contracts
of those functions state their results where the two agree
(`filter::numbers::f64_agrees`: integers `f64` holds exactly, or numbers
far enough apart that rounding cannot matter), and claim nothing else.

`app/` is the program: argument parsing with `clap`, the configuration
file, the bridge socket and process, the BinDiff database, and printing.
`tests/` runs the library on concrete values.
