//! Output formats and the renderings of result rows.
use vstd::prelude::*;
use crate::error::GhidraError;
use crate::format::human::{compact_renderable, compact_text, format_compact, format_full, full_text};
use crate::format::rows::{asm_text, c_text, format_asm, format_c, format_minimal, minimal_text};
use crate::format::tabular::{csv_out, format_csv, format_table, table_out};
use crate::format::tree::{format_tree, tree_out};
use crate::format::values::{concat, lemma_concat_push};
use crate::json::{
    compact, compact_list, nat_text, pretty_list, push_str, str_eq, to_compact_list,
    to_pretty_list, write_compact, write_nat, JsonValue,
};
use crate::text::{ lowercase, string_push, to_lower};

pub mod values;
pub mod rows;
pub mod human;
pub mod tabular;
pub mod tree;
pub mod lines;

verus! {

/// The output formats.
#[derive(Debug, Clone, Copy, PartialEq, Eq, Structural)]
pub enum OutputFormat {
    Full,
    Compact,
    Minimal,
    Json,
    JsonCompact,
    JsonStream,
    Csv,
    Tsv,
    Table,
    Ids,
    Count,
    Tree,
    Asm,
    C,
}

/// The format a (lowercased) name selects.
pub open spec fn format_named(n: Seq<char>) -> Option<OutputFormat> {
    if n == "full"@ {
        Some(OutputFormat::Full)
    } else if n == "compact"@ {
        Some(OutputFormat::Compact)
    } else if n == "minimal"@ {
        Some(OutputFormat::Minimal)
    } else if n == "json"@ {
        Some(OutputFormat::Json)
    } else if n == "json-compact"@ {
        Some(OutputFormat::JsonCompact)
    } else if n == "json-stream"@ || n == "ndjson"@ {
        Some(OutputFormat::JsonStream)
    } else if n == "csv"@ {
        Some(OutputFormat::Csv)
    } else if n == "tsv"@ {
        Some(OutputFormat::Tsv)
    } else if n == "table"@ {
        Some(OutputFormat::Table)
    } else if n == "ids"@ {
        Some(OutputFormat::Ids)
    } else if n == "count"@ {
        Some(OutputFormat::Count)
    } else if n == "tree"@ {
        Some(OutputFormat::Tree)
    } else if n == "asm"@ {
        Some(OutputFormat::Asm)
    } else if n == "c"@ {
        Some(OutputFormat::C)
    } else {
        None
    }
}

/// The message for a format name that names no format: the name quoted,
/// then the names accepted.
pub open spec fn unknown_format_message(s: Seq<char>) -> Seq<char> {
    "'"@ + s
        + "' (expected: full, compact, minimal, json, json-compact, json-stream, csv, tsv, table, ids, count, tree, asm, c)"@
}

impl OutputFormat {
    /// Parses a format name, ignoring case. Fails with `InvalidFormat`
    /// exactly when the lowercased name is none of the format names.
    pub fn from_str(s: &str) -> (r: Result<Self, GhidraError>)
        ensures
            match format_named(lowercase(s@)) {
                Some(f) => r == Ok::<OutputFormat, GhidraError>(f),
                None => r matches Err(GhidraError::InvalidFormat(m)) && m@ == unknown_format_message(s@),
            },
    {
        let l = to_lower(s);
        let n = l.as_str();
        if str_eq(n, "full") {
            Ok(Self::Full)
        } else if str_eq(n, "compact") {
            Ok(Self::Compact)
        } else if str_eq(n, "minimal") {
            Ok(Self::Minimal)
        } else if str_eq(n, "json") {
            Ok(Self::Json)
        } else if str_eq(n, "json-compact") {
            Ok(Self::JsonCompact)
        } else if str_eq(n, "json-stream") || str_eq(n, "ndjson") {
            Ok(Self::JsonStream)
        } else if str_eq(n, "csv") {
            Ok(Self::Csv)
        } else if str_eq(n, "tsv") {
            Ok(Self::Tsv)
        } else if str_eq(n, "table") {
            Ok(Self::Table)
        } else if str_eq(n, "ids") {
            Ok(Self::Ids)
        } else if str_eq(n, "count") {
            Ok(Self::Count)
        } else if str_eq(n, "tree") {
            Ok(Self::Tree)
        } else if str_eq(n, "asm") {
            Ok(Self::Asm)
        } else if str_eq(n, "c") {
            Ok(Self::C)
        } else {
            let mut m = String::new();
            push_str(&mut m, "'");
            push_str(&mut m, s);
            push_str(
                &mut m,
                "' (expected: full, compact, minimal, json, json-compact, json-stream, csv, tsv, table, ids, count, tree, asm, c)",
            );
            proof {
                reveal_strlit("'");
                reveal_strlit(
                    "' (expected: full, compact, minimal, json, json-compact, json-stream, csv, tsv, table, ids, count, tree, asm, c)",
                );
            }
            Err(GhidraError::InvalidFormat(m))
        }
    }
}

/// The format used when none is requested: human-readable on a terminal,
/// compact JSON when piped.
pub fn auto_detect_format(is_tty: bool) -> (r: OutputFormat)
    ensures
        r == (if is_tty { OutputFormat::Compact } else { OutputFormat::JsonCompact }),
{
    if is_tty {
        OutputFormat::Compact
    } else {
        OutputFormat::JsonCompact
    }
}

/// The output format for a command's result, by precedence: explicit `-o`,
/// then `--pretty` (pretty JSON) or `--json` (compact JSON), then the
/// configured default, then the command's own text default (C for
/// decompile, assembly for disasm), then terminal detection.
pub open spec fn output_format_for(
    explicit: Option<OutputFormat>,
    pretty: bool,
    json: bool,
    config_format: Option<OutputFormat>,
    text_default: Option<OutputFormat>,
    is_tty: bool,
) -> OutputFormat {
    if explicit is Some {
        explicit->0
    } else if pretty {
        OutputFormat::Json
    } else if json {
        OutputFormat::JsonCompact
    } else if config_format is Some {
        config_format->0
    } else if text_default is Some {
        text_default->0
    } else if is_tty {
        OutputFormat::Compact
    } else {
        OutputFormat::JsonCompact
    }
}

/// Resolves the output format (see [`output_format_for`]).
pub fn resolve_output_format(
    explicit: Option<OutputFormat>,
    pretty: bool,
    json: bool,
    config_format: Option<OutputFormat>,
    text_default: Option<OutputFormat>,
    is_tty: bool,
) -> (r: OutputFormat)
    ensures
        r == output_format_for(explicit, pretty, json, config_format, text_default, is_tty),
{
    let flags = if pretty {
        Some(OutputFormat::Json)
    } else if json {
        Some(OutputFormat::JsonCompact)
    } else {
        None
    };
    match explicit {
        Some(f) => f,
        None => match flags {
            Some(f) => f,
            None => match config_format {
                Some(f) => f,
                None => match text_default {
                    Some(f) => f,
                    None => auto_detect_format(is_tty),
                },
            },
        },
    }
}

/// Formats where a one-line summary above the rows stays readable.
pub fn is_human_format(format: OutputFormat) -> (r: bool)
    ensures
        r == (format == OutputFormat::Table || format == OutputFormat::Compact || format
            == OutputFormat::Full || format == OutputFormat::Minimal),
{
    match format {
        OutputFormat::Table | OutputFormat::Compact | OutputFormat::Full | OutputFormat::Minimal => true,
        _ => false,
    }
}

/// Renders result rows in the output formats.
pub struct DefaultFormatter;

/// One compact JSON document per line.
pub open spec fn stream_text(data: Seq<JsonValue>) -> Seq<char> {
    concat(data.map_values(|v: JsonValue| compact(v) + seq!['\n']))
}

/// The rendering of `data` in `format`; `None` where the format does not
/// fit the data (the tree format on rows that are no call graph).
pub open spec fn formatted(data: Seq<JsonValue>, format: OutputFormat) -> Option<Seq<char>> {
    match format {
        OutputFormat::Json => Some(pretty_list(data)),
        OutputFormat::JsonCompact => Some(compact_list(data)),
        OutputFormat::JsonStream => Some(stream_text(data)),
        OutputFormat::Count => Some(nat_text(data.len())),
        OutputFormat::Table => Some(table_out(data)),
        OutputFormat::Csv => Some(csv_out(data, ',')),
        OutputFormat::Tsv => Some(csv_out(data, '\t')),
        OutputFormat::Compact => Some(compact_text(data)),
        OutputFormat::Full => Some(full_text(data)),
        OutputFormat::Minimal | OutputFormat::Ids => Some(minimal_text(data)),
        OutputFormat::C => Some(c_text(data)),
        OutputFormat::Asm => Some(asm_text(data)),
        OutputFormat::Tree => tree_out(data),
    }
}

fn json_stream(data: &[JsonValue]) -> (r: String)
    ensures
        r@ == stream_text(data@),
{
    let mut out = String::new();
    let mut i: usize = 0;
    while i < data.len()
        invariant
            0 <= i <= data.len(),
            out@ == concat(
                data@.subrange(0, i as int).map_values(|v: JsonValue| compact(v) + seq!['\n']),
            ),
        decreases data.len() - i,
    {
        let ghost pre = out@;
        write_compact(&data[i], &mut out);
        string_push(&mut out, '\n');
        proof {
            let f = |v: JsonValue| compact(v) + seq!['\n'];
            assert(out@ =~= pre + f(data@[i as int]));
            assert(data@.subrange(0, i + 1).map_values(f) =~= data@.subrange(0, i as int).map_values(
                f,
            ).push(f(data@[i as int])));
            lemma_concat_push(data@.subrange(0, i as int).map_values(f), f(data@[i as int]));
        }
        i = i + 1;
    }
    assert(data@.subrange(0, data.len() as int) =~= data@);
    out
}

/// The message for the tree format on data that is no call graph.
pub open spec fn tree_needs_graph_message() -> Seq<char> {
    "format 'tree' requires graph data (use with: graph callers, graph callees, graph calls)"@
}

impl DefaultFormatter {
    /// Renders `data` in `format` (see [`formatted`]); the tree format on
    /// data that is no call graph fails with `InvalidFormat`.
    pub fn format(&self, data: &[JsonValue], format: OutputFormat) -> (r: Result<String, GhidraError>)
        requires
            format == OutputFormat::Compact ==> compact_renderable(data@),
        ensures
            match formatted(data@, format) {
                Some(s) => r matches Ok(t) && t@ == s,
                None => r matches Err(GhidraError::InvalidFormat(m)) && m@ == tree_needs_graph_message(),
            },
    {
        match format {
            OutputFormat::Json => Ok(to_pretty_list(data)),
            OutputFormat::JsonCompact => Ok(to_compact_list(data)),
            OutputFormat::JsonStream => Ok(json_stream(data)),
            OutputFormat::Count => {
                let mut r = String::new();
                write_nat(data.len() as u128, &mut r);
                assert(r@ =~= nat_text(data@.len()));
                Ok(r)
            },
            OutputFormat::Table => Ok(format_table(data)),
            OutputFormat::Csv => Ok(format_csv(data, ',')),
            OutputFormat::Tsv => Ok(format_csv(data, '\t')),
            OutputFormat::Compact => Ok(format_compact(data)),
            OutputFormat::Full => Ok(format_full(data)),
            OutputFormat::Minimal | OutputFormat::Ids => Ok(format_minimal(data)),
            OutputFormat::C => Ok(format_c(data)),
            OutputFormat::Asm => Ok(format_asm(data)),
            OutputFormat::Tree => format_tree(data),
        }
    }
}


/// The output format follows a fixed precedence: an explicit `--format`
/// wins over everything; otherwise `--pretty` gives pretty JSON and
/// `--json` compact JSON; otherwise the configured default, then the
/// command's own text format; with none of these, human-readable on a
/// terminal and compact JSON when piped. No input below the first one
/// given changes the result.
pub proof fn law_format_precedence(
    explicit: Option<OutputFormat>,
    pretty: bool,
    json: bool,
    config_format: Option<OutputFormat>,
    text_default: Option<OutputFormat>,
    is_tty: bool,
)
    ensures
        ({
            let r = output_format_for(explicit, pretty, json, config_format, text_default, is_tty);
            &&& explicit matches Some(f) ==> r == f
            &&& explicit is None && pretty ==> r == OutputFormat::Json
            &&& explicit is None && !pretty && json ==> r == OutputFormat::JsonCompact
            &&& explicit is None && !pretty && !json && config_format is Some ==> r == config_format->0
            &&& explicit is None && !pretty && !json && config_format is None && text_default is Some
                ==> r == text_default->0
            &&& explicit is None && !pretty && !json && config_format is None && text_default is None
                ==> r == (if is_tty {
                OutputFormat::Compact
            } else {
                OutputFormat::JsonCompact
            })
        }),
{
}

} // verus!
