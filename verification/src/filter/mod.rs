//! The `--filter` expression language: its syntax tree, parser and evaluator.
//!
//! An expression compares row fields with values:
//! `field op value` where `op` is one of `= != > >= < <=` (comparison),
//! `~` (contains), `^` (starts with), `$` (ends with), `=~` (regex);
//! `field IN (v, ...)`, `field EXISTS`, `field IS EMPTY`, `field IS NULL`;
//! combined with `NOT`, `AND`, `OR` (in increasing looseness) and brackets.
use vstd::prelude::*;
use crate::error::GhidraError;
use crate::json::JsonValue;

pub mod parser;
pub mod evaluator;
pub mod numbers;

verus! {

/// Comparison operators.
#[derive(Clone, Copy, Debug, PartialEq, Eq, Structural)]
pub enum CompareOp {
    Equal,
    NotEqual,
    Greater,
    GreaterEqual,
    Less,
    LessEqual,
}

/// Case-insensitive string operators.
#[derive(Clone, Copy, Debug, PartialEq, Eq, Structural)]
pub enum StringOp {
    Contains,
    StartsWith,
    EndsWith,
    Regex,
}

/// `AND` / `OR`.
#[derive(Clone, Copy, Debug, PartialEq, Eq, Structural)]
pub enum LogicalOp {
    And,
    Or,
}

/// `EXISTS`, `IS EMPTY`, `IS NULL`.
#[derive(Clone, Copy, Debug, PartialEq, Eq, Structural)]
pub enum ExistenceCheck {
    Exists,
    Empty,
    Null,
}

/// A literal on the right of a comparison or in an `IN` list.
#[derive(Debug)]
pub enum Value {
    Integer(i64),
    /// A decimal literal with a fractional part, held by its text.
    Float(String),
    String(String),
    Boolean(bool),
}

/// A parsed filter expression.
#[derive(Debug)]
#[allow(inconsistent_fields)]
pub enum FilterExpr {
    Compare { field: String, op: CompareOp, value: Value },
    StringOp { field: String, op: StringOp, value: String },
    Logical { op: LogicalOp, exprs: Vec<FilterExpr> },
    Not(Box<FilterExpr>),
    Exists { field: String, check: ExistenceCheck },
    In { field: String, values: Vec<Value> },
}

/// A parsed, ready-to-evaluate filter.
#[derive(Debug)]
pub struct Filter {
    pub expr: FilterExpr,
}

/// The mathematical content of a [`Value`].
pub enum ValueM {
    Integer(int),
    Float(Seq<char>),
    Str(Seq<char>),
    Boolean(bool),
}

/// The mathematical content of a [`FilterExpr`].
pub enum ExprM {
    Compare(Seq<char>, CompareOp, ValueM),
    StrOp(Seq<char>, StringOp, Seq<char>),
    Logical(LogicalOp, Seq<ExprM>),
    Not(Box<ExprM>),
    Exists(Seq<char>, ExistenceCheck),
    In(Seq<char>, Seq<ValueM>),
}

pub open spec fn value_model(v: Value) -> ValueM {
    match v {
        Value::Integer(i) => ValueM::Integer(i as int),
        Value::Float(t) => ValueM::Float(t@),
        Value::String(s) => ValueM::Str(s@),
        Value::Boolean(b) => ValueM::Boolean(b),
    }
}

pub open spec fn values_model(s: Seq<Value>) -> Seq<ValueM> {
    s.map_values(|v: Value| value_model(v))
}

pub open spec fn expr_model(e: FilterExpr) -> ExprM
    decreases e, 0nat,
{
    match e {
        FilterExpr::Compare { field, op, value } => ExprM::Compare(field@, op, value_model(value)),
        FilterExpr::StringOp { field, op, value } => ExprM::StrOp(field@, op, value@),
        FilterExpr::Logical { op, exprs } => ExprM::Logical(op, exprs_model(exprs@)),
        FilterExpr::Not(inner) => ExprM::Not(Box::new(expr_model(*inner))),
        FilterExpr::Exists { field, check } => ExprM::Exists(field@, check),
        FilterExpr::In { field, values } => ExprM::In(field@, values_model(values@)),
    }
}

pub open spec fn exprs_model(s: Seq<FilterExpr>) -> Seq<ExprM>
    decreases s, 1nat,
{
    if s.len() == 0 {
        seq![]
    } else {
        exprs_model(s.subrange(0, s.len() - 1)).push(expr_model(s[s.len() - 1]))
    }
}

pub proof fn lemma_exprs_model(s: Seq<FilterExpr>)
    ensures
        exprs_model(s).len() == s.len(),
        forall|i: int| 0 <= i < s.len() ==> #[trigger] exprs_model(s)[i] == expr_model(s[i]),
    decreases s.len(),
{
    if s.len() > 0 {
        let p = s.subrange(0, s.len() - 1);
        lemma_exprs_model(p);
        assert forall|i: int| 0 <= i < s.len() implies #[trigger] exprs_model(s)[i] == expr_model(
            s[i],
        ) by {
            if i < s.len() - 1 {
                assert(p[i] == s[i]);
            }
        }
    }
}


/// Whether every regex in `e` compiles.
fn regexes_valid(e: &FilterExpr) -> (r: bool)
    ensures
        r == evaluator::regexes_ok(expr_model(*e)),
    decreases e,
{
    match e {
        FilterExpr::StringOp { field, op, value } => match op {
            StringOp::Regex => evaluator::regex_match_ci(value.as_str(), "").is_some(),
            _ => true,
        },
        FilterExpr::Logical { op, exprs } => {
            let ghost ms = exprs_model(exprs@);
            proof {
                lemma_exprs_model(exprs@);
                assert(ms.subrange(0, ms.len() as int) =~= ms);
            }
            let mut i: usize = 0;
            while i < exprs.len()
                invariant
                    ms == exprs_model(exprs@),
                    ms.len() == exprs@.len(),
                    forall|k: int| 0 <= k < exprs@.len() ==> #[trigger] ms[k] == expr_model(exprs@[k]),
                    0 <= i <= exprs.len(),
                    *e == (FilterExpr::Logical { op: *op, exprs: *exprs }),
                    evaluator::regexes_ok(expr_model(*e)) == evaluator::all_regexes_ok(
                        ms.subrange(i as int, ms.len() as int),
                    ),
                decreases exprs.len() - i,
            {
                let ghost rest = ms.subrange(i as int, ms.len() as int);
                assert(rest[0] == ms[i as int]);
                assert(rest.subrange(1, rest.len() as int) =~= ms.subrange(i + 1, ms.len() as int));
                assert(decreases_to!(*e => (*e)->Logical_exprs));
                assert(decreases_to!(*exprs => exprs@));
                assert(decreases_to!(exprs@ => exprs@[i as int]));
                if !regexes_valid(&exprs[i]) {
                    return false;
                }
                i = i + 1;
            }
            true
        },
        FilterExpr::Not(inner) => regexes_valid(inner),
        _ => true,
    }
}

fn field_path_ok(field: &str) -> (r: bool)
    ensures
        r == evaluator::path_ok(field@),
{
    let fc = crate::text::chars_of(field);
    let parts = crate::text::split_chars(&fc, '.');
    let ghost ps = crate::text::split_on(field@, '.');
    assert(parts@.map_values(|p: Vec<char>| p@) == ps);
    let mut i: usize = 0;
    while i < parts.len()
        invariant
            parts@.map_values(|p: Vec<char>| p@) == ps,
            ps == crate::text::split_on(field@, '.'),
            0 <= i <= parts.len(),
            forall|k: int| 0 <= k < i ==> evaluator::segment_ok(#[trigger] ps[k]),
        decreases parts.len() - i,
    {
        let part = &parts[i];
        assert(part@ == ps[i as int]);
        let mut b: usize = 0;
        while b < part.len() && part[b] != '['
            invariant
                0 <= b <= part.len(),
                forall|j: int| 0 <= j < b ==> part@[j] != '[',
            decreases part.len() - b,
        {
            b = b + 1;
        }
        proof {
            crate::text::lemma_first_index_is(part@, '[', b as int);
        }
        if b < part.len() {
            if !(b + 1 < part.len() && (part[part.len() - 1] as u32) < 128) {
                return false;
            }
        }
        i = i + 1;
    }
    true
}

/// Whether every field path in `e` is safe to take apart.
fn expr_paths_ok(e: &FilterExpr) -> (r: bool)
    ensures
        r == evaluator::paths_ok(expr_model(*e)),
    decreases e,
{
    match e {
        FilterExpr::Compare { field, .. } => field_path_ok(field.as_str()),
        FilterExpr::StringOp { field, .. } => field_path_ok(field.as_str()),
        FilterExpr::Exists { field, .. } => field_path_ok(field.as_str()),
        FilterExpr::In { field, .. } => field_path_ok(field.as_str()),
        FilterExpr::Not(inner) => expr_paths_ok(inner),
        FilterExpr::Logical { op, exprs } => {
            let ghost ms = exprs_model(exprs@);
            proof {
                lemma_exprs_model(exprs@);
                assert(ms.subrange(0, ms.len() as int) =~= ms);
            }
            let mut i: usize = 0;
            while i < exprs.len()
                invariant
                    ms == exprs_model(exprs@),
                    ms.len() == exprs@.len(),
                    forall|k: int| 0 <= k < exprs@.len() ==> #[trigger] ms[k] == expr_model(exprs@[k]),
                    0 <= i <= exprs.len(),
                    *e == (FilterExpr::Logical { op: *op, exprs: *exprs }),
                    evaluator::paths_ok(expr_model(*e)) == evaluator::all_paths_ok(
                        ms.subrange(i as int, ms.len() as int),
                    ),
                decreases exprs.len() - i,
            {
                let ghost rest = ms.subrange(i as int, ms.len() as int);
                assert(rest[0] == ms[i as int]);
                assert(rest.subrange(1, rest.len() as int) =~= ms.subrange(i + 1, ms.len() as int));
                assert(decreases_to!(*e => (*e)->Logical_exprs));
                assert(decreases_to!(*exprs => exprs@));
                assert(decreases_to!(exprs@ => exprs@[i as int]));
                if !expr_paths_ok(&exprs[i]) {
                    return false;
                }
                i = i + 1;
            }
            true
        },
    }
}

impl Filter {
    /// Parses a filter expression. Fails with `FilterParseError` exactly
    /// when the text is not in the filter grammar (a bare word, an operator
    /// without operands, unbalanced brackets or quotes, trailing text).
    pub fn parse(input: &str) -> (r: Result<Filter, GhidraError>)
        ensures
            r matches Ok(f) ==> parser::parse_filter(input@) == Some(expr_model(f.expr)),
            r is Err ==> parser::parse_filter(input@) is None && r->Err_0 is FilterParseError,
    {
        match parser::parse_expr(input) {
            Some(expr) => Ok(Filter { expr }),
            None => {
                let mut m = String::new();
                crate::json::push_str(
                    &mut m,
                    "expected <field><operator><value>, combined with AND/OR/NOT",
                );
                Err(GhidraError::FilterParseError(m))
            },
        }
    }

    /// Checks that every regex in the filter compiles, so a bad pattern is
    /// reported before any row is fetched. Fails with `InvalidFilter`
    /// exactly when some regex does not compile.
    pub fn validate(&self) -> (r: Result<(), GhidraError>)
        ensures
            r is Ok <==> evaluator::regexes_ok(expr_model(self.expr)),
            r is Err ==> r->Err_0 is InvalidFilter,
    {
        if regexes_valid(&self.expr) {
            Ok(())
        } else {
            let mut m = String::new();
            crate::json::push_str(&mut m, "Invalid regex");
            Err(GhidraError::InvalidFilter(m))
        }
    }

    /// Whether every field path in the filter can be taken apart (see
    /// [`evaluator::segment_ok`]); [`Filter::evaluate`] needs it.
    pub fn paths_ok(&self) -> (r: bool)
        ensures
            r == evaluator::paths_ok(expr_model(self.expr)),
    {
        expr_paths_ok(&self.expr)
    }

    /// Evaluates the filter on one row (see [`evaluator::evaluate`]: the
    /// verdict is stated where its number comparisons are exact).
    pub fn evaluate(&self, data: &JsonValue) -> (r: Result<bool, GhidraError>)
        requires
            evaluator::paths_ok(expr_model(self.expr)),
        ensures
            evaluator::numbers_agree(expr_model(self.expr), *data) ==> evaluator::outcome(r)
                == evaluator::eval(expr_model(self.expr), *data),
            r is Err ==> r->Err_0 is InvalidFilter,
    {
        evaluator::evaluate(&self.expr, data)
    }
}

} // verus!
