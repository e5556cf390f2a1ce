//! Evaluation of filter expressions against rows.
use vstd::prelude::*;
use crate::json::{member, number_text, write_number, JsonNumber, JsonValue};
use crate::text::{
    all_digits, chars_of, contains_chars, contains_seq, digits_value, digits_value_capped,
    ends_with_chars, ends_with_seq, eq_ascii_ci, eq_ignore_ascii_case, first_index, lowercase,
    occurs_at, slice_chars, split_chars, split_on, starts_with_chars, starts_with_seq, to_lower,
};
use crate::error::GhidraError;
use super::numbers::{
    f64_agrees,
    decimal_of, decimal_relation, number_decimal, number_vs_decimal, number_vs_integer,
};
use super::{
    expr_model, exprs_model, value_model, values_model, CompareOp, ExistenceCheck, ExprM,
    FilterExpr, LogicalOp, StringOp, Value, ValueM,
};

verus! {

// ---------------------------------------------------------------------------
// Regular expressions
// ---------------------------------------------------------------------------

/// What `regex` reports for `pattern` compiled case-insensitively and run on
/// `text`: `None` when the pattern does not compile, else whether it matches
/// somewhere in `text`.
pub uninterp spec fn regex_ci_match(pattern: Seq<char>, text: Seq<char>) -> Option<bool>;

/// Whether `pattern` compiles as a case-insensitive regex.
pub open spec fn regex_valid(pattern: Seq<char>) -> bool {
    regex_ci_match(pattern, Seq::empty()) is Some
}

/// Compiles `pattern` with `regex::RegexBuilder` (case-insensitive) and runs
/// `Regex::is_match` on `text`. The contract names the result
/// [`regex_ci_match`]; it also states that whether the pattern compiles does
/// not depend on `text`.
#[verifier::external_body]
pub(crate) fn regex_match_ci(pattern: &str, text: &str) -> (r: Option<bool>)
    ensures
        r == regex_ci_match(pattern@, text@),
        r is Some <==> regex_valid(pattern@),
{
    match regex::RegexBuilder::new(pattern).case_insensitive(true).build() {
        Ok(re) => Some(re.is_match(text)),
        Err(_) => None,
    }
}

// ---------------------------------------------------------------------------
// Field paths
// ---------------------------------------------------------------------------

/// `Value::get(usize)`: the element at `i` of an array.
pub open spec fn element(v: JsonValue, i: int) -> Option<JsonValue> {
    match v {
        JsonValue::Array(a) => if 0 <= i < a@.len() { Some(a@[i]) } else { None },
        _ => None,
    }
}

/// `usize::from_str`: optional `+`, then decimal digits, fitting in `usize`.
pub open spec fn usize_literal(s: Seq<char>) -> Option<nat> {
    let b = if s.len() > 0 && s[0] == '+' { s.skip(1) } else { s };
    if all_digits(b) && digits_value(b) <= usize::MAX { Some(digits_value(b)) } else { None }
}

/// A path segment is safe to take apart: when it holds a `[`, that bracket
/// is not its last character and the last character is ASCII (the segment
/// is cut one byte before its end).
pub open spec fn segment_ok(part: Seq<char>) -> bool {
    let b = first_index(part, '[');
    b < part.len() ==> b < part.len() - 1 && (part[part.len() - 1] as u32) < 128
}

pub open spec fn path_ok(field: Seq<char>) -> bool {
    forall|i: int| 0 <= i < split_on(field, '.').len() ==> segment_ok(#[trigger] split_on(field, '.')[i])
}

/// One step of a path: `name` or `name[index]`.
pub open spec fn step(cur: JsonValue, part: Seq<char>) -> Option<JsonValue> {
    let b = first_index(part, '[');
    if b < part.len() {
        match member(cur, part.subrange(0, b)) {
            Some(x) => match usize_literal(part.subrange(b + 1, part.len() - 1)) {
                Some(i) => element(x, i as int),
                None => None,
            },
            None => None,
        }
    } else {
        member(cur, part)
    }
}

pub open spec fn walk(cur: JsonValue, parts: Seq<Seq<char>>) -> Option<JsonValue>
    decreases parts.len(),
{
    if parts.len() == 0 {
        Some(cur)
    } else {
        match step(cur, parts[0]) {
            Some(next) => walk(next, parts.drop_first()),
            None => None,
        }
    }
}

/// The value at a dotted field path such as `function.xrefs.count` or `tags[0]`.
pub open spec fn field_at(field: Seq<char>, data: JsonValue) -> Option<JsonValue> {
    walk(data, split_on(field, '.'))
}

fn parse_usize(s: &Vec<char>) -> (r: Option<usize>)
    ensures
        r matches Some(n) ==> usize_literal(s@) == Some(n as nat),
        r is None ==> usize_literal(s@) is None,
{
    let start: usize = if s.len() > 0 && s[0] == '+' { 1 } else { 0 };
    let b = slice_chars(s, start, s.len());
    assert(b@ == (if s@.len() > 0 && s@[0] == '+' { s@.skip(1) } else { s@ }));
    match digits_value_capped(&b, usize::MAX as u64) {
        Some(n) => Some(n as usize),
        None => None,
    }
}

fn element_at(v: &JsonValue, i: usize) -> (r: Option<&JsonValue>)
    ensures
        r matches Some(x) ==> element(*v, i as int) == Some(*x),
        r is None ==> element(*v, i as int) is None,
{
    match v {
        JsonValue::Array(a) => if i < a.len() {
            Some(&a[i])
        } else {
            None
        },
        _ => None,
    }
}

/// The value at a dotted field path (see [`field_at`]).
pub fn get_field_value<'a>(field: &str, data: &'a JsonValue) -> (r: Option<&'a JsonValue>)
    requires
        path_ok(field@),
    ensures
        r matches Some(x) ==> field_at(field@, *data) == Some(*x),
        r is None ==> field_at(field@, *data) is None,
{
    let fc = chars_of(field);
    let parts = split_chars(&fc, '.');
    let ghost ps = split_on(field@, '.');
    assert(parts@.map_values(|p: Vec<char>| p@) == ps);
    let mut current = data;
    let mut i: usize = 0;
    assert(ps.subrange(0, ps.len() as int) =~= ps);
    while i < parts.len()
        invariant
            ps == split_on(field@, '.'),
            parts@.map_values(|p: Vec<char>| p@) == ps,
            path_ok(field@),
            0 <= i <= parts.len(),
            field_at(field@, *data) == walk(*current, ps.subrange(i as int, ps.len() as int)),
        decreases parts.len() - i,
    {
        let part = &parts[i];
        assert(part@ == ps[i as int]);
        assert(segment_ok(ps[i as int]));
        assert(ps.subrange(i as int, ps.len() as int).drop_first() =~= ps.subrange(i + 1, ps.len() as int));
        assert(ps.subrange(i as int, ps.len() as int)[0] == ps[i as int]);
        let mut b: usize = 0;
        while b < part.len() && part[b] != '['
            invariant
                0 <= b <= part.len(),
                forall|j: int| 0 <= j < b ==> part@[j] != '[',
            decreases part.len() - b,
        {
            b = b + 1;
        }
        proof {
            crate::text::lemma_first_index_is(part@, '[', b as int);
        }
        if b < part.len() {
            let name = slice_chars(part, 0, b);
            let name_s = crate::text::string_from(&name);
            let idx = slice_chars(part, b + 1, part.len() - 1);
            match current.get(name_s.as_str()) {
                Some(x) => match parse_usize(&idx) {
                    Some(n) => match element_at(x, n) {
                        Some(y) => {
                            current = y;
                        },
                        None => {
                            return None;
                        },
                    },
                    None => {
                        return None;
                    },
                },
                None => {
                    return None;
                },
            }
        } else {
            let name_s = crate::text::string_from(part);
            match current.get(name_s.as_str()) {
                Some(x) => {
                    current = x;
                },
                None => {
                    return None;
                },
            }
        }
        i = i + 1;
    }
    Some(current)
}


// ---------------------------------------------------------------------------
// Semantics
// ---------------------------------------------------------------------------

/// A numeric literal as a decimal; `None` for other literals.
pub open spec fn literal_decimal(val: ValueM) -> Option<Option<(int, int)>> {
    match val {
        ValueM::Integer(k) => Some(Some((k, 0))),
        ValueM::Float(t) => Some(decimal_of(t)),
        _ => None,
    }
}

/// A number equals a numeric literal (see [`decimal_relation`]).
pub open spec fn number_equals(n: JsonNumber, val: ValueM) -> bool {
    match literal_decimal(val) {
        Some(d) => decimal_relation(CompareOp::Equal, number_decimal(n), d),
        None => false,
    }
}

/// Array-element equality for `=`/`!=` on array fields: exact for strings,
/// numeric for numbers, and for booleans; other pairs are unequal.
pub open spec fn scalar_equals(elem: JsonValue, val: ValueM) -> bool {
    match (elem, val) {
        (JsonValue::String(s), ValueM::Str(v)) => s@ == v,
        (JsonValue::Number(n), _) => number_equals(n, val),
        (JsonValue::Bool(b), ValueM::Boolean(v)) => b == v,
        _ => false,
    }
}

/// `IN`-list membership for one scalar: strings compare ignoring ASCII case.
pub open spec fn scalar_in(elem: JsonValue, val: ValueM) -> bool {
    match (elem, val) {
        (JsonValue::String(s), ValueM::Str(v)) => eq_ascii_ci(s@, v),
        (JsonValue::Number(n), _) => number_equals(n, val),
        (JsonValue::Bool(b), ValueM::Boolean(v)) => b == v,
        _ => false,
    }
}

pub open spec fn any_equal(elems: Seq<JsonValue>, val: ValueM) -> bool {
    exists|i: int| 0 <= i < elems.len() && scalar_equals(#[trigger] elems[i], val)
}

pub open spec fn any_in(v: JsonValue, vals: Seq<ValueM>) -> bool {
    exists|j: int| 0 <= j < vals.len() && scalar_in(v, #[trigger] vals[j])
}

/// `field op value` for a comparison operator. `Err` marks a comparison the
/// filter cannot make (a number against a string or boolean, an ordering
/// between strings or between booleans).
pub open spec fn eval_compare(field: Seq<char>, op: CompareOp, value: ValueM, data: JsonValue) -> Result<bool, ()> {
    match field_at(field, data) {
        None => Ok(false),
        Some(fv) => match fv {
            JsonValue::Number(n) => match literal_decimal(value) {
                Some(d) => Ok(decimal_relation(op, number_decimal(n), d)),
                None => Err(()),
            },
            JsonValue::String(s) => match value {
                ValueM::Str(v) => match op {
                    CompareOp::Equal => Ok(s@ == v),
                    CompareOp::NotEqual => Ok(s@ != v),
                    _ => Err(()),
                },
                _ => Ok(false),
            },
            JsonValue::Bool(b) => match value {
                ValueM::Boolean(v) => match op {
                    CompareOp::Equal => Ok(b == v),
                    CompareOp::NotEqual => Ok(b != v),
                    _ => Err(()),
                },
                _ => Ok(false),
            },
            JsonValue::Array(a) => match op {
                CompareOp::Equal => Ok(any_equal(a@, value)),
                CompareOp::NotEqual => Ok(!any_equal(a@, value)),
                _ => Ok(false),
            },
            _ => Ok(false),
        },
    }
}

/// The text a scalar is matched as by the string operators: strings
/// lowercased, numbers and booleans as rendered.
pub open spec fn lower_text(v: JsonValue) -> Option<Seq<char>> {
    match v {
        JsonValue::String(s) => Some(lowercase(s@)),
        JsonValue::Number(n) => Some(number_text(n)),
        JsonValue::Bool(b) => Some(if b { seq!['t', 'r', 'u', 'e'] } else { seq!['f', 'a', 'l', 's', 'e'] }),
        _ => None,
    }
}

/// One string operator on a lowercased text: `~ ^ $` take the lowercased
/// pattern; `=~` runs the pattern as written, case-insensitively.
pub open spec fn text_matches(op: StringOp, pattern: Seq<char>, text: Seq<char>) -> Result<bool, ()> {
    match op {
        StringOp::Contains => Ok(contains_seq(text, lowercase(pattern))),
        StringOp::StartsWith => Ok(starts_with_seq(text, lowercase(pattern))),
        StringOp::EndsWith => Ok(ends_with_seq(text, lowercase(pattern))),
        StringOp::Regex => match regex_ci_match(pattern, text) {
            Some(b) => Ok(b),
            None => Err(()),
        },
    }
}

/// Any-element matching over an array, left to right (an error at the
/// first scalar element tried stops the scan).
pub open spec fn elems_match(elems: Seq<JsonValue>, op: StringOp, pattern: Seq<char>) -> Result<bool, ()>
    decreases elems.len(),
{
    if elems.len() == 0 {
        Ok(false)
    } else {
        match lower_text(elems[0]) {
            Some(t) => match text_matches(op, pattern, t) {
                Ok(true) => Ok(true),
                Ok(false) => elems_match(elems.drop_first(), op, pattern),
                Err(()) => Err(()),
            },
            None => elems_match(elems.drop_first(), op, pattern),
        }
    }
}

pub open spec fn eval_string_op(field: Seq<char>, op: StringOp, pattern: Seq<char>, data: JsonValue) -> Result<bool, ()> {
    match field_at(field, data) {
        None => Ok(false),
        Some(JsonValue::Array(a)) => elems_match(a@, op, pattern),
        Some(fv) => match lower_text(fv) {
            Some(t) => text_matches(op, pattern, t),
            None => Ok(false),
        },
    }
}

pub open spec fn eval_exists(field: Seq<char>, check: ExistenceCheck, data: JsonValue) -> bool {
    let fv = field_at(field, data);
    match check {
        ExistenceCheck::Exists => fv is Some,
        ExistenceCheck::Empty => match fv {
            None => true,
            Some(JsonValue::Null) => true,
            Some(JsonValue::String(s)) => s@.len() == 0,
            Some(JsonValue::Array(a)) => a@.len() == 0,
            Some(JsonValue::Object(o)) => o@.len() == 0,
            _ => false,
        },
        ExistenceCheck::Null => fv is None || fv == Some(JsonValue::Null),
    }
}

pub open spec fn eval_in(field: Seq<char>, vals: Seq<ValueM>, data: JsonValue) -> bool {
    match field_at(field, data) {
        None => false,
        Some(JsonValue::Array(a)) => exists|i: int| 0 <= i < a@.len() && any_in(#[trigger] a@[i], vals),
        Some(fv) => any_in(fv, vals),
    }
}

/// The value of an expression on a row; `Err` when it cannot be evaluated
/// (see [`eval_compare`] and [`text_matches`]).
pub open spec fn eval(e: ExprM, data: JsonValue) -> Result<bool, ()>
    decreases e, 0nat,
{
    match e {
        ExprM::Compare(f, op, v) => eval_compare(f, op, v, data),
        ExprM::StrOp(f, op, p) => eval_string_op(f, op, p, data),
        ExprM::Logical(LogicalOp::And, es) => eval_and(es, data),
        ExprM::Logical(LogicalOp::Or, es) => eval_or(es, data),
        ExprM::Not(inner) => match eval(*inner, data) {
            Ok(b) => Ok(!b),
            Err(()) => Err(()),
        },
        ExprM::Exists(f, c) => Ok(eval_exists(f, c, data)),
        ExprM::In(f, vs) => Ok(eval_in(f, vs, data)),
    }
}

/// `AND`, left to right, stopping at the first false operand or error.
pub open spec fn eval_and(es: Seq<ExprM>, data: JsonValue) -> Result<bool, ()>
    decreases es, 1nat,
{
    if es.len() == 0 {
        Ok(true)
    } else {
        match eval(es[0], data) {
            Ok(true) => eval_and(es.subrange(1, es.len() as int), data),
            other => other,
        }
    }
}

/// `OR`, left to right, stopping at the first true operand or error.
pub open spec fn eval_or(es: Seq<ExprM>, data: JsonValue) -> Result<bool, ()>
    decreases es, 1nat,
{
    if es.len() == 0 {
        Ok(false)
    } else {
        match eval(es[0], data) {
            Ok(false) => eval_or(es.subrange(1, es.len() as int), data),
            other => other,
        }
    }
}

/// Every field path in the expression is safe to take apart (see [`segment_ok`]).
pub open spec fn paths_ok(e: ExprM) -> bool
    decreases e, 0nat,
{
    match e {
        ExprM::Compare(f, _, _) => path_ok(f),
        ExprM::StrOp(f, _, _) => path_ok(f),
        ExprM::Logical(_, es) => all_paths_ok(es),
        ExprM::Not(inner) => paths_ok(*inner),
        ExprM::Exists(f, _) => path_ok(f),
        ExprM::In(f, _) => path_ok(f),
    }
}

pub open spec fn all_paths_ok(es: Seq<ExprM>) -> bool
    decreases es, 1nat,
{
    if es.len() == 0 {
        true
    } else {
        paths_ok(es[0]) && all_paths_ok(es.subrange(1, es.len() as int))
    }
}

/// Every regex in the expression compiles.
pub open spec fn regexes_ok(e: ExprM) -> bool
    decreases e, 0nat,
{
    match e {
        ExprM::StrOp(_, StringOp::Regex, p) => regex_valid(p),
        ExprM::Logical(_, es) => all_regexes_ok(es),
        ExprM::Not(inner) => regexes_ok(*inner),
        _ => true,
    }
}

pub open spec fn all_regexes_ok(es: Seq<ExprM>) -> bool
    decreases es, 1nat,
{
    if es.len() == 0 {
        true
    } else {
        regexes_ok(es[0]) && all_regexes_ok(es.subrange(1, es.len() as int))
    }
}


// ---------------------------------------------------------------------------
// Evaluation
// ---------------------------------------------------------------------------

/// The outcome of an evaluation, without the error message.
pub open spec fn outcome(r: Result<bool, GhidraError>) -> Result<bool, ()> {
    match r {
        Ok(b) => Ok(b),
        Err(_) => Err(()),
    }
}

pub proof fn lemma_all_paths_ok(es: Seq<ExprM>, i: int)
    requires
        all_paths_ok(es),
        0 <= i < es.len(),
    ensures
        paths_ok(es[i]),
    decreases i,
{
    if i > 0 {
        lemma_all_paths_ok(es.subrange(1, es.len() as int), i - 1);
    }
}

// ---------------------------------------------------------------------------
// Where the exact comparisons are the filter's own
// ---------------------------------------------------------------------------

/// Comparing `elem` with the literal `val` makes no number comparison, or
/// one whose exact result is the `f64` one (see [`f64_agrees`]).
pub open spec fn number_agrees(elem: JsonValue, val: ValueM) -> bool {
    match elem {
        JsonValue::Number(n) => match literal_decimal(val) {
            Some(d) => f64_agrees(number_decimal(n), d),
            None => true,
        },
        _ => true,
    }
}

/// `field op val` on the row compares numbers only where [`number_agrees`].
pub open spec fn compare_agrees(field: Seq<char>, val: ValueM, data: JsonValue) -> bool {
    match field_at(field, data) {
        Some(JsonValue::Array(a)) => forall|i: int| 0 <= i < a@.len() ==> number_agrees(#[trigger] a@[i], val),
        Some(fv) => number_agrees(fv, val),
        None => true,
    }
}

/// `field IN (vals)` on the row compares numbers only where [`number_agrees`].
pub open spec fn in_agrees(field: Seq<char>, vals: Seq<ValueM>, data: JsonValue) -> bool {
    match field_at(field, data) {
        Some(JsonValue::Array(a)) => forall|i: int, j: int|
            0 <= i < a@.len() && 0 <= j < vals.len() ==> number_agrees(#[trigger] a@[i], #[trigger] vals[j]),
        Some(fv) => forall|j: int| 0 <= j < vals.len() ==> number_agrees(fv, #[trigger] vals[j]),
        None => true,
    }
}

/// Every number comparison the expression can make on the row gives the
/// `f64` result exactly, so [`eval`] is the filter's verdict there.
pub open spec fn numbers_agree(e: ExprM, data: JsonValue) -> bool
    decreases e, 0nat,
{
    match e {
        ExprM::Compare(f, _, v) => compare_agrees(f, v, data),
        ExprM::In(f, vs) => in_agrees(f, vs, data),
        ExprM::Logical(_, es) => all_numbers_agree(es, data),
        ExprM::Not(inner) => numbers_agree(*inner, data),
        _ => true,
    }
}

pub open spec fn all_numbers_agree(es: Seq<ExprM>, data: JsonValue) -> bool
    decreases es, 1nat,
{
    if es.len() == 0 {
        true
    } else {
        numbers_agree(es[0], data) && all_numbers_agree(es.subrange(1, es.len() as int), data)
    }
}

pub proof fn lemma_all_numbers_agree(es: Seq<ExprM>, data: JsonValue, i: int)
    requires
        all_numbers_agree(es, data),
        0 <= i < es.len(),
    ensures
        numbers_agree(es[i], data),
    decreases i,
{
    if i > 0 {
        lemma_all_numbers_agree(es.subrange(1, es.len() as int), data, i - 1);
    }
}

fn invalid(msg: &str) -> (e: GhidraError)
    ensures
        e matches GhidraError::InvalidFilter(m) && m@ == msg@,
{
    let mut m = String::new();
    crate::json::push_str(&mut m, msg);
    GhidraError::InvalidFilter(m)
}

fn bool_text(b: bool) -> (r: String)
    ensures
        r@ == (if b { seq!['t', 'r', 'u', 'e'] } else { seq!['f', 'a', 'l', 's', 'e'] }),
{
    let mut m = String::new();
    if b {
        crate::json::push_str(&mut m, "true");
        proof { reveal_strlit("true"); }
    } else {
        crate::json::push_str(&mut m, "false");
        proof { reveal_strlit("false"); }
    }
    assert(m@ =~= (if b { seq!['t', 'r', 'u', 'e'] } else { seq!['f', 'a', 'l', 's', 'e'] }));
    m
}

/// The text a scalar is matched as (see [`lower_text`]).
pub fn scalar_to_lower_string(v: &JsonValue) -> (r: Option<String>)
    ensures
        r matches Some(t) ==> lower_text(*v) == Some(t@),
        r is None ==> lower_text(*v) is None,
{
    match v {
        JsonValue::String(s) => Some(to_lower(s.as_str())),
        JsonValue::Number(n) => {
            let mut t = String::new();
            write_number(n, &mut t);
            assert(t@ =~= number_text(*n));
            Some(t)
        },
        JsonValue::Bool(b) => Some(bool_text(*b)),
        _ => None,
    }
}

fn text_matches_exec(op: StringOp, pattern: &str, lowered: &Vec<char>, text: &str) -> (r: Result<bool, GhidraError>)
    requires
        lowered@ == lowercase(pattern@),
    ensures
        outcome(r) == text_matches(op, pattern@, text@),
        r is Err ==> r->Err_0 is InvalidFilter,
{
    match op {
        StringOp::Regex => match regex_match_ci(pattern, text) {
            Some(b) => Ok(b),
            None => Err(invalid("Invalid regex")),
        },
        _ => {
            let t = chars_of(text);
            match op {
                StringOp::Contains => Ok(contains_chars(&t, lowered)),
                StringOp::StartsWith => Ok(starts_with_chars(&t, lowered)),
                _ => Ok(ends_with_chars(&t, lowered)),
            }
        },
    }
}

#[verifier::loop_isolation(false)]
fn evaluate_string_op(field: &str, op: StringOp, value: &str, data: &JsonValue) -> (r: Result<bool, GhidraError>)
    requires
        path_ok(field@),
    ensures
        outcome(r) == eval_string_op(field@, op, value@, *data),
        r is Err ==> r->Err_0 is InvalidFilter,
{
    let fv = match get_field_value(field, data) {
        Some(v) => v,
        None => {
            return Ok(false);
        },
    };
    let low = to_lower(value);
    let lowered = chars_of(low.as_str());
    match fv {
        JsonValue::Array(elems) => {
            let mut i: usize = 0;
            assert(elems@.subrange(0, elems@.len() as int) =~= elems@);
            while i < elems.len()
                invariant
                    0 <= i <= elems.len(),
                    lowered@ == lowercase(value@),
                    elems_match(elems@, op, value@) == elems_match(
                        elems@.subrange(i as int, elems@.len() as int),
                        op,
                        value@,
                    ),
                decreases elems.len() - i,
            {
                let ghost rest = elems@.subrange(i as int, elems@.len() as int);
                assert(rest[0] == elems@[i as int]);
                assert(rest.drop_first() =~= elems@.subrange(i + 1, elems@.len() as int));
                match scalar_to_lower_string(&elems[i]) {
                    Some(t) => {
                        match text_matches_exec(op, value, &lowered, t.as_str()) {
                            Ok(true) => {
                                return Ok(true);
                            },
                            Ok(false) => {},
                            Err(e) => {
                                return Err(e);
                            },
                        }
                    },
                    None => {},
                }
                i = i + 1;
            }
            Ok(false)
        },
        other => match scalar_to_lower_string(other) {
            Some(t) => text_matches_exec(op, value, &lowered, t.as_str()),
            None => Ok(false),
        },
    }
}

fn scalar_equals_exec(elem: &JsonValue, val: &Value) -> (r: bool)
    ensures
        r == scalar_equals(*elem, value_model(*val)),
{
    match (elem, val) {
        (JsonValue::String(s), Value::String(v)) => crate::json::str_eq(s.as_str(), v.as_str()),
        (JsonValue::Number(n), _) => number_equals_exec(n, val),
        (JsonValue::Bool(b), Value::Boolean(v)) => *b == *v,
        _ => false,
    }
}

fn number_equals_exec(n: &JsonNumber, val: &Value) -> (r: bool)
    ensures
        r == number_equals(*n, value_model(*val)),
{
    match val {
        Value::Integer(k) => number_vs_integer(CompareOp::Equal, n, *k),
        Value::Float(t) => number_vs_decimal(CompareOp::Equal, n, t.as_str()),
        _ => false,
    }
}

fn scalar_in_exec(elem: &JsonValue, val: &Value) -> (r: bool)
    ensures
        r == scalar_in(*elem, value_model(*val)),
{
    match (elem, val) {
        (JsonValue::String(s), Value::String(v)) => {
            let a = chars_of(s.as_str());
            let b = chars_of(v.as_str());
            eq_ignore_ascii_case(&a, &b)
        },
        (JsonValue::Number(n), _) => number_equals_exec(n, val),
        (JsonValue::Bool(b), Value::Boolean(v)) => *b == *v,
        _ => false,
    }
}

fn any_in_exec(v: &JsonValue, vals: &Vec<Value>) -> (r: bool)
    ensures
        r == any_in(*v, values_model(vals@)),
{
    let mut j: usize = 0;
    while j < vals.len()
        invariant
            0 <= j <= vals.len(),
            forall|k: int| 0 <= k < j ==> !scalar_in(*v, #[trigger] values_model(vals@)[k]),
        decreases vals.len() - j,
    {
        if scalar_in_exec(v, &vals[j]) {
            assert(scalar_in(*v, values_model(vals@)[j as int]));
            return true;
        }
        j = j + 1;
    }
    false
}

#[verifier::loop_isolation(false)]
fn evaluate_compare(field: &str, op: CompareOp, value: &Value, data: &JsonValue) -> (r: Result<bool, GhidraError>)
    requires
        path_ok(field@),
    ensures
        compare_agrees(field@, value_model(*value), *data) ==> outcome(r) == eval_compare(
            field@,
            op,
            value_model(*value),
            *data,
        ),
        r is Err ==> r->Err_0 is InvalidFilter,
{
    let fv = match get_field_value(field, data) {
        Some(v) => v,
        None => {
            return Ok(false);
        },
    };
    match fv {
        JsonValue::Number(n) => match value {
            Value::Integer(k) => Ok(number_vs_integer(op, n, *k)),
            Value::Float(t) => Ok(number_vs_decimal(op, n, t.as_str())),
            _ => Err(invalid("Cannot compare number with a non-numeric value")),
        },
        JsonValue::String(s) => match value {
            Value::String(v) => match op {
                CompareOp::Equal => Ok(crate::json::str_eq(s.as_str(), v.as_str())),
                CompareOp::NotEqual => Ok(!crate::json::str_eq(s.as_str(), v.as_str())),
                _ => Err(invalid("Cannot use numeric comparison on strings")),
            },
            _ => Ok(false),
        },
        JsonValue::Bool(b) => match value {
            Value::Boolean(v) => match op {
                CompareOp::Equal => Ok(*b == *v),
                CompareOp::NotEqual => Ok(*b != *v),
                _ => Err(invalid("Cannot use numeric comparison on booleans")),
            },
            _ => Ok(false),
        },
        JsonValue::Array(elems) => {
            match op {
                CompareOp::Equal | CompareOp::NotEqual => {
                    let mut any = false;
                    let mut i: usize = 0;
                    while i < elems.len()
                        invariant
                            0 <= i <= elems.len(),
                            any ==> any_equal(elems@, value_model(*value)),
                            !any ==> forall|k: int| 0 <= k < i ==> !scalar_equals(#[trigger] elems@[k], value_model(*value)),
                        decreases elems.len() - i,
                    {
                        if !any && scalar_equals_exec(&elems[i], value) {
                            assert(scalar_equals(elems@[i as int], value_model(*value)));
                            any = true;
                        }
                        i = i + 1;
                    }
                    assert(any == any_equal(elems@, value_model(*value)));
                    match op {
                        CompareOp::Equal => Ok(any),
                        _ => Ok(!any),
                    }
                },
                _ => Ok(false),
            }
        },
        _ => Ok(false),
    }
}

fn evaluate_exists(field: &str, check: ExistenceCheck, data: &JsonValue) -> (r: bool)
    requires
        path_ok(field@),
    ensures
        r == eval_exists(field@, check, *data),
{
    let fv = get_field_value(field, data);
    match check {
        ExistenceCheck::Exists => fv.is_some(),
        ExistenceCheck::Empty => match fv {
            None => true,
            Some(JsonValue::Null) => true,
            Some(JsonValue::String(s)) => s.as_str().is_empty(),
            Some(JsonValue::Array(a)) => a.len() == 0,
            Some(JsonValue::Object(o)) => o.len() == 0,
            _ => false,
        },
        ExistenceCheck::Null => match fv {
            None => true,
            Some(JsonValue::Null) => true,
            _ => false,
        },
    }
}

#[verifier::loop_isolation(false)]
fn evaluate_in(field: &str, values: &Vec<Value>, data: &JsonValue) -> (r: bool)
    requires
        path_ok(field@),
    ensures
        in_agrees(field@, values_model(values@), *data) ==> r == eval_in(
            field@,
            values_model(values@),
            *data,
        ),
{
    let fv = match get_field_value(field, data) {
        Some(v) => v,
        None => {
            return false;
        },
    };
    match fv {
        JsonValue::Array(elems) => {
            let mut i: usize = 0;
            while i < elems.len()
                invariant
                    0 <= i <= elems.len(),
                    forall|k: int| 0 <= k < i ==> !any_in(#[trigger] elems@[k], values_model(values@)),
                decreases elems.len() - i,
            {
                if any_in_exec(&elems[i], values) {
                    assert(any_in(elems@[i as int], values_model(values@)));
                    return true;
                }
                i = i + 1;
            }
            false
        },
        other => any_in_exec(other, values),
    }
}

/// Evaluates `expr` on a row: `Ok` with the verdict, or `Err` exactly when
/// [`eval`] says the expression cannot be evaluated on that row. Numbers
/// are compared exactly; the verdict is stated where every number
/// comparison the expression makes on the row gives what comparing as
/// `f64` gives (see [`numbers_agree`]).
pub fn evaluate(expr: &FilterExpr, data: &JsonValue) -> (r: Result<bool, GhidraError>)
    requires
        paths_ok(expr_model(*expr)),
    ensures
        numbers_agree(expr_model(*expr), *data) ==> outcome(r) == eval(expr_model(*expr), *data),
        r is Err ==> r->Err_0 is InvalidFilter,
    decreases expr,
{
    match expr {
        FilterExpr::Compare { field, op, value } => evaluate_compare(field.as_str(), *op, value, data),
        FilterExpr::StringOp { field, op, value } => evaluate_string_op(
            field.as_str(),
            *op,
            value.as_str(),
            data,
        ),
        FilterExpr::Logical { op, exprs } => {
            let ghost ms = exprs_model(exprs@);
            proof {
                super::lemma_exprs_model(exprs@);
                assert(ms.subrange(0, ms.len() as int) =~= ms);
            }
            let mut i: usize = 0;
            while i < exprs.len()
                invariant
                    ms == exprs_model(exprs@),
                    ms.len() == exprs@.len(),
                    forall|k: int| 0 <= k < exprs@.len() ==> #[trigger] ms[k] == expr_model(exprs@[k]),
                    all_paths_ok(ms),
                    numbers_agree(expr_model(*expr), *data) ==> all_numbers_agree(ms, *data),
                    0 <= i <= exprs.len(),
                    *expr == (FilterExpr::Logical { op: *op, exprs: *exprs }),
                    numbers_agree(expr_model(*expr), *data) ==> eval(expr_model(*expr), *data) == (match *op {
                        LogicalOp::And => eval_and(ms.subrange(i as int, ms.len() as int), *data),
                        LogicalOp::Or => eval_or(ms.subrange(i as int, ms.len() as int), *data),
                    }),
                decreases exprs.len() - i,
            {
                let ghost rest = ms.subrange(i as int, ms.len() as int);
                proof {
                    assert(rest[0] == ms[i as int]);
                    assert(rest.subrange(1, rest.len() as int) =~= ms.subrange(i + 1, ms.len() as int));
                    lemma_all_paths_ok(ms, i as int);
                    if numbers_agree(expr_model(*expr), *data) {
                        lemma_all_numbers_agree(ms, *data, i as int);
                    }
                }
                assert(decreases_to!(*expr => (*expr)->Logical_exprs));
                assert(decreases_to!(*exprs => exprs@));
                assert(decreases_to!(exprs@ => exprs@[i as int]));
                let v = evaluate(&exprs[i], data);
                match v {
                    Ok(b) => {
                        match op {
                            LogicalOp::And => if !b {
                                return Ok(false);
                            },
                            LogicalOp::Or => if b {
                                return Ok(true);
                            },
                        }
                    },
                    Err(e) => {
                        return Err(e);
                    },
                }
                i = i + 1;
            }
            match op {
                LogicalOp::And => Ok(true),
                LogicalOp::Or => Ok(false),
            }
        },
        FilterExpr::Not(inner) => match evaluate(inner, data) {
            Ok(b) => Ok(!b),
            Err(e) => Err(e),
        },
        FilterExpr::Exists { field, check } => Ok(evaluate_exists(field.as_str(), *check, data)),
        FilterExpr::In { field, values } => Ok(evaluate_in(field.as_str(), values, data)),
    }
}

/// On an array field, `field != value` holds exactly when `field = value`
/// does not: no element equals the value. The ordering operators are
/// false on an array field, and none of these is an error.
pub proof fn law_array_not_equal_is_not_equal(field: Seq<char>, value: ValueM, data: JsonValue)
    requires
        field_at(field, data) matches Some(JsonValue::Array(_)),
    ensures
        eval(ExprM::Compare(field, CompareOp::NotEqual, value), data) == eval(
            ExprM::Not(Box::new(ExprM::Compare(field, CompareOp::Equal, value))),
            data,
        ),
        eval(ExprM::Compare(field, CompareOp::Equal, value), data) is Ok,
        eval(ExprM::Compare(field, CompareOp::Greater, value), data) == Ok::<bool, ()>(false),
        eval(ExprM::Compare(field, CompareOp::GreaterEqual, value), data) == Ok::<bool, ()>(false),
        eval(ExprM::Compare(field, CompareOp::Less, value), data) == Ok::<bool, ()>(false),
        eval(ExprM::Compare(field, CompareOp::LessEqual, value), data) == Ok::<bool, ()>(false),
{
    reveal_with_fuel(eval, 2);
}

/// A comparison on a field the row does not have is false, whatever the
/// operator and value, and never an error.
pub proof fn law_missing_field_compares_false(
    field: Seq<char>,
    op: CompareOp,
    value: ValueM,
    data: JsonValue,
)
    requires
        field_at(field, data) is None,
    ensures
        eval(ExprM::Compare(field, op, value), data) == Ok::<bool, ()>(false),
{
}

/// `NOT NOT e` evaluates as `e` does.
pub proof fn law_double_negation(e: ExprM, data: JsonValue)
    ensures
        eval(ExprM::Not(Box::new(ExprM::Not(Box::new(e)))), data) == eval(e, data),
{
    let once = ExprM::Not(Box::new(e));
    assert(eval(once, data) == match eval(e, data) {
        Ok(b) => Ok(!b),
        Err(()) => Err(()),
    });
    assert(eval(ExprM::Not(Box::new(once)), data) == match eval(once, data) {
        Ok(b) => Ok(!b),
        Err(()) => Err(()),
    });
    match eval(e, data) {
        Ok(b) => {},
        Err(u) => {
            assert(eval(e, data) == Err::<bool, ()>(()));
        },
    }
}


/// On a field holding text, the string operators test the lowercased text
/// against the lowercased value: `$` holds exactly when the text ends with
/// the value, `^` exactly when it starts with it, and `~` exactly when the
/// value occurs somewhere in it. None of them fails.
pub proof fn law_string_operators_on_text(field: Seq<char>, v: Seq<char>, data: JsonValue)
    requires
        field_at(field, data) matches Some(JsonValue::String(_)),
    ensures
        ({
            let t = lowercase(field_at(field, data)->0->String_0@);
            let p = lowercase(v);
            &&& eval(ExprM::StrOp(field, StringOp::EndsWith, v), data) == Ok::<bool, ()>(
                p.len() <= t.len() && t.subrange(t.len() - p.len(), t.len() as int) == p,
            )
            &&& eval(ExprM::StrOp(field, StringOp::StartsWith, v), data) == Ok::<bool, ()>(
                p.len() <= t.len() && t.subrange(0, p.len() as int) == p,
            )
            &&& eval(ExprM::StrOp(field, StringOp::Contains, v), data) == Ok::<bool, ()>(
                exists|i: int| 0 <= i && i + p.len() <= t.len() && #[trigger] t.subrange(i, i + p.len()) == p,
            )
        }),
{
    let t = lowercase(field_at(field, data)->0->String_0@);
    let p = lowercase(v);
    if contains_seq(t, p) {
        let i = choose|i: int| occurs_at(t, p, i);
        assert(t.subrange(i, i + p.len()) == p);
    }
    if exists|i: int| 0 <= i && i + p.len() <= t.len() && #[trigger] t.subrange(i, i + p.len()) == p {
        let i = choose|i: int| 0 <= i && i + p.len() <= t.len() && #[trigger] t.subrange(i, i + p.len()) == p;
        assert(occurs_at(t, p, i));
    }
}


/// A comparison of an integer field with an integer literal, both of at
/// most 2⁵³ in magnitude, is the comparison of the two integers in the
/// direction the operator names.
pub proof fn law_integer_comparisons(field: Seq<char>, k: int, data: JsonValue)
    requires
        field_at(field, data) matches Some(JsonValue::Number(JsonNumber::Int(_))),
        -0x20_0000_0000_0000 <= k <= 0x20_0000_0000_0000,
        -0x20_0000_0000_0000 <= field_at(field, data)->0->Number_0->Int_0 <= 0x20_0000_0000_0000,
    ensures
        ({
            let n = field_at(field, data)->0->Number_0->Int_0 as int;
            let c = |op: CompareOp| eval(ExprM::Compare(field, op, ValueM::Integer(k)), data);
            &&& c(CompareOp::Equal) == Ok::<bool, ()>(n == k)
            &&& c(CompareOp::NotEqual) == Ok::<bool, ()>(n != k)
            &&& c(CompareOp::Greater) == Ok::<bool, ()>(n > k)
            &&& c(CompareOp::GreaterEqual) == Ok::<bool, ()>(n >= k)
            &&& c(CompareOp::Less) == Ok::<bool, ()>(n < k)
            &&& c(CompareOp::LessEqual) == Ok::<bool, ()>(n <= k)
        }),
{
    let n = field_at(field, data)->0->Number_0->Int_0 as int;
    let p0 = crate::filter::numbers::pow10(0);
    assert(p0 == 1);
    assert(n * p0 == n && k * p0 == k) by (nonlinear_arith)
        requires
            p0 == 1,
    ;
    assert(crate::filter::numbers::aligned((n, 0), (k, 0)) == (n, k));
}

/// A text field compared with a text literal: `=` is exact equality of the
/// texts (case counts), `!=` its negation, and an ordering is an error.
pub proof fn law_text_comparisons(field: Seq<char>, v: Seq<char>, data: JsonValue)
    requires
        field_at(field, data) matches Some(JsonValue::String(_)),
    ensures
        ({
            let s = field_at(field, data)->0->String_0@;
            let c = |op: CompareOp| eval(ExprM::Compare(field, op, ValueM::Str(v)), data);
            &&& c(CompareOp::Equal) == Ok::<bool, ()>(s == v)
            &&& c(CompareOp::NotEqual) == Ok::<bool, ()>(s != v)
            &&& c(CompareOp::Greater) is Err
            &&& c(CompareOp::GreaterEqual) is Err
            &&& c(CompareOp::Less) is Err
            &&& c(CompareOp::LessEqual) is Err
        }),
{
}

/// `EXISTS` holds when the row has the field; `IS NULL` when it has not or
/// the field is null; `IS EMPTY` when, besides those, the field is an
/// empty text, array or object.
pub proof fn law_existence_checks(field: Seq<char>, data: JsonValue)
    ensures
        eval(ExprM::Exists(field, ExistenceCheck::Exists), data) == Ok::<bool, ()>(
            field_at(field, data) is Some,
        ),
        eval(ExprM::Exists(field, ExistenceCheck::Null), data) == Ok::<bool, ()>(
            field_at(field, data) is None || field_at(field, data) == Some(JsonValue::Null),
        ),
        eval(ExprM::Exists(field, ExistenceCheck::Empty), data) == Ok::<bool, ()>(
            match field_at(field, data) {
                None => true,
                Some(JsonValue::Null) => true,
                Some(JsonValue::String(s)) => s@.len() == 0,
                Some(JsonValue::Array(a)) => a@.len() == 0,
                Some(JsonValue::Object(o)) => o@.len() == 0,
                _ => false,
            },
        ),
{
}

proof fn lemma_logical(es: Seq<ExprM>, data: JsonValue)
    requires
        forall|i: int| 0 <= i < es.len() ==> #[trigger] eval(es[i], data) is Ok,
    ensures
        eval_and(es, data) == Ok::<bool, ()>(
            forall|i: int| 0 <= i < es.len() ==> #[trigger] eval(es[i], data) == Ok::<bool, ()>(true),
        ),
        eval_or(es, data) == Ok::<bool, ()>(
            exists|i: int| 0 <= i < es.len() && #[trigger] eval(es[i], data) == Ok::<bool, ()>(true),
        ),
    decreases es.len(),
{
    if es.len() > 0 {
        let rest = es.subrange(1, es.len() as int);
        assert forall|i: int| 0 <= i < rest.len() implies #[trigger] eval(rest[i], data) is Ok by {
            assert(rest[i] == es[i + 1]);
            assert(eval(es[i + 1], data) is Ok);
        }
        lemma_logical(rest, data);
        assert(eval(es[0], data) is Ok);
        if eval(es[0], data) == Ok::<bool, ()>(true) {
            assert forall|i: int| 0 <= i < es.len() && #[trigger] eval(es[i], data) != Ok::<bool, ()>(true) implies
                0 <= i - 1 < rest.len() && eval(rest[i - 1], data) != Ok::<bool, ()>(true) by {
                assert(rest[i - 1] == es[i]);
            }
            assert forall|i: int| 0 <= i < rest.len() && #[trigger] eval(rest[i], data) != Ok::<bool, ()>(true) implies
                eval(es[i + 1], data) != Ok::<bool, ()>(true) by {
                assert(rest[i] == es[i + 1]);
            }
        } else {
            assert forall|i: int| 0 <= i < rest.len() && #[trigger] eval(rest[i], data) == Ok::<bool, ()>(true) implies
                eval(es[i + 1], data) == Ok::<bool, ()>(true) by {
                assert(rest[i] == es[i + 1]);
            }
            assert forall|i: int| 0 <= i < es.len() && #[trigger] eval(es[i], data) == Ok::<bool, ()>(true) implies
                0 <= i - 1 < rest.len() && eval(rest[i - 1], data) == Ok::<bool, ()>(true) by {
                assert(rest[i - 1] == es[i]);
            }
        }
    }
}

/// Where every operand evaluates, `AND` holds exactly when every operand
/// holds and `OR` exactly when some operand holds.
pub proof fn law_and_or(es: Seq<ExprM>, data: JsonValue)
    requires
        forall|i: int| 0 <= i < es.len() ==> #[trigger] eval(es[i], data) is Ok,
    ensures
        eval(ExprM::Logical(LogicalOp::And, es), data) == Ok::<bool, ()>(
            forall|i: int| 0 <= i < es.len() ==> #[trigger] eval(es[i], data) == Ok::<bool, ()>(true),
        ),
        eval(ExprM::Logical(LogicalOp::Or, es), data) == Ok::<bool, ()>(
            exists|i: int| 0 <= i < es.len() && #[trigger] eval(es[i], data) == Ok::<bool, ()>(true),
        ),
{
    lemma_logical(es, data);
}


/// `field IN (...)` on a text field holds exactly when one of the listed
/// texts equals the field's text ignoring ASCII case (same length, and the
/// same character at every place once ASCII capitals are lowered); listed
/// values that are not texts never match a text.
pub proof fn law_in_on_text(field: Seq<char>, vals: Seq<ValueM>, data: JsonValue)
    requires
        field_at(field, data) matches Some(JsonValue::String(_)),
    ensures
        ({
            let s = field_at(field, data)->0->String_0@;
            eval(ExprM::In(field, vals), data) == Ok::<bool, ()>(
                exists|j: int|
                    0 <= j < vals.len() && (#[trigger] vals[j] matches ValueM::Str(v) && v.len() == s.len()
                        && forall|i: int|
                        0 <= i < s.len() ==> crate::text::ascii_lower(s[i]) == crate::text::ascii_lower(
                            v[i],
                        )),
            )
        }),
{
    let fv = field_at(field, data)->0;
    let s = fv->String_0@;
    if any_in(fv, vals) {
        let j = choose|j: int| 0 <= j < vals.len() && scalar_in(fv, #[trigger] vals[j]);
        assert(vals[j] matches ValueM::Str(v) && eq_ascii_ci(s, v));
    }
    if exists|j: int|
        0 <= j < vals.len() && (#[trigger] vals[j] matches ValueM::Str(v) && v.len() == s.len()
            && forall|i: int|
            0 <= i < s.len() ==> crate::text::ascii_lower(s[i]) == crate::text::ascii_lower(v[i])) {
        let j = choose|j: int|
            0 <= j < vals.len() && (#[trigger] vals[j] matches ValueM::Str(v) && v.len() == s.len()
                && forall|i: int|
                0 <= i < s.len() ==> crate::text::ascii_lower(s[i]) == crate::text::ascii_lower(v[i]));
        assert(scalar_in(fv, vals[j]));
    }
}

} // verus!
