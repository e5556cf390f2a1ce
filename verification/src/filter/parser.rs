//! Lexer and recursive-descent parser for filter expressions.
use vstd::prelude::*;
use crate::text::{
    all_digits, chars_of, digits_value, digits_value_capped, eq_ascii_ci, eq_ignore_ascii_case,
    is_whitespace, is_ws, slice_chars, string_from,
};
use super::{
    exprs_model, expr_model, value_model, values_model, CompareOp, ExistenceCheck, ExprM, FilterExpr,
    LogicalOp, StringOp, Value, ValueM,
};

verus! {

// ---------------------------------------------------------------------------
// Tokens
// ---------------------------------------------------------------------------

/// Operator tokens.
#[derive(Clone, Copy, Debug, PartialEq, Eq, Structural)]
pub enum OpTok {
    /// `=`
    Eq,
    /// `!=`
    Ne,
    /// `>`
    Gt,
    /// `>=`
    Ge,
    /// `<`
    Lt,
    /// `<=`
    Le,
    /// `~`
    Contains,
    /// `^`
    Starts,
    /// `$`
    Ends,
    /// `=~`
    Match,
}

/// A lexical token.
pub enum Token {
    /// A run of characters that are not whitespace, quotes, brackets, commas
    /// or operator characters.
    Word(Vec<char>),
    /// The text between a pair of matching `'` or `"` quotes.
    Quoted(Vec<char>),
    Op(OpTok),
    LParen,
    RParen,
    Comma,
}

/// The content of a token.
pub enum TokM {
    Word(Seq<char>),
    Quoted(Seq<char>),
    Op(OpTok),
    LParen,
    RParen,
    Comma,
}

pub open spec fn tok_model(t: Token) -> TokM {
    match t {
        Token::Word(w) => TokM::Word(w@),
        Token::Quoted(q) => TokM::Quoted(q@),
        Token::Op(o) => TokM::Op(o),
        Token::LParen => TokM::LParen,
        Token::RParen => TokM::RParen,
        Token::Comma => TokM::Comma,
    }
}

pub open spec fn toks_model(s: Seq<Token>) -> Seq<TokM> {
    s.map_values(|t: Token| tok_model(t))
}

pub open spec fn is_op_char(c: char) -> bool {
    c == '=' || c == '!' || c == '<' || c == '>' || c == '~' || c == '^' || c == '$'
}

pub open spec fn is_quote(c: char) -> bool {
    c == '\'' || c == '"'
}

pub open spec fn is_word_char(c: char) -> bool {
    !is_ws(c) && !is_op_char(c) && !is_quote(c) && c != '(' && c != ')' && c != ','
}

/// End of the run of word characters starting at `i`.
pub open spec fn word_end(s: Seq<char>, i: int) -> int
    decreases s.len() - i,
{
    if 0 <= i < s.len() && is_word_char(s[i]) { word_end(s, i + 1) } else { i }
}

/// First position at or after `i` holding `q` (or `s.len()`).
pub open spec fn quote_end(s: Seq<char>, i: int, q: char) -> int
    decreases s.len() - i,
{
    if 0 <= i < s.len() && s[i] != q { quote_end(s, i + 1, q) } else { i }
}

pub proof fn lemma_word_end(s: Seq<char>, i: int)
    requires
        0 <= i,
    ensures
        i <= word_end(s, i),
        word_end(s, i) <= s.len() || word_end(s, i) == i,
        forall|k: int| i <= k < word_end(s, i) ==> is_word_char(s[k]),
        word_end(s, i) < s.len() ==> !is_word_char(s[word_end(s, i)]),
    decreases s.len() - i,
{
    if 0 <= i < s.len() && is_word_char(s[i]) {
        lemma_word_end(s, i + 1);
    }
}

pub proof fn lemma_quote_end(s: Seq<char>, i: int, q: char)
    requires
        0 <= i,
    ensures
        i <= quote_end(s, i, q),
        quote_end(s, i, q) <= s.len() || quote_end(s, i, q) == i,
        forall|k: int| i <= k < quote_end(s, i, q) ==> s[k] != q,
        quote_end(s, i, q) < s.len() ==> s[quote_end(s, i, q)] == q,
    decreases s.len() - i,
{
    if 0 <= i < s.len() && s[i] != q {
        lemma_quote_end(s, i + 1, q);
    }
}

/// The operator starting at `i`, with its width.
pub open spec fn op_at(s: Seq<char>, i: int) -> Option<(OpTok, int)> {
    let c = s[i];
    let n = if i + 1 < s.len() { Some(s[i + 1]) } else { None };
    if c == '=' && n == Some('~') {
        Some((OpTok::Match, 2))
    } else if c == '!' && n == Some('=') {
        Some((OpTok::Ne, 2))
    } else if c == '>' && n == Some('=') {
        Some((OpTok::Ge, 2))
    } else if c == '<' && n == Some('=') {
        Some((OpTok::Le, 2))
    } else if c == '=' {
        Some((OpTok::Eq, 1))
    } else if c == '>' {
        Some((OpTok::Gt, 1))
    } else if c == '<' {
        Some((OpTok::Lt, 1))
    } else if c == '~' {
        Some((OpTok::Contains, 1))
    } else if c == '^' {
        Some((OpTok::Starts, 1))
    } else if c == '$' {
        Some((OpTok::Ends, 1))
    } else {
        None
    }
}

pub open spec fn cons(t: TokM, rest: Option<Seq<TokM>>) -> Option<Seq<TokM>> {
    match rest {
        Some(r) => Some(seq![t] + r),
        None => None,
    }
}

/// The tokens of `s[i..]`, or `None` when it holds an unterminated quote or a
/// lone `!`.
pub open spec fn lex(s: Seq<char>, i: int) -> Option<Seq<TokM>>
    decreases s.len() - i,
{
    if i < 0 || i >= s.len() {
        Some(seq![])
    } else {
        let c = s[i];
        if is_ws(c) {
            lex(s, i + 1)
        } else if c == '(' {
            cons(TokM::LParen, lex(s, i + 1))
        } else if c == ')' {
            cons(TokM::RParen, lex(s, i + 1))
        } else if c == ',' {
            cons(TokM::Comma, lex(s, i + 1))
        } else if is_quote(c) {
            let j = quote_end(s, i + 1, c);
            if j >= s.len() || j < i + 1 {
                None
            } else {
                cons(TokM::Quoted(s.subrange(i + 1, j)), lex(s, j + 1))
            }
        } else if is_op_char(c) {
            match op_at(s, i) {
                Some((op, n)) => if n >= 1 { cons(TokM::Op(op), lex(s, i + n)) } else { None },
                None => None,
            }
        } else {
            let j = word_end(s, i);
            if j <= i || j > s.len() {
                None
            } else {
                cons(TokM::Word(s.subrange(i, j)), lex(s, j))
            }
        }
    }
}

pub open spec fn prefix_with(p: Seq<TokM>, rest: Option<Seq<TokM>>) -> Option<Seq<TokM>> {
    match rest {
        Some(r) => Some(p + r),
        None => None,
    }
}

/// Splits filter text into tokens.
pub fn tokenize(input: &str) -> (r: Option<Vec<Token>>)
    ensures
        r matches Some(t) ==> lex(input@, 0) == Some(toks_model(t@)),
        r is None ==> lex(input@, 0) is None,
{
    let s = chars_of(input);
    let mut toks: Vec<Token> = Vec::new();
    let mut i: usize = 0;
    while i < s.len()
        invariant
            s@ == input@,
            0 <= i <= s.len(),
            lex(s@, 0) == prefix_with(toks_model(toks@), lex(s@, i as int)),
        decreases s.len() - i,
    {
        let c = s[i];
        let ghost m0 = toks_model(toks@);
        if is_whitespace(c) {
            i = i + 1;
        } else if c == '(' || c == ')' || c == ',' {
            let t = if c == '(' {
                Token::LParen
            } else if c == ')' {
                Token::RParen
            } else {
                Token::Comma
            };
            toks.push(t);
            proof {
                assert(toks_model(toks@) =~= m0 + seq![tok_model(t)]);
            }
            i = i + 1;
        } else if c == '\'' || c == '"' {
            let mut j = i + 1;
            while j < s.len() && s[j] != c
                invariant
                    i < j <= s.len(),
                    quote_end(s@, i + 1, c) == quote_end(s@, j as int, c),
                decreases s.len() - j,
            {
                j = j + 1;
            }
            if j >= s.len() {
                return None;
            }
            let q = slice_chars(&s, i + 1, j);
            toks.push(Token::Quoted(q));
            proof {
                assert(toks_model(toks@) =~= m0 + seq![TokM::Quoted(s@.subrange(i + 1, j as int))]);
            }
            i = j + 1;
        } else if c == '=' || c == '!' || c == '<' || c == '>' || c == '~' || c == '^' || c == '$' {
            let has_next = i + 1 < s.len();
            let n = if has_next { s[i + 1] } else { ' ' };
            let (op, w): (OpTok, usize) = if c == '=' && has_next && n == '~' {
                (OpTok::Match, 2)
            } else if c == '!' && has_next && n == '=' {
                (OpTok::Ne, 2)
            } else if c == '>' && has_next && n == '=' {
                (OpTok::Ge, 2)
            } else if c == '<' && has_next && n == '=' {
                (OpTok::Le, 2)
            } else if c == '=' {
                (OpTok::Eq, 1)
            } else if c == '>' {
                (OpTok::Gt, 1)
            } else if c == '<' {
                (OpTok::Lt, 1)
            } else if c == '~' {
                (OpTok::Contains, 1)
            } else if c == '^' {
                (OpTok::Starts, 1)
            } else if c == '$' {
                (OpTok::Ends, 1)
            } else {
                return None;
            };
            assert(op_at(s@, i as int) == Some((op, w as int)));
            toks.push(Token::Op(op));
            proof {
                assert(toks_model(toks@) =~= m0 + seq![TokM::Op(op)]);
            }
            i = i + w;
        } else {
            let mut j = i;
            while j < s.len() && !is_whitespace(s[j]) && s[j] != '=' && s[j] != '!' && s[j] != '<'
                && s[j] != '>' && s[j] != '~' && s[j] != '^' && s[j] != '$' && s[j] != '\''
                && s[j] != '"' && s[j] != '(' && s[j] != ')' && s[j] != ','
                invariant
                    i <= j <= s.len(),
                    word_end(s@, i as int) == word_end(s@, j as int),
                    j == i ==> is_word_char(s@[i as int]),
                decreases s.len() - j,
            {
                j = j + 1;
            }
            proof {
                lemma_word_end(s@, i as int);
            }
            let w = slice_chars(&s, i, j);
            toks.push(Token::Word(w));
            proof {
                assert(toks_model(toks@) =~= m0 + seq![TokM::Word(s@.subrange(i as int, j as int))]);
            }
            i = j;
        }
    }
    Some(toks)
}


// ---------------------------------------------------------------------------
// Literals
// ---------------------------------------------------------------------------

/// First position of `c` in `s` (or `s.len()`).
pub open spec fn first_pos(s: Seq<char>, c: char) -> int
    decreases s.len(),
{
    if s.len() == 0 {
        0
    } else if s[0] == c {
        0
    } else {
        1 + first_pos(s.drop_first(), c)
    }
}

/// The magnitude part of a possibly negative literal.
pub open spec fn unsigned_part(w: Seq<char>) -> Seq<char> {
    if w.len() > 0 && w[0] == '-' { w.skip(1) } else { w }
}

/// The value of an integer literal `-?[0-9]+`.
pub open spec fn int_literal(w: Seq<char>) -> Option<int> {
    let b = unsigned_part(w);
    if all_digits(b) {
        if w.len() > 0 && w[0] == '-' { Some(-(digits_value(b) as int)) } else { Some(digits_value(b) as int) }
    } else {
        None
    }
}

/// A decimal literal `-?[0-9]+\.[0-9]+`.
pub open spec fn is_decimal_literal(w: Seq<char>) -> bool {
    let b = unsigned_part(w);
    let k = first_pos(b, '.');
    k < b.len() && all_digits(b.subrange(0, k)) && all_digits(b.subrange(k + 1, b.len() as int))
}

/// How an unquoted word is read as a value: an integer that fits in `i64`,
/// a decimal, `true`/`false`, or else the word itself as a string.
pub open spec fn classify(w: Seq<char>) -> ValueM {
    match int_literal(w) {
        Some(n) if i64::MIN <= n <= i64::MAX => ValueM::Integer(n),
        _ => if is_decimal_literal(w) {
            ValueM::Float(w)
        } else if w == seq!['t', 'r', 'u', 'e'] {
            ValueM::Boolean(true)
        } else if w == seq!['f', 'a', 'l', 's', 'e'] {
            ValueM::Boolean(false)
        } else {
            ValueM::Str(w)
        },
    }
}

/// Characterises `first_pos` by the position found.
pub proof fn lemma_first_pos_is(s: Seq<char>, c: char, k: int)
    requires
        0 <= k <= s.len(),
        forall|j: int| 0 <= j < k ==> s[j] != c,
        k < s.len() ==> s[k] == c,
    ensures
        first_pos(s, c) == k,
{
    lemma_first_pos(s, c);
    let f = first_pos(s, c);
    if f < k {
        assert(s[f] == c);
    }
    if k < f {
        assert(s[k] != c);
    }
}

proof fn lemma_first_pos(s: Seq<char>, c: char)
    ensures
        0 <= first_pos(s, c) <= s.len(),
        forall|j: int| 0 <= j < first_pos(s, c) ==> s[j] != c,
        first_pos(s, c) < s.len() ==> s[first_pos(s, c)] == c,
    decreases s.len(),
{
    if s.len() > 0 && s[0] != c {
        lemma_first_pos(s.drop_first(), c);
        assert forall|j: int| 0 <= j < first_pos(s, c) implies s[j] != c by {
            if j > 0 {
                assert(s[j] == s.drop_first()[j - 1]);
            }
        }
    }
}

fn all_digit_chars(v: &Vec<char>, from: usize, to: usize) -> (r: bool)
    requires
        from <= to <= v.len(),
    ensures
        r == all_digits(v@.subrange(from as int, to as int)),
{
    if from == to {
        return false;
    }
    let mut i = from;
    while i < to
        invariant
            from <= i <= to <= v.len(),
            forall|j: int| from <= j < i ==> crate::text::is_digit(#[trigger] v@[j]),
        decreases to - i,
    {
        if !('0' <= v[i] && v[i] <= '9') {
            assert(!crate::text::is_digit(v@.subrange(from as int, to as int)[i - from]));
            return false;
        }
        i = i + 1;
    }
    assert forall|j: int| 0 <= j < to - from implies crate::text::is_digit(
        #[trigger] v@.subrange(from as int, to as int)[j],
    ) by {
        assert(v@.subrange(from as int, to as int)[j] == v@[from + j]);
    }
    true
}

/// Reads an unquoted word as a value (see [`classify`]).
pub fn classify_word(w: &Vec<char>) -> (r: Value)
    ensures
        value_model(r) == classify(w@),
{
    let neg = w.len() > 0 && w[0] == '-';
    let start: usize = if neg { 1 } else { 0 };
    let body = slice_chars(w, start, w.len());
    assert(body@ == unsigned_part(w@));
    let cap: u64 = if neg { 9223372036854775808 } else { 9223372036854775807 };
    match digits_value_capped(&body, cap) {
        Some(n) => {
            if neg {
                let v: i64 = (0i128 - (n as i128)) as i64;
                return Value::Integer(v);
            } else {
                return Value::Integer(n as i64);
            }
        },
        None => {},
    }
    let mut k: usize = 0;
    while k < body.len() && body[k] != '.'
        invariant
            0 <= k <= body.len(),
            forall|j: int| 0 <= j < k ==> body@[j] != '.',
        decreases body.len() - k,
    {
        k = k + 1;
    }
    proof {
        lemma_first_pos(body@, '.');
        let fp = first_pos(body@, '.');
        if fp < k {
            assert(body@[fp] == '.');
        }
        if k < fp {
            assert(body@[k as int] == '.');
        }
    }
    if k < body.len() && all_digit_chars(&body, 0, k) && all_digit_chars(&body, k + 1, body.len()) {
        return Value::Float(string_from(w));
    }
    if w.len() == 4 && w[0] == 't' && w[1] == 'r' && w[2] == 'u' && w[3] == 'e' {
        assert(w@ =~= seq!['t', 'r', 'u', 'e']);
        return Value::Boolean(true);
    }
    if w.len() == 5 && w[0] == 'f' && w[1] == 'a' && w[2] == 'l' && w[3] == 's' && w[4] == 'e' {
        assert(w@ =~= seq!['f', 'a', 'l', 's', 'e']);
        return Value::Boolean(false);
    }
    Value::String(string_from(w))
}

// ---------------------------------------------------------------------------
// Grammar
// ---------------------------------------------------------------------------

pub open spec fn kw_and() -> Seq<char> { seq!['A', 'N', 'D'] }
pub open spec fn kw_or() -> Seq<char> { seq!['O', 'R'] }
pub open spec fn kw_not() -> Seq<char> { seq!['N', 'O', 'T'] }
pub open spec fn kw_in() -> Seq<char> { seq!['I', 'N'] }
pub open spec fn kw_exists() -> Seq<char> { seq!['E', 'X', 'I', 'S', 'T', 'S'] }
pub open spec fn kw_is() -> Seq<char> { seq!['I', 'S'] }
pub open spec fn kw_empty() -> Seq<char> { seq!['E', 'M', 'P', 'T', 'Y'] }
pub open spec fn kw_null() -> Seq<char> { seq!['N', 'U', 'L', 'L'] }

/// The token is the keyword `kw` (in any letter case).
pub open spec fn is_kw(t: TokM, kw: Seq<char>) -> bool {
    t matches TokM::Word(w) && eq_ascii_ci(w, kw)
}

/// Words that cannot name a field.
pub open spec fn is_reserved(w: Seq<char>) -> bool {
    eq_ascii_ci(w, kw_and()) || eq_ascii_ci(w, kw_or()) || eq_ascii_ci(w, kw_not())
}

/// One operand, or the logical combination of several.
pub open spec fn mk_logical(op: LogicalOp, es: Seq<ExprM>) -> ExprM {
    if es.len() == 1 { es[0] } else { ExprM::Logical(op, es) }
}

pub open spec fn tok_value(t: TokM) -> Option<ValueM> {
    match t {
        TokM::Word(w) => Some(classify(w)),
        TokM::Quoted(q) => Some(ValueM::Str(q)),
        _ => None,
    }
}

pub open spec fn tok_text(t: TokM) -> Option<Seq<char>> {
    match t {
        TokM::Word(w) => Some(w),
        TokM::Quoted(q) => Some(q),
        _ => None,
    }
}

pub open spec fn string_op_of(o: OpTok) -> Option<StringOp> {
    match o {
        OpTok::Contains => Some(StringOp::Contains),
        OpTok::Starts => Some(StringOp::StartsWith),
        OpTok::Ends => Some(StringOp::EndsWith),
        OpTok::Match => Some(StringOp::Regex),
        _ => None,
    }
}

pub open spec fn compare_op_of(o: OpTok) -> CompareOp {
    match o {
        OpTok::Eq => CompareOp::Equal,
        OpTok::Ne => CompareOp::NotEqual,
        OpTok::Gt => CompareOp::Greater,
        OpTok::Ge => CompareOp::GreaterEqual,
        OpTok::Lt => CompareOp::Less,
        _ => CompareOp::LessEqual,
    }
}

/// `value (, value)* )` starting at `p`, appended to `acc`.
pub open spec fn parse_values(t: Seq<TokM>, p: int, acc: Seq<ValueM>) -> Option<(Seq<ValueM>, int)>
    decreases t.len() - p,
{
    if p < 0 || p + 1 >= t.len() {
        None
    } else {
        match tok_value(t[p]) {
            None => None,
            Some(v) => if t[p + 1] == TokM::Comma {
                parse_values(t, p + 2, acc.push(v))
            } else if t[p + 1] == TokM::RParen {
                Some((acc.push(v), p + 2))
            } else {
                None
            },
        }
    }
}

/// A single condition on one field.
pub open spec fn parse_atom(t: Seq<TokM>, p: int) -> Option<(ExprM, int)> {
    if p < 0 || p + 1 >= t.len() {
        None
    } else if let TokM::Word(f) = t[p] {
        if is_reserved(f) {
            None
        } else if let TokM::Op(o) = t[p + 1] {
            if p + 2 >= t.len() {
                None
            } else if let Some(sop) = string_op_of(o) {
                match tok_text(t[p + 2]) {
                    Some(x) => Some((ExprM::StrOp(f, sop, x), p + 3)),
                    None => None,
                }
            } else {
                match tok_value(t[p + 2]) {
                    Some(v) => Some((ExprM::Compare(f, compare_op_of(o), v), p + 3)),
                    None => None,
                }
            }
        } else if is_kw(t[p + 1], kw_in()) {
            if p + 2 < t.len() && t[p + 2] == TokM::LParen {
                match parse_values(t, p + 3, seq![]) {
                    Some((vs, q)) => Some((ExprM::In(f, vs), q)),
                    None => None,
                }
            } else {
                None
            }
        } else if is_kw(t[p + 1], kw_exists()) {
            Some((ExprM::Exists(f, ExistenceCheck::Exists), p + 2))
        } else if is_kw(t[p + 1], kw_is()) && p + 2 < t.len() && is_kw(t[p + 2], kw_empty()) {
            Some((ExprM::Exists(f, ExistenceCheck::Empty), p + 3))
        } else if is_kw(t[p + 1], kw_is()) && p + 2 < t.len() && is_kw(t[p + 2], kw_null()) {
            Some((ExprM::Exists(f, ExistenceCheck::Null), p + 3))
        } else {
            None
        }
    } else {
        None
    }
}

/// A bracketed expression or a single condition.
pub open spec fn parse_primary(t: Seq<TokM>, p: int) -> Option<(ExprM, int)>
    decreases t.len() - p, 0nat,
{
    if 0 <= p < t.len() && t[p] == TokM::LParen {
        match parse_or(t, p + 1) {
            Some((e, q)) => if 0 <= q < t.len() && t[q] == TokM::RParen {
                Some((e, q + 1))
            } else {
                None
            },
            None => None,
        }
    } else {
        parse_atom(t, p)
    }
}

/// `NOT* primary`.
pub open spec fn parse_unary(t: Seq<TokM>, p: int) -> Option<(ExprM, int)>
    decreases t.len() - p, 1nat,
{
    if 0 <= p < t.len() && is_kw(t[p], kw_not()) {
        match parse_unary(t, p + 1) {
            Some((e, q)) => Some((ExprM::Not(Box::new(e)), q)),
            None => None,
        }
    } else {
        parse_primary(t, p)
    }
}

/// `(AND unary)*` after the operands in `acc`, ending at `p`.
pub open spec fn parse_and_tail(t: Seq<TokM>, p: int, acc: Seq<ExprM>) -> Option<(ExprM, int)>
    decreases t.len() - p, 3nat,
{
    if 0 <= p < t.len() && is_kw(t[p], kw_and()) {
        match parse_unary(t, p + 1) {
            Some((e, q)) => if p + 1 < q <= t.len() {
                parse_and_tail(t, q, acc.push(e))
            } else {
                None
            },
            None => None,
        }
    } else {
        Some((mk_logical(LogicalOp::And, acc), p))
    }
}

/// `unary (AND unary)*`.
pub open spec fn parse_and(t: Seq<TokM>, p: int) -> Option<(ExprM, int)>
    decreases t.len() - p, 2nat,
{
    match parse_unary(t, p) {
        Some((e, q)) => if p < q <= t.len() { parse_and_tail(t, q, seq![e]) } else { None },
        None => None,
    }
}

/// `(OR and)*` after the operands in `acc`, ending at `p`.
pub open spec fn parse_or_tail(t: Seq<TokM>, p: int, acc: Seq<ExprM>) -> Option<(ExprM, int)>
    decreases t.len() - p, 5nat,
{
    if 0 <= p < t.len() && is_kw(t[p], kw_or()) {
        match parse_and(t, p + 1) {
            Some((e, q)) => if p + 1 < q <= t.len() {
                parse_or_tail(t, q, acc.push(e))
            } else {
                None
            },
            None => None,
        }
    } else {
        Some((mk_logical(LogicalOp::Or, acc), p))
    }
}

/// `and (OR and)*`.
pub open spec fn parse_or(t: Seq<TokM>, p: int) -> Option<(ExprM, int)>
    decreases t.len() - p, 4nat,
{
    match parse_and(t, p) {
        Some((e, q)) => if p < q <= t.len() { parse_or_tail(t, q, seq![e]) } else { None },
        None => None,
    }
}

/// The expression that `s` denotes, or `None` when `s` is not a filter
/// expression (every token must take part: trailing text is rejected).
pub open spec fn parse_filter(s: Seq<char>) -> Option<ExprM> {
    match lex(s, 0) {
        Some(t) => match parse_or(t, 0) {
            Some((e, q)) => if q == t.len() { Some(e) } else { None },
            None => None,
        },
        None => None,
    }
}


// ---------------------------------------------------------------------------
// Parser
// ---------------------------------------------------------------------------

pub open spec fn res_model(r: Option<(FilterExpr, usize)>) -> Option<(ExprM, int)> {
    match r {
        Some((e, q)) => Some((expr_model(e), q as int)),
        None => None,
    }
}

fn tok_is_kw(t: &Token, kw: &str) -> (r: bool)
    ensures
        r == is_kw(tok_model(*t), kw@),
{
    match t {
        Token::Word(w) => {
            let k = chars_of(kw);
            eq_ignore_ascii_case(w, &k)
        },
        _ => false,
    }
}

fn word_is_reserved(w: &Vec<char>) -> (r: bool)
    ensures
        r == is_reserved(w@),
{
    let a = chars_of("AND");
    let o = chars_of("OR");
    let n = chars_of("NOT");
    proof {
        reveal_strlit("AND");
        reveal_strlit("OR");
        reveal_strlit("NOT");
        assert("AND"@ =~= kw_and());
        assert("OR"@ =~= kw_or());
        assert("NOT"@ =~= kw_not());
    }
    eq_ignore_ascii_case(w, &a) || eq_ignore_ascii_case(w, &o) || eq_ignore_ascii_case(w, &n)
}

fn token_value(t: &Token) -> (r: Option<Value>)
    ensures
        r matches Some(v) ==> tok_value(tok_model(*t)) == Some(value_model(v)),
        r is None ==> tok_value(tok_model(*t)) is None,
{
    match t {
        Token::Word(w) => Some(classify_word(w)),
        Token::Quoted(q) => Some(Value::String(string_from(q))),
        _ => None,
    }
}

fn token_text(t: &Token) -> (r: Option<String>)
    ensures
        r matches Some(x) ==> tok_text(tok_model(*t)) == Some(x@),
        r is None ==> tok_text(tok_model(*t)) is None,
{
    match t {
        Token::Word(w) => Some(string_from(w)),
        Token::Quoted(q) => Some(string_from(q)),
        _ => None,
    }
}

fn is_lparen(t: &Token) -> (r: bool)
    ensures
        r == (tok_model(*t) == TokM::LParen),
{
    match t {
        Token::LParen => true,
        _ => false,
    }
}

fn is_rparen(t: &Token) -> (r: bool)
    ensures
        r == (tok_model(*t) == TokM::RParen),
{
    match t {
        Token::RParen => true,
        _ => false,
    }
}

fn is_comma(t: &Token) -> (r: bool)
    ensures
        r == (tok_model(*t) == TokM::Comma),
{
    match t {
        Token::Comma => true,
        _ => false,
    }
}

fn parse_value_list(toks: &Vec<Token>, p: usize) -> (r: Option<(Vec<Value>, usize)>)
    ensures
        r matches Some((vs, q)) ==> parse_values(toks_model(toks@), p as int, seq![]) == Some(
            (values_model(vs@), q as int),
        ),
        r is None ==> parse_values(toks_model(toks@), p as int, seq![]) is None,
{
    let ghost t = toks_model(toks@);
    let mut acc: Vec<Value> = Vec::new();
    assert(values_model(acc@) =~= seq![]);
    let mut pos = p;
    loop
        invariant
            t == toks_model(toks@),
            parse_values(t, p as int, seq![]) == parse_values(t, pos as int, values_model(acc@)),
        decreases toks.len() - pos,
    {
        if pos >= toks.len() || pos + 1 >= toks.len() {
            return None;
        }
        assert(t[pos as int] == tok_model(toks@[pos as int]));
        assert(t[pos + 1] == tok_model(toks@[pos + 1]));
        match token_value(&toks[pos]) {
            None => {
                return None;
            },
            Some(v) => {
                let ghost before = values_model(acc@);
                acc.push(v);
                assert(values_model(acc@) =~= before.push(value_model(v)));
                if is_comma(&toks[pos + 1]) {
                    pos = pos + 2;
                } else if is_rparen(&toks[pos + 1]) {
                    return Some((acc, pos + 2));
                } else {
                    return None;
                }
            },
        }
    }
}

fn parse_atom_exec(toks: &Vec<Token>, p: usize) -> (r: Option<(FilterExpr, usize)>)
    ensures
        res_model(r) == parse_atom(toks_model(toks@), p as int),
{
    let ghost t = toks_model(toks@);
    if p >= toks.len() || p + 1 >= toks.len() {
        return None;
    }
    assert(t[p as int] == tok_model(toks@[p as int]));
    assert(t[p + 1] == tok_model(toks@[p + 1]));
    let f = match &toks[p] {
        Token::Word(f) => f,
        _ => {
            return None;
        },
    };
    if word_is_reserved(f) {
        return None;
    }
    let field = string_from(f);
    match &toks[p + 1] {
        Token::Op(o) => {
            if p + 2 >= toks.len() {
                return None;
            }
            assert(t[p + 2] == tok_model(toks@[p + 2]));
            let sop = match o {
                OpTok::Contains => Some(StringOp::Contains),
                OpTok::Starts => Some(StringOp::StartsWith),
                OpTok::Ends => Some(StringOp::EndsWith),
                OpTok::Match => Some(StringOp::Regex),
                _ => None,
            };
            match sop {
                Some(op) => {
                    match token_text(&toks[p + 2]) {
                        Some(x) => {
                            return Some((FilterExpr::StringOp { field, op, value: x }, p + 3));
                        },
                        None => {
                            return None;
                        },
                    }
                },
                None => {
                    let op = match o {
                        OpTok::Eq => CompareOp::Equal,
                        OpTok::Ne => CompareOp::NotEqual,
                        OpTok::Gt => CompareOp::Greater,
                        OpTok::Ge => CompareOp::GreaterEqual,
                        OpTok::Lt => CompareOp::Less,
                        _ => CompareOp::LessEqual,
                    };
                    match token_value(&toks[p + 2]) {
                        Some(v) => {
                            return Some((FilterExpr::Compare { field, op, value: v }, p + 3));
                        },
                        None => {
                            return None;
                        },
                    }
                },
            }
        },
        _ => {},
    }
    proof {
        reveal_strlit("IN");
        reveal_strlit("EXISTS");
        reveal_strlit("IS");
        reveal_strlit("EMPTY");
        reveal_strlit("NULL");
        assert("IN"@ =~= kw_in());
        assert("EXISTS"@ =~= kw_exists());
        assert("IS"@ =~= kw_is());
        assert("EMPTY"@ =~= kw_empty());
        assert("NULL"@ =~= kw_null());
    }
    if tok_is_kw(&toks[p + 1], "IN") {
        if p + 2 < toks.len() && is_lparen(&toks[p + 2]) {
            assert(t[p + 2] == tok_model(toks@[p + 2]));
            match parse_value_list(toks, p + 3) {
                Some((vs, q)) => {
                    return Some((FilterExpr::In { field, values: vs }, q));
                },
                None => {
                    return None;
                },
            }
        } else {
            proof {
                if p + 2 < toks.len() {
                    assert(t[p + 2] == tok_model(toks@[p + 2]));
                }
            }
            return None;
        }
    }
    if tok_is_kw(&toks[p + 1], "EXISTS") {
        return Some((FilterExpr::Exists { field, check: ExistenceCheck::Exists }, p + 2));
    }
    if tok_is_kw(&toks[p + 1], "IS") && p + 2 < toks.len() {
        assert(t[p + 2] == tok_model(toks@[p + 2]));
        if tok_is_kw(&toks[p + 2], "EMPTY") {
            return Some((FilterExpr::Exists { field, check: ExistenceCheck::Empty }, p + 3));
        }
        if tok_is_kw(&toks[p + 2], "NULL") {
            return Some((FilterExpr::Exists { field, check: ExistenceCheck::Null }, p + 3));
        }
    }
    None
}

fn mk_logical_exec(op: LogicalOp, mut acc: Vec<FilterExpr>) -> (r: FilterExpr)
    requires
        acc.len() >= 1,
    ensures
        expr_model(r) == mk_logical(op, exprs_model(acc@)),
{
    proof {
        super::lemma_exprs_model(acc@);
    }
    if acc.len() == 1 {
        let e = acc.pop().unwrap();
        e
    } else {
        FilterExpr::Logical { op, exprs: acc }
    }
}

proof fn lemma_exprs_model_push(s: Seq<FilterExpr>, e: FilterExpr)
    ensures
        exprs_model(s.push(e)) == exprs_model(s).push(expr_model(e)),
{
    assert(s.push(e).subrange(0, s.len() as int) =~= s);
}

fn parse_primary_exec(toks: &Vec<Token>, p: usize) -> (r: Option<(FilterExpr, usize)>)
    ensures
        res_model(r) == parse_primary(toks_model(toks@), p as int),
    decreases toks.len() - p, 0nat,
{
    let ghost t = toks_model(toks@);
    if p < toks.len() && is_lparen(&toks[p]) {
        assert(t[p as int] == tok_model(toks@[p as int]));
        match parse_or_exec(toks, p + 1) {
            Some((e, q)) => {
                if q < toks.len() && is_rparen(&toks[q]) {
                    assert(t[q as int] == tok_model(toks@[q as int]));
                    return Some((e, q + 1));
                } else {
                    proof {
                        if q < toks.len() {
                            assert(t[q as int] == tok_model(toks@[q as int]));
                        }
                    }
                    return None;
                }
            },
            None => {
                return None;
            },
        }
    } else {
        proof {
            if p < toks.len() {
                assert(t[p as int] == tok_model(toks@[p as int]));
            }
        }
        parse_atom_exec(toks, p)
    }
}

fn parse_unary_exec(toks: &Vec<Token>, p: usize) -> (r: Option<(FilterExpr, usize)>)
    ensures
        res_model(r) == parse_unary(toks_model(toks@), p as int),
    decreases toks.len() - p, 1nat,
{
    let ghost t = toks_model(toks@);
    proof {
        reveal_strlit("NOT");
        assert("NOT"@ =~= kw_not());
        if p < toks.len() {
            assert(t[p as int] == tok_model(toks@[p as int]));
        }
    }
    if p < toks.len() && tok_is_kw(&toks[p], "NOT") {
        match parse_unary_exec(toks, p + 1) {
            Some((e, q)) => Some((FilterExpr::Not(Box::new(e)), q)),
            None => None,
        }
    } else {
        parse_primary_exec(toks, p)
    }
}

fn parse_and_exec(toks: &Vec<Token>, p: usize) -> (r: Option<(FilterExpr, usize)>)
    ensures
        res_model(r) == parse_and(toks_model(toks@), p as int),
    decreases toks.len() - p, 2nat,
{
    let ghost t = toks_model(toks@);
    proof {
        reveal_strlit("AND");
        assert("AND"@ =~= kw_and());
    }
    let (first, q) = match parse_unary_exec(toks, p) {
        Some(x) => x,
        None => {
            return None;
        },
    };
    if !(p < q && q <= toks.len()) {
        return None;
    }
    let mut acc: Vec<FilterExpr> = Vec::new();
    acc.push(first);
    assert(exprs_model(acc@) =~= seq![expr_model(first)]) by {
        assert(acc@.subrange(0, 0) =~= Seq::<FilterExpr>::empty());
        assert(exprs_model(acc@.subrange(0, 0)) =~= Seq::<ExprM>::empty());
        assert(acc@[0] == first);
    }
    let mut pos = q;
    loop
        invariant
            "AND"@ == kw_and(),
            t == toks_model(toks@),
            p < pos <= toks.len(),
            acc.len() >= 1,
            parse_and(t, p as int) == parse_and_tail(t, pos as int, exprs_model(acc@)),
        decreases toks.len() - pos,
    {
        proof {
            if pos < toks.len() {
                assert(t[pos as int] == tok_model(toks@[pos as int]));
            }
        }
        if pos < toks.len() && tok_is_kw(&toks[pos], "AND") {
            match parse_unary_exec(toks, pos + 1) {
                Some((e, q2)) => {
                    if pos + 1 < q2 && q2 <= toks.len() {
                        proof {
                            lemma_exprs_model_push(acc@, e);
                        }
                        acc.push(e);
                        pos = q2;
                    } else {
                        return None;
                    }
                },
                None => {
                    return None;
                },
            }
        } else {
            let r = mk_logical_exec(LogicalOp::And, acc);
            return Some((r, pos));
        }
    }
}

fn parse_or_exec(toks: &Vec<Token>, p: usize) -> (r: Option<(FilterExpr, usize)>)
    ensures
        res_model(r) == parse_or(toks_model(toks@), p as int),
    decreases toks.len() - p, 4nat,
{
    let ghost t = toks_model(toks@);
    proof {
        reveal_strlit("OR");
        assert("OR"@ =~= kw_or());
    }
    let (first, q) = match parse_and_exec(toks, p) {
        Some(x) => x,
        None => {
            return None;
        },
    };
    if !(p < q && q <= toks.len()) {
        return None;
    }
    let mut acc: Vec<FilterExpr> = Vec::new();
    acc.push(first);
    assert(exprs_model(acc@) =~= seq![expr_model(first)]) by {
        assert(acc@.subrange(0, 0) =~= Seq::<FilterExpr>::empty());
        assert(exprs_model(acc@.subrange(0, 0)) =~= Seq::<ExprM>::empty());
        assert(acc@[0] == first);
    }
    let mut pos = q;
    loop
        invariant
            "OR"@ == kw_or(),
            t == toks_model(toks@),
            p < pos <= toks.len(),
            acc.len() >= 1,
            parse_or(t, p as int) == parse_or_tail(t, pos as int, exprs_model(acc@)),
        decreases toks.len() - pos,
    {
        proof {
            if pos < toks.len() {
                assert(t[pos as int] == tok_model(toks@[pos as int]));
            }
        }
        if pos < toks.len() && tok_is_kw(&toks[pos], "OR") {
            match parse_and_exec(toks, pos + 1) {
                Some((e, q2)) => {
                    if pos + 1 < q2 && q2 <= toks.len() {
                        proof {
                            lemma_exprs_model_push(acc@, e);
                        }
                        acc.push(e);
                        pos = q2;
                    } else {
                        return None;
                    }
                },
                None => {
                    return None;
                },
            }
        } else {
            let r = mk_logical_exec(LogicalOp::Or, acc);
            return Some((r, pos));
        }
    }
}

/// Parses filter text into an expression; `None` exactly when the text is
/// not a filter expression.
pub fn parse_expr(input: &str) -> (r: Option<FilterExpr>)
    ensures
        r matches Some(e) ==> parse_filter(input@) == Some(expr_model(e)),
        r is None ==> parse_filter(input@) is None,
{
    let toks = match tokenize(input) {
        Some(t) => t,
        None => {
            return None;
        },
    };
    match parse_or_exec(&toks, 0) {
        Some((e, q)) => {
            if q == toks.len() {
                Some(e)
            } else {
                None
            }
        },
        None => None,
    }
}


// ---------------------------------------------------------------------------
// What a single condition parses to
// ---------------------------------------------------------------------------

/// Every character of `w` is a word character and `w` is not empty.
pub open spec fn plain_word(w: Seq<char>) -> bool {
    w.len() > 0 && forall|k: int| 0 <= k < w.len() ==> is_word_char(#[trigger] w[k])
}

proof fn lemma_word_end_at(s: Seq<char>, i: int, j: int)
    requires
        0 <= i <= j <= s.len(),
        forall|k: int| i <= k < j ==> is_word_char(#[trigger] s[k]),
        j == s.len() || !is_word_char(s[j]),
    ensures
        word_end(s, i) == j,
    decreases j - i,
{
    if i < j {
        lemma_word_end_at(s, i + 1, j);
    }
}

proof fn lemma_lex_last_word(s: Seq<char>, i: int)
    requires
        0 <= i < s.len(),
        forall|k: int| i <= k < s.len() ==> is_word_char(#[trigger] s[k]),
    ensures
        lex(s, i) == Some(seq![TokM::Word(s.subrange(i, s.len() as int))]),
{
    assert(is_word_char(s[i]));
    lemma_word_end_at(s, i, s.len() as int);
    assert(lex(s, s.len() as int) == Some(Seq::<TokM>::empty()));
    assert(seq![TokM::Word(s.subrange(i, s.len() as int))] + Seq::<TokM>::empty() =~= seq![
        TokM::Word(s.subrange(i, s.len() as int)),
    ]);
}

/// `f`, the operator text `o` and `w` lex into the three tokens.
proof fn lemma_lex_condition(f: Seq<char>, o: Seq<char>, w: Seq<char>, tok: OpTok)
    requires
        plain_word(f),
        plain_word(w),
        1 <= o.len() <= 2,
        is_op_char(o[0]),
        op_at(f + o + w, f.len() as int) == Some((tok, o.len() as int)),
    ensures
        lex(f + o + w, 0) == Some(seq![TokM::Word(f), TokM::Op(tok), TokM::Word(w)]),
{
    let s = f + o + w;
    let a = f.len() as int;
    let b = a + o.len();
    assert forall|k: int| 0 <= k < a implies is_word_char(#[trigger] s[k]) by {
        assert(s[k] == f[k]);
    }
    assert(s[a] == o[0]);
    lemma_word_end_at(s, 0, a);
    assert(s.subrange(0, a) =~= f);
    assert forall|k: int| b <= k < s.len() implies is_word_char(#[trigger] s[k]) by {
        assert(s[k] == w[k - b]);
    }
    lemma_lex_last_word(s, b);
    assert(s.subrange(b, s.len() as int) =~= w);
    assert(is_word_char(s[0]));
    assert(!is_ws(s[a]));
    let rest = lex(s, b);
    assert(lex(s, a) == cons(TokM::Op(tok), rest));
    assert(seq![TokM::Word(f)] + (seq![TokM::Op(tok)] + seq![TokM::Word(w)]) =~= seq![
        TokM::Word(f),
        TokM::Op(tok),
        TokM::Word(w),
    ]);
}

/// The three tokens `field op value` parse to the one condition.
proof fn lemma_parse_condition(f: Seq<char>, tok: OpTok, w: Seq<char>)
    requires
        !is_reserved(f),
    ensures
        ({
            let t = seq![TokM::Word(f), TokM::Op(tok), TokM::Word(w)];
            let e = match string_op_of(tok) {
                Some(sop) => ExprM::StrOp(f, sop, w),
                None => ExprM::Compare(f, compare_op_of(tok), classify(w)),
            };
            &&& parse_atom(t, 0) == Some((e, 3int))
            &&& parse_or(t, 0) == Some((e, 3int))
        }),
{
    let t = seq![TokM::Word(f), TokM::Op(tok), TokM::Word(w)];
    let e = match string_op_of(tok) {
        Some(sop) => ExprM::StrOp(f, sop, w),
        None => ExprM::Compare(f, compare_op_of(tok), classify(w)),
    };
    assert(!is_kw(t[0], kw_not())) by {
        assert(eq_ascii_ci(f, kw_not()) ==> is_reserved(f));
    }
    assert(parse_primary(t, 0) == parse_atom(t, 0));
    assert(parse_unary(t, 0) == Some((e, 3int)));
    assert(parse_and_tail(t, 3, seq![e]) == Some((mk_logical(LogicalOp::And, seq![e]), 3int)));
    assert(mk_logical(LogicalOp::And, seq![e]) == e);
    assert(parse_and(t, 0) == Some((e, 3int)));
    assert(parse_or_tail(t, 3, seq![e]) == Some((mk_logical(LogicalOp::Or, seq![e]), 3int)));
    assert(mk_logical(LogicalOp::Or, seq![e]) == e);
}

/// `f o w` parses to the condition the tokens make.
#[verifier::spinoff_prover]
proof fn lemma_condition(f: Seq<char>, o: Seq<char>, w: Seq<char>, tok: OpTok)
    requires
        plain_word(f),
        plain_word(w),
        !is_reserved(f),
        1 <= o.len() <= 2,
        is_op_char(o[0]),
        op_at(f + o + w, f.len() as int) == Some((tok, o.len() as int)),
    ensures
        parse_filter(f + o + w) == Some(
            match string_op_of(tok) {
                Some(sop) => ExprM::StrOp(f, sop, w),
                None => ExprM::Compare(f, compare_op_of(tok), classify(w)),
            },
        ),
{
    lemma_lex_condition(f, o, w, tok);
    lemma_parse_condition(f, tok, w);
}

/// A single condition `field op value`, with a field name and a value made
/// of word characters, parses to that condition with the operator it is
/// written with: `=` is equality, `!=` inequality, `>`, `>=`, `<` and `<=`
/// the orderings in that direction; `~`, `^` and `$` are contains, starts
/// with and ends with on the value's text.
#[verifier::spinoff_prover]
#[verifier::rlimit(60)]
pub proof fn law_conditions_keep_their_operator(f: Seq<char>, w: Seq<char>)
    requires
        plain_word(f),
        plain_word(w),
        !is_reserved(f),
    ensures
        parse_filter(f + seq!['='] + w) == Some(ExprM::Compare(f, CompareOp::Equal, classify(w))),
        parse_filter(f + seq!['!', '='] + w) == Some(ExprM::Compare(f, CompareOp::NotEqual, classify(w))),
        parse_filter(f + seq!['>'] + w) == Some(ExprM::Compare(f, CompareOp::Greater, classify(w))),
        parse_filter(f + seq!['>', '='] + w) == Some(
            ExprM::Compare(f, CompareOp::GreaterEqual, classify(w)),
        ),
        parse_filter(f + seq!['<'] + w) == Some(ExprM::Compare(f, CompareOp::Less, classify(w))),
        parse_filter(f + seq!['<', '='] + w) == Some(ExprM::Compare(f, CompareOp::LessEqual, classify(w))),
        parse_filter(f + seq!['~'] + w) == Some(ExprM::StrOp(f, StringOp::Contains, w)),
        parse_filter(f + seq!['^'] + w) == Some(ExprM::StrOp(f, StringOp::StartsWith, w)),
        parse_filter(f + seq!['$'] + w) == Some(ExprM::StrOp(f, StringOp::EndsWith, w)),
{
    let a = f.len() as int;
    assert(is_word_char(w[0]));
    assert(parse_filter(f + seq!['='] + w) == Some(ExprM::Compare(f, CompareOp::Equal, classify(w)))) by {
        let o = seq!['='];
        assert((f + o + w)[a] == '=' && (f + o + w)[a + 1] == w[0]);
        lemma_condition(f, o, w, OpTok::Eq);
    }
    assert(parse_filter(f + seq!['!', '='] + w) == Some(ExprM::Compare(f, CompareOp::NotEqual, classify(w)))) by {
        let o = seq!['!', '='];
        assert((f + o + w)[a] == '!' && (f + o + w)[a + 1] == '=');
        lemma_condition(f, o, w, OpTok::Ne);
    }
    assert(parse_filter(f + seq!['>'] + w) == Some(ExprM::Compare(f, CompareOp::Greater, classify(w)))) by {
        let o = seq!['>'];
        assert((f + o + w)[a] == '>' && (f + o + w)[a + 1] == w[0]);
        lemma_condition(f, o, w, OpTok::Gt);
    }
    assert(parse_filter(f + seq!['>', '='] + w) == Some(ExprM::Compare(f, CompareOp::GreaterEqual, classify(w)))) by {
        let o = seq!['>', '='];
        assert((f + o + w)[a] == '>' && (f + o + w)[a + 1] == '=');
        lemma_condition(f, o, w, OpTok::Ge);
    }
    assert(parse_filter(f + seq!['<'] + w) == Some(ExprM::Compare(f, CompareOp::Less, classify(w)))) by {
        let o = seq!['<'];
        assert((f + o + w)[a] == '<' && (f + o + w)[a + 1] == w[0]);
        lemma_condition(f, o, w, OpTok::Lt);
    }
    assert(parse_filter(f + seq!['<', '='] + w) == Some(ExprM::Compare(f, CompareOp::LessEqual, classify(w)))) by {
        let o = seq!['<', '='];
        assert((f + o + w)[a] == '<' && (f + o + w)[a + 1] == '=');
        lemma_condition(f, o, w, OpTok::Le);
    }
    assert(parse_filter(f + seq!['~'] + w) == Some(ExprM::StrOp(f, StringOp::Contains, w))) by {
        let o = seq!['~'];
        assert((f + o + w)[a] == '~');
        lemma_condition(f, o, w, OpTok::Contains);
    }
    assert(parse_filter(f + seq!['^'] + w) == Some(ExprM::StrOp(f, StringOp::StartsWith, w))) by {
        let o = seq!['^'];
        assert((f + o + w)[a] == '^');
        lemma_condition(f, o, w, OpTok::Starts);
    }
    assert(parse_filter(f + seq!['$'] + w) == Some(ExprM::StrOp(f, StringOp::EndsWith, w))) by {
        let o = seq!['$'];
        assert((f + o + w)[a] == '$');
        lemma_condition(f, o, w, OpTok::Ends);
    }
}

} // verus!
