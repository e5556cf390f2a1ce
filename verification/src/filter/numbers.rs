//! Numbers as the library compares them: exactly, as decimals. A number
//! is read as a mantissa and a power of ten (`0.984` is 984 × 10⁻³); two
//! numbers are compared after bringing them to the smaller power. The
//! comparisons the filter, the sort and `diff programs` make are `f64`
//! comparisons; [`f64_agrees`] says where the exact result is theirs, and
//! the contracts of those functions claim their results only there.
use vstd::prelude::*;
use crate::json::{digit, digit_char, nat_text, JsonNumber};
use crate::text::{all_digits, chars_of, digits_value, digits_value_capped, is_digit, slice_chars};
use super::parser::first_pos;
use super::CompareOp;

verus! {

/// 10ⁿ.
pub open spec fn pow10(n: nat) -> int
    decreases n,
{
    if n == 0 {
        1
    } else {
        10 * pow10((n - 1) as nat)
    }
}

/// Position of the first `e` or `E` in `s` (or `s.len()`).
pub open spec fn exp_pos(s: Seq<char>) -> int
    decreases s.len(),
{
    if s.len() == 0 {
        0
    } else if s[0] == 'e' || s[0] == 'E' {
        0
    } else {
        1 + exp_pos(s.drop_first())
    }
}

/// An exponent: an optional sign and digits, at most 10¹⁸ in magnitude.
pub open spec fn exponent_of(s: Seq<char>) -> Option<int> {
    let neg = s.len() > 0 && s[0] == '-';
    let d = if s.len() > 0 && (s[0] == '-' || s[0] == '+') {
        s.drop_first()
    } else {
        s
    };
    if all_digits(d) && digits_value(d) <= 1_000_000_000_000_000_000 {
        Some(
            if neg {
                -(digits_value(d) as int)
            } else {
                digits_value(d) as int
            },
        )
    } else {
        None
    }
}

/// The text after an optional leading `-`.
pub open spec fn unsigned_text(t: Seq<char>) -> Seq<char> {
    if t.len() > 0 && t[0] == '-' {
        t.drop_first()
    } else {
        t
    }
}

/// The digits and point before any exponent.
pub open spec fn mantissa_text(b: Seq<char>) -> Seq<char> {
    b.take(exp_pos(b))
}

/// The exponent's text, when there is an `e`.
pub open spec fn exponent_text(b: Seq<char>) -> Option<Seq<char>> {
    if exp_pos(b) < b.len() {
        Some(b.skip(exp_pos(b) + 1))
    } else {
        None
    }
}

pub open spec fn int_part(mant: Seq<char>) -> Seq<char> {
    mant.take(first_pos(mant, '.'))
}

pub open spec fn has_point(mant: Seq<char>) -> bool {
    first_pos(mant, '.') < mant.len()
}

pub open spec fn frac_part(mant: Seq<char>) -> Seq<char> {
    if has_point(mant) {
        mant.skip(first_pos(mant, '.') + 1)
    } else {
        seq![]
    }
}

/// A number written `-?D+(.D+)?([eE][+-]?D+)?` as `(m, e)` with value
/// `m × 10^e`; `None` for other texts (and exponents beyond 10¹⁸).
pub open spec fn decimal_of(t: Seq<char>) -> Option<(int, int)> {
    let b = unsigned_text(t);
    let mant = mantissa_text(b);
    let ex = match exponent_text(b) {
        Some(x) => exponent_of(x),
        None => Some(0),
    };
    let ip = int_part(mant);
    let fp = frac_part(mant);
    if all_digits(ip) && (has_point(mant) ==> all_digits(fp)) && ex is Some {
        let m = digits_value(ip + fp) as int;
        Some((
            if t.len() > 0 && t[0] == '-' {
                -m
            } else {
                m
            },
            ex->0 - fp.len(),
        ))
    } else {
        None
    }
}

/// The decimal a JSON number holds.
pub open spec fn number_decimal(n: JsonNumber) -> Option<(int, int)> {
    match n {
        JsonNumber::Int(i) => Some((i as int, 0)),
        JsonNumber::Float(t) => decimal_of(t@),
    }
}

/// Exponents of read decimals stay within this bound (in magnitude).
pub open spec fn exponent_bound() -> int {
    0x4_0000_0000_0000_0000
}

/// Both numbers at the smaller of their powers of ten.
pub open spec fn aligned(a: (int, int), b: (int, int)) -> (int, int) {
    let e = if a.1 <= b.1 {
        a.1
    } else {
        b.1
    };
    (a.0 * pow10((a.1 - e) as nat), b.0 * pow10((b.1 - e) as nat))
}

pub open spec fn relation(op: CompareOp, a: int, b: int) -> bool {
    match op {
        CompareOp::Equal => a == b,
        CompareOp::NotEqual => a != b,
        CompareOp::Greater => a > b,
        CompareOp::GreaterEqual => a >= b,
        CompareOp::Less => a < b,
        CompareOp::LessEqual => a <= b,
    }
}

/// `a op b` for two decimals, exactly; false when either is no number.
/// Where [`f64_agrees`] holds this is also what comparing them as `f64`
/// gives; elsewhere it can differ.
pub open spec fn decimal_relation(op: CompareOp, a: Option<(int, int)>, b: Option<(int, int)>) -> bool {
    match (a, b) {
        (Some(x), Some(y)) => {
            let p = aligned(x, y);
            relation(op, p.0, p.1)
        },
        _ => false,
    }
}

/// `|x|`.
pub open spec fn magnitude(x: int) -> int {
    if x < 0 {
        -x
    } else {
        x
    }
}

/// The decimal `x` lies within `10^k` of zero.
pub open spec fn within_pow10(x: (int, int), k: nat) -> bool {
    if x.1 >= 0 {
        magnitude(x.0) * pow10(x.1 as nat) <= pow10(k)
    } else {
        magnitude(x.0) <= pow10((k - x.1) as nat)
    }
}

/// The decimal `x` as an integer, when it is one.
pub open spec fn integer_of(x: (int, int)) -> Option<int> {
    if x.1 >= 0 {
        Some(x.0 * pow10(x.1 as nat))
    } else if x.0 % pow10((-x.1) as nat) == 0 {
        Some(x.0 / pow10((-x.1) as nat))
    } else {
        None
    }
}

/// The decimal `x` is an integer of at most 2⁵³ in magnitude.
pub open spec fn small_integer(x: (int, int)) -> bool {
    integer_of(x) matches Some(i) && magnitude(i) <= 0x20_0000_0000_0000
}

/// `a` and `b` lie apart by at least 2⁻⁴⁰ of their summed magnitudes, plus
/// 2⁻⁴⁰.
pub open spec fn well_apart(a: (int, int), b: (int, int)) -> bool {
    let p = aligned(a, b);
    let e = if a.1 <= b.1 {
        a.1
    } else {
        b.1
    };
    let d = magnitude(p.0 - p.1);
    let s = magnitude(p.0) + magnitude(p.1);
    if e >= 0 {
        d * pow10(e as nat) * 0x100_0000_0000 >= s * pow10(e as nat) + 1
    } else {
        d * 0x100_0000_0000 >= s + pow10((-e) as nat)
    }
}

/// Where comparing two numbers exactly gives what comparing them as `f64`
/// gives (equality within `f64::EPSILON`, the orderings as `f64` orders
/// them): both numbers read, both within 10³⁰⁰ of zero (far inside `f64`'s
/// range), and either both integers of at most 2⁵³ in magnitude (which
/// `f64` holds exactly), or so far apart that reading each into `f64`
/// (off by at most an ulp or two) cannot bring them within `f64::EPSILON`
/// of each other or swap them. Outside this, the `f64` result depends on
/// rounding, and nothing is claimed.
pub open spec fn f64_agrees(a: Option<(int, int)>, b: Option<(int, int)>) -> bool {
    match (a, b) {
        (Some(x), Some(y)) => {
            &&& within_pow10(x, 300)
            &&& within_pow10(y, 300)
            &&& ((small_integer(x) && small_integer(y)) || well_apart(x, y))
        },
        _ => false,
    }
}

proof fn lemma_exp_pos(s: Seq<char>)
    ensures
        0 <= exp_pos(s) <= s.len(),
        forall|j: int| 0 <= j < exp_pos(s) ==> s[j] != 'e' && s[j] != 'E',
        exp_pos(s) < s.len() ==> (s[exp_pos(s)] == 'e' || s[exp_pos(s)] == 'E'),
    decreases s.len(),
{
    if s.len() > 0 && s[0] != 'e' && s[0] != 'E' {
        lemma_exp_pos(s.drop_first());
        assert forall|j: int| 0 <= j < exp_pos(s) implies s[j] != 'e' && s[j] != 'E' by {
            if j > 0 {
                assert(s[j] == s.drop_first()[j - 1]);
            }
        }
    }
}

proof fn lemma_pos_at(s: Seq<char>, k: int)
    requires
        0 <= k <= s.len(),
        forall|j: int| 0 <= j < k ==> s[j] != 'e' && s[j] != 'E',
        k < s.len() ==> (s[k] == 'e' || s[k] == 'E'),
    ensures
        exp_pos(s) == k,
{
    lemma_exp_pos(s);
    let f = exp_pos(s);
    if f < k {
        assert(s[f] == 'e' || s[f] == 'E');
    }
    if k < f {
        assert(s[k] != 'e' && s[k] != 'E');
    }
}

fn exponent(s: &Vec<char>) -> (r: Option<i128>)
    ensures
        match exponent_of(s@) {
            Some(x) => r == Some(x as i128),
            None => r is None,
        },
{
    let signed = s.len() > 0 && (s[0] == '-' || s[0] == '+');
    let d = if signed {
        slice_chars(s, 1, s.len())
    } else {
        slice_chars(s, 0, s.len())
    };
    assert(s@.subrange(1, s.len() as int) =~= s@.drop_first());
    assert(s@.subrange(0, s.len() as int) =~= s@);
    match digits_value_capped(&d, 1_000_000_000_000_000_000) {
        Some(v) => if s.len() > 0 && s[0] == '-' {
            Some(-(v as i128))
        } else {
            Some(v as i128)
        },
        None => None,
    }
}

fn split_exponent(b: &Vec<char>) -> (r: (Vec<char>, Option<Vec<char>>))
    ensures
        r.0@ == mantissa_text(b@),
        match exponent_text(b@) {
            Some(x) => r.1 matches Some(v) && v@ == x,
            None => r.1 is None,
        },
{
    let mut k: usize = 0;
    while k < b.len() && b[k] != 'e' && b[k] != 'E'
        invariant
            0 <= k <= b.len(),
            forall|j: int| 0 <= j < k ==> b@[j] != 'e' && b@[j] != 'E',
        decreases b.len() - k,
    {
        k = k + 1;
    }
    proof {
        lemma_pos_at(b@, k as int);
    }
    let mant = slice_chars(b, 0, k);
    assert(mant@ =~= b@.take(k as int));
    if k < b.len() {
        let tail = slice_chars(b, k + 1, b.len());
        assert(tail@ =~= b@.skip(k + 1));
        (mant, Some(tail))
    } else {
        (mant, None)
    }
}

fn split_point(mant: &Vec<char>) -> (r: (Vec<char>, bool, Vec<char>))
    ensures
        r.0@ == int_part(mant@),
        r.1 == has_point(mant@),
        r.2@ == frac_part(mant@),
{
    let mut d: usize = 0;
    while d < mant.len() && mant[d] != '.'
        invariant
            0 <= d <= mant.len(),
            forall|j: int| 0 <= j < d ==> mant@[j] != '.',
        decreases mant.len() - d,
    {
        d = d + 1;
    }
    proof {
        crate::filter::parser::lemma_first_pos_is(mant@, '.', d as int);
    }
    let ip = slice_chars(mant, 0, d);
    assert(ip@ =~= mant@.take(d as int));
    if d < mant.len() {
        let f = slice_chars(mant, d + 1, mant.len());
        assert(f@ =~= mant@.skip(d + 1));
        (ip, true, f)
    } else {
        let f: Vec<char> = Vec::new();
        assert(f@ =~= seq![]);
        (ip, false, f)
    }
}

proof fn lemma_digits_concat(a: Seq<char>, b: Seq<char>)
    requires
        b.len() > 0,
    ensures
        all_digits(a + b) <==> (all_digits(a) || a.len() == 0) && all_digits(b),
{
    if all_digits(a + b) {
        assert forall|j: int| 0 <= j < a.len() implies crate::text::is_digit(#[trigger] a[j]) by {
            assert(a[j] == (a + b)[j]);
        }
        assert forall|j: int| 0 <= j < b.len() implies crate::text::is_digit(#[trigger] b[j]) by {
            assert(b[j] == (a + b)[a.len() + j]);
        }
    }
    if (all_digits(a) || a.len() == 0) && all_digits(b) {
        assert forall|j: int| 0 <= j < (a + b).len() implies crate::text::is_digit(#[trigger] (a + b)[j]) by {
            if j < a.len() {
                assert((a + b)[j] == a[j]);
            } else {
                assert((a + b)[j] == b[j - a.len()]);
            }
        }
    }
}

fn concat_chars(a: &Vec<char>, b: &Vec<char>) -> (r: Vec<char>)
    ensures
        r@ == a@ + b@,
{
    let mut all = a.clone();
    assert(all@ =~= a@);
    let mut i: usize = 0;
    while i < b.len()
        invariant
            0 <= i <= b.len(),
            all@ == a@ + b@.take(i as int),
        decreases b.len() - i,
    {
        all.push(b[i]);
        i = i + 1;
        assert(all@ =~= a@ + b@.take(i as int));
    }
    assert(b@.take(b.len() as int) =~= b@);
    all
}

// ---------------------------------------------------------------------------
// Digit runs
// ---------------------------------------------------------------------------

/// Every character is a decimal digit (true of the empty run).
pub open spec fn digit_run(s: Seq<char>) -> bool {
    forall|i: int| 0 <= i < s.len() ==> is_digit(#[trigger] s[i])
}

/// A digit run without a leading zero (the empty run stands for zero).
pub open spec fn canonical(s: Seq<char>) -> bool {
    digit_run(s) && (s.len() > 0 ==> s[0] != '0')
}

/// `n` zeros.
pub open spec fn zeros(n: nat) -> Seq<char> {
    Seq::new(n, |i: int| '0')
}

proof fn lemma_pow10_positive(n: nat)
    ensures
        pow10(n) >= 1,
    decreases n,
{
    if n > 0 {
        lemma_pow10_positive((n - 1) as nat);
    }
}

proof fn lemma_pow10_monotone(a: nat, b: nat)
    requires
        a <= b,
    ensures
        pow10(a) <= pow10(b),
    decreases b,
{
    if a < b {
        lemma_pow10_monotone(a, (b - 1) as nat);
        lemma_pow10_positive((b - 1) as nat);
    }
}

proof fn lemma_push_value(s: Seq<char>, c: char)
    ensures
        digits_value(s.push(c)) == digits_value(s) * 10 + ((c as u32) - 48) as nat,
{
    assert(s.push(c).drop_last() =~= s);
}

proof fn lemma_concat_value(x: Seq<char>, y: Seq<char>)
    ensures
        digits_value(x + y) == digits_value(x) * pow10(y.len()) + digits_value(y),
    decreases y.len(),
{
    if y.len() == 0 {
        assert(x + y =~= x);
    } else {
        let yd = y.drop_last();
        lemma_concat_value(x, yd);
        assert((x + y).drop_last() =~= x + yd);
        assert((x + y).last() == y.last());
        let d = ((y.last() as u32) - 48) as nat;
        let a = digits_value(x);
        let p = pow10(yd.len());
        let b = digits_value(yd);
        assert(pow10(y.len()) == 10 * p);
        assert((a * p + b) * 10 + d == a * (10 * p) + (b * 10 + d)) by (nonlinear_arith);
    }
}

proof fn lemma_run_drop_last(x: Seq<char>)
    requires
        digit_run(x),
        x.len() > 0,
    ensures
        digit_run(x.drop_last()),
        is_digit(x.last()),
{
    assert forall|i: int| 0 <= i < x.drop_last().len() implies is_digit(#[trigger] x.drop_last()[i]) by {
        assert(x.drop_last()[i] == x[i]);
    }
    assert(is_digit(x[x.len() - 1]));
}

proof fn lemma_value_below(x: Seq<char>)
    requires
        digit_run(x),
    ensures
        digits_value(x) < pow10(x.len()),
    decreases x.len(),
{
    if x.len() > 0 {
        let xd = x.drop_last();
        lemma_run_drop_last(x);
        lemma_value_below(xd);
        assert(pow10(x.len()) == 10 * pow10(xd.len()));
    }
}

proof fn lemma_value_at_least(x: Seq<char>)
    requires
        canonical(x),
        x.len() > 0,
    ensures
        digits_value(x) >= pow10((x.len() - 1) as nat),
        digits_value(x) >= 1,
{
    let h = x.take(1);
    let t = x.skip(1);
    assert(x =~= h + t);
    lemma_concat_value(h, t);
    assert(h =~= seq![].push(x[0]));
    lemma_push_value(seq![], x[0]);
    assert(is_digit(x[0]));
    assert(digits_value(h) >= 1);
    lemma_pow10_positive(t.len());
    assert(digits_value(h) * pow10(t.len()) >= pow10(t.len())) by (nonlinear_arith)
        requires
            digits_value(h) >= 1,
            pow10(t.len()) >= 1,
    ;
}

proof fn lemma_zero_run(z: Seq<char>)
    requires
        forall|i: int| 0 <= i < z.len() ==> z[i] == '0',
    ensures
        digits_value(z) == 0,
    decreases z.len(),
{
    if z.len() > 0 {
        let zd = z.drop_last();
        assert forall|i: int| 0 <= i < zd.len() implies zd[i] == '0' by {
            assert(zd[i] == z[i]);
        }
        lemma_zero_run(zd);
        assert(z.last() == '0');
    }
}

proof fn lemma_padded(d: Seq<char>, s: nat)
    requires
        canonical(d),
    ensures
        digits_value(d + zeros(s)) == digits_value(d) * pow10(s),
        digit_run(d + zeros(s)),
        d.len() > 0 ==> canonical(d + zeros(s)),
{
    lemma_concat_value(d, zeros(s));
    lemma_zero_run(zeros(s));
    let p = d + zeros(s);
    assert forall|i: int| 0 <= i < p.len() implies is_digit(#[trigger] p[i]) by {
        if i < d.len() {
            assert(p[i] == d[i]);
        } else {
            assert(p[i] == zeros(s)[i - d.len()]);
        }
    }
}

proof fn lemma_first_difference(x: Seq<char>, y: Seq<char>, k: int)
    requires
        digit_run(x),
        digit_run(y),
        x.len() == y.len(),
        0 <= k < x.len(),
        x.take(k) == y.take(k),
        (x[k] as u32) < (y[k] as u32),
    ensures
        digits_value(x) < digits_value(y),
{
    let xh = x.take(k + 1);
    let xt = x.skip(k + 1);
    let yh = y.take(k + 1);
    let yt = y.skip(k + 1);
    assert(x =~= xh + xt);
    assert(y =~= yh + yt);
    lemma_concat_value(xh, xt);
    lemma_concat_value(yh, yt);
    assert(xh =~= x.take(k).push(x[k]));
    assert(yh =~= y.take(k).push(y[k]));
    lemma_push_value(x.take(k), x[k]);
    lemma_push_value(y.take(k), y[k]);
    assert(is_digit(x[k]) && is_digit(y[k]));
    assert forall|i: int| 0 <= i < xt.len() implies is_digit(#[trigger] xt[i]) by {
        assert(xt[i] == x[k + 1 + i]);
    }
    lemma_value_below(xt);
    assert(xt.len() == yt.len());
    let a = digits_value(xh);
    let b = digits_value(yh);
    let p = pow10(xt.len());
    assert(a + 1 <= b);
    lemma_pow10_positive(xt.len());
    assert(a * p + digits_value(xt) < b * p + digits_value(yt)) by (nonlinear_arith)
        requires
            a + 1 <= b,
            digits_value(xt) < p,
            p >= 1,
            digits_value(yt) >= 0,
    ;
}

/// How `x` stands to `y`: -1, 0 or 1.
pub open spec fn order_of(x: int, y: int) -> int {
    if x < y {
        -1
    } else if x == y {
        0
    } else {
        1
    }
}

/// Compares `v(da) × 10^sa` with `v(db) × 10^sb` for two non-zero runs,
/// digit by digit, without writing the zeros out.
fn magnitude_order(da: &Vec<char>, sa: i128, db: &Vec<char>, sb: i128) -> (r: i8)
    requires
        canonical(da@),
        canonical(db@),
        da.len() > 0,
        db.len() > 0,
        0 <= sa < 2 * exponent_bound(),
        0 <= sb < 2 * exponent_bound(),
    ensures
        r as int == order_of(
            digits_value(da@) * pow10(sa as nat),
            digits_value(db@) * pow10(sb as nat),
        ),
{
    let ghost p = da@ + zeros(sa as nat);
    let ghost q = db@ + zeros(sb as nat);
    proof {
        lemma_padded(da@, sa as nat);
        lemma_padded(db@, sb as nat);
        assert(p[0] == da@[0]);
        assert(q[0] == db@[0]);
    }
    let la: i128 = da.len() as i128 + sa;
    let lb: i128 = db.len() as i128 + sb;
    if la != lb {
        proof {
            lemma_value_below(p);
            lemma_value_at_least(p);
            lemma_value_below(q);
            lemma_value_at_least(q);
            if la < lb {
                lemma_pow10_monotone(la as nat, (lb - 1) as nat);
            } else {
                lemma_pow10_monotone(lb as nat, (la - 1) as nat);
            }
        }
        return if la < lb {
            -1
        } else {
            1
        };
    }
    let m: usize = if da.len() >= db.len() {
        da.len()
    } else {
        db.len()
    };
    let mut i: usize = 0;
    while i < m
        invariant
            0 <= i <= m,
            m == da.len() || m == db.len(),
            da.len() <= m,
            db.len() <= m,
            m <= p.len(),
            p.len() == q.len(),
            p == da@ + zeros(sa as nat),
            q == db@ + zeros(sb as nat),
            digit_run(p),
            digit_run(q),
            digits_value(p) == digits_value(da@) * pow10(sa as nat),
            digits_value(q) == digits_value(db@) * pow10(sb as nat),
            p.take(i as int) == q.take(i as int),
        decreases m - i,
    {
        let ca = if i < da.len() {
            da[i]
        } else {
            '0'
        };
        let cb = if i < db.len() {
            db[i]
        } else {
            '0'
        };
        assert(ca == p[i as int]);
        assert(cb == q[i as int]);
        if ca != cb {
            proof {
                assert(is_digit(p[i as int]) && is_digit(q[i as int]));
                if (ca as u32) < (cb as u32) {
                    lemma_first_difference(p, q, i as int);
                } else {
                    lemma_first_difference(q, p, i as int);
                }
            }
            return if (ca as u32) < (cb as u32) {
                -1
            } else {
                1
            };
        }
        assert(p.take(i + 1) =~= p.take(i as int).push(p[i as int]));
        assert(q.take(i + 1) =~= q.take(i as int).push(q[i as int]));
        i = i + 1;
    }
    assert forall|j: int| 0 <= j < p.len() implies p[j] == q[j] by {
        if j < m {
            assert(p.take(m as int)[j] == p[j]);
            assert(q.take(m as int)[j] == q[j]);
        } else {
            assert(p[j] == zeros(sa as nat)[j - da.len()]);
            assert(q[j] == zeros(sb as nat)[j - db.len()]);
        }
    }
    assert(p =~= q);
    0
}

// ---------------------------------------------------------------------------
// Decimals as read
// ---------------------------------------------------------------------------

/// A decimal as read: its sign, its digits without leading zeros (none
/// for zero) and its power of ten.
#[derive(Clone, Debug)]
pub struct Decimal {
    pub negative: bool,
    pub digits: Vec<char>,
    pub exponent: i128,
}

impl Decimal {
    pub open spec fn wf(&self) -> bool {
        &&& canonical(self.digits@)
        &&& (self.digits.len() == 0 ==> !self.negative)
        &&& -exponent_bound() < self.exponent < exponent_bound()
    }

    /// `(m, e)` with value `m × 10^e`.
    pub open spec fn value(&self) -> (int, int) {
        (
            if self.negative {
                -(digits_value(self.digits@) as int)
            } else {
                digits_value(self.digits@) as int
            },
            self.exponent as int,
        )
    }
}

/// How two read decimals stand: -1, 0 or 1 (see [`aligned`]).
fn decimal_order(a: &Decimal, b: &Decimal) -> (r: i8)
    requires
        a.wf(),
        b.wf(),
    ensures
        r as int == order_of(aligned(a.value(), b.value()).0, aligned(a.value(), b.value()).1),
{
    let e = if a.exponent <= b.exponent {
        a.exponent
    } else {
        b.exponent
    };
    let sa = a.exponent - e;
    let sb = b.exponent - e;
    let ghost va = digits_value(a.digits@) as int;
    let ghost vb = digits_value(b.digits@) as int;
    let ghost pa = pow10(sa as nat);
    let ghost pb = pow10(sb as nat);
    proof {
        lemma_pow10_positive(sa as nat);
        lemma_pow10_positive(sb as nat);
        assert((-va) * pa == -(va * pa)) by (nonlinear_arith);
        assert((-vb) * pb == -(vb * pb)) by (nonlinear_arith);
        if a.digits.len() > 0 {
            lemma_value_at_least(a.digits@);
            assert(va * pa >= 1) by (nonlinear_arith)
                requires
                    va >= 1,
                    pa >= 1,
            ;
        } else {
            assert(va * pa == 0);
        }
        if b.digits.len() > 0 {
            lemma_value_at_least(b.digits@);
            assert(vb * pb >= 1) by (nonlinear_arith)
                requires
                    vb >= 1,
                    pb >= 1,
            ;
        } else {
            assert(vb * pb == 0);
        }
    }
    if a.digits.len() == 0 && b.digits.len() == 0 {
        return 0;
    }
    if a.digits.len() == 0 {
        return if b.negative {
            1
        } else {
            -1
        };
    }
    if b.digits.len() == 0 {
        return if a.negative {
            -1
        } else {
            1
        };
    }
    if a.negative != b.negative {
        return if a.negative {
            -1
        } else {
            1
        };
    }
    let c = magnitude_order(&a.digits, sa, &b.digits, sb);
    if a.negative {
        -c
    } else {
        c
    }
}

/// `a op b` for two read decimals (see [`decimal_relation`]).
fn decide(op: CompareOp, a: &Decimal, b: &Decimal) -> (r: bool)
    requires
        a.wf(),
        b.wf(),
    ensures
        r == decimal_relation(op, Some(a.value()), Some(b.value())),
{
    let c = decimal_order(a, b);
    match op {
        CompareOp::Equal => c == 0,
        CompareOp::NotEqual => c != 0,
        CompareOp::Greater => c == 1,
        CompareOp::GreaterEqual => c >= 0,
        CompareOp::Less => c == -1,
        CompareOp::LessEqual => c <= 0,
    }
}

/// The digit run `s` without its leading zeros.
fn without_leading_zeros(s: &Vec<char>) -> (r: Vec<char>)
    requires
        digit_run(s@),
    ensures
        canonical(r@),
        digits_value(r@) == digits_value(s@),
{
    let mut k: usize = 0;
    while k < s.len() && s[k] == '0'
        invariant
            0 <= k <= s.len(),
            forall|j: int| 0 <= j < k ==> s@[j] == '0',
        decreases s.len() - k,
    {
        k = k + 1;
    }
    let r = slice_chars(s, k, s.len());
    proof {
        assert(s@ =~= s@.take(k as int) + r@);
        lemma_concat_value(s@.take(k as int), r@);
        lemma_zero_run(s@.take(k as int));
        assert forall|i: int| 0 <= i < r@.len() implies is_digit(#[trigger] r@[i]) by {
            assert(r@[i] == s@[k + i]);
        }
    }
    r
}

/// Reads a decimal (see [`decimal_of`]); `None` for other texts.
pub fn parse_decimal(t: &str) -> (r: Option<Decimal>)
    ensures
        match decimal_of(t@) {
            Some(x) => r matches Some(d) && d.wf() && d.value() == x,
            None => r is None,
        },
{
    let cs = chars_of(t);
    let neg = cs.len() > 0 && cs[0] == '-';
    let b = if neg {
        slice_chars(&cs, 1, cs.len())
    } else {
        slice_chars(&cs, 0, cs.len())
    };
    assert(b@ =~= unsigned_text(t@));
    let (mant, et) = split_exponent(&b);
    let ex: i128 = match et {
        Some(tail) => match exponent(&tail) {
            Some(x) => x,
            None => return None,
        },
        None => 0,
    };
    let (ip, point, fp) = split_point(&mant);
    if point && fp.len() == 0 {
        return None;
    }
    if ip.len() == 0 {
        return None;
    }
    let all = concat_chars(&ip, &fp);
    proof {
        if point {
            lemma_digits_concat(ip@, fp@);
        } else {
            assert(ip@ + fp@ =~= ip@);
        }
    }
    if !digits_only(&all) {
        return None;
    }
    let digits = without_leading_zeros(&all);
    let negative = neg && digits.len() > 0;
    Some(Decimal { negative, digits, exponent: ex - fp.len() as i128 })
}

/// Whether every character of `s` is a digit.
fn digits_only(s: &Vec<char>) -> (r: bool)
    ensures
        r == digit_run(s@),
{
    let mut i: usize = 0;
    while i < s.len()
        invariant
            0 <= i <= s.len(),
            forall|j: int| 0 <= j < i ==> is_digit(#[trigger] s@[j]),
        decreases s.len() - i,
    {
        if !('0' <= s[i] && s[i] <= '9') {
            return false;
        }
        i = i + 1;
    }
    true
}

pub(crate) proof fn lemma_nat_text(n: nat)
    ensures
        digit_run(nat_text(n)),
        digits_value(nat_text(n)) == n,
    decreases n,
{
    let d = n % 10;
    let c = digit_char(d as int);
    assert((c as u32) == 48 + d);
    if n < 10 {
        assert(nat_text(n) =~= seq![].push(c));
        lemma_push_value(seq![], c);
    } else {
        lemma_nat_text(n / 10);
        lemma_push_value(nat_text(n / 10), c);
        let s = nat_text(n);
        assert forall|i: int| 0 <= i < s.len() implies is_digit(#[trigger] s[i]) by {
            if i < s.len() - 1 {
                assert(s[i] == nat_text(n / 10)[i]);
            }
        }
    }
}

fn push_digits(n: u128, out: &mut Vec<char>)
    ensures
        final(out)@ == old(out)@ + nat_text(n as nat),
    decreases n,
{
    if n >= 10 {
        push_digits(n / 10, out);
    }
    let d = (n % 10) as u8;
    out.push(digit(d));
    proof {
        if n >= 10 {
            assert(final(out)@ =~= old(out)@ + nat_text(n as nat));
        } else {
            assert(final(out)@ =~= old(out)@ + nat_text(n as nat));
        }
    }
}

/// `m × 10^e` as a read decimal.
fn scaled_decimal(m: i128, e: i128) -> (r: Decimal)
    requires
        -exponent_bound() < e < exponent_bound(),
    ensures
        r.wf(),
        r.value() == (m as int, e as int),
{
    let mag: u128 = if m < 0 {
        ((-(m + 1)) as u128) + 1
    } else {
        m as u128
    };
    let mut text: Vec<char> = Vec::new();
    push_digits(mag, &mut text);
    proof {
        assert(text@ =~= nat_text(mag as nat));
        lemma_nat_text(mag as nat);
    }
    let digits = without_leading_zeros(&text);
    Decimal { negative: m < 0, digits, exponent: e }
}

/// The decimal a JSON number holds, as read.
fn read_number(n: &JsonNumber) -> (r: Option<Decimal>)
    ensures
        match number_decimal(*n) {
            Some(x) => r matches Some(d) && d.wf() && d.value() == x,
            None => r is None,
        },
{
    match n {
        JsonNumber::Int(i) => Some(scaled_decimal(*i, 0)),
        JsonNumber::Float(t) => parse_decimal(t.as_str()),
    }
}

/// `n op k` for a JSON number and an integer literal, compared exactly;
/// this is the filter's `f64` comparison where [`f64_agrees`] holds.
pub(crate) fn number_vs_integer(op: CompareOp, n: &JsonNumber, k: i64) -> (r: bool)
    ensures
        r == decimal_relation(op, number_decimal(*n), Some((k as int, 0))),
{
    let b = scaled_decimal(k as i128, 0);
    match read_number(n) {
        Some(a) => decide(op, &a, &b),
        None => false,
    }
}

/// `n op t` for a JSON number and a decimal literal, compared exactly;
/// this is the filter's `f64` comparison where [`f64_agrees`] holds.
pub(crate) fn number_vs_decimal(op: CompareOp, n: &JsonNumber, t: &str) -> (r: bool)
    ensures
        r == decimal_relation(op, number_decimal(*n), decimal_of(t@)),
{
    match (read_number(n), parse_decimal(t)) {
        (Some(a), Some(b)) => decide(op, &a, &b),
        _ => false,
    }
}

/// `a op b` for two JSON numbers, compared exactly; this is the `f64`
/// comparison where [`f64_agrees`] holds.
pub(crate) fn number_vs_number(op: CompareOp, a: &JsonNumber, b: &JsonNumber) -> (r: bool)
    ensures
        r == decimal_relation(op, number_decimal(*a), number_decimal(*b)),
{
    match (read_number(a), read_number(b)) {
        (Some(x), Some(y)) => decide(op, &x, &y),
        _ => false,
    }
}

/// `n op (m × 10^e)` for a JSON number and a given decimal, compared
/// exactly; this is the `f64` comparison where [`f64_agrees`] holds.
pub(crate) fn number_vs_scaled(op: CompareOp, n: &JsonNumber, m: i128, e: i128) -> (r: bool)
    requires
        -exponent_bound() < e < exponent_bound(),
    ensures
        r == decimal_relation(op, number_decimal(*n), Some((m as int, e as int))),
{
    let b = scaled_decimal(m, e);
    match read_number(n) {
        Some(a) => decide(op, &a, &b),
        None => false,
    }
}

} // verus!
