//! Reading a number of seconds written in decimal, such as `123`, `4.25` or `1.5e2`.
use vstd::prelude::*;

use crate::duration::Duration;
use crate::text::{decimal, digit_char, find_char, signed_decimal};

verus! {

/// Whether every character of `s` is an ASCII digit.
pub open spec fn all_digits(s: Seq<char>) -> bool {
    forall|k: int| 0 <= k < s.len() ==> '0' <= #[trigger] s[k] && s[k] <= '9'
}

/// Whether every character of `s` is the digit zero.
pub open spec fn all_zeros(s: Seq<char>) -> bool {
    forall|k: int| 0 <= k < s.len() ==> #[trigger] s[k] == '0'
}

/// The value of a string of decimal digits.
pub open spec fn decimal_value(s: Seq<char>) -> int
    decreases s.len(),
{
    if s.len() == 0 {
        0
    } else {
        decimal_value(s.drop_last()) * 10 + ((s.last() as int) - 48)
    }
}

/// Ten to the power `n`.
pub open spec fn pow10(n: nat) -> int
    decreases n,
{
    if n == 0 {
        1
    } else {
        10 * pow10((n - 1) as nat)
    }
}

/// `n` zero digits.
pub open spec fn zeros(n: nat) -> Seq<char> {
    Seq::new(n, |i: int| '0')
}

/// The first nine digits of a fraction, padded with zeros: the fraction in
/// nanoseconds, with any further digits cut off.
pub open spec fn nine_digits(frac: Seq<char>) -> Seq<char> {
    if frac.len() >= 9 {
        frac.take(9)
    } else {
        frac + zeros((9 - frac.len()) as nat)
    }
}

/// The part of a numeral after an optional sign.
pub open spec fn unsigned_part(s: Seq<char>) -> Seq<char> {
    if s.len() > 0 && (s[0] == '+' || s[0] == '-') {
        s.drop_first()
    } else {
        s
    }
}

/// The digits before the decimal point.
pub open spec fn int_digits(body: Seq<char>) -> Seq<char> {
    match find_char(body, '.') {
        Some(i) => body.take(i),
        None => body,
    }
}

/// The digits after the decimal point (none when there is no point).
pub open spec fn frac_digits(body: Seq<char>) -> Seq<char> {
    match find_char(body, '.') {
        Some(i) => body.skip(i + 1),
        None => seq![],
    }
}

/// Whether a character marks the exponent of a numeral.
pub open spec fn is_exp_mark(c: char) -> bool {
    c == 'e' || c == 'E'
}

/// The index of the first exponent mark of `s`, if it has one.
pub open spec fn first_exp_mark(s: Seq<char>) -> Option<int>
    decreases s.len(),
{
    if s.len() == 0 {
        None
    } else if is_exp_mark(s[0]) {
        Some(0)
    } else {
        match first_exp_mark(s.drop_first()) {
            Some(i) => Some(i + 1),
            None => None,
        }
    }
}

/// What comes before the exponent mark of a numeral body (all of it when
/// there is no mark).
pub open spec fn mantissa(body: Seq<char>) -> Seq<char> {
    match first_exp_mark(body) {
        Some(i) => body.take(i),
        None => body,
    }
}

/// The power of ten written after an exponent mark: an optional sign
/// followed by at least one digit.
pub open spec fn exponent_value(t: Seq<char>) -> Option<int> {
    let digits = unsigned_part(t);
    if digits.len() == 0 || !all_digits(digits) {
        None
    } else if t[0] == '-' {
        Some(-decimal_value(digits))
    } else {
        Some(decimal_value(digits))
    }
}

/// The power of ten of a numeral body: zero without an exponent mark.
pub open spec fn exponent_of(body: Seq<char>) -> Option<int> {
    match first_exp_mark(body) {
        None => Some(0),
        Some(i) => exponent_value(body.skip(i + 1)),
    }
}

/// The whole-number digits of the digit string `d` when its decimal point
/// stands after `p` digits (padded with zeros past its end).
pub open spec fn whole_at(d: Seq<char>, p: int) -> Seq<char> {
    if p <= 0 {
        seq![]
    } else if p <= d.len() {
        d.take(p)
    } else {
        d + zeros((p - d.len()) as nat)
    }
}

/// The fraction digits of `d` when its decimal point stands after `p` digits
/// (led by zeros when the point lies before its start).
pub open spec fn fraction_at(d: Seq<char>, p: int) -> Seq<char> {
    if p <= 0 {
        zeros((-p) as nat) + d
    } else if p <= d.len() {
        d.skip(p)
    } else {
        seq![]
    }
}

/// Whether the fraction digits `f` round the nanoseconds up: the first digit
/// past the ninth is five or more.
pub open spec fn rounds_up(f: Seq<char>) -> bool {
    f.len() > 9 && '5' <= f[9]
}

/// Whole seconds and nanoseconds from whole seconds `w`, the first nine
/// fraction digits' value `n`, and whether to round up a nanosecond.
pub open spec fn rounded(w: int, n: int, up: bool) -> (int, int) {
    if up && n == 999_999_999 {
        (w + 1, 0)
    } else if up {
        (w, n + 1)
    } else {
        (w, n)
    }
}

/// The duration that the digits `d` give with the point after `p` of them,
/// negative when `neg`, rounded to the nearest nanosecond (a half rounds
/// up): a negative value gives none (negative zero is zero), and so does a
/// value of more seconds than a duration holds.
pub open spec fn seconds_from(neg: bool, d: Seq<char>, p: int) -> Option<(u64, u32)> {
    let f = fraction_at(d, p);
    let r = rounded(
        decimal_value(whole_at(d, p)),
        decimal_value(nine_digits(f)),
        rounds_up(f),
    );
    if neg && !all_zeros(d) {
        None
    } else if r.0 > u64::MAX {
        None
    } else {
        Some((r.0 as u64, r.1 as u32))
    }
}

/// The duration, as whole seconds and nanoseconds, that a decimal numeral
/// gives: an optional sign, digits with an optional point (at least one
/// digit in all), and an optional exponent, `e` or `E` with an optional sign
/// and digits, that moves the point (see `seconds_from`).
pub open spec fn parse_seconds(s: Seq<char>) -> Option<(u64, u32)> {
    let body = unsigned_part(s);
    let m = mantissa(body);
    let ip = int_digits(m);
    let fp = frac_digits(m);
    if ip.len() + fp.len() == 0 || !all_digits(ip) || !all_digits(fp) || exponent_of(body) is None {
        None
    } else {
        seconds_from(
            s.len() > 0 && s[0] == '-',
            ip + fp,
            ip.len() + exponent_of(body).unwrap(),
        )
    }
}

/// The value of a digit string is at least zero and below ten to its length.
pub proof fn lemma_decimal_value_bounds(s: Seq<char>)
    requires
        all_digits(s),
    ensures
        0 <= decimal_value(s) < pow10(s.len()),
    decreases s.len(),
{
    if s.len() > 0 {
        let t = s.drop_last();
        assert(all_digits(t)) by {
            assert forall|k: int| 0 <= k < t.len() implies '0' <= #[trigger] t[k] && t[k] <= '9' by {
                assert(t[k] == s[k]);
            }
        }
        lemma_decimal_value_bounds(t);
        assert(s[s.len() - 1] == s.last());
    }
}

/// A prefix of a digit string has no larger a value.
pub proof fn lemma_decimal_value_prefix(s: Seq<char>, k: int)
    requires
        all_digits(s),
        0 <= k <= s.len(),
    ensures
        decimal_value(s.take(k)) <= decimal_value(s),
    decreases s.len() - k,
{
    if k < s.len() {
        let t = s.take(k + 1);
        assert(t.drop_last() == s.take(k));
        assert(t.last() == s[k]);
        lemma_decimal_value_bounds(s.take(k));
        lemma_decimal_value_prefix(s, k + 1);
    } else {
        assert(s.take(k) == s);
    }
}

/// The decimal numeral of `n` is a non-empty string of digits whose value
/// is `n`.
pub proof fn lemma_decimal_numeral(n: nat)
    ensures
        decimal(n).len() >= 1,
        all_digits(decimal(n)),
        decimal_value(decimal(n)) == n,
    decreases n,
{
    assert(digit_char(n % 10) as int == n % 10 + 48);
    if n < 10 {
        let s = decimal(n);
        assert(s =~= seq![digit_char(n)]);
        assert(s.drop_last() =~= Seq::<char>::empty());
        assert(s.last() == digit_char(n));
        assert(decimal_value(s.drop_last()) == 0);
        assert(decimal_value(s) == n);
    } else {
        lemma_decimal_numeral(n / 10);
        let s = decimal(n);
        let p = decimal(n / 10);
        assert(s == p.push(digit_char(n % 10)));
        assert(s.drop_last() =~= p);
        assert(s.last() == digit_char(n % 10));
        assert(decimal_value(s) == decimal_value(p) * 10 + (n % 10));
        assert(n == (n / 10) * 10 + n % 10);
        assert(decimal_value(s) == n);
        assert forall|k: int| 0 <= k < s.len() implies '0' <= #[trigger] s[k] && s[k] <= '9' by {
            if k < p.len() {
                assert(s[k] == p[k]);
            }
        }
    }
}

/// Zero digits have the value zero.
pub proof fn lemma_zeros_value(k: nat)
    ensures
        decimal_value(zeros(k)) == 0,
    decreases k,
{
    if k > 0 {
        assert(zeros(k).drop_last() =~= zeros((k - 1) as nat));
        lemma_zeros_value((k - 1) as nat);
    }
}

/// Where the first exponent mark of `t` is, from the first index that holds
/// one.
pub proof fn lemma_exp_mark_at(t: Seq<char>, i: int)
    requires
        0 <= i <= t.len(),
        forall|k: int| 0 <= k < i ==> !is_exp_mark(#[trigger] t[k]),
        i < t.len() ==> is_exp_mark(t[i]),
    ensures
        first_exp_mark(t) == if i < t.len() {
            Some(i)
        } else {
            None::<int>
        },
    decreases t.len(),
{
    if t.len() > 0 && i > 0 {
        let u = t.drop_first();
        assert(!is_exp_mark(t[0]));
        assert forall|k: int| 0 <= k < i - 1 implies !is_exp_mark(#[trigger] u[k]) by {
            assert(u[k] == t[k + 1]);
        }
        if i < t.len() {
            assert(u[i - 1] == t[i]);
        }
        lemma_exp_mark_at(u, i - 1);
    }
}

/// Digits followed by `k` zeros have ten to the `k` times their value.
pub proof fn lemma_value_with_zeros(s: Seq<char>, k: nat)
    ensures
        decimal_value(s + zeros(k)) == decimal_value(s) * pow10(k),
    decreases k,
{
    if k == 0 {
        assert(s + zeros(0) =~= s);
    } else {
        lemma_value_with_zeros(s, (k - 1) as nat);
        let a = s + zeros((k - 1) as nat);
        assert((s + zeros(k)).drop_last() =~= a);
        assert((s + zeros(k)).last() == '0');
        let v = decimal_value(s);
        let q = pow10((k - 1) as nat);
        assert(v * q * 10 == v * (10 * q)) by (nonlinear_arith);
    }
}

/// A digit string of zeros has the value zero; one with another digit has a
/// value of at least one.
pub proof fn lemma_value_zero_iff(s: Seq<char>)
    requires
        all_digits(s),
    ensures
        all_zeros(s) ==> decimal_value(s) == 0,
        !all_zeros(s) ==> decimal_value(s) >= 1,
    decreases s.len(),
{
    if s.len() > 0 {
        let t = s.drop_last();
        assert(all_digits(t)) by {
            assert forall|k: int| 0 <= k < t.len() implies '0' <= #[trigger] t[k] && t[k] <= '9' by {
                assert(t[k] == s[k]);
            }
        }
        lemma_value_zero_iff(t);
        assert(s.last() == s[s.len() - 1]);
        if all_zeros(s) {
            assert(all_zeros(t)) by {
                assert forall|k: int| 0 <= k < t.len() implies #[trigger] t[k] == '0' by {
                    assert(t[k] == s[k]);
                }
            }
        } else if s.last() == '0' {
            let k = choose|k: int| 0 <= k < s.len() && #[trigger] s[k] != '0';
            assert(k < s.len() - 1);
            assert(t[k] == s[k]);
            assert(!all_zeros(t));
        }
    }
}

/// Ten to a power of twenty or more exceeds every `u64`.
pub proof fn lemma_pow10_large(k: nat)
    requires
        k >= 20,
    ensures
        pow10(k) > u64::MAX,
    decreases k,
{
    if k == 20 {
        reveal_with_fuel(pow10, 21);
    } else {
        lemma_pow10_large((k - 1) as nat);
    }
}

/// With the point twenty or more places past the digits, the seconds
/// overflow unless every digit is zero, which gives zero.
pub proof fn lemma_point_far_right(d: Seq<char>, p: int)
    requires
        all_digits(d),
        p >= d.len() + 20,
    ensures
        all_zeros(d) ==> decimal_value(whole_at(d, p)) == 0 && decimal_value(
            nine_digits(fraction_at(d, p)),
        ) == 0,
        !all_zeros(d) ==> decimal_value(whole_at(d, p)) > u64::MAX,
        fraction_at(d, p).len() == 0,
{
    let k = (p - d.len()) as nat;
    assert(whole_at(d, p) == d + zeros(k));
    lemma_value_with_zeros(d, k);
    lemma_value_zero_iff(d);
    lemma_pow10_large(k);
    let v = decimal_value(d);
    let q = pow10(k);
    if all_zeros(d) {
        assert(v * q == 0) by (nonlinear_arith)
            requires
                v == 0,
        ;
    } else {
        assert(v * q >= q) by (nonlinear_arith)
            requires
                v >= 1,
                q >= 0,
        ;
    }
    assert(nine_digits(fraction_at(d, p)) =~= zeros(9));
    lemma_zeros_value(9);
}

/// With the point ten or more places before the digits, the value is less
/// than half a nanosecond and gives zero.
pub proof fn lemma_point_far_left(d: Seq<char>, p: int)
    requires
        p <= -10,
    ensures
        decimal_value(whole_at(d, p)) == 0,
        decimal_value(nine_digits(fraction_at(d, p))) == 0,
        !rounds_up(fraction_at(d, p)),
{
    assert(nine_digits(fraction_at(d, p)) =~= zeros(9));
    assert(fraction_at(d, p)[9] == '0');
    lemma_zeros_value(9);
}

/// Reading back the whole seconds that were written as a signed numeral:
/// a non-negative count gives itself, and -1 gives no duration.
pub proof fn lemma_parse_written_seconds(n: int)
    requires
        n == -1 || 0 <= n <= u64::MAX,
    ensures
        n == -1 ==> parse_seconds(signed_decimal(n)) is None,
        n >= 0 ==> parse_seconds(signed_decimal(n)) == Some((n as u64, 0u32)),
{
    if n >= 0 {
        let s = decimal(n as nat);
        lemma_decimal_numeral(n as nat);
        assert(unsigned_part(s) == s);
        lemma_exp_mark_at(s, s.len() as int);
        assert(mantissa(s) == s);
        lemma_find_char_at(s, '.', s.len() as int);
        assert(int_digits(s) == s);
        assert(frac_digits(s) =~= Seq::<char>::empty());
        assert(s + frac_digits(s) =~= s);
        assert(!(s.len() > 0 && s[0] == '-'));
        assert(whole_at(s, s.len() as int) =~= s);
        assert(fraction_at(s, s.len() as int) =~= Seq::<char>::empty());
        assert(nine_digits(seq![]) =~= zeros(9));
        lemma_zeros_value(9);
    } else {
        let s = signed_decimal(n);
        lemma_decimal_numeral(1);
        assert(decimal(1) =~= seq!['1']);
        assert(s =~= seq!['-', '1']);
        let body = unsigned_part(s);
        assert(body =~= seq!['1']);
        lemma_exp_mark_at(body, 1);
        assert(mantissa(body) == body);
        lemma_find_char_at(body, '.', 1);
        assert(int_digits(body) == body);
        assert(int_digits(body) + frac_digits(body) =~= body);
        assert(!all_zeros(body));
    }
}

/// The first index at or after `from` that holds `c`, or the length of `v`.
pub fn index_of_char(v: &[char], c: char, from: usize) -> (r: usize)
    requires
        from <= v@.len(),
    ensures
        from <= r <= v@.len(),
        forall|k: int| from <= k < r ==> v@[k] != c,
        r < v@.len() ==> v@[r as int] == c,
{
    let mut j = from;
    while j < v.len() && v[j] != c
        invariant
            from <= j <= v@.len(),
            forall|k: int| from <= k < j ==> v@[k] != c,
        decreases v.len() - j,
    {
        j = j + 1;
    }
    j
}

/// Where the first `c` of `t` is, from the first index that holds it.
pub proof fn lemma_find_char_at(t: Seq<char>, c: char, i: int)
    requires
        0 <= i <= t.len(),
        forall|k: int| 0 <= k < i ==> t[k] != c,
        i < t.len() ==> t[i] == c,
    ensures
        find_char(t, c) == if i < t.len() {
            Some(i)
        } else {
            None::<int>
        },
{
    lemma_find_from_char(t, c, i, 0);
}

/// Searching for one character finds its first occurrence at or after the start.
proof fn lemma_find_from_char(t: Seq<char>, c: char, i: int, m: int)
    requires
        0 <= m <= i <= t.len(),
        forall|k: int| 0 <= k < i ==> t[k] != c,
        i < t.len() ==> t[i] == c,
    ensures
        crate::text::find_from(t, seq![c], m) == if i < t.len() {
            Some(i)
        } else {
            None::<int>
        },
    decreases t.len() - m,
{
    if m + 1 > t.len() {
    } else if m < i {
        assert(t.subrange(m, m + 1)[0] == t[m]);
        assert(!crate::text::occurs_at(t, seq![c], m));
        lemma_find_from_char(t, c, i, m + 1);
    } else {
        assert(t.subrange(m, m + 1) =~= seq![c]);
    }
}

/// The characters `v[lo..hi]`.
pub fn slice_chars(v: &[char], lo: usize, hi: usize) -> (r: Vec<char>)
    requires
        lo <= hi <= v@.len(),
    ensures
        r@ == v@.subrange(lo as int, hi as int),
{
    let mut r: Vec<char> = Vec::new();
    let mut i = lo;
    while i < hi
        invariant
            lo <= i <= hi <= v@.len(),
            r@ == v@.subrange(lo as int, i as int),
        decreases hi - i,
    {
        r.push(v[i]);
        i = i + 1;
        assert(v@.subrange(lo as int, i as int) == v@.subrange(lo as int, (i - 1) as int).push(
            v@[i - 1],
        ));
    }
    r
}

/// Whether `v[lo..hi]` holds only digits, and whether only zeros.
fn digit_kinds(v: &[char], lo: usize, hi: usize) -> (r: (bool, bool))
    requires
        lo <= hi <= v@.len(),
    ensures
        r.0 == all_digits(v@.subrange(lo as int, hi as int)),
        r.1 == all_zeros(v@.subrange(lo as int, hi as int)),
{
    let ghost s = v@.subrange(lo as int, hi as int);
    let mut digits = true;
    let mut zero = true;
    let mut i = lo;
    while i < hi
        invariant
            lo <= i <= hi <= v@.len(),
            s == v@.subrange(lo as int, hi as int),
            digits == all_digits(s.take(i - lo)),
            zero == all_zeros(s.take(i - lo)),
        decreases hi - i,
    {
        let c = v[i];
        assert(s[i - lo] == c);
        if !('0' <= c && c <= '9') {
            digits = false;
        }
        if c != '0' {
            zero = false;
        }
        i = i + 1;
        assert(digits == all_digits(s.take(i - lo))) by {
            if digits {
                assert forall|k: int| 0 <= k < i - lo implies '0' <= #[trigger] s.take(i - lo)[k]
                    && s.take(i - lo)[k] <= '9' by {
                    if k < i - lo - 1 {
                        assert(s.take(i - lo)[k] == s.take(i - lo - 1)[k]);
                    }
                }
            } else {
                if !('0' <= c && c <= '9') {
                    assert(s.take(i - lo)[i - lo - 1] == c);
                } else {
                    assert(!all_digits(s.take(i - lo - 1)));
                    let w = choose|k: int|
                        0 <= k < i - lo - 1 && !('0' <= #[trigger] s.take(i - lo - 1)[k] && s.take(
                            i - lo - 1,
                        )[k] <= '9');
                    assert(s.take(i - lo)[w] == s.take(i - lo - 1)[w]);
                }
            }
        }
        assert(zero == all_zeros(s.take(i - lo))) by {
            if zero {
                assert forall|k: int| 0 <= k < i - lo implies #[trigger] s.take(i - lo)[k]
                    == '0' by {
                    if k < i - lo - 1 {
                        assert(s.take(i - lo)[k] == s.take(i - lo - 1)[k]);
                    }
                }
            } else {
                if c != '0' {
                    assert(s.take(i - lo)[i - lo - 1] == c);
                } else {
                    assert(!all_zeros(s.take(i - lo - 1)));
                    let w = choose|k: int|
                        0 <= k < i - lo - 1 && #[trigger] s.take(i - lo - 1)[k] != '0';
                    assert(s.take(i - lo)[w] == s.take(i - lo - 1)[w]);
                }
            }
        }
    }
    assert(s.take(hi - lo) == s);
    (digits, zero)
}

/// The value of the digits `v[lo..hi]`, or `None` when it exceeds `u64`.
fn digits_u64(v: &[char], lo: usize, hi: usize) -> (r: Option<u64>)
    requires
        lo <= hi <= v@.len(),
        all_digits(v@.subrange(lo as int, hi as int)),
    ensures
        match r {
            Some(x) => x == decimal_value(v@.subrange(lo as int, hi as int)),
            None => decimal_value(v@.subrange(lo as int, hi as int)) > u64::MAX,
        },
{
    let ghost s = v@.subrange(lo as int, hi as int);
    let mut acc: u64 = 0;
    let mut i = lo;
    assert(s.take(0) =~= Seq::<char>::empty());
    while i < hi
        invariant
            lo <= i <= hi <= v@.len(),
            s == v@.subrange(lo as int, hi as int),
            all_digits(s),
            acc == decimal_value(s.take(i - lo)),
        decreases hi - i,
    {
        let ghost t = s.take(i - lo + 1);
        assert(t.drop_last() == s.take(i - lo));
        assert(t.last() == v@[i as int]);
        assert(s[i - lo] == v@[i as int]);
        let d = (v[i] as u64) - 48;
        match acc.checked_mul(10) {
            Some(m) => match m.checked_add(d) {
                Some(n) => {
                    acc = n;
                },
                None => {
                    proof {
                        lemma_decimal_value_prefix(s, i - lo + 1);
                    }
                    return None;
                },
            },
            None => {
                proof {
                    lemma_decimal_value_prefix(s, i - lo + 1);
                }
                return None;
            },
        }
        i = i + 1;
    }
    assert(s.take(hi - lo) == s);
    Some(acc)
}

/// The nanoseconds of the fraction digits `v[lo..hi]`.
fn fraction_nanos(v: &[char], lo: usize, hi: usize) -> (r: u32)
    requires
        lo <= hi <= v@.len(),
        all_digits(v@.subrange(lo as int, hi as int)),
    ensures
        r == decimal_value(nine_digits(v@.subrange(lo as int, hi as int))),
        r < 1_000_000_000,
{
    let ghost s = v@.subrange(lo as int, hi as int);
    let end = if hi - lo >= 9 {
        lo + 9
    } else {
        hi
    };
    let ghost p = s.take(end - lo);
    let mut acc: u32 = 0;
    let mut i = lo;
    assert(s.take(0) =~= Seq::<char>::empty());
    while i < end
        invariant
            lo <= i <= end <= hi <= v@.len(),
            end - lo <= 9,
            s == v@.subrange(lo as int, hi as int),
            all_digits(s),
            acc == decimal_value(s.take(i - lo)),
            acc < pow10((i - lo) as nat),
        decreases end - i,
    {
        let ghost t = s.take(i - lo + 1);
        assert(t.drop_last() == s.take(i - lo));
        assert(t.last() == v@[i as int]);
        assert(s[i - lo] == v@[i as int]);
        assert(pow10((i - lo) as nat) <= 100_000_000) by {
            reveal_with_fuel(pow10, 10);
        }
        let d = (v[i] as u32) - 48;
        acc = acc * 10 + d;
        i = i + 1;
    }
    assert(s.take(end - lo) == p);
    let mut k: usize = end - lo;
    assert(p + zeros(0) =~= p);
    while k < 9
        invariant
            end - lo <= k <= 9,
            p == s.take(end - lo),
            acc == decimal_value(p + zeros((k - (end - lo)) as nat)),
            acc < pow10(k as nat),
        decreases 9 - k,
    {
        let ghost m = (k - (end - lo)) as nat;
        assert((p + zeros(m + 1)).drop_last() =~= p + zeros(m));
        assert((p + zeros(m + 1)).last() == '0');
        assert(pow10(k as nat) <= 100_000_000) by {
            reveal_with_fuel(pow10, 10);
        }
        acc = acc * 10;
        k = k + 1;
    }
    assert(pow10(9) == 1_000_000_000) by {
        reveal_with_fuel(pow10, 10);
    }
    proof {
        if s.len() >= 9 {
            assert(p + zeros(0) =~= s.take(9));
        } else {
            assert(p =~= s);
        }
    }
    acc
}

/// The first index at or after `from` that holds an exponent mark, or the
/// length of `v`.
fn index_of_exp_mark(v: &[char], from: usize) -> (r: usize)
    requires
        from <= v@.len(),
    ensures
        from <= r <= v@.len(),
        forall|k: int| from <= k < r ==> !is_exp_mark(#[trigger] v@[k]),
        r < v@.len() ==> is_exp_mark(v@[r as int]),
{
    let mut j = from;
    while j < v.len() && v[j] != 'e' && v[j] != 'E'
        invariant
            from <= j <= v@.len(),
            forall|k: int| from <= k < j ==> !is_exp_mark(#[trigger] v@[k]),
        decreases v.len() - j,
    {
        j = j + 1;
    }
    j
}

/// Exponents are read up to this size (two to the hundredth); every larger
/// one moves the point past any digit string.
const EXP_CAP: u128 = 0x10_0000_0000_0000_0000_0000_0000;

/// The value of the digits `v[lo..hi]`, or `EXP_CAP` when it is that large.
fn digits_capped(v: &[char], lo: usize, hi: usize) -> (r: u128)
    requires
        lo <= hi <= v@.len(),
        all_digits(v@.subrange(lo as int, hi as int)),
    ensures
        r == if decimal_value(v@.subrange(lo as int, hi as int)) < EXP_CAP {
            decimal_value(v@.subrange(lo as int, hi as int))
        } else {
            EXP_CAP as int
        },
{
    let ghost s = v@.subrange(lo as int, hi as int);
    let mut acc: u128 = 0;
    let mut i = lo;
    assert(s.take(0) =~= Seq::<char>::empty());
    while i < hi
        invariant
            lo <= i <= hi <= v@.len(),
            s == v@.subrange(lo as int, hi as int),
            all_digits(s),
            acc == if decimal_value(s.take(i - lo)) < EXP_CAP {
                decimal_value(s.take(i - lo))
            } else {
                EXP_CAP as int
            },
        decreases hi - i,
    {
        let ghost t = s.take(i - lo + 1);
        assert(t.drop_last() == s.take(i - lo));
        assert(t.last() == v@[i as int]);
        assert(s[i - lo] == v@[i as int]);
        let d = (v[i] as u128) - 48;
        let next = acc * 10 + d;
        acc = if next < EXP_CAP {
            next
        } else {
            EXP_CAP
        };
        proof {
            lemma_decimal_value_bounds(s.take(i - lo));
        }
        i = i + 1;
    }
    assert(s.take(hi - lo) == s);
    acc
}

/// Appends `v[lo..hi]`.
fn push_range(out: &mut Vec<char>, v: &[char], lo: usize, hi: usize)
    requires
        lo <= hi <= v@.len(),
    ensures
        final(out)@ == old(out)@ + v@.subrange(lo as int, hi as int),
{
    let ghost start = out@;
    let mut i = lo;
    while i < hi
        invariant
            lo <= i <= hi <= v@.len(),
            out@ == start + v@.subrange(lo as int, i as int),
        decreases hi - i,
    {
        out.push(v[i]);
        i = i + 1;
        assert(start + v@.subrange(lo as int, i as int) =~= (start + v@.subrange(
            lo as int,
            (i - 1) as int,
        )).push(v@[i - 1]));
    }
}

/// Appends `k` zero digits.
fn push_zeros(out: &mut Vec<char>, k: usize)
    ensures
        final(out)@ == old(out)@ + zeros(k as nat),
{
    let ghost start = out@;
    let mut i: usize = 0;
    assert(start + zeros(0) =~= start);
    while i < k
        invariant
            i <= k,
            out@ == start + zeros(i as nat),
        decreases k - i,
    {
        out.push('0');
        i = i + 1;
        assert(start + zeros(i as nat) =~= (start + zeros((i - 1) as nat)).push('0'));
    }
}

/// The duration of the digits `d` with the point after `p` of them.
fn seconds_at(d: &Vec<char>, p: i128) -> (r: Option<Duration>)
    requires
        all_digits(d@),
        -10 < p < d@.len() + 20,
    ensures
        match r {
            Some(x) => seconds_from(false, d@, p as int) == Some(x@),
            None => seconds_from(false, d@, p as int) is None,
        },
{
    let n = d.len();
    let mut w: Vec<char> = Vec::new();
    let mut f: Vec<char> = Vec::new();
    if p <= 0 {
        push_zeros(&mut f, (0 - p) as usize);
        push_range(&mut f, d.as_slice(), 0, n);
        assert(d@.subrange(0, n as int) =~= d@);
    } else if p <= n as i128 {
        let q = p as usize;
        push_range(&mut w, d.as_slice(), 0, q);
        push_range(&mut f, d.as_slice(), q, n);
        assert(w@ =~= d@.take(q as int));
        assert(f@ =~= d@.skip(q as int));
    } else {
        push_range(&mut w, d.as_slice(), 0, n);
        assert(d@.subrange(0, n as int) =~= d@);
        push_zeros(&mut w, (p - n as i128) as usize);
    }
    assert(w@ == whole_at(d@, p as int));
    assert(f@ == fraction_at(d@, p as int));
    assert(all_digits(w@)) by {
        assert forall|k: int| 0 <= k < w@.len() implies '0' <= #[trigger] w@[k] && w@[k] <= '9' by {
            if p > n as i128 && k >= n {
                assert(w@[k] == zeros((p - n) as nat)[k - n]);
            } else {
                assert(w@[k] == d@[k]);
            }
        }
    }
    assert(all_digits(f@)) by {
        assert forall|k: int| 0 <= k < f@.len() implies '0' <= #[trigger] f@[k] && f@[k] <= '9' by {
            if p <= 0 {
                if k < -p {
                    assert(f@[k] == zeros((-p) as nat)[k]);
                } else {
                    assert(f@[k] == d@[k + p]);
                }
            } else {
                assert(f@[k] == d@[k + p]);
            }
        }
    }
    assert(w@.subrange(0, w@.len() as int) =~= w@);
    assert(f@.subrange(0, f@.len() as int) =~= f@);
    let up = f.len() > 9 && f[9] >= '5';
    match digits_u64(w.as_slice(), 0, w.len()) {
        None => None,
        Some(secs) => {
            let nanos = fraction_nanos(f.as_slice(), 0, f.len());
            if !up {
                Some(Duration::from_secs_nanos(secs, nanos))
            } else if nanos < 999_999_999 {
                Some(Duration::from_secs_nanos(secs, nanos + 1))
            } else if secs < u64::MAX {
                Some(Duration::from_secs_nanos(secs + 1, 0))
            } else {
                None
            }
        },
    }
}

/// The exponent written in `v[lo..]` after a mark: whether it is negative,
/// and its size up to `EXP_CAP`; `None` when it is not an optional sign
/// followed by digits.
fn read_exponent(v: &[char], lo: usize) -> (r: Option<(bool, u128)>)
    requires
        lo <= v@.len(),
    ensures
        match r {
            None => exponent_value(v@.subrange(lo as int, v@.len() as int)) is None,
            Some((neg, a)) => {
                let t = v@.subrange(lo as int, v@.len() as int);
                let size = decimal_value(unsigned_part(t));
                &&& size >= 0
                &&& exponent_value(t) == Some(if neg { -size } else { size })
                &&& a == if size < EXP_CAP { size } else { EXP_CAP as int }
            },
        },
{
    let n = v.len();
    let ghost t = v@.subrange(lo as int, n as int);
    let dstart = if lo < n && (v[lo] == '+' || v[lo] == '-') {
        lo + 1
    } else {
        lo
    };
    assert(unsigned_part(t) =~= v@.subrange(dstart as int, n as int));
    if dstart == n {
        return None;
    }
    let (ok, _) = digit_kinds(v, dstart, n);
    if !ok {
        return None;
    }
    let neg = v[lo] == '-';
    assert(neg == (t[0] == '-'));
    let a = digits_capped(v, dstart, n);
    proof {
        lemma_decimal_value_bounds(v@.subrange(dstart as int, n as int));
    }
    Some((neg, a))
}

/// The duration of the digits `d` with the point after `pe` of them; `p` is
/// `pe` itself, or, when `pe` lies far outside the digits, a point on the
/// same side that is far outside too.
fn seconds_from_digits(neg: bool, zero: bool, d: &Vec<char>, p: i128, Ghost(pe): Ghost<int>) -> (r:
    Option<Duration>)
    requires
        all_digits(d@),
        zero == all_zeros(d@),
        pe == p || (pe >= p && p >= d@.len() + 20) || (pe <= p && p <= -10),
    ensures
        match r {
            Some(x) => seconds_from(neg, d@, pe) == Some(x@),
            None => seconds_from(neg, d@, pe) is None,
        },
{
    if neg && !zero {
        return None;
    }
    if p >= d.len() as i128 + 20 {
        proof {
            lemma_point_far_right(d@, pe);
        }
        if zero {
            return Some(Duration::zero());
        } else {
            return None;
        }
    }
    if p <= -10 {
        proof {
            lemma_point_far_left(d@, pe);
        }
        return Some(Duration::zero());
    }
    seconds_at(d, p)
}

/// Where the mantissa of the numeral body `v[start..]` ends: at its
/// exponent mark, or at the end.
fn mantissa_end(v: &[char], start: usize) -> (m: usize)
    requires
        start <= v@.len(),
    ensures
        start <= m <= v@.len(),
        mantissa(v@.subrange(start as int, v@.len() as int)) == v@.subrange(start as int, m as int),
        m < v@.len() ==> exponent_of(v@.subrange(start as int, v@.len() as int)) == exponent_value(
            v@.subrange(m + 1, v@.len() as int),
        ),
        m == v@.len() ==> exponent_of(v@.subrange(start as int, v@.len() as int)) == Some(0int),
{
    let n = v.len();
    let ghost body = v@.subrange(start as int, n as int);
    let m = index_of_exp_mark(v, start);
    proof {
        let i = m - start;
        assert forall|k: int| 0 <= k < i implies !is_exp_mark(#[trigger] body[k]) by {
            assert(body[k] == v@[start + k]);
        }
        if m < n {
            assert(body[i] == v@[m as int]);
            assert(body.skip(i + 1) =~= v@.subrange(m + 1, n as int));
        }
        lemma_exp_mark_at(body, i);
        assert(mantissa(body) =~= v@.subrange(start as int, m as int));
    }
    m
}

/// Where the digits before and after the point of the mantissa `v[start..m]`
/// lie: `v[start..dot]` and `v[frac_lo..m]`.
fn point_split(v: &[char], start: usize, m: usize) -> (r: (usize, usize))
    requires
        start <= m <= v@.len(),
    ensures
        start <= r.0 <= r.1 <= m,
        int_digits(v@.subrange(start as int, m as int)) == v@.subrange(start as int, r.0 as int),
        frac_digits(v@.subrange(start as int, m as int)) == v@.subrange(r.1 as int, m as int),
        r.1 - start == if r.0 < m { r.0 - start + 1 } else { m - start },
{
    let ghost man = v@.subrange(start as int, m as int);
    let dot0 = index_of_char(v, '.', start);
    let dot = if dot0 < m {
        dot0
    } else {
        m
    };
    proof {
        let i = dot - start;
        assert forall|k: int| 0 <= k < i implies man[k] != '.' by {
            assert(man[k] == v@[start + k]);
        }
        if dot < m {
            assert(man[i] == v@[dot as int]);
        }
        lemma_find_char_at(man, '.', i);
    }
    let frac_lo = if dot < m {
        dot + 1
    } else {
        m
    };
    assert(int_digits(man) =~= v@.subrange(start as int, dot as int));
    assert(frac_digits(man) =~= v@.subrange(frac_lo as int, m as int));
    (dot, frac_lo)
}

/// Reads a duration from a decimal numeral of seconds (see `parse_seconds`).
pub fn parse_seconds_chars(v: &[char]) -> (r: Option<Duration>)
    ensures
        match r {
            Some(d) => parse_seconds(v@) == Some(d@),
            None => parse_seconds(v@) is None,
        },
{
    let n = v.len();
    let neg = n > 0 && v[0] == '-';
    let start: usize = if n > 0 && (v[0] == '+' || v[0] == '-') {
        1
    } else {
        0
    };
    let ghost body = unsigned_part(v@);
    assert(body =~= v@.subrange(start as int, n as int));
    let m = mantissa_end(v, start);
    let ghost man = mantissa(body);
    let (dot, frac_lo) = point_split(v, start, m);
    let ghost ip = int_digits(man);
    let ghost fp = frac_digits(man);
    assert(ip =~= v@.subrange(start as int, dot as int));
    assert(fp =~= v@.subrange(frac_lo as int, m as int));
    if (dot - start) + (m - frac_lo) == 0 {
        return None;
    }
    let (int_ok, int_zero) = digit_kinds(v, start, dot);
    let (frac_ok, frac_zero) = digit_kinds(v, frac_lo, m);
    if !int_ok || !frac_ok {
        return None;
    }
    let (e_neg, e_abs) = if m < n {
        match read_exponent(v, m + 1) {
            None => {
                return None;
            },
            Some(x) => x,
        }
    } else {
        (false, 0u128)
    };
    let ghost ev: int = if m < n {
        decimal_value(unsigned_part(v@.subrange(m + 1, n as int)))
    } else {
        0
    };
    assert(exponent_of(body) == Some(if e_neg { -ev } else { ev }));
    let mut d: Vec<char> = Vec::new();
    push_range(&mut d, v, start, dot);
    push_range(&mut d, v, frac_lo, m);
    assert(d@ =~= ip + fp);
    proof {
        lemma_concat_digits(ip, fp);
    }
    let ghost pe: int = ip.len() + if e_neg { -ev } else { ev };
    let ilen = (dot - start) as i128;
    let p: i128 = if e_neg {
        ilen - e_abs as i128
    } else {
        ilen + e_abs as i128
    };
    seconds_from_digits(neg, int_zero && frac_zero, &d, p, Ghost(pe))
}

/// Two digit strings side by side are digits, and zeros when both are.
proof fn lemma_concat_digits(a: Seq<char>, b: Seq<char>)
    requires
        all_digits(a),
        all_digits(b),
    ensures
        all_digits(a + b),
        all_zeros(a + b) == (all_zeros(a) && all_zeros(b)),
{
    let c = a + b;
    assert forall|k: int| 0 <= k < c.len() implies '0' <= #[trigger] c[k] && c[k] <= '9' by {
        if k < a.len() {
            assert(c[k] == a[k]);
        } else {
            assert(c[k] == b[k - a.len()]);
        }
    }
    if all_zeros(a) && all_zeros(b) {
        assert forall|k: int| 0 <= k < c.len() implies #[trigger] c[k] == '0' by {
            if k < a.len() {
                assert(c[k] == a[k]);
            } else {
                assert(c[k] == b[k - a.len()]);
            }
        }
    } else if !all_zeros(a) {
        let k = choose|k: int| 0 <= k < a.len() && #[trigger] a[k] != '0';
        assert(c[k] == a[k]);
    } else {
        let k = choose|k: int| 0 <= k < b.len() && #[trigger] b[k] != '0';
        assert(c[k + a.len()] == b[k]);
    }
}

} // verus!
