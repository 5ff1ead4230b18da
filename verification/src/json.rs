//! The canonical structured-text form in which tables are persisted.
//!
//! Values are written in a compact, canonical shape: integers in decimal with
//! no leading zeros, strings double-quoted with `\` escaping only `"` and
//! `\`, lists bracketed and separated by a fixed separator, records as
//! brace-delimited key/value members in a fixed key order.  The parser
//! accepts exactly this canonical shape, so parsing is the exact inverse of
//! serialization; anything else is reported as malformed.

use vstd::prelude::*;

verus! {

// ------------------------------------------------------------------
// decimal digits
// ------------------------------------------------------------------

/// Is `c` a decimal digit?
pub open spec fn is_digit(c: char) -> bool {
    c == '0' || c == '1' || c == '2' || c == '3' || c == '4' || c == '5' || c == '6' || c == '7'
        || c == '8' || c == '9'
}

/// Numeric value of a digit character.
pub open spec fn digit_val(c: char) -> nat {
    if c == '0' { 0 } else if c == '1' { 1 } else if c == '2' { 2 } else if c == '3' { 3 }
    else if c == '4' { 4 } else if c == '5' { 5 } else if c == '6' { 6 } else if c == '7' { 7 }
    else if c == '8' { 8 } else { 9 }
}

/// Digit character of a value below ten.
pub open spec fn digit_char(d: nat) -> char {
    if d == 0 { '0' } else if d == 1 { '1' } else if d == 2 { '2' } else if d == 3 { '3' }
    else if d == 4 { '4' } else if d == 5 { '5' } else if d == 6 { '6' } else if d == 7 { '7' }
    else if d == 8 { '8' } else { '9' }
}

/// Value of a digit run, most significant digit first.
pub open spec fn digits_val(s: Seq<char>) -> nat
    decreases s.len(),
{
    if s.len() == 0 {
        0
    } else {
        digits_val(s.drop_last()) * 10 + digit_val(s.last())
    }
}

/// The canonical decimal digits of `n`: no leading zeros, `0` itself as "0".
pub open spec fn dec_digits(n: nat) -> Seq<char>
    decreases n,
{
    if n < 10 {
        seq![digit_char(n)]
    } else {
        dec_digits(n / 10).push(digit_char(n % 10))
    }
}

/// Ten to the `k`.
pub open spec fn pow10(k: nat) -> nat
    decreases k,
{
    if k == 0 {
        1
    } else {
        10 * pow10((k - 1) as nat)
    }
}

/// The canonical digits of `n` denote `n`, are digits, start with no
/// superfluous zero, and bound `n` by their count.
pub proof fn lemma_dec_digits(n: nat)
    ensures
        dec_digits(n).len() >= 1,
        forall|m: int| 0 <= m < dec_digits(n).len() ==> is_digit(#[trigger] dec_digits(n)[m]),
        digits_val(dec_digits(n)) == n,
        n >= 1 ==> dec_digits(n)[0] != '0',
        n < pow10(dec_digits(n).len()),
    decreases n,
{
    if n < 10 {
        assert(dec_digits(n) =~= seq![digit_char(n)]);
        assert(dec_digits(n).drop_last() =~= Seq::<char>::empty());
        assert(digits_val(Seq::<char>::empty()) == 0);
        assert(digits_val(dec_digits(n)) == 0 * 10 + digit_val(digit_char(n)));
        assert(digit_val(digit_char(n)) == n);
        assert(pow10(1) == 10) by {
            reveal_with_fuel(pow10, 2);
        }
    } else {
        lemma_dec_digits(n / 10);
        let pre = dec_digits(n / 10);
        let whole = dec_digits(n);
        assert(whole =~= pre.push(digit_char(n % 10)));
        assert(whole.drop_last() =~= pre);
        assert(whole.last() == digit_char(n % 10));
        assert(digit_val(digit_char(n % 10)) == n % 10);
        assert(digits_val(whole) == digits_val(pre) * 10 + n % 10);
        assert(digits_val(pre) == n / 10);
        assert(n / 10 * 10 + n % 10 == n);
        assert(whole[0] == pre[0]);
        assert(n / 10 >= 1);
        assert(n / 10 < pow10(pre.len()));
        assert(pow10(whole.len()) == 10 * pow10(pre.len()));
        assert(n < 10 * pow10(pre.len())) by {
            assert(n / 10 + 1 <= pow10(pre.len()));
            assert(n < (n / 10 + 1) * 10) by {
                assert(n / 10 * 10 + n % 10 == n);
            }
            assert((n / 10 + 1) * 10 <= pow10(pre.len()) * 10) by (nonlinear_arith)
                requires n / 10 + 1 <= pow10(pre.len());
        }
    }
}

/// If `n` is below ten to the `k`, its canonical digits number at most `k`.
pub proof fn lemma_dec_digits_len(n: nat, k: nat)
    requires
        k >= 1,
        n < pow10(k),
    ensures
        dec_digits(n).len() <= k,
    decreases n,
{
    if n < 10 {
    } else {
        assert(pow10(k) == 10 * pow10((k - 1) as nat));
        assert(n / 10 < pow10((k - 1) as nat)) by (nonlinear_arith)
            requires
                n < 10 * pow10((k - 1) as nat),
                n >= 10,
        ;
        assert(k - 1 >= 1) by {
            if k == 1 {
                assert(pow10(k) == 10);
            }
        }
        lemma_dec_digits_len(n / 10, (k - 1) as nat);
    }
}

// ------------------------------------------------------------------
// scanning a digit run
// ------------------------------------------------------------------

/// Index of the first non-digit at or after `i`.
pub open spec fn scan_digits(s: Seq<char>, i: int) -> int
    decreases s.len() - i,
{
    if i < s.len() && is_digit(s[i]) {
        scan_digits(s, i + 1)
    } else {
        i
    }
}

/// `scan_digits` lands on the first non-digit position.
pub proof fn lemma_scan_digits(s: Seq<char>, i: int)
    requires
        0 <= i <= s.len(),
    ensures
        i <= scan_digits(s, i) <= s.len(),
        forall|m: int| i <= m < scan_digits(s, i) ==> is_digit(#[trigger] s[m]),
        scan_digits(s, i) == s.len() || !is_digit(s[scan_digits(s, i)]),
    decreases s.len() - i,
{
    if i < s.len() && is_digit(s[i]) {
        lemma_scan_digits(s, i + 1);
    }
}

/// A digit run bounded by a non-digit (or the end) determines the scan.
pub proof fn lemma_scan_digits_exact(s: Seq<char>, i: int, e: int)
    requires
        0 <= i <= e <= s.len(),
        forall|m: int| i <= m < e ==> is_digit(#[trigger] s[m]),
        e == s.len() || !is_digit(s[e]),
    ensures
        scan_digits(s, i) == e,
    decreases e - i,
{
    if i < e {
        lemma_scan_digits_exact(s, i + 1, e);
    }
}

// ------------------------------------------------------------------
// integers on the wire
// ------------------------------------------------------------------

/// Canonical text of a signed 32-bit integer.
pub open spec fn ser_i32(v: i32) -> Seq<char> {
    if v >= 0 {
        dec_digits(v as nat)
    } else {
        seq!['-'] + dec_digits((-(v as int)) as nat)
    }
}

/// Parse an unsigned digit run at `i`: at least one digit, no leading zero,
/// at most ten digits.
pub open spec fn parse_mag(s: Seq<char>, i: int) -> Option<(nat, int)> {
    let j = scan_digits(s, i);
    if j == i {
        None
    } else if s[i] == '0' && j > i + 1 {
        None
    } else if j - i > 10 {
        None
    } else {
        Some((digits_val(s.subrange(i, j)), j))
    }
}

/// Parse a signed 32-bit integer at `i`.
pub open spec fn parse_i32_spec(s: Seq<char>, i: int) -> Option<(i32, int)> {
    if i < s.len() && s[i] == '-' {
        match parse_mag(s, i + 1) {
            Some((m, j)) => if m <= 2147483648 {
                Some(((-(m as int)) as i32, j))
            } else {
                None
            },
            None => None,
        }
    } else {
        match parse_mag(s, i) {
            Some((m, j)) => if m <= 2147483647 {
                Some((m as i32, j))
            } else {
                None
            },
            None => None,
        }
    }
}

/// Parsing reads back exactly the canonical text of any 32-bit integer,
/// provided no digit follows it.
pub proof fn lemma_parse_ser_i32(v: i32, s: Seq<char>, i: int)
    requires
        0 <= i,
        i + ser_i32(v).len() <= s.len(),
        s.subrange(i, i + ser_i32(v).len()) =~= ser_i32(v),
        i + ser_i32(v).len() == s.len() || !is_digit(s[i + ser_i32(v).len()]),
    ensures
        parse_i32_spec(s, i) == Some((v, i + ser_i32(v).len())),
        ser_i32(v).len() >= 1,
{
    let t = ser_i32(v);
    let l = t.len() as int;
    assert(s.subrange(i, i + l) == t);
    assert forall|k: int| 0 <= k < l implies s[i + k] == #[trigger] t[k] by {
        assert(s.subrange(i, i + l)[k] == s[i + k]);
    }
    if v >= 0 {
        let d = dec_digits(v as nat);
        lemma_dec_digits(v as nat);
        let e = i + d.len();
        assert(forall|m: int| i <= m < e ==> is_digit(#[trigger] s[m])) by {
            assert(forall|m: int| i <= m < e ==> s[m] == d[m - i]);
        }
        lemma_scan_digits_exact(s, i, e);
        assert(s[i] == d[0]);
        assert(s[i] != '-');
        assert(s.subrange(i, e) =~= d);
        if v >= 1 {
            assert(s[i] != '0');
        } else {
            assert(d =~= seq![digit_char(0)]);
            assert(e == i + 1);
        }
        assert(v <= 2147483647);
        assert((2147483647 as nat) < pow10(10)) by {
            reveal_with_fuel(pow10, 11);
        }
        lemma_dec_digits_len(v as nat, 10);
        assert(parse_mag(s, i) == Some((v as nat, e)));
    } else {
        let m = (-(v as int)) as nat;
        let d = dec_digits(m);
        lemma_dec_digits(m);
        assert(t =~= seq!['-'] + d);
        assert(s[i] == t[0]);
        assert(s[i] == '-');
        let e = i + 1 + d.len();
        assert(forall|k: int| i + 1 <= k < e ==> is_digit(#[trigger] s[k])) by {
            assert(forall|k: int| i + 1 <= k < e ==> s[k] == t[k - i] && t[k - i] == d[k - i - 1]);
        }
        lemma_scan_digits_exact(s, i + 1, e);
        assert(s[i + 1] == t[1]);
        assert(t[1] == (seq!['-'] + d)[1]);
        assert((seq!['-'] + d)[1] == d[0]);
        assert(m >= 1);
        assert(s[i + 1] != '0');
        assert forall|k: int| 0 <= k < d.len() implies s.subrange(i + 1, e)[k] == d[k] by {
            assert(s.subrange(i + 1, e)[k] == s[i + 1 + k]);
            assert(s[i + 1 + k] == t[k + 1]);
            assert(t[k + 1] == (seq!['-'] + d)[k + 1]);
        }
        assert(s.subrange(i + 1, e) =~= d);
        assert(m <= 2147483648);
        assert((2147483648 as nat) < pow10(10)) by {
            reveal_with_fuel(pow10, 11);
        }
        lemma_dec_digits_len(m, 10);
        assert(parse_mag(s, i + 1) == Some((m, e)));
        assert((-(m as int)) as i32 == v);
    }
}

// ------------------------------------------------------------------
// executable digit helpers
// ------------------------------------------------------------------

/// Is this character a decimal digit?
pub fn digit_check(c: char) -> (b: bool)
    ensures
        b == is_digit(c),
{
    c == '0' || c == '1' || c == '2' || c == '3' || c == '4' || c == '5' || c == '6' || c == '7'
        || c == '8' || c == '9'
}

/// Numeric value of a digit character.
pub fn digit_value(c: char) -> (d: u64)
    requires
        is_digit(c),
    ensures
        d as nat == digit_val(c),
{
    if c == '0' { 0 } else if c == '1' { 1 } else if c == '2' { 2 } else if c == '3' { 3 }
    else if c == '4' { 4 } else if c == '5' { 5 } else if c == '6' { 6 } else if c == '7' { 7 }
    else if c == '8' { 8 } else { 9 }
}

/// Digit character of a value below ten.
pub fn digit_char_of(d: u32) -> (c: char)
    requires
        d < 10,
    ensures
        c == digit_char(d as nat),
{
    if d == 0 { '0' } else if d == 1 { '1' } else if d == 2 { '2' } else if d == 3 { '3' }
    else if d == 4 { '4' } else if d == 5 { '5' } else if d == 6 { '6' } else if d == 7 { '7' }
    else if d == 8 { '8' } else { '9' }
}

/// Append the canonical digits of `m`.
pub fn write_mag(out: &mut Vec<char>, m: u32)
    ensures
        final(out)@ == old(out)@ + dec_digits(m as nat),
    decreases m,
{
    if m < 10 {
        out.push(digit_char_of(m));
        assert(out@ =~= old(out)@ + dec_digits(m as nat));
    } else {
        write_mag(out, m / 10);
        out.push(digit_char_of(m % 10));
        assert(out@ =~= old(out)@ + dec_digits((m / 10) as nat).push(
            digit_char((m % 10) as nat),
        ));
        assert(dec_digits(m as nat) == dec_digits(m as nat / 10).push(
            digit_char(m as nat % 10),
        ));
        assert(m as nat / 10 == (m / 10) as nat);
        assert(m as nat % 10 == (m % 10) as nat);
    }
}

/// Append the canonical text of `v`.
pub fn write_i32(out: &mut Vec<char>, v: i32)
    ensures
        final(out)@ == old(out)@ + ser_i32(v),
{
    if v >= 0 {
        write_mag(out, v as u32);
        assert(v as u32 as nat == v as nat);
    } else {
        out.push('-');
        let m: u32 = (-(v as i64)) as u32;
        write_mag(out, m);
        assert(m as nat == (-(v as int)) as nat);
        assert(out@ =~= old(out)@ + (seq!['-'] + dec_digits(m as nat)));
    }
}

/// Parse an unsigned digit run at `i`, exactly as [`parse_mag`] does.
fn parse_mag_exec(s: &Vec<char>, i: usize) -> (r: Option<(u64, usize)>)
    requires
        i <= s@.len(),
    ensures
        match r {
            Some((m, j)) => parse_mag(s@, i as int) == Some((m as nat, j as int)) && i < j
                <= s@.len(),
            None => parse_mag(s@, i as int) is None,
        },
{
    let ghost gs = s@;
    let mut j: usize = i;
    while j < s.len() && digit_check(s[j])
        invariant
            i <= j <= gs.len(),
            gs == s@,
            forall|m: int| i <= m < j ==> is_digit(#[trigger] gs[m]),
        decreases gs.len() - j,
    {
        j += 1;
    }
    proof {
        lemma_scan_digits_exact(gs, i as int, j as int);
    }
    if j == i {
        return None;
    }
    if s[i] == '0' && j > i + 1 {
        return None;
    }
    if j - i > 10 {
        return None;
    }
    proof {
        assert((10 as nat) * pow10(10) < 0xffff_ffff_ffff_ffff) by {
            reveal_with_fuel(pow10, 11);
        }
    }
    let mut acc: u64 = 0;
    let mut k: usize = i;
    while k < j
        invariant
            i <= k <= j <= gs.len(),
            gs == s@,
            j - i <= 10,
            forall|m: int| i <= m < j ==> is_digit(#[trigger] gs[m]),
            (acc as nat) == digits_val(gs.subrange(i as int, k as int)),
            (acc as nat) < pow10((k - i) as nat),
            (10 as nat) * pow10(10) < 0xffff_ffff_ffff_ffff,
        decreases j - k,
    {
        let d = digit_value(s[k]);
        proof {
            let pre = gs.subrange(i as int, k as int);
            let cur = gs.subrange(i as int, k + 1 as int);
            assert(cur.drop_last() =~= pre);
            assert(cur.last() == gs[k as int]);
            assert(pow10((k + 1 - i) as nat) == 10 * pow10((k - i) as nat));
            assert(pow10((k - i) as nat) <= pow10(10)) by {
                lemma_pow10_mono((k - i) as nat, 10);
            }
            assert((acc as nat) * 10 + 9 < 10 * pow10(10)) by (nonlinear_arith)
                requires
                    (acc as nat) < pow10((k - i) as nat),
                    pow10((k - i) as nat) <= pow10(10),
            ;
            assert((acc as nat) * 10 + digit_val(gs[k as int]) < 10 * pow10((k - i) as nat))
                by (nonlinear_arith)
                requires
                    (acc as nat) < pow10((k - i) as nat),
                    digit_val(gs[k as int]) < 10,
            ;
        }
        acc = acc * 10 + d;
        k += 1;
    }
    proof {
        assert(gs.subrange(i as int, k as int) =~= gs.subrange(i as int, j as int));
    }
    Some((acc, j))
}

/// Ten to the power is monotone in the exponent.
pub proof fn lemma_pow10_mono(a: nat, b: nat)
    requires
        a <= b,
    ensures
        pow10(a) <= pow10(b),
    decreases b,
{
    if a < b {
        lemma_pow10_mono(a, (b - 1) as nat);
        assert(pow10(b) == 10 * pow10((b - 1) as nat));
        assert(pow10((b - 1) as nat) <= 10 * pow10((b - 1) as nat)) by (nonlinear_arith)
            requires pow10((b - 1) as nat) >= 0;
    }
}

/// Parse a signed 32-bit integer at `i`, exactly as [`parse_i32_spec`] does.
pub fn parse_i32(s: &Vec<char>, i: usize) -> (r: Option<(i32, usize)>)
    requires
        i <= s@.len(),
    ensures
        match r {
            Some((v, j)) => parse_i32_spec(s@, i as int) == Some((v, j as int)) && i < j
                <= s@.len(),
            None => parse_i32_spec(s@, i as int) is None,
        },
{
    if i < s.len() && s[i] == '-' {
        match parse_mag_exec(s, i + 1) {
            Some((m, j)) => {
                if m <= 2147483648 {
                    let v: i32 = (-(m as i64)) as i32;
                    assert(v as int == -(m as int));
                    Some((v, j))
                } else {
                    None
                }
            },
            None => None,
        }
    } else {
        match parse_mag_exec(s, i) {
            Some((m, j)) => {
                if m <= 2147483647 {
                    Some((m as i32, j))
                } else {
                    None
                }
            },
            None => None,
        }
    }
}


// ------------------------------------------------------------------
// subrange helpers
// ------------------------------------------------------------------

/// Pointwise reading of an embedded block of text.
pub proof fn lemma_subrange_index(s: Seq<char>, i: int, u: Seq<char>, k: int)
    requires
        0 <= i,
        i + u.len() <= s.len(),
        s.subrange(i, i + u.len()) == u,
        0 <= k < u.len(),
    ensures
        s[i + k] == u[k],
{
    assert(s.subrange(i, i + u.len())[k] == s[i + k]);
}

/// A part of an embedded block is itself embedded.
pub proof fn lemma_subrange_of_subrange(s: Seq<char>, i: int, u: Seq<char>, a: int, b: int)
    requires
        0 <= i,
        i + u.len() <= s.len(),
        s.subrange(i, i + u.len()) == u,
        0 <= a <= b <= u.len(),
    ensures
        s.subrange(i + a, i + b) =~= u.subrange(a, b),
{
    assert forall|k: int| 0 <= k < b - a implies s.subrange(i + a, i + b)[k] == u.subrange(
        a,
        b,
    )[k] by {
        assert(s.subrange(i + a, i + b)[k] == s[i + a + k]);
        lemma_subrange_index(s, i, u, a + k);
    }
}

// ------------------------------------------------------------------
// literals
// ------------------------------------------------------------------

/// Expect the exact characters of `lit` at `i`.
pub open spec fn expect_lit(s: Seq<char>, i: int, lit: Seq<char>) -> Option<int> {
    if 0 <= i && i + lit.len() <= s.len() && s.subrange(i, i + lit.len()) == lit {
        Some(i + lit.len())
    } else {
        None
    }
}

/// Match the exact characters of `lit` at `i`, as [`expect_lit`] does.
pub fn match_lit(s: &Vec<char>, i: usize, lit: &Vec<char>) -> (r: Option<usize>)
    requires
        i <= s@.len(),
    ensures
        match r {
            Some(j) => expect_lit(s@, i as int, lit@) == Some(j as int) && i <= j <= s@.len(),
            None => expect_lit(s@, i as int, lit@) is None,
        },
{
    if s.len() - i < lit.len() {
        return None;
    }
    let mut k: usize = 0;
    while k < lit.len()
        invariant
            0 <= k <= lit@.len(),
            i + lit@.len() <= s@.len(),
            i + lit@.len() <= usize::MAX,
            forall|m: int| 0 <= m < k ==> s@[i + m] == #[trigger] lit@[m],
        decreases lit@.len() - k,
    {
        if s[i + k] != lit[k] {
            proof {
                assert(s@.subrange(i as int, i + lit@.len())[k as int] == s@[i + k]);
            }
            return None;
        }
        k += 1;
    }
    proof {
        assert forall|m: int| 0 <= m < lit@.len() implies s@.subrange(
            i as int,
            i + lit@.len(),
        )[m] == lit@[m] by {
            assert(s@.subrange(i as int, i + lit@.len())[m] == s@[i + m]);
        }
        assert(s@.subrange(i as int, i + lit@.len()) =~= lit@);
    }
    Some(i + lit.len())
}

// ------------------------------------------------------------------
// strings on the wire
// ------------------------------------------------------------------

/// Escape of one character: `"` and `\` get a backslash, the rest stand.
pub open spec fn esc_char(c: char) -> Seq<char> {
    if c == '"' || c == '\\' {
        seq!['\\', c]
    } else {
        seq![c]
    }
}

/// Escape of a whole text.
pub open spec fn esc_str(t: Seq<char>) -> Seq<char>
    decreases t.len(),
{
    if t.len() == 0 {
        Seq::empty()
    } else {
        esc_char(t[0]) + esc_str(t.drop_first())
    }
}

/// Canonical text of a string: double quotes around the escaped text.
pub open spec fn ser_str(t: Seq<char>) -> Seq<char> {
    seq!['"'] + esc_str(t) + seq!['"']
}

/// Escaping distributes over concatenation.
pub proof fn lemma_esc_str_add(a: Seq<char>, b: Seq<char>)
    ensures
        esc_str(a + b) == esc_str(a) + esc_str(b),
    decreases a.len(),
{
    if a.len() == 0 {
        assert(a + b =~= b);
        assert(esc_str(a) + esc_str(b) =~= esc_str(b));
    } else {
        lemma_esc_str_add(a.drop_first(), b);
        assert((a + b).drop_first() =~= a.drop_first() + b);
        assert((a + b)[0] == a[0]);
        assert(esc_char(a[0]) + (esc_str(a.drop_first()) + esc_str(b)) =~= (esc_char(a[0])
            + esc_str(a.drop_first())) + esc_str(b));
    }
}

/// Body of a quoted string starting at `i` (just after the opening quote):
/// the unescaped characters up to the closing quote.
pub open spec fn parse_str_body(s: Seq<char>, i: int) -> Option<(Seq<char>, int)>
    decreases s.len() - i,
{
    if i < 0 || i >= s.len() {
        None
    } else if s[i] == '"' {
        Some((Seq::empty(), i + 1))
    } else if s[i] == '\\' {
        if i + 1 < s.len() && (s[i + 1] == '"' || s[i + 1] == '\\') {
            match parse_str_body(s, i + 2) {
                Some((t, j)) => Some((seq![s[i + 1]] + t, j)),
                None => None,
            }
        } else {
            None
        }
    } else {
        match parse_str_body(s, i + 1) {
            Some((t, j)) => Some((seq![s[i]] + t, j)),
            None => None,
        }
    }
}

/// Parse a quoted string at `i`.
pub open spec fn parse_str_spec(s: Seq<char>, i: int) -> Option<(Seq<char>, int)> {
    if 0 <= i && i < s.len() && s[i] == '"' {
        parse_str_body(s, i + 1)
    } else {
        None
    }
}

/// The body parser reads back exactly an escaped text followed by the
/// closing quote.
proof fn lemma_parse_str_body(t: Seq<char>, s: Seq<char>, i: int)
    requires
        0 <= i,
        i + esc_str(t).len() + 1 <= s.len(),
        s.subrange(i, i + esc_str(t).len() + 1) == esc_str(t) + seq!['"'],
    ensures
        parse_str_body(s, i) == Some((t, i + esc_str(t).len() + 1)),
    decreases t.len(),
{
    let u = esc_str(t) + seq!['"'];
    if t.len() == 0 {
        assert(esc_str(t) =~= Seq::<char>::empty());
        lemma_subrange_index(s, i, u, 0);
        assert(s[i] == '"');
    } else {
        let c = t[0];
        let rest = t.drop_first();
        assert(t =~= seq![c] + rest);
        lemma_esc_str_add(seq![c], rest);
        assert(esc_str(seq![c]) =~= esc_char(c)) by {
            assert(seq![c].drop_first() =~= Seq::<char>::empty());
            assert(esc_str(seq![c]) == esc_char(c) + esc_str(Seq::<char>::empty()));
            assert(esc_char(c) + Seq::<char>::empty() =~= esc_char(c));
        }
        assert(esc_str(t) == esc_char(c) + esc_str(rest));
        if c == '"' || c == '\\' {
            assert(u[0] == '\\' && u[1] == c) by {
                assert(esc_str(t)[0] == esc_char(c)[0]);
                assert(esc_str(t)[1] == esc_char(c)[1]);
            }
            lemma_subrange_index(s, i, u, 0);
            lemma_subrange_index(s, i, u, 1);
            assert(s[i] == '\\' && s[i + 1] == c);
            lemma_subrange_of_subrange(s, i, u, 2, u.len() as int);
            assert(u.subrange(2, u.len() as int) =~= esc_str(rest) + seq!['"']) by {
                assert forall|k: int| 0 <= k < esc_str(rest).len() + 1 implies u.subrange(
                    2,
                    u.len() as int,
                )[k] == (esc_str(rest) + seq!['"'])[k] by {
                    assert(u[2 + k] == (esc_str(rest) + seq!['"'])[k]);
                }
            }
            lemma_parse_str_body(rest, s, i + 2);
            assert(seq![s[i + 1]] + rest =~= t);
        } else {
            assert(u[0] == c) by {
                assert(esc_str(t)[0] == esc_char(c)[0]);
            }
            lemma_subrange_index(s, i, u, 0);
            assert(s[i] == c);
            assert(s[i] != '"' && s[i] != '\\');
            lemma_subrange_of_subrange(s, i, u, 1, u.len() as int);
            assert(u.subrange(1, u.len() as int) =~= esc_str(rest) + seq!['"']) by {
                assert forall|k: int| 0 <= k < esc_str(rest).len() + 1 implies u.subrange(
                    1,
                    u.len() as int,
                )[k] == (esc_str(rest) + seq!['"'])[k] by {
                    assert(u[1 + k] == (esc_str(rest) + seq!['"'])[k]);
                }
            }
            lemma_parse_str_body(rest, s, i + 1);
            assert(seq![s[i]] + rest =~= t);
        }
    }
}

/// Parsing reads back exactly the canonical text of any string.
pub proof fn lemma_parse_ser_str(t: Seq<char>, s: Seq<char>, i: int)
    requires
        0 <= i,
        i + ser_str(t).len() <= s.len(),
        s.subrange(i, i + ser_str(t).len()) =~= ser_str(t),
    ensures
        parse_str_spec(s, i) == Some((t, i + ser_str(t).len())),
        ser_str(t).len() >= 2,
{
    let u = ser_str(t);
    lemma_subrange_index(s, i, u, 0);
    assert(u[0] == '"');
    assert(s[i] == '"');
    lemma_subrange_of_subrange(s, i, u, 1, u.len() as int);
    assert(u.subrange(1, u.len() as int) =~= esc_str(t) + seq!['"']) by {
        assert forall|k: int| 0 <= k < esc_str(t).len() + 1 implies u.subrange(
            1,
            u.len() as int,
        )[k] == (esc_str(t) + seq!['"'])[k] by {
            assert(u[1 + k] == (seq!['"'] + esc_str(t) + seq!['"'])[1 + k]);
        }
    }
    lemma_parse_str_body(t, s, i + 1);
}

/// Append the canonical text of `t`.
pub fn write_str(out: &mut Vec<char>, t: &Vec<char>)
    ensures
        final(out)@ == old(out)@ + ser_str(t@),
{
    let ghost base = out@;
    out.push('"');
    let mut k: usize = 0;
    while k < t.len()
        invariant
            0 <= k <= t@.len(),
            out@ == base + seq!['"'] + esc_str(t@.subrange(0, k as int)),
        decreases t@.len() - k,
    {
        let c = t[k];
        proof {
            let pre = t@.subrange(0, k as int);
            let cur = t@.subrange(0, k + 1 as int);
            assert(cur =~= pre + seq![c]);
            lemma_esc_str_add(pre, seq![c]);
            assert(seq![c].len() == 1 && seq![c][0] == c);
            assert(esc_str(seq![c]) =~= esc_char(c)) by {
                assert(seq![c].drop_first() =~= Seq::<char>::empty());
                assert(esc_str(seq![c]) == esc_char(seq![c][0]) + esc_str(seq![c].drop_first()));
                assert(esc_char(c) + Seq::<char>::empty() =~= esc_char(c));
            }
        }
        if c == '"' || c == '\\' {
            out.push('\\');
            out.push(c);
            proof {
                assert(out@ =~= base + seq!['"'] + esc_str(t@.subrange(0, k + 1 as int)));
            }
        } else {
            out.push(c);
            proof {
                assert(out@ =~= base + seq!['"'] + esc_str(t@.subrange(0, k + 1 as int)));
            }
        }
        k += 1;
    }
    proof {
        assert(t@.subrange(0, t@.len() as int) =~= t@);
    }
    out.push('"');
    proof {
        assert(out@ =~= base + ser_str(t@));
    }
}

/// Parse a quoted string at `i`, exactly as [`parse_str_spec`] does.
pub fn parse_str(s: &Vec<char>, i: usize) -> (r: Option<(Vec<char>, usize)>)
    requires
        i <= s@.len(),
    ensures
        match r {
            Some((t, j)) => parse_str_spec(s@, i as int) == Some((t@, j as int)) && i < j
                <= s@.len(),
            None => parse_str_spec(s@, i as int) is None,
        },
{
    let ghost gs = s@;
    if i >= s.len() || s[i] != '"' {
        return None;
    }
    let mut acc: Vec<char> = Vec::new();
    let mut j: usize = i + 1;
    loop
        invariant
            i + 1 <= j <= gs.len(),
            gs == s@,
            gs[i as int] == '"',
            i < gs.len(),
            parse_str_body(gs, i + 1) == (match parse_str_body(gs, j as int) {
                Some((u, e)) => Some((acc@ + u, e)),
                None => None,
            }),
        decreases gs.len() - j,
    {
        if j >= s.len() {
            assert(parse_str_body(gs, j as int) is None);
            return None;
        }
        let c = s[j];
        if c == '"' {
            assert(parse_str_body(gs, j as int) == Some((Seq::<char>::empty(), j + 1 as int)));
            proof {
                assert(acc@ + Seq::<char>::empty() =~= acc@);
            }
            return Some((acc, j + 1));
        } else if c == '\\' {
            if j + 1 < s.len() && (s[j + 1] == '"' || s[j + 1] == '\\') {
                let c2 = s[j + 1];
                proof {
                    let ghost old_acc = acc@;
                    assert(parse_str_body(gs, j as int) == (match parse_str_body(gs, j + 2) {
                        Some((u, e)) => Some((seq![gs[j + 1]] + u, e)),
                        None => None,
                    }));
                    if parse_str_body(gs, j + 2) is Some {
                        let (u, e) = parse_str_body(gs, j + 2)->Some_0;
                        assert((old_acc + seq![c2]) + u =~= old_acc + (seq![c2] + u));
                    }
                }
                acc.push(c2);
                j += 2;
            } else {
                assert(parse_str_body(gs, j as int) is None);
                return None;
            }
        } else {
            proof {
                let ghost old_acc = acc@;
                assert(parse_str_body(gs, j as int) == (match parse_str_body(gs, j + 1) {
                    Some((u, e)) => Some((seq![gs[j as int]] + u, e)),
                    None => None,
                }));
                if parse_str_body(gs, j + 1) is Some {
                    let (u, e) = parse_str_body(gs, j + 1)->Some_0;
                    assert((old_acc + seq![c]) + u =~= old_acc + (seq![c] + u));
                }
            }
            acc.push(c);
            j += 1;
        }
    }
}

// ------------------------------------------------------------------
// booleans on the wire
// ------------------------------------------------------------------

/// Canonical text of a boolean.
pub open spec fn ser_bool(b: bool) -> Seq<char> {
    if b {
        seq!['t', 'r', 'u', 'e']
    } else {
        seq!['f', 'a', 'l', 's', 'e']
    }
}

/// Parse a boolean at `i`.
pub open spec fn parse_bool_spec(s: Seq<char>, i: int) -> Option<(bool, int)> {
    if expect_lit(s, i, ser_bool(true)) is Some {
        Some((true, i + 4))
    } else if expect_lit(s, i, ser_bool(false)) is Some {
        Some((false, i + 5))
    } else {
        None
    }
}

/// Parsing reads back exactly the canonical text of a boolean.
pub proof fn lemma_parse_ser_bool(b: bool, s: Seq<char>, i: int)
    requires
        0 <= i,
        i + ser_bool(b).len() <= s.len(),
        s.subrange(i, i + ser_bool(b).len()) =~= ser_bool(b),
    ensures
        parse_bool_spec(s, i) == Some((b, i + ser_bool(b).len())),
        ser_bool(b).len() >= 4,
{
    if b {
        assert(expect_lit(s, i, ser_bool(true)) is Some);
    } else {
        lemma_subrange_index(s, i, ser_bool(false), 0);
        assert(s[i] == 'f');
        if i + 4 <= s.len() && s.subrange(i, i + 4) == ser_bool(true) {
            assert(s.subrange(i, i + 4)[0] == s[i]);
            assert(false);
        }
        assert(expect_lit(s, i, ser_bool(true)) is None);
        assert(expect_lit(s, i, ser_bool(false)) is Some);
    }
}

/// Append the canonical text of `b`.
pub fn write_bool(out: &mut Vec<char>, b: bool)
    ensures
        final(out)@ == old(out)@ + ser_bool(b),
{
    if b {
        out.push('t');
        out.push('r');
        out.push('u');
        out.push('e');
        proof {
            assert(out@ =~= old(out)@ + ser_bool(b));
        }
    } else {
        out.push('f');
        out.push('a');
        out.push('l');
        out.push('s');
        out.push('e');
        proof {
            assert(out@ =~= old(out)@ + ser_bool(b));
        }
    }
}

/// Parse a boolean at `i`, exactly as [`parse_bool_spec`] does.
pub fn parse_bool(s: &Vec<char>, i: usize) -> (r: Option<(bool, usize)>)
    requires
        i <= s@.len(),
    ensures
        match r {
            Some((b, j)) => parse_bool_spec(s@, i as int) == Some((b, j as int)) && i < j
                <= s@.len(),
            None => parse_bool_spec(s@, i as int) is None,
        },
{
    let t = true_chars();
    let f = false_chars();
    match match_lit(s, i, &t) {
        Some(j) => Some((true, j)),
        None => {
            match match_lit(s, i, &f) {
                Some(j) => Some((false, j)),
                None => None,
            }
        },
    }
}

/// The characters of the `true` literal.
fn true_chars() -> (r: Vec<char>)
    ensures
        r@ == ser_bool(true),
{
    let mut v: Vec<char> = Vec::new();
    v.push('t');
    v.push('r');
    v.push('u');
    v.push('e');
    proof {
        assert(v@ =~= ser_bool(true));
    }
    v
}

/// The characters of the `false` literal.
fn false_chars() -> (r: Vec<char>)
    ensures
        r@ == ser_bool(false),
{
    let mut v: Vec<char> = Vec::new();
    v.push('f');
    v.push('a');
    v.push('l');
    v.push('s');
    v.push('e');
    proof {
        assert(v@ =~= ser_bool(false));
    }
    v
}

} // verus!
