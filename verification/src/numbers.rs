use vstd::prelude::*;

verus! {

/// An ASCII decimal digit.
pub open spec fn is_digit(c: char) -> bool {
    '0' <= c && c <= '9'
}

/// The value of an ASCII decimal digit.
pub open spec fn digit_value(c: char) -> int {
    c as int - '0' as int
}

/// The ASCII digit for a value below ten.
pub open spec fn digit_char(d: nat) -> char {
    (d + '0' as int) as char
}

/// Every character of `s` is an ASCII decimal digit.
pub open spec fn all_digits(s: Seq<char>) -> bool {
    forall|i: int| 0 <= i < s.len() ==> is_digit(#[trigger] s[i])
}

/// The value of a string of decimal digits, most significant first.
pub open spec fn digits_value(s: Seq<char>) -> int
    decreases s.len(),
{
    if s.len() == 0 {
        0
    } else {
        digits_value(s.drop_last()) * 10 + digit_value(s.last())
    }
}

/// What `str::parse::<i32>` gives: an optional sign, then one or more ASCII
/// digits whose signed value fits in an `i32`; `None` for anything else.
pub open spec fn parsed_i32(s: Seq<char>) -> Option<i32> {
    if s.len() == 0 {
        None
    } else {
        let neg = s[0] == '-';
        let body = if s[0] == '-' || s[0] == '+' { s.skip(1) } else { s };
        let v = if neg { -digits_value(body) } else { digits_value(body) };
        if body.len() == 0 || !all_digits(body) || v < i32::MIN || v > i32::MAX {
            None
        } else {
            Some(v as i32)
        }
    }
}

/// The decimal digits of `n`, most significant first, without leading zeros.
pub open spec fn decimal_digits(n: nat) -> Seq<char>
    decreases n,
{
    if n < 10 {
        seq![digit_char(n)]
    } else {
        decimal_digits(n / 10).push(digit_char(n % 10))
    }
}

/// Exactly three digits for `n < 1000`, zero-padded.
pub open spec fn three_digits(n: nat) -> Seq<char> {
    seq![digit_char(n / 100), digit_char((n / 10) % 10), digit_char(n % 10)]
}

/// `n` in decimal with a comma between each group of three digits.
pub open spec fn grouped_digits(n: nat) -> Seq<char>
    decreases n,
{
    if n < 1000 {
        decimal_digits(n)
    } else {
        grouped_digits(n / 1000) + seq![','] + three_digits(n % 1000)
    }
}

/// A signed integer written with a leading `-` when negative and its
/// magnitude grouped by commas, as in "-1,234,567".
pub open spec fn grouped_decimal(n: int) -> Seq<char> {
    if n < 0 {
        seq!['-'] + grouped_digits((-n) as nat)
    } else {
        grouped_digits(n as nat)
    }
}

/// `s` with every comma removed.
pub open spec fn without_commas(s: Seq<char>) -> Seq<char>
    decreases s.len(),
{
    if s.len() == 0 {
        s
    } else if s.last() == ',' {
        without_commas(s.drop_last())
    } else {
        without_commas(s.drop_last()).push(s.last())
    }
}

proof fn lemma_digits_value_nonneg(s: Seq<char>)
    requires
        all_digits(s),
    ensures
        digits_value(s) >= 0,
    decreases s.len(),
{
    if s.len() > 0 {
        assert(is_digit(s[s.len() - 1]));
        lemma_digits_value_nonneg(s.drop_last());
    }
}

/// A prefix of a digit string never has a larger value than the whole.
proof fn lemma_digits_value_prefix(s: Seq<char>, k: int)
    requires
        all_digits(s),
        0 <= k <= s.len(),
    ensures
        digits_value(s.take(k)) <= digits_value(s),
    decreases s.len(),
{
    if k < s.len() {
        assert(is_digit(s[s.len() - 1]));
        assert(all_digits(s.drop_last()));
        lemma_digits_value_prefix(s.drop_last(), k);
        assert(s.drop_last().take(k) =~= s.take(k));
        lemma_digits_value_nonneg(s.drop_last());
    } else {
        assert(s.take(k) =~= s);
    }
}

/// `str::parse::<i32>` on a sequence of characters.
pub fn parse_i32(s: &[char]) -> (r: Option<i32>)
    ensures
        r == parsed_i32(s@),
{
    let n = s.len();
    if n == 0 {
        return None;
    }
    let neg = s[0] == '-';
    let start: usize = if s[0] == '-' || s[0] == '+' { 1 } else { 0 };
    let ghost body = if s@[0] == '-' || s@[0] == '+' { s@.skip(1) } else { s@ };
    assert(body =~= s@.skip(start as int));
    if start == n {
        return None;
    }
    let mut v: i64 = 0;
    let mut i: usize = start;
    while i < n
        invariant
            n == s@.len(),
            n > 0,
            neg == (s@[0] == '-'),
            body == (if s@[0] == '-' || s@[0] == '+' { s@.skip(1) } else { s@ }),
            body.len() > 0,
            start <= i <= n,
            body == s@.skip(start as int),
            all_digits(body.take(i - start)),
            v == digits_value(body.take(i - start)),
            0 <= v <= 2147483648,
        decreases n - i,
    {
        let c = s[i];
        if !('0' <= c && c <= '9') {
            assert(body[i - start] == c);
            assert(!all_digits(body));
            return None;
        }
        let d = (c as u32 - '0' as u32) as i64;
        let ghost pre = body.take(i - start);
        assert(body.take(i + 1 - start).drop_last() =~= pre);
        assert(body.take(i + 1 - start).last() == c);
        v = v * 10 + d;
        i = i + 1;
        assert(all_digits(body.take(i - start))) by {
            assert forall|j: int| 0 <= j < body.take(i - start).len() implies is_digit(
                #[trigger] body.take(i - start)[j],
            ) by {
                if j < i - 1 - start {
                    assert(body.take(i - start)[j] == pre[j]);
                }
            }
        }
        if v > 2147483648 {
            proof {
                if all_digits(body) {
                    lemma_digits_value_prefix(body, i - start);
                }
            }
            return None;
        }
    }
    assert(body.take(n - start) =~= body);
    if neg {
        Some((-v) as i32)
    } else if v > 2147483647 {
        None
    } else {
        Some(v as i32)
    }
}

/// `s` with its commas taken out, the rest in order.
pub fn strip_commas(s: &[char]) -> (r: Vec<char>)
    ensures
        r@ == without_commas(s@),
{
    let mut r: Vec<char> = Vec::new();
    for i in 0..s.len()
        invariant
            r@ == without_commas(s@.take(i as int)),
    {
        assert(s@.take(i + 1).drop_last() =~= s@.take(i as int));
        if s[i] != ',' {
            r.push(s[i]);
        }
    }
    assert(s@.take(s.len() as int) =~= s@);
    r
}

/// The ASCII digit character for a value below ten.
fn digit_to_char(d: u32) -> (c: char)
    requires
        d < 10,
    ensures
        c == digit_char(d as nat),
        is_digit(c),
        digit_value(c) == d,
{
    let c = ((d + 48) as u8) as char;
    c
}

/// The decimal digits of `n`, most significant first.
pub fn decimal_chars(n: u32) -> (v: Vec<char>)
    ensures
        v@ == decimal_digits(n as nat),
    decreases n,
{
    if n < 10 {
        let mut v = Vec::new();
        v.push(digit_to_char(n));
        assert(v@ =~= seq![digit_char(n as nat)]);
        v
    } else {
        let mut v = decimal_chars(n / 10);
        v.push(digit_to_char(n % 10));
        v
    }
}

/// Ten to the power `k`.
pub open spec fn pow10(k: nat) -> int
    decreases k,
{
    if k == 0 {
        1
    } else {
        10 * pow10((k - 1) as nat)
    }
}

proof fn lemma_digits_value_concat(a: Seq<char>, b: Seq<char>)
    ensures
        digits_value(a + b) == digits_value(a) * pow10(b.len()) + digits_value(b),
    decreases b.len(),
{
    if b.len() == 0 {
        assert(a + b =~= a);
    } else {
        assert((a + b).drop_last() =~= a + b.drop_last());
        assert((a + b).last() == b.last());
        lemma_digits_value_concat(a, b.drop_last());
        let p = pow10(b.drop_last().len());
        assert(pow10(b.len()) == 10 * p);
        assert((digits_value(a) * p + digits_value(b.drop_last())) * 10 + digit_value(b.last())
            == digits_value(a) * (10 * p) + (digits_value(b.drop_last()) * 10 + digit_value(
            b.last(),
        ))) by (nonlinear_arith);
    }
}

proof fn lemma_digit_char(d: nat)
    requires
        d < 10,
    ensures
        is_digit(digit_char(d)),
        digit_value(digit_char(d)) == d,
        digit_char(d) != ',',
{
}

proof fn lemma_all_digits_concat(a: Seq<char>, b: Seq<char>)
    requires
        all_digits(a),
        all_digits(b),
    ensures
        all_digits(a + b),
{
    assert forall|i: int| 0 <= i < (a + b).len() implies is_digit(#[trigger] (a + b)[i]) by {
        if i < a.len() {
            assert((a + b)[i] == a[i]);
        } else {
            assert((a + b)[i] == b[i - a.len()]);
        }
    }
}

proof fn lemma_decimal_digits(n: nat)
    ensures
        all_digits(decimal_digits(n)),
        digits_value(decimal_digits(n)) == n,
        decimal_digits(n).len() > 0,
    decreases n,
{
    lemma_digit_char(n % 10);
    if n < 10 {
        let s = decimal_digits(n);
        assert(s.drop_last() =~= Seq::<char>::empty());
        assert(digits_value(Seq::<char>::empty()) == 0);
        assert(s.last() == digit_char(n));
    } else {
        lemma_decimal_digits(n / 10);
        let s = decimal_digits(n);
        assert(s.drop_last() =~= decimal_digits(n / 10));
        lemma_all_digits_concat(decimal_digits(n / 10), seq![digit_char(n % 10)]);
        assert(s =~= decimal_digits(n / 10) + seq![digit_char(n % 10)]);
        assert(s.last() == digit_char(n % 10));
        assert((n / 10) * 10 + n % 10 == n);
    }
}

proof fn lemma_without_commas_concat(a: Seq<char>, b: Seq<char>)
    ensures
        without_commas(a + b) == without_commas(a) + without_commas(b),
    decreases b.len(),
{
    if b.len() == 0 {
        assert(a + b =~= a);
        assert(without_commas(a) + without_commas(b) =~= without_commas(a));
    } else {
        assert((a + b).drop_last() =~= a + b.drop_last());
        lemma_without_commas_concat(a, b.drop_last());
        if b.last() != ',' {
            assert(without_commas(a) + without_commas(b.drop_last()).push(b.last())
                =~= (without_commas(a) + without_commas(b.drop_last())).push(b.last()));
        }
    }
}

proof fn lemma_without_commas_digits(s: Seq<char>)
    requires
        all_digits(s),
    ensures
        without_commas(s) == s,
    decreases s.len(),
{
    if s.len() > 0 {
        assert(is_digit(s[s.len() - 1]));
        assert(all_digits(s.drop_last()));
        lemma_without_commas_digits(s.drop_last());
        assert(s.drop_last().push(s.last()) =~= s);
    }
}

proof fn lemma_three_digits(m: nat)
    requires
        m < 1000,
    ensures
        all_digits(three_digits(m)),
        digits_value(three_digits(m)) == m,
        three_digits(m).len() == 3,
{
    lemma_digit_char(m / 100);
    lemma_digit_char((m / 10) % 10);
    lemma_digit_char(m % 10);
    let s = three_digits(m);
    assert(s.drop_last().drop_last().drop_last() =~= Seq::<char>::empty());
    assert(s.drop_last().drop_last() =~= seq![digit_char(m / 100)]);
    assert(s.drop_last() =~= seq![digit_char(m / 100), digit_char((m / 10) % 10)]);
    assert(digits_value(Seq::<char>::empty()) == 0);
    assert(digits_value(s.drop_last().drop_last()) == m / 100);
    assert(digits_value(s.drop_last()) == (m / 100) * 10 + (m / 10) % 10);
    assert(digits_value(s) == ((m / 100) * 10 + (m / 10) % 10) * 10 + m % 10);
    assert((m / 100) * 100 + ((m / 10) % 10) * 10 + m % 10 == m) by (nonlinear_arith)
        requires
            m < 1000,
    ;
}

proof fn lemma_grouped_digits_read_back(n: nat)
    ensures
        all_digits(without_commas(grouped_digits(n))),
        digits_value(without_commas(grouped_digits(n))) == n,
        without_commas(grouped_digits(n)).len() > 0,
    decreases n,
{
    if n < 1000 {
        lemma_decimal_digits(n);
        lemma_without_commas_digits(decimal_digits(n));
    } else {
        let hi = grouped_digits(n / 1000);
        let lo = three_digits(n % 1000);
        lemma_grouped_digits_read_back(n / 1000);
        lemma_three_digits(n % 1000);
        lemma_without_commas_concat(hi + seq![','], lo);
        lemma_without_commas_concat(hi, seq![',']);
        assert(without_commas(seq![',']) =~= Seq::<char>::empty()) by {
            let c: Seq<char> = seq![','];
            assert(c.len() == 1);
            assert(c.drop_last() =~= Seq::<char>::empty());
            assert(c.last() == ',');
            assert(without_commas(c) == without_commas(c.drop_last()));
            assert(without_commas(Seq::<char>::empty()) =~= Seq::<char>::empty());
        }
        lemma_without_commas_digits(lo);
        let w = without_commas(hi) + lo;
        assert(without_commas(grouped_digits(n)) =~= w) by {
            assert(without_commas(hi) + Seq::<char>::empty() =~= without_commas(hi));
        }
        lemma_all_digits_concat(without_commas(hi), lo);
        lemma_digits_value_concat(without_commas(hi), lo);
        assert(pow10(3) == 1000) by {
            reveal_with_fuel(pow10, 4);
        }
        assert((n / 1000) * 1000 + n % 1000 == n);
    }
}

/// A non-negative `i32`, written with its thousands grouped by commas, reads
/// back as the same number once the commas are taken out and the rest is
/// parsed as an `i32`.
pub proof fn lemma_grouped_number_reads_back(n: i32)
    requires
        n >= 0,
    ensures
        parsed_i32(without_commas(grouped_decimal(n as int))) == Some(n),
{
    lemma_grouped_digits_read_back(n as nat);
    let s = without_commas(grouped_decimal(n as int));
    assert(is_digit(s[0]));
    assert(s.skip(0) =~= s);
}

} // verus!
