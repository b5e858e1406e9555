//! Integer text as store record keys spell it: plain decimal, zero-padded
//! decimal (the sign counts toward the width, as in `{:010}`), and
//! zero-padded lowercase hexadecimal.
use vstd::prelude::*;

verus! {

/// The character of one digit, `0`..`9` then `a`..`f`.
pub open spec fn digit_char(d: nat) -> char {
    if d == 0 {
        '0'
    } else if d == 1 {
        '1'
    } else if d == 2 {
        '2'
    } else if d == 3 {
        '3'
    } else if d == 4 {
        '4'
    } else if d == 5 {
        '5'
    } else if d == 6 {
        '6'
    } else if d == 7 {
        '7'
    } else if d == 8 {
        '8'
    } else if d == 9 {
        '9'
    } else if d == 10 {
        'a'
    } else if d == 11 {
        'b'
    } else if d == 12 {
        'c'
    } else if d == 13 {
        'd'
    } else if d == 14 {
        'e'
    } else {
        'f'
    }
}

/// The digits of `n` in `base`, most significant first, without leading zeros.
pub open spec fn digits(n: nat, base: nat) -> Seq<char>
    decreases n,
{
    if base < 2 || n < base {
        seq![digit_char(n)]
    } else {
        proof {
            vstd::arithmetic::div_mod::lemma_div_decreases(n as int, base as int);
        }
        digits(n / base, base).push(digit_char(n % base))
    }
}

/// `count` zero characters.
pub open spec fn zeros(count: int) -> Seq<char> {
    Seq::new(count as nat, |i: int| '0')
}

/// `text` left-padded with zeros to at least `width` characters.
pub open spec fn zero_padded(text: Seq<char>, width: int) -> Seq<char> {
    if text.len() >= width {
        text
    } else {
        zeros(width - text.len()) + text
    }
}

/// Plain decimal text of an integer.
pub open spec fn decimal(value: int) -> Seq<char> {
    if value < 0 {
        seq!['-'] + digits((-value) as nat, 10)
    } else {
        digits(value as nat, 10)
    }
}

/// Decimal text zero-padded to `width`, the sign counting toward the width.
pub open spec fn padded_decimal(value: int, width: int) -> Seq<char> {
    if value < 0 {
        seq!['-'] + zero_padded(digits((-value) as nat, 10), width - 1)
    } else {
        zero_padded(digits(value as nat, 10), width)
    }
}

/// Lowercase hexadecimal text zero-padded to `width`.
pub open spec fn padded_hex(value: nat, width: int) -> Seq<char> {
    zero_padded(digits(value, 16), width)
}

/// Every character of a digit string is a digit of its base.
pub proof fn lemma_digits_are_digits(n: nat, base: nat)
    requires
        base == 10,
    ensures
        digits(n, base).len() >= 1,
        forall|i: int| 0 <= i < digits(n, base).len() ==> '0' <= #[trigger] digits(n, base)[i] <= '9',
    decreases n,
{
    if !(base < 2 || n < base) {
        lemma_digits_are_digits(n / base, base);
        let head = digits(n / base, base);
        assert forall|i: int| 0 <= i < digits(n, base).len() implies '0' <= #[trigger] digits(n, base)[i]
            <= '9' by {
            if i < head.len() {
                assert(digits(n, base)[i] == head[i]);
            }
        }
    }
}

// ---------------------------------------------------------------------------
// How zero-padded decimal text sorts
// ---------------------------------------------------------------------------

/// The value of a decimal digit character.
pub open spec fn digit_value(c: char) -> int {
    c as int - '0' as int
}

/// Every character of `text` is a decimal digit.
pub open spec fn decimal_digits(text: Seq<char>) -> bool {
    forall|i: int| 0 <= i < text.len() ==> '0' <= #[trigger] text[i] <= '9'
}

/// The number a decimal digit string spells.
pub open spec fn decimal_value(text: Seq<char>) -> int
    decreases text.len(),
{
    if text.len() == 0 {
        0
    } else {
        10 * decimal_value(text.drop_last()) + digit_value(text.last())
    }
}

/// Ten to the power `w`.
pub open spec fn ten_to(w: nat) -> nat
    decreases w,
{
    if w == 0 {
        1
    } else {
        10 * ten_to((w - 1) as nat)
    }
}

/// `a` sorts strictly before `b`: at their first difference, `a` has the
/// smaller character.
pub open spec fn sorts_before(a: Seq<char>, b: Seq<char>) -> bool {
    exists|i: int|
        #![trigger a.take(i), b.take(i)]
        0 <= i < a.len() && i < b.len() && a.take(i) == b.take(i) && (a[i] as int) < (b[i] as int)
}

proof fn lemma_digit_char_value(d: nat)
    requires
        d < 10,
    ensures
        digit_value(digit_char(d)) == d,
        '0' <= digit_char(d) <= '9',
{
}

/// The digits of `n` spell `n`.
pub proof fn lemma_digits_value(n: nat)
    ensures
        decimal_value(digits(n, 10)) == n,
        decimal_digits(digits(n, 10)),
    decreases n,
{
    lemma_digits_are_digits(n, 10);
    if n < 10 {
        lemma_digit_char_value(n);
        assert(digits(n, 10).drop_last() =~= Seq::<char>::empty());
        assert(decimal_value(Seq::<char>::empty()) == 0);
    } else {
        lemma_digits_value(n / 10);
        lemma_digit_char_value(n % 10);
        assert(digits(n, 10).drop_last() =~= digits(n / 10, 10));
        assert(digits(n, 10).last() == digit_char(n % 10));
        assert(n == 10 * (n / 10) + n % 10);
    }
}

/// A number below ten to the `w` has at most `w` digits.
proof fn lemma_digits_len(n: nat, w: nat)
    requires
        w >= 1,
        n < ten_to(w),
    ensures
        digits(n, 10).len() <= w,
    decreases n,
{
    if n >= 10 {
        if w == 1 {
            assert(ten_to(1) == 10) by {
                reveal_with_fuel(ten_to, 2);
            }
        } else {
            assert(n / 10 < ten_to((w - 1) as nat));
            lemma_digits_len(n / 10, (w - 1) as nat);
        }
    }
}

/// Leading zeros change neither the value nor the digit-ness of a string.
proof fn lemma_zeros_value(count: nat, text: Seq<char>)
    requires
        decimal_digits(text),
    ensures
        decimal_value(zeros(count as int) + text) == decimal_value(text),
        decimal_digits(zeros(count as int) + text),
    decreases text.len() + count,
{
    let padded = zeros(count as int) + text;
    if text.len() > 0 {
        lemma_zeros_value(count, text.drop_last());
        assert(padded.drop_last() =~= zeros(count as int) + text.drop_last());
    } else if count > 0 {
        lemma_zeros_value((count - 1) as nat, text);
        assert(padded.drop_last() =~= zeros(count - 1) + text);
    } else {
        assert(padded =~= text);
    }
}

/// Two digit strings of one length with one value are the same string.
proof fn lemma_value_injective(a: Seq<char>, b: Seq<char>)
    requires
        a.len() == b.len(),
        decimal_digits(a),
        decimal_digits(b),
        decimal_value(a) == decimal_value(b),
    ensures
        a == b,
    decreases a.len(),
{
    if a.len() > 0 {
        let last = a.len() - 1;
        assert(decimal_digits(a.drop_last()));
        assert(decimal_digits(b.drop_last()));
        assert('0' <= a[last] <= '9');
        assert('0' <= b[last] <= '9');
        assert(decimal_value(a.drop_last()) == decimal_value(b.drop_last()));
        lemma_value_injective(a.drop_last(), b.drop_last());
        assert(a[last] as int == b[last] as int);
        assert(a[last] == b[last]);
        assert forall|i: int| 0 <= i < a.len() implies a[i] == b[i] by {
            if i < last {
                assert(a[i] == a.drop_last()[i]);
                assert(b[i] == b.drop_last()[i]);
            }
        }
        assert(a =~= b);
    } else {
        assert(a =~= b);
    }
}

/// Of two digit strings of one length, the one with the smaller value sorts
/// first.
proof fn lemma_value_order(a: Seq<char>, b: Seq<char>)
    requires
        a.len() == b.len(),
        decimal_digits(a),
        decimal_digits(b),
        decimal_value(a) < decimal_value(b),
    ensures
        sorts_before(a, b),
    decreases a.len(),
{
    let last = a.len() - 1;
    let head_a = a.drop_last();
    let head_b = b.drop_last();
    assert(decimal_digits(head_a));
    assert(decimal_digits(head_b));
    assert('0' <= a[last] <= '9');
    assert('0' <= b[last] <= '9');
    if decimal_value(head_a) < decimal_value(head_b) {
        lemma_value_order(head_a, head_b);
        let i = choose|i: int|
            #![trigger head_a.take(i), head_b.take(i)]
            0 <= i < head_a.len() && i < head_b.len() && head_a.take(i) == head_b.take(i) && (
            head_a[i] as int) < (head_b[i] as int);
        assert(a.take(i) =~= head_a.take(i));
        assert(b.take(i) =~= head_b.take(i));
    } else if decimal_value(head_a) == decimal_value(head_b) {
        lemma_value_injective(head_a, head_b);
        assert(a.take(last) =~= head_a);
        assert(b.take(last) =~= head_b);
    } else {
        assert(decimal_value(a) >= decimal_value(b));
    }
}

/// Putting one prefix before two strings keeps which sorts first.
pub proof fn lemma_prefix_keeps_order(prefix: Seq<char>, a: Seq<char>, b: Seq<char>)
    requires
        sorts_before(a, b),
    ensures
        sorts_before(prefix + a, prefix + b),
{
    let i = choose|i: int|
        #![trigger a.take(i), b.take(i)]
        0 <= i < a.len() && i < b.len() && a.take(i) == b.take(i) && (a[i] as int) < (b[i] as int);
    let j = prefix.len() + i;
    assert((prefix + a).take(j) =~= prefix + a.take(i));
    assert((prefix + b).take(j) =~= prefix + b.take(i));
    assert((prefix + a)[j] == a[i]);
    assert((prefix + b)[j] == b[i]);
}

/// Zero-padded decimal text of non-negative numbers below ten to the width
/// sorts as the numbers do.
pub proof fn lemma_padded_decimal_order(a: int, b: int, width: nat)
    requires
        width >= 1,
        0 <= a < b,
        b < ten_to(width),
    ensures
        sorts_before(padded_decimal(a, width as int), padded_decimal(b, width as int)),
{
    lemma_digits_len(a as nat, width);
    lemma_digits_len(b as nat, width);
    lemma_digits_value(a as nat);
    lemma_digits_value(b as nat);
    let digits_a = digits(a as nat, 10);
    let digits_b = digits(b as nat, 10);
    lemma_zeros_value((width - digits_a.len()) as nat, digits_a);
    lemma_zeros_value((width - digits_b.len()) as nat, digits_b);
    let padded_a = zero_padded(digits_a, width as int);
    let padded_b = zero_padded(digits_b, width as int);
    if digits_a.len() == width {
        assert(zeros(0) + digits_a =~= digits_a);
    }
    if digits_b.len() == width {
        assert(zeros(0) + digits_b =~= digits_b);
    }
    assert(padded_a == zeros((width - digits_a.len()) as nat as int) + digits_a);
    assert(padded_b == zeros((width - digits_b.len()) as nat as int) + digits_b);
    lemma_value_order(padded_a, padded_b);
}

fn digit_text(digit: u64) -> (text: &'static str)
    requires
        digit < 16,
    ensures
        text@ == seq![digit_char(digit as nat)],
{
    proof {
        reveal_strlit("0");
        reveal_strlit("1");
        reveal_strlit("2");
        reveal_strlit("3");
        reveal_strlit("4");
        reveal_strlit("5");
        reveal_strlit("6");
        reveal_strlit("7");
        reveal_strlit("8");
        reveal_strlit("9");
        reveal_strlit("a");
        reveal_strlit("b");
        reveal_strlit("c");
        reveal_strlit("d");
        reveal_strlit("e");
        reveal_strlit("f");
    }
    if digit == 0 {
        "0"
    } else if digit == 1 {
        "1"
    } else if digit == 2 {
        "2"
    } else if digit == 3 {
        "3"
    } else if digit == 4 {
        "4"
    } else if digit == 5 {
        "5"
    } else if digit == 6 {
        "6"
    } else if digit == 7 {
        "7"
    } else if digit == 8 {
        "8"
    } else if digit == 9 {
        "9"
    } else if digit == 10 {
        "a"
    } else if digit == 11 {
        "b"
    } else if digit == 12 {
        "c"
    } else if digit == 13 {
        "d"
    } else if digit == 14 {
        "e"
    } else {
        "f"
    }
}

/// Append the digits of `n` in `base`.
fn append_digits(out: &mut String, n: u64, base: u64)
    requires
        2 <= base <= 16,
    ensures
        final(out)@ == old(out)@ + digits(n as nat, base as nat),
    decreases n,
{
    if n >= base {
        proof {
            vstd::arithmetic::div_mod::lemma_div_decreases(n as int, base as int);
        }
        append_digits(out, n / base, base);
    }
    let digit = n % base;
    out.append(digit_text(digit));
    proof {
        if n >= base {
            assert(digits(n as nat, base as nat) == digits((n / base) as nat, base as nat).push(
                digit_char((n % base) as nat),
            ));
            assert(old(out)@ + digits((n / base) as nat, base as nat) + seq![digit_char((n % base) as nat)]
                =~= old(out)@ + digits(n as nat, base as nat));
        } else {
            assert(n % base == n) by (nonlinear_arith)
                requires
                    n < base,
            ;
            assert(old(out)@ + seq![digit_char(n as nat)] =~= old(out)@ + digits(n as nat, base as nat));
        }
    }
}

/// How many digits `n` has in `base`.
fn digit_count(n: u64, base: u64) -> (count: u64)
    requires
        2 <= base <= 16,
    ensures
        count == digits(n as nat, base as nat).len(),
        count <= n + 1,
    decreases n,
{
    if n >= base {
        proof {
            vstd::arithmetic::div_mod::lemma_div_decreases(n as int, base as int);
        }
        let inner = digit_count(n / base, base);
        assert(n / base <= n / 2) by (nonlinear_arith)
            requires
                base >= 2,
        ;
        inner + 1
    } else {
        1
    }
}

/// Append `count` zero characters.
fn append_zeros(out: &mut String, count: usize)
    ensures
        final(out)@ == old(out)@ + zeros(count as int),
{
    proof {
        reveal_strlit("0");
    }
    let mut added: usize = 0;
    while added < count
        invariant
            added <= count,
            out@ == old(out)@ + zeros(added as int),
        decreases count - added,
    {
        proof {
            reveal_strlit("0");
        }
        out.append("0");
        added = added + 1;
        proof {
            assert(old(out)@ + zeros((added - 1) as int) + seq!['0'] =~= old(out)@ + zeros(added as int));
        }
    }
}

/// Append the digits of `n` in `base`, zero-padded to `width`.
fn append_padded(out: &mut String, n: u64, base: u64, width: usize)
    requires
        2 <= base <= 16,
    ensures
        final(out)@ == old(out)@ + zero_padded(digits(n as nat, base as nat), width as int),
{
    let count = digit_count(n, base);
    if count < width as u64 {
        append_zeros(out, width - count as usize);
    }
    append_digits(out, n, base);
    proof {
        if count < width as u64 {
            assert(old(out)@ + zeros((width - count) as int) + digits(n as nat, base as nat) =~= old(out)@
                + zero_padded(digits(n as nat, base as nat), width as int));
        }
    }
}

/// The magnitude of an `i64`, as a `u64`.
fn magnitude(value: i64) -> (m: u64)
    ensures
        m as int == if value < 0 {
            -value
        } else {
            value as int
        },
{
    if value == i64::MIN {
        9_223_372_036_854_775_808u64
    } else if value < 0 {
        (-value) as u64
    } else {
        value as u64
    }
}

/// Plain decimal text of `value`.
pub fn decimal_text(value: i64) -> (text: String)
    ensures
        text@ == decimal(value as int),
{
    let mut text = String::new();
    if value < 0 {
        text.append("-");
    }
    append_digits(&mut text, magnitude(value), 10);
    proof {
        reveal_strlit("-");
    }
    text
}

/// Plain decimal text of an unsigned `value`.
pub fn unsigned_decimal_text(value: u64) -> (text: String)
    ensures
        text@ == decimal(value as int),
{
    let mut text = String::new();
    append_digits(&mut text, value, 10);
    text
}

/// Append `value` as decimal text zero-padded to `width`.
pub fn append_padded_decimal(out: &mut String, value: i64, width: usize)
    ensures
        final(out)@ == old(out)@ + padded_decimal(value as int, width as int),
{
    proof {
        reveal_strlit("-");
    }
    if value < 0 {
        out.append("-");
        let body_width: usize = if width == 0 {
            0
        } else {
            width - 1
        };
        append_padded(out, magnitude(value), 10, body_width);
        proof {
            lemma_digits_are_digits((-value) as nat, 10);
            assert(zero_padded(digits((-value) as nat, 10), body_width as int) == zero_padded(
                digits((-value) as nat, 10),
                width - 1,
            ));
            assert(old(out)@ + seq!['-'] + zero_padded(digits((-value) as nat, 10), width - 1) =~= old(out)@
                + padded_decimal(value as int, width as int));
        }
    } else {
        append_padded(out, value as u64, 10, width);
    }
}

/// Append `value` as lowercase hexadecimal text zero-padded to `width`.
pub fn append_padded_hex(out: &mut String, value: u64, width: usize)
    ensures
        final(out)@ == old(out)@ + padded_hex(value as nat, width as int),
{
    append_padded(out, value, 16, width);
}

} // verus!
