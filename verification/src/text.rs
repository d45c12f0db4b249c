//! Decimal numbers and separated lists as text.

use vstd::prelude::*;

verus! {

/// The character of one decimal digit.
pub open spec fn digit_char(d: int) -> char {
    if d == 0 {
        '0'
    } else if d == 1 {
        '1'
    } else if d == 2 {
        '2'
    } else if d == 3 {
        '3'
    } else if d == 4 {
        '4'
    } else if d == 5 {
        '5'
    } else if d == 6 {
        '6'
    } else if d == 7 {
        '7'
    } else if d == 8 {
        '8'
    } else {
        '9'
    }
}

/// The decimal digits of `n`, most significant first, without leading zeros.
pub open spec fn decimal(n: nat) -> Seq<char>
    decreases n,
{
    if n < 10 {
        seq![digit_char(n as int)]
    } else {
        decimal(n / 10).push(digit_char((n % 10) as int))
    }
}

/// `k` zeros.
pub open spec fn zeros(k: nat) -> Seq<char> {
    Seq::new(k, |i: int| '0')
}

/// The decimal digits of `n`, with zeros in front up to `width` characters.
pub open spec fn padded(n: nat, width: nat) -> Seq<char> {
    if decimal(n).len() < width {
        zeros((width - decimal(n).len()) as nat) + decimal(n)
    } else {
        decimal(n)
    }
}

/// The decimal digits of `n`, after a minus sign where `n` is negative.
pub open spec fn signed_decimal(n: int) -> Seq<char> {
    if n < 0 {
        seq!['-'] + decimal((-n) as nat)
    } else {
        decimal(n as nat)
    }
}

/// Whether `s` holds no `c`.
pub open spec fn lacks(s: Seq<char>, c: char) -> bool {
    forall|i: int| 0 <= i < s.len() ==> s[i] != c
}

/// Whether `s` holds no `c`.
pub fn lacks_char(s: &str, c: char) -> (out: bool)
    ensures
        out == lacks(s@, c),
{
    let chars = s.chars();
    for x in it: chars
        invariant
            it.seq() == s@,
            forall|k: int| 0 <= k < it.index() ==> s@[k] != c,
    {
        if x == c {
            return false;
        }
    }
    true
}

/// Whether `s` holds no dollar sign.
pub open spec fn dollar_free(s: Seq<char>) -> bool {
    lacks(s, '$')
}

/// The items in order, with `sep` between each two neighbours.
pub open spec fn joined(items: Seq<Seq<char>>, sep: Seq<char>) -> Seq<char>
    decreases items.len(),
{
    if items.len() == 0 {
        Seq::empty()
    } else if items.len() == 1 {
        items[0]
    } else {
        joined(items.drop_last(), sep) + sep + items.last()
    }
}

/// Appends one decimal digit.
fn push_digit(out: &mut String, d: u64)
    requires
        d < 10,
    ensures
        final(out)@ == old(out)@.push(digit_char(d as int)),
{
    proof {
        reveal_strlit("0");
        reveal_strlit("1");
        reveal_strlit("2");
        reveal_strlit("3");
        reveal_strlit("4");
        reveal_strlit("5");
        reveal_strlit("6");
        reveal_strlit("7");
        reveal_strlit("8");
        reveal_strlit("9");
    }
    let digit: &str = if d == 0 {
        "0"
    } else if d == 1 {
        "1"
    } else if d == 2 {
        "2"
    } else if d == 3 {
        "3"
    } else if d == 4 {
        "4"
    } else if d == 5 {
        "5"
    } else if d == 6 {
        "6"
    } else if d == 7 {
        "7"
    } else if d == 8 {
        "8"
    } else {
        "9"
    };
    assert(digit@ =~= seq![digit_char(d as int)]);
    out.append(digit);
    assert(out@ =~= old(out)@.push(digit_char(d as int)));
}

/// Appends the decimal digits of `n`.
pub fn push_decimal(out: &mut String, n: u64)
    ensures
        final(out)@ == old(out)@ + decimal(n as nat),
    decreases n,
{
    if n >= 10 {
        push_decimal(out, n / 10);
    }
    push_digit(out, n % 10);
    assert(out@ =~= old(out)@ + decimal(n as nat));
}

/// The number of decimal digits of `n`.
pub fn decimal_len(n: u64) -> (len: usize)
    ensures
        len == decimal(n as nat).len(),
        1 <= len <= 20,
{
    let mut len: usize = 1;
    let mut rest: u64 = n;
    proof {
        assert(pow10(20) > u64::MAX) by {
            reveal_with_fuel(pow10, 21);
        }
        lemma_decimal_len_bound(n as nat, 20);
    }
    while rest >= 10
        invariant
            1 <= len,
            len + decimal(rest as nat).len() == decimal(n as nat).len() + 1,
            decimal(n as nat).len() <= 20,
        decreases rest,
    {
        rest = rest / 10;
        len = len + 1;
    }
    len
}

/// Ten to the power `k`.
pub open spec fn pow10(k: nat) -> nat
    decreases k,
{
    if k == 0 {
        1
    } else {
        10 * pow10((k - 1) as nat)
    }
}

/// A number below ten to the power `k` has at most `k` digits.
pub proof fn lemma_decimal_len_bound(n: nat, k: nat)
    requires
        n < pow10(k),
        k >= 1,
    ensures
        decimal(n).len() <= k,
    decreases n,
{
    if n >= 10 {
        if k == 1 {
            reveal_with_fuel(pow10, 3);
        } else {
            lemma_decimal_len_bound(n / 10, (k - 1) as nat);
        }
    }
}

/// Appends the decimal digits of `n`, with zeros in front up to `width`
/// characters.
pub fn push_padded(out: &mut String, n: u64, width: usize)
    ensures
        final(out)@ == old(out)@ + padded(n as nat, width as nat),
{
    let len: usize = decimal_len(n);
    let mut done: usize = len;
    while done < width
        invariant
            len <= done,
            len < width ==> done <= width,
            len >= width ==> done == len,
            out@ == old(out)@ + zeros((done - len) as nat),
        decreases width - done,
    {
        proof {
            reveal_strlit("0");
        }
        out.append("0");
        done = done + 1;
        assert(out@ =~= old(out)@ + zeros((done - len) as nat));
    }
    let ghost before = out@;
    push_decimal(out, n);
    assert(out@ =~= old(out)@ + padded(n as nat, width as nat)) by {
        if len < width {
            assert(before + decimal(n as nat) =~= old(out)@ + (zeros((width - len) as nat)
                + decimal(n as nat)));
        } else {
            assert(zeros(0) =~= Seq::<char>::empty());
            assert(before =~= old(out)@);
        }
    }
}

/// Appends the decimal digits of `n`, after a minus sign where `n` is
/// negative.
pub fn push_signed(out: &mut String, n: i64)
    ensures
        final(out)@ == old(out)@ + signed_decimal(n as int),
{
    if n < 0 {
        proof {
            reveal_strlit("-");
        }
        out.append("-");
        let below: i64 = -(n + 1);
        let size: u64 = below as u64 + 1;
        push_decimal(out, size);
        assert(out@ =~= old(out)@ + signed_decimal(n as int));
    } else {
        push_decimal(out, n as u64);
    }
}

/// The views of the strings of a list.
pub open spec fn views(items: Seq<String>) -> Seq<Seq<char>> {
    items.map_values(|s: String| s@)
}

/// Appends the items in order, with `sep` between each two neighbours.
pub fn push_joined(out: &mut String, items: &Vec<String>, sep: &str)
    ensures
        final(out)@ == old(out)@ + joined(views(items@), sep@),
{
    let mut i: usize = 0;
    while i < items.len()
        invariant
            i <= items.len(),
            out@ == old(out)@ + joined(views(items@).take(i as int), sep@),
        decreases items.len() - i,
    {
        let ghost all = views(items@);
        proof {
            assert(all.take(i as int + 1).drop_last() =~= all.take(i as int));
            assert(all.take(i as int + 1).last() == items[i as int]@);
        }
        if i > 0 {
            out.append(sep);
        }
        out.append(items[i].as_str());
        i = i + 1;
        assert(out@ =~= old(out)@ + joined(all.take(i as int), sep@));
    }
    assert(views(items@).take(i as int) =~= views(items@));
}

/// The value of one decimal digit.
pub open spec fn digit_value(c: char) -> nat {
    if c == '1' {
        1
    } else if c == '2' {
        2
    } else if c == '3' {
        3
    } else if c == '4' {
        4
    } else if c == '5' {
        5
    } else if c == '6' {
        6
    } else if c == '7' {
        7
    } else if c == '8' {
        8
    } else if c == '9' {
        9
    } else {
        0
    }
}

/// The number that a run of decimal digits stands for.
pub open spec fn decimal_value(digits: Seq<char>) -> nat
    decreases digits.len(),
{
    if digits.len() == 0 {
        0
    } else {
        decimal_value(digits.drop_last()) * 10 + digit_value(digits.last())
    }
}

/// Reading the digits of a number gives the number back.
pub proof fn lemma_decimal_value(n: nat)
    ensures
        decimal_value(decimal(n)) == n,
    decreases n,
{
    if n < 10 {
        assert(decimal(n).drop_last() =~= Seq::<char>::empty());
        assert(decimal_value(decimal(n).drop_last()) == 0);
    } else {
        lemma_decimal_value(n / 10);
        assert(decimal(n).drop_last() =~= decimal(n / 10));
    }
}

/// Zeros in front do not change what a run of digits stands for.
pub proof fn lemma_leading_zeros(k: nat, digits: Seq<char>)
    ensures
        decimal_value(zeros(k) + digits) == decimal_value(digits),
    decreases digits.len(), k,
{
    if digits.len() == 0 {
        assert(zeros(k) + digits =~= zeros(k));
        if k > 0 {
            assert(zeros(k).drop_last() =~= zeros((k - 1) as nat));
            lemma_leading_zeros((k - 1) as nat, digits);
            assert(zeros((k - 1) as nat) + digits =~= zeros((k - 1) as nat));
        }
    } else {
        lemma_leading_zeros(k, digits.drop_last());
        assert((zeros(k) + digits).drop_last() =~= zeros(k) + digits.drop_last());
    }
}

/// Two numbers with the same padded digits are the same number.
pub proof fn lemma_padded_injective(a: nat, b: nat, width: nat)
    requires
        padded(a, width) == padded(b, width),
    ensures
        a == b,
{
    lemma_decimal_value(a);
    lemma_decimal_value(b);
    if decimal(a).len() < width {
        lemma_leading_zeros((width - decimal(a).len()) as nat, decimal(a));
    }
    if decimal(b).len() < width {
        lemma_leading_zeros((width - decimal(b).len()) as nat, decimal(b));
    }
}

/// No digit of a number is a dollar sign, and no zero put before them.
pub proof fn lemma_padded_is_dollar_free(n: nat, width: nat)
    ensures
        dollar_free(decimal(n)),
        dollar_free(padded(n, width)),
    decreases n,
{
    if n >= 10 {
        lemma_padded_is_dollar_free(n / 10, 0);
        assert forall|i: int| 0 <= i < decimal(n).len() implies decimal(n)[i] != '$' by {
            if i < decimal(n / 10).len() {
                assert(decimal(n)[i] == decimal(n / 10)[i]);
            }
        }
    }
    assert forall|i: int| 0 <= i < padded(n, width).len() implies padded(n, width)[i] != '$' by {
        if decimal(n).len() < width {
            let k = width - decimal(n).len();
            if i >= k {
                assert(padded(n, width)[i] == decimal(n)[i - k]);
            }
        }
    }
}

} // verus!
