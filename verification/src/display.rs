//! Text for showing clock readings and skew settings.
use vstd::prelude::*;

verus! {

/// The character of the decimal digit `d`.
pub open spec fn digit_char(d: nat) -> char {
    (48 + d) as char
}

/// The decimal digits of `n`, most significant first, with no leading zeros.
pub open spec fn decimal(n: nat) -> Seq<char>
    decreases n,
{
    if n < 10 {
        seq![digit_char(n)]
    } else {
        decimal(n / 10).push(digit_char(n % 10))
    }
}

/// The decimal digits of `n`, with zeros in front up to `width` characters,
/// as `format!("{:0width$}", n)` writes them.
pub open spec fn zero_padded(n: nat, width: nat) -> Seq<char> {
    if decimal(n).len() < width {
        Seq::new((width - decimal(n).len()) as nat, |_i: int| '0') + decimal(n)
    } else {
        decimal(n)
    }
}

/// `num` with its sign in front and at least two digits: `format!("{}{:02}", sign, num.abs())`.
pub open spec fn signed_text(num: int) -> Seq<char> {
    if num >= 0 {
        seq!['+'] + zero_padded(num as nat, 2)
    } else {
        seq!['-'] + zero_padded((-num) as nat, 2)
    }
}

/// A clock reading as `format!(" {:02} : {:02} : {:02} . {:03} ", h, m, s, ms)` writes it.
pub open spec fn reading_text(hours: nat, minutes: nat, seconds: nat, milliseconds: nat) -> Seq<char> {
    seq![' '] + zero_padded(hours, 2) + seq![' ', ':', ' '] + zero_padded(minutes, 2) + seq![
        ' ',
        ':',
        ' ',
    ] + zero_padded(seconds, 2) + seq![' ', '.', ' '] + zero_padded(milliseconds, 3) + seq![' ']
}

/// The value of the decimal digit character `c`.
pub open spec fn digit_value(c: char) -> int {
    c as int - 48
}

/// Whether `s` is a decimal numeral: one or more of the digits `0` to `9`.
pub open spec fn is_numeral(s: Seq<char>) -> bool {
    s.len() > 0 && forall|i: int| 0 <= i < s.len() ==> 48 <= #[trigger] (s[i] as int) <= 57
}

/// The number the decimal digits `s` write, most significant first.
pub open spec fn numeral_value(s: Seq<char>) -> int
    decreases s.len(),
{
    if s.len() == 0 {
        0
    } else {
        numeral_value(s.drop_last()) * 10 + digit_value(s.last())
    }
}

/// The number a text with a sign (`+` or `-`) in front of a decimal numeral reads as,
/// or `None` where the text is not of that form.
pub open spec fn read_signed(s: Seq<char>) -> Option<int> {
    if s.len() >= 1 && (s[0] == '+' || s[0] == '-') && is_numeral(s.skip(1)) {
        if s[0] == '+' {
            Some(numeral_value(s.skip(1)))
        } else {
            Some(-numeral_value(s.skip(1)))
        }
    } else {
        None
    }
}

proof fn lemma_decimal_numeral(n: nat)
    ensures
        is_numeral(decimal(n)),
        numeral_value(decimal(n)) == n,
    decreases n,
{
    lemma_decimal_len(n);
    let d = decimal(n);
    assert(digit_char(n % 10) as int == 48 + n % 10);
    assert(d.last() == digit_char(n % 10));
    if n < 10 {
        assert(d.drop_last() =~= Seq::<char>::empty());
        assert(d[0] as int == 48 + n);
        assert forall|i: int| 0 <= i < d.len() implies 48 <= #[trigger] (d[i] as int) <= 57 by {
            assert(i == 0);
        }
        assert(numeral_value(d) == numeral_value(d.drop_last()) * 10 + digit_value(d.last()));
    } else {
        lemma_decimal_numeral(n / 10);
        assert(d.drop_last() =~= decimal(n / 10));
        assert forall|i: int| 0 <= i < d.len() implies 48 <= #[trigger] (d[i] as int) <= 57 by {
            if i < d.len() - 1 {
                assert(d[i] == decimal(n / 10)[i]);
            }
        }
    }
}

proof fn lemma_zeros_value(z: nat)
    ensures
        numeral_value(Seq::new(z, |_i: int| '0')) == 0,
    decreases z,
{
    if z > 0 {
        lemma_zeros_value((z - 1) as nat);
        assert(Seq::new(z, |_i: int| '0').drop_last() =~= Seq::new((z - 1) as nat, |_i: int| '0'));
    }
}

proof fn lemma_leading_zeros(z: nat, ds: Seq<char>)
    ensures
        numeral_value(Seq::new(z, |_i: int| '0') + ds) == numeral_value(ds),
    decreases ds.len(),
{
    let zs = Seq::new(z, |_i: int| '0');
    if ds.len() == 0 {
        assert(zs + ds =~= zs);
        lemma_zeros_value(z);
    } else {
        lemma_leading_zeros(z, ds.drop_last());
        assert((zs + ds).drop_last() =~= zs + ds.drop_last());
        assert((zs + ds).last() == ds.last());
    }
}

proof fn lemma_zero_padded_numeral(n: nat, width: nat)
    ensures
        is_numeral(zero_padded(n, width)),
        numeral_value(zero_padded(n, width)) == n,
{
    lemma_decimal_numeral(n);
    if decimal(n).len() < width {
        let zs = Seq::new((width - decimal(n).len()) as nat, |_i: int| '0');
        lemma_leading_zeros((width - decimal(n).len()) as nat, decimal(n));
        let p = zero_padded(n, width);
        assert forall|i: int| 0 <= i < p.len() implies 48 <= #[trigger] (p[i] as int) <= 57 by {
            if i >= zs.len() {
                assert(p[i] == decimal(n)[i - zs.len()]);
            }
        }
    }
}

/// The text `format_with_sign` writes reads back as the number it was given.
pub proof fn lemma_signed_text_reads_back(num: int)
    ensures
        read_signed(signed_text(num)) == Some(num),
{
    let n: nat = if num >= 0 { num as nat } else { (-num) as nat };
    lemma_zero_padded_numeral(n, 2);
    let sign = if num >= 0 { '+' } else { '-' };
    assert(signed_text(num) =~= seq![sign] + zero_padded(n, 2));
    assert(signed_text(num).skip(1) =~= zero_padded(n, 2));
}

/// std's `String::push`: appends the character to the string.
#[verifier::external_body]
fn push_char(s: &mut String, c: char)
    ensures
        final(s)@ == old(s)@.push(c),
{
    s.push(c);
}

proof fn lemma_decimal_len(n: nat)
    ensures
        decimal(n).len() >= 1,
        n < 10 ==> decimal(n).len() == 1,
        n >= 10 ==> decimal(n).len() == decimal(n / 10).len() + 1,
    decreases n,
{
    if n >= 10 {
        lemma_decimal_len(n / 10);
    }
}

spec fn pow10(k: nat) -> nat
    decreases k,
{
    if k == 0 {
        1
    } else {
        10 * pow10((k - 1) as nat)
    }
}

proof fn lemma_decimal_len_bound(n: nat, k: nat)
    requires
        n < pow10(k),
        k >= 1,
    ensures
        decimal(n).len() <= k,
    decreases n,
{
    lemma_decimal_len(n);
    if n >= 10 {
        assert(pow10(1) == 10) by {
            reveal_with_fuel(pow10, 2);
        }
        assert(k >= 2);
        assert(pow10(k) == 10 * pow10((k - 1) as nat));
        lemma_decimal_len_bound(n / 10, (k - 1) as nat);
    }
}

fn digit(d: u64) -> (c: char)
    requires
        d < 10,
    ensures
        c == digit_char(d as nat),
{
    ((d as u8) + 48) as char
}

/// Appends the decimal digits of `n`.
fn push_decimal(s: &mut String, n: u64)
    ensures
        final(s)@ == old(s)@ + decimal(n as nat),
    decreases n,
{
    if n >= 10 {
        push_decimal(s, n / 10);
        push_char(s, digit(n % 10));
        proof {
            assert(final(s)@ =~= old(s)@ + decimal(n as nat));
        }
    } else {
        push_char(s, digit(n));
        proof {
            assert(final(s)@ =~= old(s)@ + decimal(n as nat));
        }
    }
}

/// The number of decimal digits of `n`.
fn decimal_len(n: u64) -> (len: usize)
    ensures
        len == decimal(n as nat).len(),
        1 <= len <= 20,
    decreases n,
{
    proof {
        lemma_decimal_len(n as nat);
        reveal_with_fuel(pow10, 21);
        assert(pow10(19) == 10_000_000_000_000_000_000nat);
        if n >= 10 {
            lemma_decimal_len_bound((n / 10) as nat, 19);
        }
    }
    if n >= 10 {
        let len = decimal_len(n / 10);
        len + 1
    } else {
        1
    }
}

/// Appends the decimal digits of `n`, with zeros in front up to `width` characters.
fn push_padded(s: &mut String, n: u64, width: usize)
    ensures
        final(s)@ == old(s)@ + zero_padded(n as nat, width as nat),
{
    let len = decimal_len(n);
    let ghost start = s@;
    let mut i: usize = len;
    while i < width
        invariant
            len <= i,
            len < width ==> i <= width,
            len >= width ==> i == len,
            len == decimal(n as nat).len(),
            s@ == start + Seq::new((i - len) as nat, |_j: int| '0'),
        decreases width - i,
    {
        push_char(s, '0');
        i = i + 1;
        proof {
            assert(s@ =~= start + Seq::new((i - len) as nat, |_j: int| '0'));
        }
    }
    push_decimal(s, n);
    proof {
        if len < width {
            assert(s@ =~= start + zero_padded(n as nat, width as nat));
        } else {
            assert(Seq::new((i - len) as nat, |_j: int| '0') =~= Seq::<char>::empty());
            assert(s@ =~= start + zero_padded(n as nat, width as nat));
        }
    }
}

/// `num` with its sign in front (`+` for zero and above) and at least two digits,
/// as the skew settings are shown: `+05`, `-30`.
pub fn format_with_sign(num: i64) -> (text: String)
    requires
        num != i64::MIN,
    ensures
        text@ == signed_text(num as int),
{
    let mut text = String::new();
    if num >= 0 {
        push_char(&mut text, '+');
        push_padded(&mut text, num as u64, 2);
    } else {
        push_char(&mut text, '-');
        push_padded(&mut text, (-num) as u64, 2);
    }
    proof {
        assert(text@ =~= signed_text(num as int));
    }
    text
}

/// A clock reading as the clock table shows it: ` hh : mm : ss . mmm `.
pub fn format_reading(hours: u32, minutes: u32, seconds: u32, milliseconds: u32) -> (text: String)
    ensures
        text@ == reading_text(hours as nat, minutes as nat, seconds as nat, milliseconds as nat),
{
    let mut text = String::new();
    push_char(&mut text, ' ');
    push_padded(&mut text, hours as u64, 2);
    push_char(&mut text, ' ');
    push_char(&mut text, ':');
    push_char(&mut text, ' ');
    push_padded(&mut text, minutes as u64, 2);
    push_char(&mut text, ' ');
    push_char(&mut text, ':');
    push_char(&mut text, ' ');
    push_padded(&mut text, seconds as u64, 2);
    push_char(&mut text, ' ');
    push_char(&mut text, '.');
    push_char(&mut text, ' ');
    push_padded(&mut text, milliseconds as u64, 3);
    push_char(&mut text, ' ');
    proof {
        assert(text@ =~= reading_text(hours as nat, minutes as nat, seconds as nat, milliseconds as nat));
    }
    text
}

} // verus!
