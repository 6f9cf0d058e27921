//! Text building blocks: decimal numerals and the names of months and weekdays.

use vstd::prelude::*;

verus! {

/// The character of a decimal digit.
pub open spec fn digit_char(d: int) -> char {
    if d == 0 { '0' }
    else if d == 1 { '1' }
    else if d == 2 { '2' }
    else if d == 3 { '3' }
    else if d == 4 { '4' }
    else if d == 5 { '5' }
    else if d == 6 { '6' }
    else if d == 7 { '7' }
    else if d == 8 { '8' }
    else { '9' }
}

/// The decimal numeral of a natural number, without leading zeros.
pub open spec fn digits(n: nat) -> Seq<char>
    decreases n,
{
    if n < 10 {
        seq![digit_char(n as int)]
    } else {
        digits(n / 10) + seq![digit_char((n % 10) as int)]
    }
}

/// The numeral that `Display` writes for an integer: a minus sign for negative values.
pub open spec fn decimal(n: int) -> Seq<char> {
    if n < 0 {
        seq!['-'] + digits((-n) as nat)
    } else {
        digits(n as nat)
    }
}

/// The numeral of a number below 100 padded with zeros to two digits.
pub open spec fn two_digits(n: nat) -> Seq<char> {
    seq![digit_char((n / 10) as int), digit_char((n % 10) as int)]
}

/// A numeral preceded by its sign, as the `+` flag of a format writes it.
pub open spec fn signed_decimal(n: int) -> Seq<char> {
    if n < 0 {
        seq!['-'] + digits((-n) as nat)
    } else {
        seq!['+'] + digits(n as nat)
    }
}

/// The English name of a month, numbered from 1 for January.
pub open spec fn month_name(m: int) -> Seq<char> {
    if m == 1 { "January"@ }
    else if m == 2 { "February"@ }
    else if m == 3 { "March"@ }
    else if m == 4 { "April"@ }
    else if m == 5 { "May"@ }
    else if m == 6 { "June"@ }
    else if m == 7 { "July"@ }
    else if m == 8 { "August"@ }
    else if m == 9 { "September"@ }
    else if m == 10 { "October"@ }
    else if m == 11 { "November"@ }
    else { "December"@ }
}

/// The English name of a weekday, counted in days from Monday.
pub open spec fn weekday_name(w: int) -> Seq<char> {
    if w == 0 { "Monday"@ }
    else if w == 1 { "Tuesday"@ }
    else if w == 2 { "Wednesday"@ }
    else if w == 3 { "Thursday"@ }
    else if w == 4 { "Friday"@ }
    else if w == 5 { "Saturday"@ }
    else { "Sunday"@ }
}

/// The number a string of decimal digits stands for, each character counting
/// for its code less that of `0`.
pub open spec fn numeral_value(s: Seq<char>) -> int
    decreases s.len(),
{
    if s.len() == 0 {
        0
    } else {
        numeral_value(s.drop_last()) * 10 + (s.last() as int - '0' as int)
    }
}

/// Each digit's character is `0` to `9`, in order of the digit.
pub proof fn lemma_digit_char_code(d: int)
    requires
        0 <= d < 10,
    ensures
        digit_char(d) as int == '0' as int + d,
{
}

/// The numeral of `n` is a string of digits that stands for `n`, with no
/// leading zero.
pub proof fn lemma_digits_value(n: nat)
    ensures
        numeral_value(digits(n)) == n,
        digits(n).len() >= 1,
        forall|i: int| 0 <= i < digits(n).len() ==> '0' <= #[trigger] digits(n)[i] <= '9',
        n >= 10 ==> digits(n)[0] != '0',
    decreases n,
{
    if n < 10 {
        lemma_digit_char_code(n as int);
        assert(digits(n).drop_last() =~= Seq::<char>::empty());
        assert(numeral_value(Seq::<char>::empty()) == 0);
        assert(digits(n).last() == digit_char(n as int));
    } else {
        lemma_digits_value(n / 10);
        lemma_digit_char_code((n % 10) as int);
        let s = digits(n);
        assert(s.drop_last() =~= digits(n / 10));
        assert(s.last() == digit_char((n % 10) as int));
        vstd::arithmetic::div_mod::lemma_fundamental_div_mod(n as int, 10);
        assert(numeral_value(s) == (n / 10) as int * 10 + (n % 10) as int);
        assert forall|i: int| 0 <= i < s.len() implies '0' <= #[trigger] s[i] <= '9' by {
            if i < s.len() - 1 {
                assert(s[i] == digits(n / 10)[i]);
            }
        }
        if n / 10 >= 10 {
            assert(s[0] == digits(n / 10)[0]);
        } else {
            lemma_digit_char_code((n / 10) as int);
            assert(s[0] == digit_char((n / 10) as int));
        }
    }
}

/// Numerals stand for their numbers: `decimal` writes a minus sign exactly
/// for negative numbers, `signed_decimal` a plus or minus sign, each followed
/// by the digits of the magnitude; `two_digits` writes a number below 100 as
/// exactly two digits.
pub proof fn lemma_numerals_stand_for_their_value(n: int)
    ensures
        (decimal(n)[0] == '-') <==> n < 0,
        numeral_value(if n < 0 { decimal(n).drop_first() } else { decimal(n) })
            == if n < 0 { -n } else { n },
        signed_decimal(n)[0] == if n < 0 { '-' } else { '+' },
        numeral_value(signed_decimal(n).drop_first()) == if n < 0 { -n } else { n },
        0 <= n < 100 ==> two_digits(n as nat).len() == 2 && numeral_value(two_digits(n as nat)) == n,
{
    let m: nat = if n < 0 { (-n) as nat } else { n as nat };
    lemma_digits_value(m);
    assert((seq!['-'] + digits(m)).drop_first() =~= digits(m));
    assert((seq!['+'] + digits(m)).drop_first() =~= digits(m));
    if n >= 0 {
        assert(digits(m)[0] != '-');
    }
    if 0 <= n < 100 {
        let t = two_digits(n as nat);
        lemma_digit_char_code(n / 10);
        lemma_digit_char_code(n % 10);
        assert(t.drop_last() =~= seq![digit_char(n / 10)]);
        assert(seq![digit_char(n / 10)].drop_last() =~= Seq::<char>::empty());
        assert(numeral_value(Seq::<char>::empty()) == 0);
        assert(numeral_value(seq![digit_char(n / 10)]) == n / 10);
        assert(t.last() == digit_char(n % 10));
        assert(numeral_value(t) == (n / 10) * 10 + n % 10);
        vstd::arithmetic::div_mod::lemma_fundamental_div_mod(n, 10);
    }
}

/// The one-character string of a decimal digit.
pub fn digit_str(d: u64) -> (s: &'static str)
    requires
        d < 10,
    ensures
        s@ == seq![digit_char(d as int)],
{
    proof {
        reveal_strlit("0");
        reveal_strlit("1");
        reveal_strlit("2");
        reveal_strlit("3");
        reveal_strlit("4");
        reveal_strlit("5");
        reveal_strlit("6");
        reveal_strlit("7");
        reveal_strlit("8");
        reveal_strlit("9");
    }
    match d {
        0 => "0",
        1 => "1",
        2 => "2",
        3 => "3",
        4 => "4",
        5 => "5",
        6 => "6",
        7 => "7",
        8 => "8",
        _ => "9",
    }
}

/// Appends the decimal numeral of `n` to `s`.
pub fn push_digits(s: &mut String, n: u64)
    ensures
        final(s)@ == old(s)@ + digits(n as nat),
    decreases n,
{
    if n >= 10 {
        push_digits(s, n / 10);
        s.append(digit_str(n % 10));
    } else {
        s.append(digit_str(n));
    }
}

/// The decimal numeral of a signed integer, as `Display` writes it.
pub fn decimal_text(n: i64) -> (s: String)
    ensures
        s@ == decimal(n as int),
{
    let mut s = String::new();
    if n < 0 {
        proof {
            reveal_strlit("-");
        }
        s.append("-");
        let magnitude: u64 = if n == i64::MIN {
            9_223_372_036_854_775_808u64
        } else {
            (-n) as u64
        };
        push_digits(&mut s, magnitude);
    } else {
        push_digits(&mut s, n as u64);
    }
    s
}

/// The numeral of `n` below 100, zero-padded to two digits.
pub fn two_digit_text(n: u8) -> (s: String)
    requires
        n < 100,
    ensures
        s@ == two_digits(n as nat),
{
    let mut s = String::new();
    s.append(digit_str((n / 10) as u64));
    s.append(digit_str((n % 10) as u64));
    s
}

/// The numeral of `n` preceded by `+` when it is not negative and by `-` when it is.
pub fn signed_decimal_text(n: i64) -> (s: String)
    ensures
        s@ == signed_decimal(n as int),
{
    if n < 0 {
        decimal_text(n)
    } else {
        proof {
            reveal_strlit("+");
        }
        let mut s = String::from_str("+");
        push_digits(&mut s, n as u64);
        s
    }
}

/// The English name of month `m` (1 is January).
pub fn month_name_str(m: u8) -> (s: &'static str)
    requires
        1 <= m <= 12,
    ensures
        s@ == month_name(m as int),
{
    match m {
        1 => "January",
        2 => "February",
        3 => "March",
        4 => "April",
        5 => "May",
        6 => "June",
        7 => "July",
        8 => "August",
        9 => "September",
        10 => "October",
        11 => "November",
        _ => "December",
    }
}

/// The English name of the weekday `w` days after Monday.
pub fn weekday_name_str(w: u8) -> (s: &'static str)
    requires
        w < 7,
    ensures
        s@ == weekday_name(w as int),
{
    match w {
        0 => "Monday",
        1 => "Tuesday",
        2 => "Wednesday",
        3 => "Thursday",
        4 => "Friday",
        5 => "Saturday",
        _ => "Sunday",
    }
}

} // verus!
