use vstd::prelude::*;

verus! {

/// The character of decimal digit `d`.
pub open spec fn digit_char(d: int) -> char {
    if d == 0 {
        '0'
    } else if d == 1 {
        '1'
    } else if d == 2 {
        '2'
    } else if d == 3 {
        '3'
    } else if d == 4 {
        '4'
    } else if d == 5 {
        '5'
    } else if d == 6 {
        '6'
    } else if d == 7 {
        '7'
    } else if d == 8 {
        '8'
    } else {
        '9'
    }
}

/// `n` written in decimal, most significant digit first, without leading zeros.
pub open spec fn decimal_chars(n: nat) -> Seq<char>
    decreases n,
{
    if n < 10 {
        seq![digit_char(n as int)]
    } else {
        decimal_chars(n / 10).push(digit_char((n % 10) as int))
    }
}

/// The value of a decimal digit character, or -1 for any other character.
pub open spec fn digit_value(c: char) -> int {
    if '0' <= c && c <= '9' {
        c as int - '0' as int
    } else {
        -1
    }
}

/// The number the digits `s` stand for, read in base 10, most significant first.
pub open spec fn decimal_value(s: Seq<char>) -> int
    decreases s.len(),
{
    if s.len() == 0 {
        0
    } else {
        decimal_value(s.drop_last()) * 10 + digit_value(s.last())
    }
}

/// The decimal text of `n` is made of digits only, has no leading zero unless it is "0",
/// and read back in base 10 gives `n`.
pub proof fn lemma_decimal_reads_back(n: nat)
    ensures
        decimal_chars(n).len() >= 1,
        forall|i: int|
            0 <= i < decimal_chars(n).len() ==> 0 <= #[trigger] digit_value(decimal_chars(n)[i])
                <= 9,
        decimal_chars(n)[0] == '0' ==> n == 0,
        decimal_value(decimal_chars(n)) == n,
    decreases n,
{
    if n >= 10 {
        lemma_decimal_reads_back(n / 10);
        let prefix = decimal_chars(n / 10);
        let d = digit_char((n % 10) as int);
        assert(decimal_chars(n) == prefix.push(d));
        assert(prefix.push(d).drop_last() == prefix);
        assert(digit_value(d) == n % 10);
        assert forall|i: int|
            0 <= i < decimal_chars(n).len() implies 0 <= #[trigger] digit_value(
            decimal_chars(n)[i],
        ) <= 9 by {
            if i < prefix.len() {
                assert(decimal_chars(n)[i] == prefix[i]);
            }
        }
        assert(decimal_chars(n)[0] == prefix[0]);
        assert(prefix.push(d).last() == d);
        assert(decimal_value(prefix.push(d)) == decimal_value(prefix) * 10 + digit_value(d));
        assert(n == (n / 10) * 10 + n % 10);
    } else {
        let single = seq![digit_char(n as int)];
        assert(single.drop_last() == Seq::<char>::empty());
        assert(digit_value(digit_char(n as int)) == n);
        assert(decimal_value(single) == decimal_value(Seq::<char>::empty()) * 10 + digit_value(
            single.last(),
        ));
    }
}

/// The one-character text of digit `d`.
fn digit_str(d: u64) -> (r: &'static str)
    requires
        d < 10,
    ensures
        r@ == seq![digit_char(d as int)],
{
    proof {
        reveal_strlit("0");
        reveal_strlit("1");
        reveal_strlit("2");
        reveal_strlit("3");
        reveal_strlit("4");
        reveal_strlit("5");
        reveal_strlit("6");
        reveal_strlit("7");
        reveal_strlit("8");
        reveal_strlit("9");
    }
    match d {
        0 => "0",
        1 => "1",
        2 => "2",
        3 => "3",
        4 => "4",
        5 => "5",
        6 => "6",
        7 => "7",
        8 => "8",
        _ => "9",
    }
}

/// `n` in decimal, as the display shows numbers.
pub fn decimal(n: u64) -> (r: String)
    ensures
        r@ == decimal_chars(n as nat),
        r@.len() >= 1,
        forall|i: int| 0 <= i < r@.len() ==> 0 <= #[trigger] digit_value(r@[i]) <= 9,
        r@[0] == '0' ==> n == 0,
        decimal_value(r@) == n,
    decreases n,
{
    if n < 10 {
        proof {
            lemma_decimal_reads_back(n as nat);
        }
        String::from_str(digit_str(n))
    } else {
        let mut r = decimal(n / 10);
        r.append(digit_str(n % 10));
        proof {
            lemma_decimal_reads_back(n as nat);
        }
        r
    }
}

} // verus!
