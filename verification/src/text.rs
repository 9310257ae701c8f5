//! The text forms that the printable types use: numbers in decimal, and
//! byte lists as `[1, 2, 3]`.
use vstd::prelude::*;
use vstd::string::StringExecFns;

verus! {

/// The decimal digit `d` as text.
pub open spec fn spec_digit(d: nat) -> Seq<char> {
    if d == 0 {
        "0"@
    } else if d == 1 {
        "1"@
    } else if d == 2 {
        "2"@
    } else if d == 3 {
        "3"@
    } else if d == 4 {
        "4"@
    } else if d == 5 {
        "5"@
    } else if d == 6 {
        "6"@
    } else if d == 7 {
        "7"@
    } else if d == 8 {
        "8"@
    } else {
        "9"@
    }
}

/// `n` in decimal, without leading zeros.
pub open spec fn spec_decimal(n: nat) -> Seq<char>
    decreases n,
{
    if n < 10 {
        spec_digit(n)
    } else {
        spec_decimal(n / 10) + spec_digit(n % 10)
    }
}

/// The numbers of `s` in decimal, separated by `", "`.
pub open spec fn spec_joined_decimals(s: Seq<u8>) -> Seq<char>
    decreases s.len(),
{
    if s.len() == 0 {
        Seq::empty()
    } else if s.len() == 1 {
        spec_decimal(s[0] as nat)
    } else {
        spec_joined_decimals(s.drop_last()) + ", "@ + spec_decimal(s.last() as nat)
    }
}

/// The bytes of `s` as a list: `[`, the numbers in decimal separated by
/// `", "`, and `]`.
pub open spec fn spec_byte_list(s: Seq<u8>) -> Seq<char> {
    "["@ + spec_joined_decimals(s) + "]"@
}

fn append_digit(s: &mut String, d: u64)
    requires
        d < 10,
    ensures
        final(s)@ == old(s)@ + spec_digit(d as nat),
{
    if d == 0 {
        s.append("0");
    } else if d == 1 {
        s.append("1");
    } else if d == 2 {
        s.append("2");
    } else if d == 3 {
        s.append("3");
    } else if d == 4 {
        s.append("4");
    } else if d == 5 {
        s.append("5");
    } else if d == 6 {
        s.append("6");
    } else if d == 7 {
        s.append("7");
    } else if d == 8 {
        s.append("8");
    } else {
        s.append("9");
    }
}

/// Appends `n` in decimal to `s`.
pub fn append_decimal(s: &mut String, n: u64)
    ensures
        final(s)@ == old(s)@ + spec_decimal(n as nat),
    decreases n,
{
    if n < 10 {
        append_digit(s, n);
    } else {
        let ghost start = s@;
        append_decimal(s, n / 10);
        append_digit(s, n % 10);
        assert(s@ =~= start + spec_decimal(n as nat));
    }
}

/// Appends the bytes of `b` as a list, `[1, 2, 3]`, to `s`.
pub fn append_byte_list(s: &mut String, b: &[u8])
    ensures
        final(s)@ == old(s)@ + spec_byte_list(b@),
{
    let ghost start = s@;
    s.append("[");
    let mut i: usize = 0;
    while i < b.len()
        invariant
            i <= b@.len(),
            s@ == start + "["@ + spec_joined_decimals(b@.subrange(0, i as int)),
        decreases b@.len() - i,
    {
        let ghost before = s@;
        if i > 0 {
            s.append(", ");
        }
        append_decimal(s, b[i] as u64);
        proof {
            let p = b@.subrange(0, i + 1);
            assert(p.drop_last() =~= b@.subrange(0, i as int));
            if i == 0 {
                assert(b@.subrange(0, 0) =~= Seq::<u8>::empty());
                assert(s@ =~= start + "["@ + spec_joined_decimals(p));
            } else {
                assert(s@ =~= start + "["@ + spec_joined_decimals(p));
            }
        }
        i = i + 1;
    }
    assert(b@.subrange(0, i as int) =~= b@);
    s.append("]");
    assert(s@ =~= start + spec_byte_list(b@));
}

/// The value of a decimal digit character (0 for any other character).
pub open spec fn spec_char_digit_value(c: char) -> nat {
    if c == '1' {
        1
    } else if c == '2' {
        2
    } else if c == '3' {
        3
    } else if c == '4' {
        4
    } else if c == '5' {
        5
    } else if c == '6' {
        6
    } else if c == '7' {
        7
    } else if c == '8' {
        8
    } else if c == '9' {
        9
    } else {
        0
    }
}

/// The decimal digit `d` is one character, a digit of that value, and no
/// dot.
pub proof fn lemma_digit_char(d: nat)
    requires
        d < 10,
    ensures
        spec_digit(d).len() == 1,
        spec_char_digit_value(spec_digit(d)[0]) == d,
        spec_digit(d)[0] != '.',
{
    reveal_strlit("0");
    reveal_strlit("1");
    reveal_strlit("2");
    reveal_strlit("3");
    reveal_strlit("4");
    reveal_strlit("5");
    reveal_strlit("6");
    reveal_strlit("7");
    reveal_strlit("8");
    reveal_strlit("9");
}

/// The number that decimal text stands for, read from the left.
pub open spec fn spec_decimal_value(s: Seq<char>) -> nat
    decreases s.len(),
{
    if s.len() == 0 {
        0
    } else {
        spec_decimal_value(s.drop_last()) * 10 + spec_char_digit_value(s.last())
    }
}

/// A number written in decimal reads back as itself, and its text is
/// never empty.
pub proof fn lemma_decimal_reads_back(n: nat)
    ensures
        spec_decimal_value(spec_decimal(n)) == n,
        spec_decimal(n).len() > 0,
    decreases n,
{
    if n < 10 {
        lemma_digit_char(n);
        assert(spec_decimal(n).drop_last() =~= Seq::<char>::empty());
        assert(spec_decimal_value(Seq::<char>::empty()) == 0);
        assert(spec_decimal(n).last() == spec_digit(n)[0]);
    } else {
        lemma_digit_char(n % 10);
        lemma_decimal_reads_back(n / 10);
        let s = spec_decimal(n);
        assert(s.drop_last() =~= spec_decimal(n / 10));
        assert(s.last() == spec_digit(n % 10)[0]);
        assert((n / 10) * 10 + n % 10 == n);
    }
}

} // verus!
