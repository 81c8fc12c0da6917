use vstd::prelude::*;
use vstd::string::StringExecFns;

verus! {

/// The decimal digit character for `d` (0 through 9).
pub open spec fn digit_char(d: nat) -> char {
    if d == 0 {
        '0'
    } else if d == 1 {
        '1'
    } else if d == 2 {
        '2'
    } else if d == 3 {
        '3'
    } else if d == 4 {
        '4'
    } else if d == 5 {
        '5'
    } else if d == 6 {
        '6'
    } else if d == 7 {
        '7'
    } else if d == 8 {
        '8'
    } else {
        '9'
    }
}

/// The decimal digits of `n`, most significant first, with no leading zeros
/// (a single '0' for zero).
pub open spec fn spec_dec(n: nat) -> Seq<char>
    decreases n,
{
    if n < 10 {
        seq![digit_char(n)]
    } else {
        spec_dec(n / 10).push(digit_char(n % 10))
    }
}

/// `n` in decimal, left-padded with '0' to at least `w` characters.
pub open spec fn spec_dec_pad(n: nat, w: nat) -> Seq<char> {
    if spec_dec(n).len() >= w {
        spec_dec(n)
    } else {
        Seq::new((w - spec_dec(n).len()) as nat, |i: int| '0') + spec_dec(n)
    }
}

/// `n` in decimal, with a leading '-' when negative.
pub open spec fn spec_dec_i64(n: int) -> Seq<char> {
    if n < 0 {
        seq!['-'] + spec_dec((-n) as nat)
    } else {
        spec_dec(n as nat)
    }
}

fn digit_str(d: u64) -> (s: &'static str)
    requires
        d < 10,
    ensures
        s@ == seq![digit_char(d as nat)],
{
    proof {
        reveal_strlit("0");
        reveal_strlit("1");
        reveal_strlit("2");
        reveal_strlit("3");
        reveal_strlit("4");
        reveal_strlit("5");
        reveal_strlit("6");
        reveal_strlit("7");
        reveal_strlit("8");
        reveal_strlit("9");
    }
    let s = match d {
        0u64 => "0",
        1u64 => "1",
        2u64 => "2",
        3u64 => "3",
        4u64 => "4",
        5u64 => "5",
        6u64 => "6",
        7u64 => "7",
        8u64 => "8",
        _ => "9",
    };
    proof {
        assert(s@ =~= seq![digit_char(d as nat)]);
    }
    s
}

/// `n` rendered as decimal text.
pub fn u64_to_dec(n: u64) -> (s: String)
    ensures
        s@ == spec_dec(n as nat),
    decreases n,
{
    if n < 10 {
        String::from_str(digit_str(n))
    } else {
        let mut s = u64_to_dec(n / 10);
        s.append(digit_str(n % 10));
        proof {
            assert(s@ =~= spec_dec((n / 10) as nat).push(digit_char((n % 10) as nat)));
        }
        s
    }
}

proof fn lemma_dec_len_ranges(n: nat)
    ensures
        n < 10 ==> spec_dec(n).len() == 1,
        10 <= n < 100 ==> spec_dec(n).len() == 2,
        100 <= n < 1000 ==> spec_dec(n).len() == 3,
        1000 <= n < 10000 ==> spec_dec(n).len() == 4,
        10000 <= n < 100000 ==> spec_dec(n).len() == 5,
        100000 <= n < 1000000 ==> spec_dec(n).len() == 6,
        1000000 <= n < 10000000 ==> spec_dec(n).len() == 7,
        10000000 <= n ==> spec_dec(n).len() >= 8,
    decreases n,
{
    if n >= 10 {
        lemma_dec_len_ranges(n / 10);
    }
}

/// `n` rendered as decimal text, zero-padded on the left to at least eight
/// characters, as the canonical sensor id requires.
pub fn u64_to_dec_pad8(n: u64) -> (s: String)
    ensures
        s@ == spec_dec_pad(n as nat, 8),
{
    proof {
        lemma_dec_len_ranges(n as nat);
        reveal_strlit("0");
        reveal_strlit("00");
        reveal_strlit("000");
        reveal_strlit("0000");
        reveal_strlit("00000");
        reveal_strlit("000000");
        reveal_strlit("0000000");
    }
    let mut s: String = if n < 10 {
        String::from_str("0000000")
    } else if n < 100 {
        String::from_str("000000")
    } else if n < 1000 {
        String::from_str("00000")
    } else if n < 10000 {
        String::from_str("0000")
    } else if n < 100000 {
        String::from_str("000")
    } else if n < 1000000 {
        String::from_str("00")
    } else if n < 10000000 {
        String::from_str("0")
    } else {
        String::new()
    };
    proof {
        let z = (8 - spec_dec(n as nat).len()) as nat;
        if n < 10000000 {
            assert(s@ =~= Seq::new(z, |i: int| '0'));
        }
    }
    let digits = u64_to_dec(n);
    s.append(digits.as_str());
    proof {
        if n >= 10000000 {
            assert(s@ =~= spec_dec(n as nat));
        }
    }
    s
}

/// `n` rendered as decimal text, with a leading '-' when negative.
pub fn i64_to_dec(n: i64) -> (s: String)
    ensures
        s@ == spec_dec_i64(n as int),
{
    if n >= 0 {
        u64_to_dec(n as u64)
    } else {
        let mag: u64 = ((-(n + 1)) as u64) + 1;
        proof {
            reveal_strlit("-");
            assert(mag == -(n as int));
        }
        let mut s = String::from_str("-");
        proof {
            assert(s@ =~= seq!['-']);
        }
        let digits = u64_to_dec(mag);
        s.append(digits.as_str());
        s
    }
}

} // verus!
